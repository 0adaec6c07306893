//! The `#EXT-X-RENDITION-REPORT` tag.

use vstd::prelude::*;
use vstd::string::StringSliceAdditionalSpecFns;
use vstd::utf8::*;
use core::marker::PhantomData;

use crate::error::{UnknownTagSyntaxError, UnrecognizedEnumerationError, ValidationError};
use crate::tag::hls::enumerated_string::{
    reads_as_text, AsStaticCow, EnumeratedString, EnumeratedValue,
};
use crate::tag::hls::{
    lemma_attribute_list_text_kind,
    typed_attribute_list_of, typed_attribute_list_spec, comma_integer, comma_quoted, comma_unquoted,
    copy_opt, drop_integer, drop_text, get_integer, get_quoted, get_unquoted_str, integer_attr,
    line_start, opt_encode, opt_string, opt_text, push_comma_integer, push_comma_quoted,
    push_comma_unquoted_str, push_integer_attribute, push_quoted_attribute,
    push_unquoted_attribute, quoted_attr, quoted_attribute, start_line, unquoted_attribute,
    utf8_attr, value_bytes, without_text, TagName, entries_ok,
    lemma_attribute_list_text_free_of_line_feed, lemma_dec_unquoted_ok, lemma_entries_ok_one,
    lemma_entries_ok_push, lemma_line_after_ext, lemma_lookup_push, lemma_push_integer_opt_text,
    lemma_push_quoted_opt_text, lemma_push_unquoted_opt_text, lemma_tag_name_plain,
    push_integer_opt, push_quoted_opt, push_unquoted_opt, quoted_value_ok, tag_name_text,
    unquoted_value_ok,
};
use crate::tag::known::{IntoInnerTag, TagInner};
use crate::tag::unknown;
use crate::tag::value::{
    AttributeListView, attribute_list_text, lemma_attribute_list_reads_back,
    lemma_attribute_list_text_push, attribute_text, AttributeValueView,
};
use crate::utils::{dec, str_eq, string_from};

verus! {


/// The attributes of the `#EXT-X-RENDITION-REPORT` tag.
pub struct RenditionReportAttributes {
    /// The value of the `URI` attribute.
    pub uri: Seq<char>,
    /// The value of the `LAST-MSN` attribute.
    pub last_msn: u64,
    /// The value of the `LAST-PART` attribute.
    pub last_part: Option<u64>,
}

/// The line of the `#EXT-X-RENDITION-REPORT` tag with the attributes `m`: the required attributes,
/// then each optional attribute that is present, in a fixed order.
pub open spec fn rendition_report_line(m: RenditionReportAttributes) -> Seq<u8> {
    line_start(TagName::RenditionReport) + seq![58u8] + quoted_attribute("URI"@, m.uri)
        + seq![44u8] + unquoted_attribute("LAST-MSN"@, dec(m.last_msn as nat))
        + comma_integer("LAST-PART"@, m.last_part)
}

/// The attributes that a changed tag writes: an optional attribute that holds its default value
/// is left out.
pub open spec fn rendition_report_written(m: RenditionReportAttributes) -> RenditionReportAttributes {
    m
}

/// The attributes that an attribute list gives the `#EXT-X-RENDITION-REPORT` tag: each required
/// attribute must be present and of its kind; an optional attribute of the wrong kind is taken as
/// absent.
pub open spec fn rendition_report_spec(list: AttributeListView) -> Result<RenditionReportAttributes, ValidationError> {
    match quoted_attr(list, "URI"@) {
        Some(uri) => 
            match integer_attr(list, "LAST-MSN"@) {
                Some(last_msn) => 
                    Ok(RenditionReportAttributes {
                        uri,
                        last_msn,
                        last_part: integer_attr(list, "LAST-PART"@),
                    }),
                None => Err(ValidationError::MissingRequiredAttribute("LAST-MSN")),
            },
        None => Err(ValidationError::MissingRequiredAttribute("URI")),
    }
}

/// The attributes that a tag value gives the `#EXT-X-RENDITION-REPORT` tag.
pub open spec fn rendition_report_value_spec(value: Option<Seq<u8>>) -> Result<RenditionReportAttributes, ValidationError> {
    match typed_attribute_list_spec(value) {
        Ok(list) => rendition_report_spec(list),
        Err(e) => Err(e),
    }
}

/// The attributes of the `#EXT-X-RENDITION-REPORT` tag, as values.
#[derive(Debug)]
struct RenditionReportAttributeList {
    /// The value of the `URI` attribute.
    uri: String,
    /// The value of the `LAST-MSN` attribute.
    last_msn: u64,
    /// The value of the `LAST-PART` attribute.
    last_part: Option<u64>,
}

impl RenditionReportAttributeList {
    /// The attributes.
    closed spec fn view(&self) -> RenditionReportAttributes {
        RenditionReportAttributes {
            uri: self.uri@,
            last_msn: self.last_msn,
            last_part: self.last_part,
        }
    }
}

fn calculate_line(a: &RenditionReportAttributeList) -> (r: Vec<u8>)
    ensures
        r@ == rendition_report_line(a.view()),
{
    let mut line = start_line(TagName::RenditionReport);
    line.push(58u8);
    push_quoted_attribute(&mut line, "URI", a.uri.as_str());
    line.push(44u8);
    push_integer_attribute(&mut line, "LAST-MSN", a.last_msn);
    push_comma_integer(&mut line, "LAST-PART", a.last_part);
    proof {
        assert(line@ =~= rendition_report_line(a.view()));
    }
    line
}

/// Placeholder struct for [`RenditionReportBuilder`] indicating that `uri` needs to be set.
#[derive(Debug, Clone, Copy)]
pub struct RenditionReportUriNeedsToBeSet;

/// Placeholder struct for [`RenditionReportBuilder`] indicating that `uri` has been set.
#[derive(Debug, Clone, Copy)]
pub struct RenditionReportUriHasBeenSet;

/// Placeholder struct for [`RenditionReportBuilder`] indicating that `last_msn` needs to be set.
#[derive(Debug, Clone, Copy)]
pub struct RenditionReportLastMsnNeedsToBeSet;

/// Placeholder struct for [`RenditionReportBuilder`] indicating that `last_msn` has been set.
#[derive(Debug, Clone, Copy)]
pub struct RenditionReportLastMsnHasBeenSet;

/// A builder for convenience in constructing a [`RenditionReport`]; `finish` is only available once
/// the required attributes have been set.
#[derive(Debug)]
pub struct RenditionReportBuilder<UriStatus, LastMsnStatus> {
    attribute_list: RenditionReportAttributeList,
    uristatus: PhantomData<UriStatus>,
    lastmsnstatus: PhantomData<LastMsnStatus>,
}

impl RenditionReportBuilder<RenditionReportUriNeedsToBeSet, RenditionReportLastMsnNeedsToBeSet> {
    /// Creates a new builder.
    pub fn new() -> (r: Self)
        ensures
            r.view() == (RenditionReportAttributes { uri: Seq::empty(), last_msn: 0, last_part: None }),
    {
        RenditionReportBuilder { attribute_list: RenditionReportAttributeList { uri: String::new(), last_msn: 0, last_part: None }, uristatus: PhantomData, lastmsnstatus: PhantomData }
    }
}

impl RenditionReportBuilder<RenditionReportUriHasBeenSet, RenditionReportLastMsnHasBeenSet> {
    /// Finishes building and constructs the `RenditionReport`.
    pub fn finish(self) -> (r: RenditionReport)
        ensures
            r.view() == self.view(),
            r.output() == rendition_report_line(self.view()),
    {
        RenditionReport::new(self.attribute_list)
    }
}

impl<UriStatus, LastMsnStatus> RenditionReportBuilder<UriStatus, LastMsnStatus> {
    /// The attributes built so far.
    pub closed spec fn view(&self) -> RenditionReportAttributes {
        self.attribute_list.view()
    }

    /// Sets the `URI` attribute.
    pub fn with_uri(self, uri: &str) -> (r: RenditionReportBuilder<RenditionReportUriHasBeenSet, LastMsnStatus>)
        ensures
            r.view() == (RenditionReportAttributes { uri: uri@, ..self.view() }),
    {
        let mut attribute_list = self.attribute_list;
        attribute_list.uri = string_from(uri);
        RenditionReportBuilder { attribute_list, uristatus: PhantomData, lastmsnstatus: PhantomData }
    }

    /// Sets the `LAST-MSN` attribute.
    pub fn with_last_msn(self, last_msn: u64) -> (r: RenditionReportBuilder<UriStatus, RenditionReportLastMsnHasBeenSet>)
        ensures
            r.view() == (RenditionReportAttributes { last_msn: last_msn, ..self.view() }),
    {
        let mut attribute_list = self.attribute_list;
        attribute_list.last_msn = last_msn;
        RenditionReportBuilder { attribute_list, uristatus: PhantomData, lastmsnstatus: PhantomData }
    }

    /// Sets the `LAST-PART` attribute.
    pub fn with_last_part(self, last_part: u64) -> (r: Self)
        ensures
            r.view() == (RenditionReportAttributes { last_part: Some(last_part), ..self.view() }),
    {
        let mut s = self;
        s.attribute_list.last_part = Some(last_part);
        s
    }

}

/// Corresponds to the `#EXT-X-RENDITION-REPORT` tag.
///
/// <https://datatracker.ietf.org/doc/html/draft-pantos-hls-rfc8216bis-17#section-4.4.5.4>
#[derive(Debug)]
pub struct RenditionReport {
    attribute_list: RenditionReportAttributeList,
    output_line: Vec<u8>,
    output_line_is_dirty: bool,
}

impl RenditionReport {
    /// The attributes of the tag.
    pub closed spec fn view(&self) -> RenditionReportAttributes {
        self.attribute_list.view()
    }

    /// The line that the tag writes: the parsed or built line until the tag is changed, then the
    /// line calculated from its attributes (without optional attributes at their defaults).
    pub closed spec fn output(&self) -> Seq<u8> {
        if self.output_line_is_dirty {
            rendition_report_line(rendition_report_written(self.attribute_list.view()))
        } else {
            self.output_line@
        }
    }

    /// Constructs a new tag with the attributes `attribute_list`.
    fn new(attribute_list: RenditionReportAttributeList) -> (r: RenditionReport)
        ensures
            r.view() == attribute_list.view(),
            r.output() == rendition_report_line(attribute_list.view()),
    {
        let output_line = calculate_line(&attribute_list);
        RenditionReport { attribute_list, output_line, output_line_is_dirty: false }
    }

    /// Starts a builder for producing a `RenditionReport`.
    pub fn builder() -> (r: RenditionReportBuilder<RenditionReportUriNeedsToBeSet, RenditionReportLastMsnNeedsToBeSet>)
        ensures
            r.view() == (RenditionReportAttributes { uri: Seq::empty(), last_msn: 0, last_part: None }),
    {
        RenditionReportBuilder::new()
    }

    /// Reads the tag from a parsed tag line, whose value must be an attribute list.
    pub fn try_from(tag: unknown::Tag) -> (r: Result<RenditionReport, ValidationError>)
        ensures
            match rendition_report_value_spec(value_bytes(tag)) {
                Ok(m) => r matches Ok(t) && t.view() == m && t.output() == tag.original_input@,
                Err(e) => r == Err::<RenditionReport, ValidationError>(e),
            },
    {
        let list = typed_attribute_list_of(&tag)?;
        let uri = match get_quoted(&list, "URI") {
            Some(v) => v,
            None => return Err(ValidationError::MissingRequiredAttribute("URI")),
        };
        let last_msn = match get_integer(&list, "LAST-MSN") {
            Some(v) => v,
            None => return Err(ValidationError::MissingRequiredAttribute("LAST-MSN")),
        };
        let attribute_list = RenditionReportAttributeList {
            uri: string_from(uri),
            last_msn: last_msn,
            last_part: get_integer(&list, "LAST-PART"),
        };
        let mut output_line: Vec<u8> = Vec::new();
        crate::utils::push_bytes(&mut output_line, tag.original_input);
        Ok(RenditionReport { attribute_list, output_line, output_line_is_dirty: false })
    }

    /// The attributes that the changed tag writes.
    fn written(&self) -> (r: RenditionReportAttributeList)
        ensures
            r.view() == rendition_report_written(self.view()),
    {
        RenditionReportAttributeList {
            uri: string_from(self.attribute_list.uri.as_str()),
            last_msn: self.attribute_list.last_msn,
            last_part: self.attribute_list.last_part,
        }
    }

    /// Corresponds to the `URI` attribute.
    pub fn uri(&self) -> (r: &str)
        ensures
            r@ == self.view().uri,
    {
        self.attribute_list.uri.as_str()
    }

    /// Corresponds to the `LAST-MSN` attribute.
    pub fn last_msn(&self) -> (r: u64)
        ensures
            r == self.view().last_msn,
    {
        self.attribute_list.last_msn
    }

    /// Corresponds to the `LAST-PART` attribute.
    pub fn last_part(&self) -> (r: Option<u64>)
        ensures
            r == self.view().last_part,
    {
        self.attribute_list.last_part
    }

    /// Sets the `URI` attribute.
    pub fn set_uri(&mut self, uri: &str)
        ensures
            final(self).view() == (RenditionReportAttributes { uri: uri@, ..old(self).view() }),
            final(self).output() == rendition_report_line(rendition_report_written(final(self).view())),
    {
        self.attribute_list.uri = string_from(uri);
        self.output_line_is_dirty = true;
    }

    /// Sets the `LAST-MSN` attribute.
    pub fn set_last_msn(&mut self, last_msn: u64)
        ensures
            final(self).view() == (RenditionReportAttributes { last_msn: last_msn, ..old(self).view() }),
            final(self).output() == rendition_report_line(rendition_report_written(final(self).view())),
    {
        self.attribute_list.last_msn = last_msn;
        self.output_line_is_dirty = true;
    }

    /// Sets the `LAST-PART` attribute.
    pub fn set_last_part(&mut self, last_part: u64)
        ensures
            final(self).view() == (RenditionReportAttributes { last_part: Some(last_part), ..old(self).view() }),
            final(self).output() == rendition_report_line(rendition_report_written(final(self).view())),
    {
        self.attribute_list.last_part = Some(last_part);
        self.output_line_is_dirty = true;
    }

    /// Removes the `LAST-PART` attribute.
    pub fn unset_last_part(&mut self)
        ensures
            final(self).view() == (RenditionReportAttributes { last_part: None, ..old(self).view() }),
            final(self).output() == rendition_report_line(rendition_report_written(final(self).view())),
    {
        self.attribute_list.last_part = None;
        self.output_line_is_dirty = true;
    }

}

impl IntoInnerTag for RenditionReport {
    fn into_inner(self) -> (r: TagInner)
        ensures
            r.view() == self.output(),
    {
        if self.output_line_is_dirty {
            let written = self.written();
            TagInner::from_line(calculate_line(&written))
        } else {
            TagInner::from_line(self.output_line)
        }
    }
}

impl PartialEq for RenditionReport {
    fn eq(&self, other: &Self) -> (r: bool) {
        str_eq(self.uri(), other.uri()) && self.last_msn() == other.last_msn() && match (
            self.last_part(),
            other.last_part(),
        ) {
            (Some(a), Some(b)) => a == b,
            (None, None) => true,
            _ => false,
        }
    }
}

impl vstd::std_specs::cmp::PartialEqSpecImpl for RenditionReport {
    open spec fn obeys_eq_spec() -> bool {
        true
    }

    open spec fn eq_spec(&self, other: &Self) -> bool {
        &&& self.view().uri == other.view().uri
        &&& self.view().last_msn == other.view().last_msn
        &&& self.view().last_part == other.view().last_part
    }
}

/// The attributes of the tag in the order in which its line writes them.
pub open spec fn rendition_report_entries(m: RenditionReportAttributes) -> AttributeListView {
    push_integer_opt(seq![("URI"@, AttributeValueView::Quoted(m.uri))].push(("LAST-MSN"@, AttributeValueView::Unquoted(dec(m.last_msn as nat)))), "LAST-PART"@, m.last_part)
}

proof fn lemma_rendition_report_line_text(m: RenditionReportAttributes)
    ensures
        rendition_report_line(m) == line_start(TagName::RenditionReport) + seq![58u8] + attribute_list_text(
            rendition_report_entries(m),
        ),
{
    let l0 = seq![("URI"@, AttributeValueView::Quoted(m.uri))];
    let l1 = l0.push(("LAST-MSN"@, AttributeValueView::Unquoted(dec(m.last_msn as nat))));
    let l2 = push_integer_opt(l1, "LAST-PART"@, m.last_part);
    assert(l2 == rendition_report_entries(m));
    assert(attribute_list_text(l0) =~= quoted_attribute("URI"@, m.uri));
    lemma_attribute_list_text_push(l0, ("LAST-MSN"@, AttributeValueView::Unquoted(dec(m.last_msn as nat))));
    assert(attribute_text(("LAST-MSN"@, AttributeValueView::Unquoted(dec(m.last_msn as nat)))) =~= unquoted_attribute("LAST-MSN"@, dec(m.last_msn as nat)));
    lemma_push_integer_opt_text(l1, "LAST-PART"@, m.last_part);
    assert(rendition_report_line(m) =~= line_start(TagName::RenditionReport) + seq![58u8] + attribute_list_text(l2));
}

proof fn lemma_rendition_report_entries_ok(m: RenditionReportAttributes)
    requires
        quoted_value_ok(m.uri),
    ensures
        entries_ok(rendition_report_entries(m)),
{
    reveal_strlit("URI");
    reveal_strlit("LAST-MSN");
    reveal_strlit("LAST-PART");
    let l0 = seq![("URI"@, AttributeValueView::Quoted(m.uri))];
    let l1 = l0.push(("LAST-MSN"@, AttributeValueView::Unquoted(dec(m.last_msn as nat))));
    let l2 = push_integer_opt(l1, "LAST-PART"@, m.last_part);
    assert(l2 == rendition_report_entries(m));
    lemma_entries_ok_one("URI"@, AttributeValueView::Quoted(m.uri));
    lemma_dec_unquoted_ok(m.last_msn);
    lemma_entries_ok_push(l0, "LAST-MSN"@, AttributeValueView::Unquoted(dec(m.last_msn as nat)));
    match m.last_part {
        Some(v) => {
            lemma_dec_unquoted_ok(v);
            lemma_entries_ok_push(l1, "LAST-PART"@, AttributeValueView::Unquoted(dec(v as nat)));
        },
        None => {},
    }
}

proof fn lemma_rendition_report_lookup(m: RenditionReportAttributes)
    ensures
        rendition_report_spec(rendition_report_entries(m)) == Ok::<RenditionReportAttributes, ValidationError>(m),
{
    reveal_strlit("URI");
    reveal_strlit("LAST-MSN");
    reveal_strlit("LAST-PART");
    assert("URI"@.len() != "LAST-MSN"@.len());
    assert("URI"@.len() != "LAST-PART"@.len());
    assert("LAST-MSN"@.len() != "LAST-PART"@.len());
    let l0 = seq![("URI"@, AttributeValueView::Quoted(m.uri))];
    let l1 = l0.push(("LAST-MSN"@, AttributeValueView::Unquoted(dec(m.last_msn as nat))));
    let l2 = push_integer_opt(l1, "LAST-PART"@, m.last_part);
    assert(l2 == rendition_report_entries(m));
    lemma_lookup_push(Seq::empty(), ("URI"@, AttributeValueView::Quoted(m.uri)), "URI"@);
    lemma_lookup_push(Seq::empty(), ("URI"@, AttributeValueView::Quoted(m.uri)), "LAST-MSN"@);
    lemma_lookup_push(Seq::empty(), ("URI"@, AttributeValueView::Quoted(m.uri)), "LAST-PART"@);
    assert(Seq::<(Seq<char>, AttributeValueView)>::empty().push(("URI"@, AttributeValueView::Quoted(m.uri))) =~= l0);
    lemma_lookup_push(l0, ("LAST-MSN"@, AttributeValueView::Unquoted(dec(m.last_msn as nat))), "URI"@);
    lemma_lookup_push(l0, ("LAST-MSN"@, AttributeValueView::Unquoted(dec(m.last_msn as nat))), "LAST-MSN"@);
    lemma_lookup_push(l0, ("LAST-MSN"@, AttributeValueView::Unquoted(dec(m.last_msn as nat))), "LAST-PART"@);
    match m.last_part {
        Some(v) => {
            lemma_lookup_push(l1, ("LAST-PART"@, AttributeValueView::Unquoted(dec(v as nat))), "URI"@);
            lemma_lookup_push(l1, ("LAST-PART"@, AttributeValueView::Unquoted(dec(v as nat))), "LAST-MSN"@);
            lemma_lookup_push(l1, ("LAST-PART"@, AttributeValueView::Unquoted(dec(v as nat))), "LAST-PART"@);
        },
        None => {},
    }
    assert(quoted_attr(l2, "URI"@) == Some(m.uri));
    crate::utils::lemma_parse_u64_of_dec(m.last_msn);
    assert(integer_attr(l2, "LAST-MSN"@) == Some(m.last_msn));
    if let Some(v) = m.last_part {
        crate::utils::lemma_parse_u64_of_dec(v);
    }
    assert(integer_attr(l2, "LAST-PART"@) == m.last_part);
}

/// Writing and then reading a rendition report gives it back: its line reads as its name with its
/// attributes as the value, and that value reads as the attributes, when no quoted value holds a
/// `"` or a line feed and no unquoted text value is empty, starts with `"`, or holds a `,` or a
/// line feed.
pub proof fn lemma_rendition_report_reads_back(m: RenditionReportAttributes)
    requires
        quoted_value_ok(m.uri),
    ensures
        rendition_report_line(m) == line_start(TagName::RenditionReport) + seq![58u8] + attribute_list_text(
            rendition_report_entries(m),
        ),
        unknown::starts_with_ext(rendition_report_line(m)),
        unknown::tag_after_ext_spec(rendition_report_line(m).subrange(4, rendition_report_line(m).len() as int))
            == Ok::<(Seq<u8>, Option<Seq<u8>>, Option<Seq<u8>>), UnknownTagSyntaxError>((
            encode_utf8(tag_name_text(TagName::RenditionReport)),
            Some(attribute_list_text(rendition_report_entries(m))),
            None,
        )),
        rendition_report_value_spec(Some(attribute_list_text(rendition_report_entries(m)))) == Ok::<
            RenditionReportAttributes,
            ValidationError,
        >(m),
{
    let l = rendition_report_entries(m);
    let text = attribute_list_text(l);
    lemma_rendition_report_line_text(m);
    let rest = seq![58u8] + text;
    lemma_line_after_ext(TagName::RenditionReport, rest);
    assert(rendition_report_line(m) =~= line_start(TagName::RenditionReport) + rest);
    assert(encode_utf8(tag_name_text(TagName::RenditionReport)) + rest =~= encode_utf8(
        tag_name_text(TagName::RenditionReport),
    ) + seq![58u8] + text);
    lemma_tag_name_plain(TagName::RenditionReport);
    lemma_rendition_report_entries_ok(m);
    lemma_attribute_list_text_free_of_line_feed(l);
    unknown::lemma_read_written_tag(encode_utf8(tag_name_text(TagName::RenditionReport)), text);
    lemma_attribute_list_reads_back(l);
    lemma_attribute_list_text_kind(l);
    lemma_rendition_report_lookup(m);
}

} // verus!
