//! The `#EXT-X-SKIP` tag.

use vstd::prelude::*;
use vstd::string::StringSliceAdditionalSpecFns;
use vstd::utf8::*;
use core::marker::PhantomData;

use crate::error::{UnknownTagSyntaxError, UnrecognizedEnumerationError, ValidationError};
use crate::tag::hls::enumerated_string::{
    reads_as_text, AsStaticCow, EnumeratedString, EnumeratedValue,
};
use crate::tag::hls::{
    lemma_attribute_list_text_kind,
    opt_str_eq, typed_attribute_list_of, typed_attribute_list_spec, comma_integer, comma_quoted,
    comma_unquoted, copy_opt, drop_integer, drop_text, get_integer, get_quoted,
    get_unquoted_str, integer_attr, line_start, opt_encode, opt_string, opt_text,
    push_comma_integer, push_comma_quoted, push_comma_unquoted_str, push_integer_attribute,
    push_quoted_attribute, push_unquoted_attribute, quoted_attr, quoted_attribute, start_line,
    unquoted_attribute, utf8_attr, value_bytes, without_text, TagName, entries_ok,
    lemma_attribute_list_text_free_of_line_feed, lemma_dec_unquoted_ok, lemma_entries_ok_one,
    lemma_entries_ok_push, lemma_line_after_ext, lemma_lookup_push, lemma_push_integer_opt_text,
    lemma_push_quoted_opt_text, lemma_push_unquoted_opt_text, lemma_tag_name_plain,
    push_integer_opt, push_quoted_opt, push_unquoted_opt, quoted_value_ok, tag_name_text,
    unquoted_value_ok,
};
use crate::tag::known::{IntoInnerTag, TagInner};
use crate::tag::unknown;
use crate::tag::value::{
    AttributeListView, attribute_list_text, lemma_attribute_list_reads_back,
    lemma_attribute_list_text_push, attribute_text, AttributeValueView,
};
use crate::utils::{dec, str_eq, string_from};

verus! {


/// The attributes of the `#EXT-X-SKIP` tag.
pub struct SkipAttributes {
    /// The value of the `SKIPPED-SEGMENTS` attribute.
    pub skipped_segments: u64,
    /// The value of the `RECENTLY-REMOVED-DATERANGES` attribute.
    pub recently_removed_dateranges: Option<Seq<char>>,
}

/// The line of the `#EXT-X-SKIP` tag with the attributes `m`: the required attributes, then each
/// optional attribute that is present, in a fixed order.
pub open spec fn skip_line(m: SkipAttributes) -> Seq<u8> {
    line_start(TagName::Skip) + seq![58u8] + unquoted_attribute("SKIPPED-SEGMENTS"@, dec(m.skipped_segments as nat))
        + comma_quoted("RECENTLY-REMOVED-DATERANGES"@, m.recently_removed_dateranges)
}

/// The attributes that a changed tag writes: an optional attribute that holds its default value
/// is left out.
pub open spec fn skip_written(m: SkipAttributes) -> SkipAttributes {
    m
}

/// The attributes that an attribute list gives the `#EXT-X-SKIP` tag: each required attribute must
/// be present and of its kind; an optional attribute of the wrong kind is taken as absent.
pub open spec fn skip_spec(list: AttributeListView) -> Result<SkipAttributes, ValidationError> {
    match integer_attr(list, "SKIPPED-SEGMENTS"@) {
        Some(skipped_segments) => 
            Ok(SkipAttributes {
                skipped_segments,
                recently_removed_dateranges: quoted_attr(list, "RECENTLY-REMOVED-DATERANGES"@),
            }),
        None => Err(ValidationError::MissingRequiredAttribute("SKIPPED-SEGMENTS")),
    }
}

/// The attributes that a tag value gives the `#EXT-X-SKIP` tag.
pub open spec fn skip_value_spec(value: Option<Seq<u8>>) -> Result<SkipAttributes, ValidationError> {
    match typed_attribute_list_spec(value) {
        Ok(list) => skip_spec(list),
        Err(e) => Err(e),
    }
}

/// The attributes of the `#EXT-X-SKIP` tag, as values.
#[derive(Debug)]
pub struct SkipAttributeList {
    /// The value of the `SKIPPED-SEGMENTS` attribute.
    pub skipped_segments: u64,
    /// The value of the `RECENTLY-REMOVED-DATERANGES` attribute.
    pub recently_removed_dateranges: Option<String>,
}

impl SkipAttributeList {
    /// The attributes.
    pub open spec fn view(&self) -> SkipAttributes {
        SkipAttributes {
            skipped_segments: self.skipped_segments,
            recently_removed_dateranges: opt_string(self.recently_removed_dateranges),
        }
    }
}

fn calculate_line(a: &SkipAttributeList) -> (r: Vec<u8>)
    ensures
        r@ == skip_line(a.view()),
{
    let mut line = start_line(TagName::Skip);
    line.push(58u8);
    push_integer_attribute(&mut line, "SKIPPED-SEGMENTS", a.skipped_segments);
    push_comma_quoted(&mut line, "RECENTLY-REMOVED-DATERANGES", &a.recently_removed_dateranges);
    proof {
        assert(line@ =~= skip_line(a.view()));
    }
    line
}

/// A builder for convenience in constructing a [`Skip`].
#[derive(Debug)]
pub struct SkipBuilder {
    attribute_list: SkipAttributeList,
}

impl SkipBuilder {
    /// The attributes built so far.
    pub closed spec fn view(&self) -> SkipAttributes {
        self.attribute_list.view()
    }

    /// Creates a new builder.
    pub fn new(skipped_segments: u64) -> (r: Self)
        ensures
            r.view() == (SkipAttributes { skipped_segments, recently_removed_dateranges: None }),
    {
        SkipBuilder { attribute_list: SkipAttributeList { skipped_segments, recently_removed_dateranges: None } }
    }

    /// Finishes building and constructs the `Skip`.
    pub fn finish(self) -> (r: Skip)
        ensures
            r.view() == self.view(),
            r.output() == skip_line(self.view()),
    {
        Skip::new(self.attribute_list)
    }

    /// Sets the `RECENTLY-REMOVED-DATERANGES` attribute.
    pub fn with_recently_removed_dateranges(self, recently_removed_dateranges: &str) -> (r: Self)
        ensures
            r.view() == (SkipAttributes { recently_removed_dateranges: Some(recently_removed_dateranges@), ..self.view() }),
    {
        let mut s = self;
        s.attribute_list.recently_removed_dateranges = Some(string_from(recently_removed_dateranges));
        s
    }

}

/// Corresponds to the `#EXT-X-SKIP` tag.
///
/// <https://datatracker.ietf.org/doc/html/draft-pantos-hls-rfc8216bis-17#section-4.4.5.2>
#[derive(Debug)]
pub struct Skip {
    attribute_list: SkipAttributeList,
    output_line: Vec<u8>,
    output_line_is_dirty: bool,
}

impl Skip {
    /// The attributes of the tag.
    pub closed spec fn view(&self) -> SkipAttributes {
        self.attribute_list.view()
    }

    /// The line that the tag writes: the parsed or built line until the tag is changed, then the
    /// line calculated from its attributes (without optional attributes at their defaults).
    pub closed spec fn output(&self) -> Seq<u8> {
        if self.output_line_is_dirty {
            skip_line(skip_written(self.attribute_list.view()))
        } else {
            self.output_line@
        }
    }

    /// Constructs a new tag with the attributes `attribute_list`.
    pub fn new(attribute_list: SkipAttributeList) -> (r: Skip)
        ensures
            r.view() == attribute_list.view(),
            r.output() == skip_line(attribute_list.view()),
    {
        let output_line = calculate_line(&attribute_list);
        Skip { attribute_list, output_line, output_line_is_dirty: false }
    }

    /// Starts a builder for producing a `Skip`.
    pub fn builder(skipped_segments: u64) -> (r: SkipBuilder)
        ensures
            r.view() == (SkipAttributes { skipped_segments, recently_removed_dateranges: None }),
    {
        SkipBuilder::new(skipped_segments)
    }

    /// Reads the tag from a parsed tag line, whose value must be an attribute list.
    pub fn try_from(tag: unknown::Tag) -> (r: Result<Skip, ValidationError>)
        ensures
            match skip_value_spec(value_bytes(tag)) {
                Ok(m) => r matches Ok(t) && t.view() == m && t.output() == tag.original_input@,
                Err(e) => r == Err::<Skip, ValidationError>(e),
            },
    {
        let list = typed_attribute_list_of(&tag)?;
        let skipped_segments = match get_integer(&list, "SKIPPED-SEGMENTS") {
            Some(v) => v,
            None => return Err(ValidationError::MissingRequiredAttribute("SKIPPED-SEGMENTS")),
        };
        let attribute_list = SkipAttributeList {
            skipped_segments: skipped_segments,
            recently_removed_dateranges: copy_opt(get_quoted(&list, "RECENTLY-REMOVED-DATERANGES")),
        };
        let mut output_line: Vec<u8> = Vec::new();
        crate::utils::push_bytes(&mut output_line, tag.original_input);
        Ok(Skip { attribute_list, output_line, output_line_is_dirty: false })
    }

    /// The attributes that the changed tag writes.
    fn written(&self) -> (r: SkipAttributeList)
        ensures
            r.view() == skip_written(self.view()),
    {
        SkipAttributeList {
            skipped_segments: self.attribute_list.skipped_segments,
            recently_removed_dateranges: copy_opt(self.opt_recently_removed_dateranges()),
        }
    }

    /// Corresponds to the `SKIPPED-SEGMENTS` attribute.
    pub fn skipped_segments(&self) -> (r: u64)
        ensures
            r == self.view().skipped_segments,
    {
        self.attribute_list.skipped_segments
    }

    /// Corresponds to the `RECENTLY-REMOVED-DATERANGES` attribute.
    pub fn recently_removed_dateranges(&self) -> (r: Option<&str>)
        ensures
            opt_text(r) == self.view().recently_removed_dateranges,
    {
        self.opt_recently_removed_dateranges()
    }

    fn opt_recently_removed_dateranges(&self) -> (r: Option<&str>)
        ensures
            opt_text(r) == self.view().recently_removed_dateranges,
    {
        match &self.attribute_list.recently_removed_dateranges {
            Some(v) => Some(v.as_str()),
            None => None,
        }
    }

    /// Sets the `SKIPPED-SEGMENTS` attribute.
    pub fn set_skipped_segments(&mut self, skipped_segments: u64)
        ensures
            final(self).view() == (SkipAttributes { skipped_segments: skipped_segments, ..old(self).view() }),
            final(self).output() == skip_line(skip_written(final(self).view())),
    {
        self.attribute_list.skipped_segments = skipped_segments;
        self.output_line_is_dirty = true;
    }

    /// Sets the `RECENTLY-REMOVED-DATERANGES` attribute.
    pub fn set_recently_removed_dateranges(&mut self, recently_removed_dateranges: &str)
        ensures
            final(self).view() == (SkipAttributes { recently_removed_dateranges: Some(recently_removed_dateranges@), ..old(self).view() }),
            final(self).output() == skip_line(skip_written(final(self).view())),
    {
        self.attribute_list.recently_removed_dateranges = Some(string_from(recently_removed_dateranges));
        self.output_line_is_dirty = true;
    }

    /// Removes the `RECENTLY-REMOVED-DATERANGES` attribute.
    pub fn unset_recently_removed_dateranges(&mut self)
        ensures
            final(self).view() == (SkipAttributes { recently_removed_dateranges: None, ..old(self).view() }),
            final(self).output() == skip_line(skip_written(final(self).view())),
    {
        self.attribute_list.recently_removed_dateranges = None;
        self.output_line_is_dirty = true;
    }

}

impl IntoInnerTag for Skip {
    fn into_inner(self) -> (r: TagInner)
        ensures
            r.view() == self.output(),
    {
        if self.output_line_is_dirty {
            let written = self.written();
            TagInner::from_line(calculate_line(&written))
        } else {
            TagInner::from_line(self.output_line)
        }
    }
}

impl PartialEq for Skip {
    fn eq(&self, other: &Self) -> (r: bool) {
        self.skipped_segments() == other.skipped_segments() && opt_str_eq(
            self.recently_removed_dateranges(),
            other.recently_removed_dateranges(),
        )
    }
}

impl vstd::std_specs::cmp::PartialEqSpecImpl for Skip {
    open spec fn obeys_eq_spec() -> bool {
        true
    }

    open spec fn eq_spec(&self, other: &Self) -> bool {
        &&& self.view().skipped_segments == other.view().skipped_segments
        &&& self.view().recently_removed_dateranges == other.view().recently_removed_dateranges
    }
}

/// The attributes of the tag in the order in which its line writes them.
pub open spec fn skip_entries(m: SkipAttributes) -> AttributeListView {
    push_quoted_opt(seq![("SKIPPED-SEGMENTS"@, AttributeValueView::Unquoted(dec(m.skipped_segments as nat)))], "RECENTLY-REMOVED-DATERANGES"@, m.recently_removed_dateranges)
}

proof fn lemma_skip_line_text(m: SkipAttributes)
    ensures
        skip_line(m) == line_start(TagName::Skip) + seq![58u8] + attribute_list_text(
            skip_entries(m),
        ),
{
    let l0 = seq![("SKIPPED-SEGMENTS"@, AttributeValueView::Unquoted(dec(m.skipped_segments as nat)))];
    let l1 = push_quoted_opt(l0, "RECENTLY-REMOVED-DATERANGES"@, m.recently_removed_dateranges);
    assert(l1 == skip_entries(m));
    assert(attribute_list_text(l0) =~= unquoted_attribute("SKIPPED-SEGMENTS"@, dec(m.skipped_segments as nat)));
    lemma_push_quoted_opt_text(l0, "RECENTLY-REMOVED-DATERANGES"@, m.recently_removed_dateranges);
    assert(skip_line(m) =~= line_start(TagName::Skip) + seq![58u8] + attribute_list_text(l1));
}

proof fn lemma_skip_entries_ok(m: SkipAttributes)
    requires
        m.recently_removed_dateranges matches Some(v) ==> quoted_value_ok(v),
    ensures
        entries_ok(skip_entries(m)),
{
    reveal_strlit("SKIPPED-SEGMENTS");
    reveal_strlit("RECENTLY-REMOVED-DATERANGES");
    let l0 = seq![("SKIPPED-SEGMENTS"@, AttributeValueView::Unquoted(dec(m.skipped_segments as nat)))];
    let l1 = push_quoted_opt(l0, "RECENTLY-REMOVED-DATERANGES"@, m.recently_removed_dateranges);
    assert(l1 == skip_entries(m));
    lemma_dec_unquoted_ok(m.skipped_segments);
    lemma_entries_ok_one("SKIPPED-SEGMENTS"@, AttributeValueView::Unquoted(dec(m.skipped_segments as nat)));
    match m.recently_removed_dateranges {
        Some(v) => {
            lemma_entries_ok_push(l0, "RECENTLY-REMOVED-DATERANGES"@, AttributeValueView::Quoted(v));
        },
        None => {},
    }
}

proof fn lemma_skip_lookup(m: SkipAttributes)
    ensures
        skip_spec(skip_entries(m)) == Ok::<SkipAttributes, ValidationError>(m),
{
    reveal_strlit("SKIPPED-SEGMENTS");
    reveal_strlit("RECENTLY-REMOVED-DATERANGES");
    assert("SKIPPED-SEGMENTS"@.len() != "RECENTLY-REMOVED-DATERANGES"@.len());
    let l0 = seq![("SKIPPED-SEGMENTS"@, AttributeValueView::Unquoted(dec(m.skipped_segments as nat)))];
    let l1 = push_quoted_opt(l0, "RECENTLY-REMOVED-DATERANGES"@, m.recently_removed_dateranges);
    assert(l1 == skip_entries(m));
    lemma_lookup_push(Seq::empty(), ("SKIPPED-SEGMENTS"@, AttributeValueView::Unquoted(dec(m.skipped_segments as nat))), "SKIPPED-SEGMENTS"@);
    lemma_lookup_push(Seq::empty(), ("SKIPPED-SEGMENTS"@, AttributeValueView::Unquoted(dec(m.skipped_segments as nat))), "RECENTLY-REMOVED-DATERANGES"@);
    assert(Seq::<(Seq<char>, AttributeValueView)>::empty().push(("SKIPPED-SEGMENTS"@, AttributeValueView::Unquoted(dec(m.skipped_segments as nat)))) =~= l0);
    match m.recently_removed_dateranges {
        Some(v) => {
            lemma_lookup_push(l0, ("RECENTLY-REMOVED-DATERANGES"@, AttributeValueView::Quoted(v)), "SKIPPED-SEGMENTS"@);
            lemma_lookup_push(l0, ("RECENTLY-REMOVED-DATERANGES"@, AttributeValueView::Quoted(v)), "RECENTLY-REMOVED-DATERANGES"@);
        },
        None => {},
    }
    crate::utils::lemma_parse_u64_of_dec(m.skipped_segments);
    assert(integer_attr(l1, "SKIPPED-SEGMENTS"@) == Some(m.skipped_segments));
    assert(quoted_attr(l1, "RECENTLY-REMOVED-DATERANGES"@) == m.recently_removed_dateranges);
}

/// Writing and then reading a skip tag gives it back: its line reads as its name with its
/// attributes as the value, and that value reads as the attributes, when no quoted value holds a
/// `"` or a line feed.
pub proof fn lemma_skip_reads_back(m: SkipAttributes)
    requires
        m.recently_removed_dateranges matches Some(v) ==> quoted_value_ok(v),
    ensures
        skip_line(m) == line_start(TagName::Skip) + seq![58u8] + attribute_list_text(
            skip_entries(m),
        ),
        unknown::starts_with_ext(skip_line(m)),
        unknown::tag_after_ext_spec(skip_line(m).subrange(4, skip_line(m).len() as int))
            == Ok::<(Seq<u8>, Option<Seq<u8>>, Option<Seq<u8>>), UnknownTagSyntaxError>((
            encode_utf8(tag_name_text(TagName::Skip)),
            Some(attribute_list_text(skip_entries(m))),
            None,
        )),
        skip_value_spec(Some(attribute_list_text(skip_entries(m)))) == Ok::<
            SkipAttributes,
            ValidationError,
        >(m),
{
    let l = skip_entries(m);
    let text = attribute_list_text(l);
    lemma_skip_line_text(m);
    let rest = seq![58u8] + text;
    lemma_line_after_ext(TagName::Skip, rest);
    assert(skip_line(m) =~= line_start(TagName::Skip) + rest);
    assert(encode_utf8(tag_name_text(TagName::Skip)) + rest =~= encode_utf8(
        tag_name_text(TagName::Skip),
    ) + seq![58u8] + text);
    lemma_tag_name_plain(TagName::Skip);
    lemma_skip_entries_ok(m);
    lemma_attribute_list_text_free_of_line_feed(l);
    unknown::lemma_read_written_tag(encode_utf8(tag_name_text(TagName::Skip)), text);
    lemma_attribute_list_reads_back(l);
    lemma_attribute_list_text_kind(l);
    lemma_skip_lookup(m);
}

} // verus!
