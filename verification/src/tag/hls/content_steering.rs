//! The `#EXT-X-CONTENT-STEERING` tag.

use vstd::prelude::*;
use vstd::string::StringSliceAdditionalSpecFns;
use vstd::utf8::*;
use core::marker::PhantomData;

use crate::error::{UnknownTagSyntaxError, UnrecognizedEnumerationError, ValidationError};
use crate::tag::hls::enumerated_string::{
    reads_as_text, AsStaticCow, EnumeratedString, EnumeratedValue,
};
use crate::tag::hls::{
    entries_ok,
    lemma_attribute_list_text_kind,
    opt_str_eq, entry_free_of_line_feed, lemma_attribute_list_text_free_of_line_feed,
    lemma_line_after_ext, lemma_name_chars_bytes, lemma_push_quoted_opt_text,
    lemma_tag_name_plain, name_bytes, push_quoted_opt, quoted_value_ok, tag_name_text,
    typed_attribute_list_of, typed_attribute_list_spec, comma_integer, comma_quoted, comma_unquoted,
    copy_opt, drop_integer, drop_text, get_integer, get_quoted, get_unquoted_str, integer_attr,
    line_start, opt_encode, opt_string, opt_text, push_comma_integer, push_comma_quoted,
    push_comma_unquoted_str, push_integer_attribute, push_quoted_attribute,
    push_unquoted_attribute, quoted_attr, quoted_attribute, start_line, unquoted_attribute,
    utf8_attr, value_bytes, without_text, TagName,
};
use crate::tag::known::{IntoInnerTag, TagInner};
use crate::tag::unknown;
use crate::tag::value::{
    attribute_list_text, lemma_attribute_list_reads_back, lookup_attribute,
    writable_attribute_entry, AttributeListView, AttributeValueView,
};
use crate::utils::{dec, str_eq, string_from};

verus! {


/// The attributes of the `#EXT-X-CONTENT-STEERING` tag.
pub struct ContentSteeringAttributes {
    /// The value of the `SERVER-URI` attribute.
    pub server_uri: Seq<char>,
    /// The value of the `PATHWAY-ID` attribute.
    pub pathway_id: Option<Seq<char>>,
}

/// The line of the `#EXT-X-CONTENT-STEERING` tag with the attributes `m`: the required attributes,
/// then each optional attribute that is present, in a fixed order.
pub open spec fn content_steering_line(m: ContentSteeringAttributes) -> Seq<u8> {
    line_start(TagName::ContentSteering) + seq![58u8] + quoted_attribute("SERVER-URI"@, m.server_uri)
        + comma_quoted("PATHWAY-ID"@, m.pathway_id)
}

/// The attributes that a changed tag writes: an optional attribute that holds its default value
/// is left out.
pub open spec fn content_steering_written(m: ContentSteeringAttributes) -> ContentSteeringAttributes {
    m
}

/// The attributes that an attribute list gives the `#EXT-X-CONTENT-STEERING` tag: each required
/// attribute must be present and of its kind; an optional attribute of the wrong kind is taken as
/// absent.
pub open spec fn content_steering_spec(list: AttributeListView) -> Result<ContentSteeringAttributes, ValidationError> {
    match quoted_attr(list, "SERVER-URI"@) {
        Some(server_uri) => 
            Ok(ContentSteeringAttributes {
                server_uri,
                pathway_id: quoted_attr(list, "PATHWAY-ID"@),
            }),
        None => Err(ValidationError::MissingRequiredAttribute("SERVER-URI")),
    }
}

/// The attributes that a tag value gives the `#EXT-X-CONTENT-STEERING` tag.
pub open spec fn content_steering_value_spec(value: Option<Seq<u8>>) -> Result<ContentSteeringAttributes, ValidationError> {
    match typed_attribute_list_spec(value) {
        Ok(list) => content_steering_spec(list),
        Err(e) => Err(e),
    }
}

/// The attributes of the `#EXT-X-CONTENT-STEERING` tag, as values.
#[derive(Debug)]
pub struct ContentSteeringAttributeList {
    /// The value of the `SERVER-URI` attribute.
    pub server_uri: String,
    /// The value of the `PATHWAY-ID` attribute.
    pub pathway_id: Option<String>,
}

impl ContentSteeringAttributeList {
    /// The attributes.
    pub open spec fn view(&self) -> ContentSteeringAttributes {
        ContentSteeringAttributes {
            server_uri: self.server_uri@,
            pathway_id: opt_string(self.pathway_id),
        }
    }
}

fn calculate_line(a: &ContentSteeringAttributeList) -> (r: Vec<u8>)
    ensures
        r@ == content_steering_line(a.view()),
{
    let mut line = start_line(TagName::ContentSteering);
    line.push(58u8);
    push_quoted_attribute(&mut line, "SERVER-URI", a.server_uri.as_str());
    push_comma_quoted(&mut line, "PATHWAY-ID", &a.pathway_id);
    proof {
        assert(line@ =~= content_steering_line(a.view()));
    }
    line
}

/// A builder for convenience in constructing a [`ContentSteering`].
#[derive(Debug)]
pub struct ContentSteeringBuilder {
    attribute_list: ContentSteeringAttributeList,
}

impl ContentSteeringBuilder {
    /// The attributes built so far.
    pub closed spec fn view(&self) -> ContentSteeringAttributes {
        self.attribute_list.view()
    }

    /// Creates a new builder.
    pub fn new(server_uri: &str) -> (r: Self)
        ensures
            r.view() == (ContentSteeringAttributes { server_uri: server_uri@, pathway_id: None }),
    {
        ContentSteeringBuilder { attribute_list: ContentSteeringAttributeList { server_uri: string_from(server_uri), pathway_id: None } }
    }

    /// Finishes building and constructs the `ContentSteering`.
    pub fn finish(self) -> (r: ContentSteering)
        ensures
            r.view() == self.view(),
            r.output() == content_steering_line(self.view()),
    {
        ContentSteering::new(self.attribute_list)
    }

    /// Sets the `PATHWAY-ID` attribute.
    pub fn with_pathway_id(self, pathway_id: &str) -> (r: Self)
        ensures
            r.view() == (ContentSteeringAttributes { pathway_id: Some(pathway_id@), ..self.view() }),
    {
        let mut s = self;
        s.attribute_list.pathway_id = Some(string_from(pathway_id));
        s
    }

}

/// Corresponds to the `#EXT-X-CONTENT-STEERING` tag.
///
/// <https://datatracker.ietf.org/doc/html/draft-pantos-hls-rfc8216bis-17#section-4.4.6.6>
#[derive(Debug)]
pub struct ContentSteering {
    attribute_list: ContentSteeringAttributeList,
    output_line: Vec<u8>,
    output_line_is_dirty: bool,
}

impl ContentSteering {
    /// The attributes of the tag.
    pub closed spec fn view(&self) -> ContentSteeringAttributes {
        self.attribute_list.view()
    }

    /// The line that the tag writes: the parsed or built line until the tag is changed, then the
    /// line calculated from its attributes (without optional attributes at their defaults).
    pub closed spec fn output(&self) -> Seq<u8> {
        if self.output_line_is_dirty {
            content_steering_line(content_steering_written(self.attribute_list.view()))
        } else {
            self.output_line@
        }
    }

    /// Constructs a new tag with the attributes `attribute_list`.
    pub fn new(attribute_list: ContentSteeringAttributeList) -> (r: ContentSteering)
        ensures
            r.view() == attribute_list.view(),
            r.output() == content_steering_line(attribute_list.view()),
    {
        let output_line = calculate_line(&attribute_list);
        ContentSteering { attribute_list, output_line, output_line_is_dirty: false }
    }

    /// Starts a builder for producing a `ContentSteering`.
    pub fn builder(server_uri: &str) -> (r: ContentSteeringBuilder)
        ensures
            r.view() == (ContentSteeringAttributes { server_uri: server_uri@, pathway_id: None }),
    {
        ContentSteeringBuilder::new(server_uri)
    }

    /// Reads the tag from a parsed tag line, whose value must be an attribute list.
    pub fn try_from(tag: unknown::Tag) -> (r: Result<ContentSteering, ValidationError>)
        ensures
            match content_steering_value_spec(value_bytes(tag)) {
                Ok(m) => r matches Ok(t) && t.view() == m && t.output() == tag.original_input@,
                Err(e) => r == Err::<ContentSteering, ValidationError>(e),
            },
    {
        let list = typed_attribute_list_of(&tag)?;
        let server_uri = match get_quoted(&list, "SERVER-URI") {
            Some(v) => v,
            None => return Err(ValidationError::MissingRequiredAttribute("SERVER-URI")),
        };
        let attribute_list = ContentSteeringAttributeList {
            server_uri: string_from(server_uri),
            pathway_id: copy_opt(get_quoted(&list, "PATHWAY-ID")),
        };
        let mut output_line: Vec<u8> = Vec::new();
        crate::utils::push_bytes(&mut output_line, tag.original_input);
        Ok(ContentSteering { attribute_list, output_line, output_line_is_dirty: false })
    }

    /// The attributes that the changed tag writes.
    fn written(&self) -> (r: ContentSteeringAttributeList)
        ensures
            r.view() == content_steering_written(self.view()),
    {
        ContentSteeringAttributeList {
            server_uri: string_from(self.attribute_list.server_uri.as_str()),
            pathway_id: copy_opt(self.opt_pathway_id()),
        }
    }

    /// Corresponds to the `SERVER-URI` attribute.
    pub fn server_uri(&self) -> (r: &str)
        ensures
            r@ == self.view().server_uri,
    {
        self.attribute_list.server_uri.as_str()
    }

    /// Corresponds to the `PATHWAY-ID` attribute.
    pub fn pathway_id(&self) -> (r: Option<&str>)
        ensures
            opt_text(r) == self.view().pathway_id,
    {
        self.opt_pathway_id()
    }

    fn opt_pathway_id(&self) -> (r: Option<&str>)
        ensures
            opt_text(r) == self.view().pathway_id,
    {
        match &self.attribute_list.pathway_id {
            Some(v) => Some(v.as_str()),
            None => None,
        }
    }

    /// Sets the `SERVER-URI` attribute.
    pub fn set_server_uri(&mut self, server_uri: &str)
        ensures
            final(self).view() == (ContentSteeringAttributes { server_uri: server_uri@, ..old(self).view() }),
            final(self).output() == content_steering_line(content_steering_written(final(self).view())),
    {
        self.attribute_list.server_uri = string_from(server_uri);
        self.output_line_is_dirty = true;
    }

    /// Sets the `PATHWAY-ID` attribute.
    pub fn set_pathway_id(&mut self, pathway_id: &str)
        ensures
            final(self).view() == (ContentSteeringAttributes { pathway_id: Some(pathway_id@), ..old(self).view() }),
            final(self).output() == content_steering_line(content_steering_written(final(self).view())),
    {
        self.attribute_list.pathway_id = Some(string_from(pathway_id));
        self.output_line_is_dirty = true;
    }

    /// Removes the `PATHWAY-ID` attribute.
    pub fn unset_pathway_id(&mut self)
        ensures
            final(self).view() == (ContentSteeringAttributes { pathway_id: None, ..old(self).view() }),
            final(self).output() == content_steering_line(content_steering_written(final(self).view())),
    {
        self.attribute_list.pathway_id = None;
        self.output_line_is_dirty = true;
    }

}

impl IntoInnerTag for ContentSteering {
    fn into_inner(self) -> (r: TagInner)
        ensures
            r.view() == self.output(),
    {
        if self.output_line_is_dirty {
            let written = self.written();
            TagInner::from_line(calculate_line(&written))
        } else {
            TagInner::from_line(self.output_line)
        }
    }
}

impl PartialEq for ContentSteering {
    fn eq(&self, other: &Self) -> (r: bool) {
        str_eq(self.server_uri(), other.server_uri()) && opt_str_eq(
            self.pathway_id(),
            other.pathway_id(),
        )
    }
}

impl vstd::std_specs::cmp::PartialEqSpecImpl for ContentSteering {
    open spec fn obeys_eq_spec() -> bool {
        true
    }

    open spec fn eq_spec(&self, other: &Self) -> bool {
        &&& self.view().server_uri == other.view().server_uri
        &&& self.view().pathway_id == other.view().pathway_id
    }
}

/// The attributes of a `#EXT-X-CONTENT-STEERING` tag in the order in which it writes them.
pub open spec fn content_steering_entries(m: ContentSteeringAttributes) -> AttributeListView {
    push_quoted_opt(
        seq![("SERVER-URI"@, AttributeValueView::Quoted(m.server_uri))],
        "PATHWAY-ID"@,
        m.pathway_id,
    )
}

proof fn lemma_content_steering_entries_ok(m: ContentSteeringAttributes)
    requires
        quoted_value_ok(m.server_uri),
        m.pathway_id matches Some(p) ==> quoted_value_ok(p),
    ensures
        forall|i: int|
            0 <= i < content_steering_entries(m).len() ==> writable_attribute_entry(
                #[trigger] content_steering_entries(m)[i],
            ) && entry_free_of_line_feed(content_steering_entries(m)[i]),
        entries_ok(content_steering_entries(m)),
{
    reveal_strlit("SERVER-URI");
    reveal_strlit("PATHWAY-ID");
    lemma_name_chars_bytes("SERVER-URI"@);
    lemma_name_chars_bytes("PATHWAY-ID"@);
    let l = content_steering_entries(m);
    assert forall|i: int| 0 <= i < l.len() implies writable_attribute_entry(#[trigger] l[i])
        && entry_free_of_line_feed(l[i]) && name_bytes(encode_utf8(l[i].0)) by {
        let nb = encode_utf8(l[i].0);
        assert(name_bytes(nb));
        assert(!nb.contains(61u8)) by {
            if nb.contains(61u8) {
                let j = choose|j: int| 0 <= j < nb.len() && nb[j] == 61u8;
                assert(name_bytes(nb));
            }
        }
    }
}

proof fn lemma_content_steering_lookup(m: ContentSteeringAttributes)
    ensures
        content_steering_spec(content_steering_entries(m)) == Ok::<
            ContentSteeringAttributes,
            ValidationError,
        >(m),
{
    reveal_strlit("SERVER-URI");
    reveal_strlit("PATHWAY-ID");
    assert("PATHWAY-ID"@[0] != "SERVER-URI"@[0]);
    let first = seq![("SERVER-URI"@, AttributeValueView::Quoted(m.server_uri))];
    let l = content_steering_entries(m);
    assert(first.drop_last() =~= Seq::<(Seq<char>, AttributeValueView)>::empty());
    assert(lookup_attribute(first, "SERVER-URI"@) == Some(AttributeValueView::Quoted(m.server_uri)));
    assert(lookup_attribute(first.drop_last(), "PATHWAY-ID"@) is None);
    assert(lookup_attribute(first, "PATHWAY-ID"@) is None);
    match m.pathway_id {
        Some(p) => {
            assert(l.drop_last() =~= first);
            assert(l.last() == ("PATHWAY-ID"@, AttributeValueView::Quoted(p)));
            assert(lookup_attribute(l, "PATHWAY-ID"@) == Some(AttributeValueView::Quoted(p)));
            assert(lookup_attribute(l, "SERVER-URI"@) == lookup_attribute(first, "SERVER-URI"@));
        },
        None => {
            assert(l == first);
        },
    }
    assert(quoted_attr(l, "SERVER-URI"@) == Some(m.server_uri));
    assert(quoted_attr(l, "PATHWAY-ID"@) == m.pathway_id);
}

/// Writing and then reading a content steering tag gives it back: its line reads as its name
/// with its attributes as the value, and that value reads as the attributes, when no quoted value
/// holds a `"` or a line feed.
#[verifier::spinoff_prover]
#[verifier::rlimit(40)]
pub proof fn lemma_content_steering_reads_back(m: ContentSteeringAttributes)
    requires
        quoted_value_ok(m.server_uri),
        m.pathway_id matches Some(p) ==> quoted_value_ok(p),
    ensures
        content_steering_line(m) == line_start(TagName::ContentSteering) + seq![58u8]
            + attribute_list_text(content_steering_entries(m)),
        unknown::starts_with_ext(content_steering_line(m)),
        unknown::tag_after_ext_spec(
            content_steering_line(m).subrange(4, content_steering_line(m).len() as int),
        ) == Ok::<(Seq<u8>, Option<Seq<u8>>, Option<Seq<u8>>), UnknownTagSyntaxError>(
            (
                encode_utf8(tag_name_text(TagName::ContentSteering)),
                Some(attribute_list_text(content_steering_entries(m))),
                None,
            ),
        ),
        content_steering_value_spec(Some(attribute_list_text(content_steering_entries(m)))) == Ok::<
            ContentSteeringAttributes,
            ValidationError,
        >(content_steering_written(m)),
{
    let first = seq![("SERVER-URI"@, AttributeValueView::Quoted(m.server_uri))];
    let l = content_steering_entries(m);
    let text = attribute_list_text(l);
    assert(attribute_list_text(first) =~= quoted_attribute("SERVER-URI"@, m.server_uri));
    lemma_push_quoted_opt_text(first, "PATHWAY-ID"@, m.pathway_id);
    let rest = seq![58u8] + text;
    lemma_line_after_ext(TagName::ContentSteering, rest);
    assert(content_steering_line(m) =~= line_start(TagName::ContentSteering) + rest);
    assert(encode_utf8(tag_name_text(TagName::ContentSteering)) + rest =~= encode_utf8(
        tag_name_text(TagName::ContentSteering),
    ) + seq![58u8] + text);
    lemma_tag_name_plain(TagName::ContentSteering);
    lemma_content_steering_entries_ok(m);
    lemma_attribute_list_text_free_of_line_feed(l);
    unknown::lemma_read_written_tag(encode_utf8(tag_name_text(TagName::ContentSteering)), text);
    lemma_content_steering_value_reads(m);
}

proof fn lemma_content_steering_value_reads(m: ContentSteeringAttributes)
    requires
        quoted_value_ok(m.server_uri),
        m.pathway_id matches Some(p) ==> quoted_value_ok(p),
    ensures
        content_steering_value_spec(Some(attribute_list_text(content_steering_entries(m)))) == Ok::<
            ContentSteeringAttributes,
            ValidationError,
        >(content_steering_written(m)),
{
    let l = content_steering_entries(m);
    lemma_content_steering_entries_ok(m);
    lemma_attribute_list_reads_back(l);
    lemma_attribute_list_text_kind(l);
    lemma_content_steering_lookup(m);
}
} // verus!
