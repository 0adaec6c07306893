//! The `#EXT-X-PRELOAD-HINT` tag.

use vstd::prelude::*;
use vstd::string::StringSliceAdditionalSpecFns;
use vstd::utf8::*;
use core::marker::PhantomData;

use crate::error::{UnknownTagSyntaxError, UnrecognizedEnumerationError, ValidationError};
use crate::tag::hls::enumerated_string::{
    reads_as_text, AsStaticCow, EnumeratedString, EnumeratedValue,
};
use crate::tag::hls::{
    lemma_attribute_list_text_kind,
    typed_attribute_list_of, typed_attribute_list_spec, comma_integer, comma_quoted, comma_unquoted,
    copy_opt, drop_integer, drop_text, get_integer, get_quoted, get_unquoted_str, integer_attr,
    line_start, opt_encode, opt_string, opt_text, push_comma_integer, push_comma_quoted,
    push_comma_unquoted_str, push_integer_attribute, push_quoted_attribute,
    push_unquoted_attribute, quoted_attr, quoted_attribute, start_line, unquoted_attribute,
    utf8_attr, value_bytes, without_text, TagName, entries_ok,
    lemma_attribute_list_text_free_of_line_feed, lemma_dec_unquoted_ok, lemma_entries_ok_one,
    lemma_entries_ok_push, lemma_line_after_ext, lemma_lookup_push, lemma_push_integer_opt_text,
    lemma_push_quoted_opt_text, lemma_push_unquoted_opt_text, lemma_tag_name_plain,
    push_integer_opt, push_quoted_opt, push_unquoted_opt, quoted_value_ok, tag_name_text,
    unquoted_value_ok,
};
use crate::tag::known::{IntoInnerTag, TagInner};
use crate::tag::unknown;
use crate::tag::value::{
    AttributeListView, attribute_list_text, lemma_attribute_list_reads_back,
    lemma_attribute_list_text_push, attribute_text, AttributeValueView,
};
use crate::utils::{dec, str_eq, string_from};

verus! {

/// Corresponds to the `TYPE` attribute of `#EXT-X-PRELOAD-HINT`.
#[derive(Debug, Clone, Copy, PartialEq, Eq, Structural)]
pub enum PreloadHintType {
    /// The resource is a partial segment.
    Part,
    /// The resource is a media initialization section.
    XMap,
}

impl AsStaticCow for PreloadHintType {
    open spec fn obeys_text_spec() -> bool {
        true
    }

    open spec fn text(&self) -> Seq<char> {
        match self {
            PreloadHintType::Part => "PART"@,
            PreloadHintType::XMap => "MAP"@,
        }
    }

    fn as_cow(&self) -> (r: String)
        ensures
            r@ == self.text(),
    {
        match self {
            PreloadHintType::Part => string_from("PART"),
            PreloadHintType::XMap => string_from("MAP"),
        }
    }
}

impl EnumeratedValue for PreloadHintType {
    open spec fn from_text(s: Seq<char>) -> Option<Self> {
        if s == "PART"@ {
            Some(PreloadHintType::Part)
        } else if s == "MAP"@ {
            Some(PreloadHintType::XMap)
        } else {
            None
        }
    }

    fn try_from_str(value: &str) -> (r: Result<Self, UnrecognizedEnumerationError<'_>>)
        ensures
            match Self::from_text(value@) {
                Some(t) => r == Ok::<Self, UnrecognizedEnumerationError<'_>>(t),
                None => r matches Err(e) && e.value == value,
            },
    {
        if str_eq(value, "PART") {
            return Ok(PreloadHintType::Part);
        }
        if str_eq(value, "MAP") {
            return Ok(PreloadHintType::XMap);
        }
        Err(UnrecognizedEnumerationError::new(value))
    }
}

/// Reading back the text of any [`PreloadHintType`] gives that value.
pub proof fn lemma_preload_hint_type_round_trip(v: PreloadHintType)
    ensures
        PreloadHintType::from_text(v.text()) == Some(v),
{
    match v {
        PreloadHintType::Part => {
            reveal_strlit("PART");
        },
        PreloadHintType::XMap => {
            reveal_strlit("MAP");
            reveal_strlit("PART");
            assert("PART"@.len() != "MAP"@.len());
        },
    }
}

/// The attributes of the `#EXT-X-PRELOAD-HINT` tag.
pub struct PreloadHintAttributes {
    /// The value of the `TYPE` attribute.
    pub hint_type: Seq<char>,
    /// The value of the `URI` attribute.
    pub uri: Seq<char>,
    /// The value of the `BYTERANGE-START` attribute.
    pub byterange_start: Option<u64>,
    /// The value of the `BYTERANGE-LENGTH` attribute.
    pub byterange_length: Option<u64>,
}

/// The line of the `#EXT-X-PRELOAD-HINT` tag with the attributes `m`: the required attributes, then
/// each optional attribute that is present, in a fixed order.
pub open spec fn preload_hint_line(m: PreloadHintAttributes) -> Seq<u8> {
    line_start(TagName::PreloadHint) + seq![58u8] + unquoted_attribute("TYPE"@, encode_utf8(m.hint_type))
        + seq![44u8] + quoted_attribute("URI"@, m.uri)
        + comma_integer("BYTERANGE-START"@, m.byterange_start)
        + comma_integer("BYTERANGE-LENGTH"@, m.byterange_length)
}

/// The attributes that a changed tag writes: an optional attribute that holds its default value
/// is left out.
pub open spec fn preload_hint_written(m: PreloadHintAttributes) -> PreloadHintAttributes {
    PreloadHintAttributes { byterange_start: drop_integer(m.byterange_start, 0), ..m }
}

/// The attributes that an attribute list gives the `#EXT-X-PRELOAD-HINT` tag: each required
/// attribute must be present and of its kind; an optional attribute of the wrong kind is taken as
/// absent.
pub open spec fn preload_hint_spec(list: AttributeListView) -> Result<PreloadHintAttributes, ValidationError> {
    match utf8_attr(list, "TYPE"@) {
        Some(hint_type) => 
            match quoted_attr(list, "URI"@) {
                Some(uri) => 
                    Ok(PreloadHintAttributes {
                        hint_type,
                        uri,
                        byterange_start: integer_attr(list, "BYTERANGE-START"@),
                        byterange_length: integer_attr(list, "BYTERANGE-LENGTH"@),
                    }),
                None => Err(ValidationError::MissingRequiredAttribute("URI")),
            },
        None => Err(ValidationError::MissingRequiredAttribute("TYPE")),
    }
}

/// The attributes that a tag value gives the `#EXT-X-PRELOAD-HINT` tag.
pub open spec fn preload_hint_value_spec(value: Option<Seq<u8>>) -> Result<PreloadHintAttributes, ValidationError> {
    match typed_attribute_list_spec(value) {
        Ok(list) => preload_hint_spec(list),
        Err(e) => Err(e),
    }
}

/// The attributes of the `#EXT-X-PRELOAD-HINT` tag, as values.
#[derive(Debug)]
pub struct PreloadHintAttributeList {
    /// The value of the `TYPE` attribute.
    pub hint_type: String,
    /// The value of the `URI` attribute.
    pub uri: String,
    /// The value of the `BYTERANGE-START` attribute.
    pub byterange_start: Option<u64>,
    /// The value of the `BYTERANGE-LENGTH` attribute.
    pub byterange_length: Option<u64>,
}

impl PreloadHintAttributeList {
    /// The attributes.
    pub open spec fn view(&self) -> PreloadHintAttributes {
        PreloadHintAttributes {
            hint_type: self.hint_type@,
            uri: self.uri@,
            byterange_start: self.byterange_start,
            byterange_length: self.byterange_length,
        }
    }
}

fn calculate_line(a: &PreloadHintAttributeList) -> (r: Vec<u8>)
    ensures
        r@ == preload_hint_line(a.view()),
{
    let mut line = start_line(TagName::PreloadHint);
    line.push(58u8);
    push_unquoted_attribute(&mut line, "TYPE", a.hint_type.as_str().as_bytes());
    line.push(44u8);
    push_quoted_attribute(&mut line, "URI", a.uri.as_str());
    push_comma_integer(&mut line, "BYTERANGE-START", a.byterange_start);
    push_comma_integer(&mut line, "BYTERANGE-LENGTH", a.byterange_length);
    proof {
        assert(line@ =~= preload_hint_line(a.view()));
    }
    line
}

/// A builder for convenience in constructing a [`PreloadHint`].
#[derive(Debug)]
pub struct PreloadHintBuilder {
    attribute_list: PreloadHintAttributeList,
}

impl PreloadHintBuilder {
    /// The attributes built so far.
    pub closed spec fn view(&self) -> PreloadHintAttributes {
        self.attribute_list.view()
    }

    /// Creates a new builder.
    pub fn new(hint_type: &str, uri: &str) -> (r: Self)
        ensures
            r.view() == (PreloadHintAttributes { hint_type: hint_type@, uri: uri@, byterange_start: None, byterange_length: None }),
    {
        PreloadHintBuilder { attribute_list: PreloadHintAttributeList { hint_type: string_from(hint_type), uri: string_from(uri), byterange_start: None, byterange_length: None } }
    }

    /// Finishes building and constructs the `PreloadHint`.
    pub fn finish(self) -> (r: PreloadHint)
        ensures
            r.view() == self.view(),
            r.output() == preload_hint_line(self.view()),
    {
        PreloadHint::new(self.attribute_list)
    }

    /// Sets the `BYTERANGE-START` attribute.
    pub fn with_byterange_start(self, byterange_start: u64) -> (r: Self)
        ensures
            r.view() == (PreloadHintAttributes { byterange_start: Some(byterange_start), ..self.view() }),
    {
        let mut s = self;
        s.attribute_list.byterange_start = Some(byterange_start);
        s
    }

    /// Sets the `BYTERANGE-LENGTH` attribute.
    pub fn with_byterange_length(self, byterange_length: u64) -> (r: Self)
        ensures
            r.view() == (PreloadHintAttributes { byterange_length: Some(byterange_length), ..self.view() }),
    {
        let mut s = self;
        s.attribute_list.byterange_length = Some(byterange_length);
        s
    }

}

/// Corresponds to the `#EXT-X-PRELOAD-HINT` tag.
///
/// <https://datatracker.ietf.org/doc/html/draft-pantos-hls-rfc8216bis-17#section-4.4.5.3>
#[derive(Debug)]
pub struct PreloadHint {
    attribute_list: PreloadHintAttributeList,
    output_line: Vec<u8>,
    output_line_is_dirty: bool,
}

impl PreloadHint {
    /// The attributes of the tag.
    pub closed spec fn view(&self) -> PreloadHintAttributes {
        self.attribute_list.view()
    }

    /// The line that the tag writes: the parsed or built line until the tag is changed, then the
    /// line calculated from its attributes (without optional attributes at their defaults).
    pub closed spec fn output(&self) -> Seq<u8> {
        if self.output_line_is_dirty {
            preload_hint_line(preload_hint_written(self.attribute_list.view()))
        } else {
            self.output_line@
        }
    }

    /// Constructs a new tag with the attributes `attribute_list`.
    pub fn new(attribute_list: PreloadHintAttributeList) -> (r: PreloadHint)
        ensures
            r.view() == attribute_list.view(),
            r.output() == preload_hint_line(attribute_list.view()),
    {
        let output_line = calculate_line(&attribute_list);
        PreloadHint { attribute_list, output_line, output_line_is_dirty: false }
    }

    /// Starts a builder for producing a `PreloadHint`.
    pub fn builder(hint_type: &str, uri: &str) -> (r: PreloadHintBuilder)
        ensures
            r.view() == (PreloadHintAttributes { hint_type: hint_type@, uri: uri@, byterange_start: None, byterange_length: None }),
    {
        PreloadHintBuilder::new(hint_type, uri)
    }

    /// Reads the tag from a parsed tag line, whose value must be an attribute list.
    pub fn try_from(tag: unknown::Tag) -> (r: Result<PreloadHint, ValidationError>)
        ensures
            match preload_hint_value_spec(value_bytes(tag)) {
                Ok(m) => r matches Ok(t) && t.view() == m && t.output() == tag.original_input@,
                Err(e) => r == Err::<PreloadHint, ValidationError>(e),
            },
    {
        let list = typed_attribute_list_of(&tag)?;
        let hint_type = match get_unquoted_str(&list, "TYPE") {
            Some(v) => v,
            None => return Err(ValidationError::MissingRequiredAttribute("TYPE")),
        };
        let uri = match get_quoted(&list, "URI") {
            Some(v) => v,
            None => return Err(ValidationError::MissingRequiredAttribute("URI")),
        };
        let attribute_list = PreloadHintAttributeList {
            hint_type: string_from(hint_type),
            uri: string_from(uri),
            byterange_start: get_integer(&list, "BYTERANGE-START"),
            byterange_length: get_integer(&list, "BYTERANGE-LENGTH"),
        };
        let mut output_line: Vec<u8> = Vec::new();
        crate::utils::push_bytes(&mut output_line, tag.original_input);
        Ok(PreloadHint { attribute_list, output_line, output_line_is_dirty: false })
    }

    /// The attributes that the changed tag writes.
    fn written(&self) -> (r: PreloadHintAttributeList)
        ensures
            r.view() == preload_hint_written(self.view()),
    {
        PreloadHintAttributeList {
            hint_type: string_from(self.attribute_list.hint_type.as_str()),
            uri: string_from(self.attribute_list.uri.as_str()),
            byterange_start: if self.attribute_list.byterange_start == Some(0u64) {
                None
            } else {
                self.attribute_list.byterange_start
            },
            byterange_length: self.attribute_list.byterange_length,
        }
    }

    /// Corresponds to the `TYPE` attribute.
    pub fn hint_type(&self) -> (r: EnumeratedString<'_, PreloadHintType>)
        ensures
            reads_as_text(r, self.view().hint_type),
    {
        EnumeratedString::from_str(self.attribute_list.hint_type.as_str())
    }

    /// Corresponds to the `URI` attribute.
    pub fn uri(&self) -> (r: &str)
        ensures
            r@ == self.view().uri,
    {
        self.attribute_list.uri.as_str()
    }

    /// Corresponds to the `BYTERANGE-START` attribute (0 when absent).
    pub fn byterange_start(&self) -> (r: u64)
        ensures
            r == match self.view().byterange_start {
                Some(n) => n,
                None => 0,
            },
    {
        match self.attribute_list.byterange_start {
            Some(n) => n,
            None => 0,
        }
    }

    /// Corresponds to the `BYTERANGE-LENGTH` attribute.
    pub fn byterange_length(&self) -> (r: Option<u64>)
        ensures
            r == self.view().byterange_length,
    {
        self.attribute_list.byterange_length
    }

    /// Sets the `TYPE` attribute.
    pub fn set_hint_type(&mut self, hint_type: &str)
        ensures
            final(self).view() == (PreloadHintAttributes { hint_type: hint_type@, ..old(self).view() }),
            final(self).output() == preload_hint_line(preload_hint_written(final(self).view())),
    {
        self.attribute_list.hint_type = string_from(hint_type);
        self.output_line_is_dirty = true;
    }

    /// Sets the `URI` attribute.
    pub fn set_uri(&mut self, uri: &str)
        ensures
            final(self).view() == (PreloadHintAttributes { uri: uri@, ..old(self).view() }),
            final(self).output() == preload_hint_line(preload_hint_written(final(self).view())),
    {
        self.attribute_list.uri = string_from(uri);
        self.output_line_is_dirty = true;
    }

    /// Sets the `BYTERANGE-START` attribute.
    pub fn set_byterange_start(&mut self, byterange_start: u64)
        ensures
            final(self).view() == (PreloadHintAttributes { byterange_start: Some(byterange_start), ..old(self).view() }),
            final(self).output() == preload_hint_line(preload_hint_written(final(self).view())),
    {
        self.attribute_list.byterange_start = Some(byterange_start);
        self.output_line_is_dirty = true;
    }

    /// Removes the `BYTERANGE-START` attribute.
    pub fn unset_byterange_start(&mut self)
        ensures
            final(self).view() == (PreloadHintAttributes { byterange_start: None, ..old(self).view() }),
            final(self).output() == preload_hint_line(preload_hint_written(final(self).view())),
    {
        self.attribute_list.byterange_start = None;
        self.output_line_is_dirty = true;
    }

    /// Sets the `BYTERANGE-LENGTH` attribute.
    pub fn set_byterange_length(&mut self, byterange_length: u64)
        ensures
            final(self).view() == (PreloadHintAttributes { byterange_length: Some(byterange_length), ..old(self).view() }),
            final(self).output() == preload_hint_line(preload_hint_written(final(self).view())),
    {
        self.attribute_list.byterange_length = Some(byterange_length);
        self.output_line_is_dirty = true;
    }

    /// Removes the `BYTERANGE-LENGTH` attribute.
    pub fn unset_byterange_length(&mut self)
        ensures
            final(self).view() == (PreloadHintAttributes { byterange_length: None, ..old(self).view() }),
            final(self).output() == preload_hint_line(preload_hint_written(final(self).view())),
    {
        self.attribute_list.byterange_length = None;
        self.output_line_is_dirty = true;
    }

}

impl IntoInnerTag for PreloadHint {
    fn into_inner(self) -> (r: TagInner)
        ensures
            r.view() == self.output(),
    {
        if self.output_line_is_dirty {
            let written = self.written();
            TagInner::from_line(calculate_line(&written))
        } else {
            TagInner::from_line(self.output_line)
        }
    }
}

/// The `BYTERANGE-START` that a preload hint reads as: the attribute, or 0 when it is absent.
pub open spec fn byterange_start_or_default(a: PreloadHintAttributes) -> u64 {
    match a.byterange_start {
        Some(n) => n,
        None => 0,
    }
}

impl PartialEq for PreloadHint {
    fn eq(&self, other: &Self) -> (r: bool) {
        str_eq(self.attribute_list.hint_type.as_str(), other.attribute_list.hint_type.as_str())
            && str_eq(self.uri(), other.uri()) && self.byterange_start() == other.byterange_start()
            && match (self.byterange_length(), other.byterange_length()) {
            (Some(a), Some(b)) => a == b,
            (None, None) => true,
            _ => false,
        }
    }
}

impl vstd::std_specs::cmp::PartialEqSpecImpl for PreloadHint {
    open spec fn obeys_eq_spec() -> bool {
        true
    }

    open spec fn eq_spec(&self, other: &Self) -> bool {
        &&& self.view().hint_type == other.view().hint_type
        &&& self.view().uri == other.view().uri
        &&& byterange_start_or_default(self.view()) == byterange_start_or_default(other.view())
        &&& self.view().byterange_length == other.view().byterange_length
    }
}

/// The attributes of the tag in the order in which its line writes them.
pub open spec fn preload_hint_entries(m: PreloadHintAttributes) -> AttributeListView {
    push_integer_opt(push_integer_opt(seq![("TYPE"@, AttributeValueView::Unquoted(encode_utf8(m.hint_type)))].push(("URI"@, AttributeValueView::Quoted(m.uri))), "BYTERANGE-START"@, m.byterange_start), "BYTERANGE-LENGTH"@, m.byterange_length)
}

proof fn lemma_preload_hint_line_text(m: PreloadHintAttributes)
    ensures
        preload_hint_line(m) == line_start(TagName::PreloadHint) + seq![58u8] + attribute_list_text(
            preload_hint_entries(m),
        ),
{
    let l0 = seq![("TYPE"@, AttributeValueView::Unquoted(encode_utf8(m.hint_type)))];
    let l1 = l0.push(("URI"@, AttributeValueView::Quoted(m.uri)));
    let l2 = push_integer_opt(l1, "BYTERANGE-START"@, m.byterange_start);
    let l3 = push_integer_opt(l2, "BYTERANGE-LENGTH"@, m.byterange_length);
    assert(l3 == preload_hint_entries(m));
    assert(attribute_list_text(l0) =~= unquoted_attribute("TYPE"@, encode_utf8(m.hint_type)));
    lemma_attribute_list_text_push(l0, ("URI"@, AttributeValueView::Quoted(m.uri)));
    assert(attribute_text(("URI"@, AttributeValueView::Quoted(m.uri))) =~= quoted_attribute("URI"@, m.uri));
    lemma_push_integer_opt_text(l1, "BYTERANGE-START"@, m.byterange_start);
    lemma_push_integer_opt_text(l2, "BYTERANGE-LENGTH"@, m.byterange_length);
    assert(preload_hint_line(m) =~= line_start(TagName::PreloadHint) + seq![58u8] + attribute_list_text(l3));
}

proof fn lemma_preload_hint_entries_ok(m: PreloadHintAttributes)
    requires
        unquoted_value_ok(encode_utf8(m.hint_type)),
        quoted_value_ok(m.uri),
    ensures
        entries_ok(preload_hint_entries(m)),
{
    reveal_strlit("TYPE");
    reveal_strlit("URI");
    reveal_strlit("BYTERANGE-START");
    reveal_strlit("BYTERANGE-LENGTH");
    let l0 = seq![("TYPE"@, AttributeValueView::Unquoted(encode_utf8(m.hint_type)))];
    let l1 = l0.push(("URI"@, AttributeValueView::Quoted(m.uri)));
    let l2 = push_integer_opt(l1, "BYTERANGE-START"@, m.byterange_start);
    let l3 = push_integer_opt(l2, "BYTERANGE-LENGTH"@, m.byterange_length);
    assert(l3 == preload_hint_entries(m));
    lemma_entries_ok_one("TYPE"@, AttributeValueView::Unquoted(encode_utf8(m.hint_type)));
    lemma_entries_ok_push(l0, "URI"@, AttributeValueView::Quoted(m.uri));
    match m.byterange_start {
        Some(v) => {
            lemma_dec_unquoted_ok(v);
            lemma_entries_ok_push(l1, "BYTERANGE-START"@, AttributeValueView::Unquoted(dec(v as nat)));
        },
        None => {},
    }
    match m.byterange_length {
        Some(v) => {
            lemma_dec_unquoted_ok(v);
            lemma_entries_ok_push(l2, "BYTERANGE-LENGTH"@, AttributeValueView::Unquoted(dec(v as nat)));
        },
        None => {},
    }
}

proof fn lemma_preload_hint_lookup(m: PreloadHintAttributes)
    ensures
        preload_hint_spec(preload_hint_entries(m)) == Ok::<PreloadHintAttributes, ValidationError>(m),
{
    reveal_strlit("TYPE");
    reveal_strlit("URI");
    reveal_strlit("BYTERANGE-START");
    reveal_strlit("BYTERANGE-LENGTH");
    assert("TYPE"@.len() != "URI"@.len());
    assert("TYPE"@.len() != "BYTERANGE-START"@.len());
    assert("TYPE"@.len() != "BYTERANGE-LENGTH"@.len());
    assert("URI"@.len() != "BYTERANGE-START"@.len());
    assert("URI"@.len() != "BYTERANGE-LENGTH"@.len());
    assert("BYTERANGE-START"@.len() != "BYTERANGE-LENGTH"@.len());
    let l0 = seq![("TYPE"@, AttributeValueView::Unquoted(encode_utf8(m.hint_type)))];
    let l1 = l0.push(("URI"@, AttributeValueView::Quoted(m.uri)));
    let l2 = push_integer_opt(l1, "BYTERANGE-START"@, m.byterange_start);
    let l3 = push_integer_opt(l2, "BYTERANGE-LENGTH"@, m.byterange_length);
    assert(l3 == preload_hint_entries(m));
    lemma_lookup_push(Seq::empty(), ("TYPE"@, AttributeValueView::Unquoted(encode_utf8(m.hint_type))), "TYPE"@);
    lemma_lookup_push(Seq::empty(), ("TYPE"@, AttributeValueView::Unquoted(encode_utf8(m.hint_type))), "URI"@);
    lemma_lookup_push(Seq::empty(), ("TYPE"@, AttributeValueView::Unquoted(encode_utf8(m.hint_type))), "BYTERANGE-START"@);
    lemma_lookup_push(Seq::empty(), ("TYPE"@, AttributeValueView::Unquoted(encode_utf8(m.hint_type))), "BYTERANGE-LENGTH"@);
    assert(Seq::<(Seq<char>, AttributeValueView)>::empty().push(("TYPE"@, AttributeValueView::Unquoted(encode_utf8(m.hint_type)))) =~= l0);
    lemma_lookup_push(l0, ("URI"@, AttributeValueView::Quoted(m.uri)), "TYPE"@);
    lemma_lookup_push(l0, ("URI"@, AttributeValueView::Quoted(m.uri)), "URI"@);
    lemma_lookup_push(l0, ("URI"@, AttributeValueView::Quoted(m.uri)), "BYTERANGE-START"@);
    lemma_lookup_push(l0, ("URI"@, AttributeValueView::Quoted(m.uri)), "BYTERANGE-LENGTH"@);
    match m.byterange_start {
        Some(v) => {
            lemma_lookup_push(l1, ("BYTERANGE-START"@, AttributeValueView::Unquoted(dec(v as nat))), "TYPE"@);
            lemma_lookup_push(l1, ("BYTERANGE-START"@, AttributeValueView::Unquoted(dec(v as nat))), "URI"@);
            lemma_lookup_push(l1, ("BYTERANGE-START"@, AttributeValueView::Unquoted(dec(v as nat))), "BYTERANGE-START"@);
            lemma_lookup_push(l1, ("BYTERANGE-START"@, AttributeValueView::Unquoted(dec(v as nat))), "BYTERANGE-LENGTH"@);
        },
        None => {},
    }
    match m.byterange_length {
        Some(v) => {
            lemma_lookup_push(l2, ("BYTERANGE-LENGTH"@, AttributeValueView::Unquoted(dec(v as nat))), "TYPE"@);
            lemma_lookup_push(l2, ("BYTERANGE-LENGTH"@, AttributeValueView::Unquoted(dec(v as nat))), "URI"@);
            lemma_lookup_push(l2, ("BYTERANGE-LENGTH"@, AttributeValueView::Unquoted(dec(v as nat))), "BYTERANGE-START"@);
            lemma_lookup_push(l2, ("BYTERANGE-LENGTH"@, AttributeValueView::Unquoted(dec(v as nat))), "BYTERANGE-LENGTH"@);
        },
        None => {},
    }
    encode_utf8_valid_utf8(m.hint_type);
    encode_utf8_decode_utf8(m.hint_type);
    assert(utf8_attr(l3, "TYPE"@) == Some(m.hint_type));
    assert(quoted_attr(l3, "URI"@) == Some(m.uri));
    if let Some(v) = m.byterange_start {
        crate::utils::lemma_parse_u64_of_dec(v);
    }
    assert(integer_attr(l3, "BYTERANGE-START"@) == m.byterange_start);
    if let Some(v) = m.byterange_length {
        crate::utils::lemma_parse_u64_of_dec(v);
    }
    assert(integer_attr(l3, "BYTERANGE-LENGTH"@) == m.byterange_length);
}

/// Writing and then reading a preload hint gives it back: its line reads as its name with its
/// attributes as the value, and that value reads as the attributes, when no quoted value holds a
/// `"` or a line feed and no unquoted text value is empty, starts with `"`, or holds a `,` or a
/// line feed.
pub proof fn lemma_preload_hint_reads_back(m: PreloadHintAttributes)
    requires
        unquoted_value_ok(encode_utf8(m.hint_type)),
        quoted_value_ok(m.uri),
    ensures
        preload_hint_line(m) == line_start(TagName::PreloadHint) + seq![58u8] + attribute_list_text(
            preload_hint_entries(m),
        ),
        unknown::starts_with_ext(preload_hint_line(m)),
        unknown::tag_after_ext_spec(preload_hint_line(m).subrange(4, preload_hint_line(m).len() as int))
            == Ok::<(Seq<u8>, Option<Seq<u8>>, Option<Seq<u8>>), UnknownTagSyntaxError>((
            encode_utf8(tag_name_text(TagName::PreloadHint)),
            Some(attribute_list_text(preload_hint_entries(m))),
            None,
        )),
        preload_hint_value_spec(Some(attribute_list_text(preload_hint_entries(m)))) == Ok::<
            PreloadHintAttributes,
            ValidationError,
        >(m),
{
    let l = preload_hint_entries(m);
    let text = attribute_list_text(l);
    lemma_preload_hint_line_text(m);
    let rest = seq![58u8] + text;
    lemma_line_after_ext(TagName::PreloadHint, rest);
    assert(preload_hint_line(m) =~= line_start(TagName::PreloadHint) + rest);
    assert(encode_utf8(tag_name_text(TagName::PreloadHint)) + rest =~= encode_utf8(
        tag_name_text(TagName::PreloadHint),
    ) + seq![58u8] + text);
    lemma_tag_name_plain(TagName::PreloadHint);
    lemma_preload_hint_entries_ok(m);
    lemma_attribute_list_text_free_of_line_feed(l);
    unknown::lemma_read_written_tag(encode_utf8(tag_name_text(TagName::PreloadHint)), text);
    lemma_attribute_list_reads_back(l);
    lemma_attribute_list_text_kind(l);
    lemma_preload_hint_lookup(m);
}

/// The text of each value of [`PreloadHintType`] is the one that the HLS specification gives it.
pub proof fn lemma_preload_hint_type_texts()
    ensures
        PreloadHintType::Part.text() == "PART"@,
        PreloadHintType::XMap.text() == "MAP"@,
{
}

} // verus!
