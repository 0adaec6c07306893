//! The `#EXT-X-SESSION-DATA` tag.

use vstd::prelude::*;
use vstd::string::StringSliceAdditionalSpecFns;
use vstd::utf8::*;
use core::marker::PhantomData;

use crate::error::{UnknownTagSyntaxError, UnrecognizedEnumerationError, ValidationError};
use crate::tag::hls::enumerated_string::{
    reads_as_text, AsStaticCow, EnumeratedString, EnumeratedValue,
};
use crate::tag::hls::{
    lemma_attribute_list_text_kind,
    opt_str_eq, typed_attribute_list_of, typed_attribute_list_spec, comma_integer, comma_quoted,
    comma_unquoted, copy_opt, drop_integer, drop_text, get_integer, get_quoted,
    get_unquoted_str, integer_attr, line_start, opt_encode, opt_string, opt_text,
    push_comma_integer, push_comma_quoted, push_comma_unquoted_str, push_integer_attribute,
    push_quoted_attribute, push_unquoted_attribute, quoted_attr, quoted_attribute, start_line,
    unquoted_attribute, utf8_attr, value_bytes, without_text, TagName, entries_ok,
    lemma_attribute_list_text_free_of_line_feed, lemma_dec_unquoted_ok, lemma_entries_ok_one,
    lemma_entries_ok_push, lemma_line_after_ext, lemma_lookup_push, lemma_push_integer_opt_text,
    lemma_push_quoted_opt_text, lemma_push_unquoted_opt_text, lemma_tag_name_plain,
    push_integer_opt, push_quoted_opt, push_unquoted_opt, quoted_value_ok, tag_name_text,
    unquoted_value_ok,
};
use crate::tag::known::{IntoInnerTag, TagInner};
use crate::tag::unknown;
use crate::tag::value::{
    AttributeListView, attribute_list_text, lemma_attribute_list_reads_back,
    lemma_attribute_list_text_push, attribute_text, AttributeValueView,
};
use crate::utils::{dec, str_eq, string_from};

verus! {

/// Corresponds to the `FORMAT` attribute of `#EXT-X-SESSION-DATA`.
#[derive(Debug, Clone, Copy, PartialEq, Eq, Structural)]
pub enum Format {
    /// The URI references a JSON (RFC8259) file.
    Json,
    /// The URI is treated as a binary file.
    Raw,
}

impl AsStaticCow for Format {
    open spec fn obeys_text_spec() -> bool {
        true
    }

    open spec fn text(&self) -> Seq<char> {
        match self {
            Format::Json => "JSON"@,
            Format::Raw => "RAW"@,
        }
    }

    fn as_cow(&self) -> (r: String)
        ensures
            r@ == self.text(),
    {
        match self {
            Format::Json => string_from("JSON"),
            Format::Raw => string_from("RAW"),
        }
    }
}

impl EnumeratedValue for Format {
    open spec fn from_text(s: Seq<char>) -> Option<Self> {
        if s == "JSON"@ {
            Some(Format::Json)
        } else if s == "RAW"@ {
            Some(Format::Raw)
        } else {
            None
        }
    }

    fn try_from_str(value: &str) -> (r: Result<Self, UnrecognizedEnumerationError<'_>>)
        ensures
            match Self::from_text(value@) {
                Some(t) => r == Ok::<Self, UnrecognizedEnumerationError<'_>>(t),
                None => r matches Err(e) && e.value == value,
            },
    {
        if str_eq(value, "JSON") {
            return Ok(Format::Json);
        }
        if str_eq(value, "RAW") {
            return Ok(Format::Raw);
        }
        Err(UnrecognizedEnumerationError::new(value))
    }
}

/// Reading back the text of any [`Format`] gives that value.
pub proof fn lemma_format_round_trip(v: Format)
    ensures
        Format::from_text(v.text()) == Some(v),
{
    match v {
        Format::Json => {
            reveal_strlit("JSON");
        },
        Format::Raw => {
            reveal_strlit("RAW");
            reveal_strlit("JSON");
            assert("JSON"@.len() != "RAW"@.len());
        },
    }
}

/// The attributes of the `#EXT-X-SESSION-DATA` tag.
pub struct SessionDataAttributes {
    /// The value of the `DATA-ID` attribute.
    pub data_id: Seq<char>,
    /// The value of the `VALUE` attribute.
    pub value: Option<Seq<char>>,
    /// The value of the `URI` attribute.
    pub uri: Option<Seq<char>>,
    /// The value of the `FORMAT` attribute.
    pub format: Option<Seq<char>>,
    /// The value of the `LANGUAGE` attribute.
    pub language: Option<Seq<char>>,
}

/// The line of the `#EXT-X-SESSION-DATA` tag with the attributes `m`: the required attributes, then
/// each optional attribute that is present, in a fixed order.
pub open spec fn session_data_line(m: SessionDataAttributes) -> Seq<u8> {
    line_start(TagName::SessionData) + seq![58u8] + quoted_attribute("DATA-ID"@, m.data_id)
        + comma_quoted("VALUE"@, m.value)
        + comma_quoted("URI"@, m.uri)
        + comma_unquoted("FORMAT"@, opt_encode(m.format))
        + comma_quoted("LANGUAGE"@, m.language)
}

/// The attributes that a changed tag writes: an optional attribute that holds its default value
/// is left out.
pub open spec fn session_data_written(m: SessionDataAttributes) -> SessionDataAttributes {
    SessionDataAttributes { format: drop_text(m.format, "JSON"@), ..m }
}

/// The attributes that an attribute list gives the `#EXT-X-SESSION-DATA` tag: each required
/// attribute must be present and of its kind; an optional attribute of the wrong kind is taken as
/// absent.
pub open spec fn session_data_spec(list: AttributeListView) -> Result<SessionDataAttributes, ValidationError> {
    match quoted_attr(list, "DATA-ID"@) {
        Some(data_id) => 
            Ok(SessionDataAttributes {
                data_id,
                value: quoted_attr(list, "VALUE"@),
                uri: quoted_attr(list, "URI"@),
                format: utf8_attr(list, "FORMAT"@),
                language: quoted_attr(list, "LANGUAGE"@),
            }),
        None => Err(ValidationError::MissingRequiredAttribute("DATA-ID")),
    }
}

/// The attributes that a tag value gives the `#EXT-X-SESSION-DATA` tag.
pub open spec fn session_data_value_spec(value: Option<Seq<u8>>) -> Result<SessionDataAttributes, ValidationError> {
    match typed_attribute_list_spec(value) {
        Ok(list) => session_data_spec(list),
        Err(e) => Err(e),
    }
}

/// The attributes of the `#EXT-X-SESSION-DATA` tag, as values.
#[derive(Debug)]
pub struct SessionDataAttributeList {
    /// The value of the `DATA-ID` attribute.
    pub data_id: String,
    /// The value of the `VALUE` attribute.
    pub value: Option<String>,
    /// The value of the `URI` attribute.
    pub uri: Option<String>,
    /// The value of the `FORMAT` attribute.
    pub format: Option<String>,
    /// The value of the `LANGUAGE` attribute.
    pub language: Option<String>,
}

impl SessionDataAttributeList {
    /// The attributes.
    pub open spec fn view(&self) -> SessionDataAttributes {
        SessionDataAttributes {
            data_id: self.data_id@,
            value: opt_string(self.value),
            uri: opt_string(self.uri),
            format: opt_string(self.format),
            language: opt_string(self.language),
        }
    }
}

fn calculate_line(a: &SessionDataAttributeList) -> (r: Vec<u8>)
    ensures
        r@ == session_data_line(a.view()),
{
    let mut line = start_line(TagName::SessionData);
    line.push(58u8);
    push_quoted_attribute(&mut line, "DATA-ID", a.data_id.as_str());
    push_comma_quoted(&mut line, "VALUE", &a.value);
    push_comma_quoted(&mut line, "URI", &a.uri);
    push_comma_unquoted_str(&mut line, "FORMAT", &a.format);
    push_comma_quoted(&mut line, "LANGUAGE", &a.language);
    proof {
        assert(line@ =~= session_data_line(a.view()));
    }
    line
}

/// A builder for convenience in constructing a [`SessionData`].
#[derive(Debug)]
pub struct SessionDataBuilder {
    attribute_list: SessionDataAttributeList,
}

impl SessionDataBuilder {
    /// The attributes built so far.
    pub closed spec fn view(&self) -> SessionDataAttributes {
        self.attribute_list.view()
    }

    /// Creates a new builder.
    pub fn new(data_id: &str) -> (r: Self)
        ensures
            r.view() == (SessionDataAttributes { data_id: data_id@, value: None, uri: None, format: None, language: None }),
    {
        SessionDataBuilder { attribute_list: SessionDataAttributeList { data_id: string_from(data_id), value: None, uri: None, format: None, language: None } }
    }

    /// Finishes building and constructs the `SessionData`.
    pub fn finish(self) -> (r: SessionData)
        ensures
            r.view() == self.view(),
            r.output() == session_data_line(self.view()),
    {
        SessionData::new(self.attribute_list)
    }

    /// Sets the `VALUE` attribute.
    pub fn with_value(self, value: &str) -> (r: Self)
        ensures
            r.view() == (SessionDataAttributes { value: Some(value@), ..self.view() }),
    {
        let mut s = self;
        s.attribute_list.value = Some(string_from(value));
        s
    }

    /// Sets the `URI` attribute.
    pub fn with_uri(self, uri: &str) -> (r: Self)
        ensures
            r.view() == (SessionDataAttributes { uri: Some(uri@), ..self.view() }),
    {
        let mut s = self;
        s.attribute_list.uri = Some(string_from(uri));
        s
    }

    /// Sets the `FORMAT` attribute.
    pub fn with_format(self, format: &str) -> (r: Self)
        ensures
            r.view() == (SessionDataAttributes { format: Some(format@), ..self.view() }),
    {
        let mut s = self;
        s.attribute_list.format = Some(string_from(format));
        s
    }

    /// Sets the `LANGUAGE` attribute.
    pub fn with_language(self, language: &str) -> (r: Self)
        ensures
            r.view() == (SessionDataAttributes { language: Some(language@), ..self.view() }),
    {
        let mut s = self;
        s.attribute_list.language = Some(string_from(language));
        s
    }

}

/// Corresponds to the `#EXT-X-SESSION-DATA` tag.
///
/// <https://datatracker.ietf.org/doc/html/draft-pantos-hls-rfc8216bis-17#section-4.4.6.4>
#[derive(Debug)]
pub struct SessionData {
    attribute_list: SessionDataAttributeList,
    output_line: Vec<u8>,
    output_line_is_dirty: bool,
}

impl SessionData {
    /// The attributes of the tag.
    pub closed spec fn view(&self) -> SessionDataAttributes {
        self.attribute_list.view()
    }

    /// The line that the tag writes: the parsed or built line until the tag is changed, then the
    /// line calculated from its attributes (without optional attributes at their defaults).
    pub closed spec fn output(&self) -> Seq<u8> {
        if self.output_line_is_dirty {
            session_data_line(session_data_written(self.attribute_list.view()))
        } else {
            self.output_line@
        }
    }

    /// Constructs a new tag with the attributes `attribute_list`.
    pub fn new(attribute_list: SessionDataAttributeList) -> (r: SessionData)
        ensures
            r.view() == attribute_list.view(),
            r.output() == session_data_line(attribute_list.view()),
    {
        let output_line = calculate_line(&attribute_list);
        SessionData { attribute_list, output_line, output_line_is_dirty: false }
    }

    /// Starts a builder for producing a `SessionData`.
    pub fn builder(data_id: &str) -> (r: SessionDataBuilder)
        ensures
            r.view() == (SessionDataAttributes { data_id: data_id@, value: None, uri: None, format: None, language: None }),
    {
        SessionDataBuilder::new(data_id)
    }

    /// Reads the tag from a parsed tag line, whose value must be an attribute list.
    pub fn try_from(tag: unknown::Tag) -> (r: Result<SessionData, ValidationError>)
        ensures
            match session_data_value_spec(value_bytes(tag)) {
                Ok(m) => r matches Ok(t) && t.view() == m && t.output() == tag.original_input@,
                Err(e) => r == Err::<SessionData, ValidationError>(e),
            },
    {
        let list = typed_attribute_list_of(&tag)?;
        let data_id = match get_quoted(&list, "DATA-ID") {
            Some(v) => v,
            None => return Err(ValidationError::MissingRequiredAttribute("DATA-ID")),
        };
        let attribute_list = SessionDataAttributeList {
            data_id: string_from(data_id),
            value: copy_opt(get_quoted(&list, "VALUE")),
            uri: copy_opt(get_quoted(&list, "URI")),
            format: copy_opt(get_unquoted_str(&list, "FORMAT")),
            language: copy_opt(get_quoted(&list, "LANGUAGE")),
        };
        let mut output_line: Vec<u8> = Vec::new();
        crate::utils::push_bytes(&mut output_line, tag.original_input);
        Ok(SessionData { attribute_list, output_line, output_line_is_dirty: false })
    }

    /// The attributes that the changed tag writes.
    fn written(&self) -> (r: SessionDataAttributeList)
        ensures
            r.view() == session_data_written(self.view()),
    {
        SessionDataAttributeList {
            data_id: string_from(self.attribute_list.data_id.as_str()),
            value: copy_opt(self.opt_value()),
            uri: copy_opt(self.opt_uri()),
            format: without_text(&self.attribute_list.format, "JSON"),
            language: copy_opt(self.opt_language()),
        }
    }

    /// Corresponds to the `DATA-ID` attribute.
    pub fn data_id(&self) -> (r: &str)
        ensures
            r@ == self.view().data_id,
    {
        self.attribute_list.data_id.as_str()
    }

    /// Corresponds to the `VALUE` attribute.
    pub fn value(&self) -> (r: Option<&str>)
        ensures
            opt_text(r) == self.view().value,
    {
        self.opt_value()
    }

    /// Corresponds to the `URI` attribute.
    pub fn uri(&self) -> (r: Option<&str>)
        ensures
            opt_text(r) == self.view().uri,
    {
        self.opt_uri()
    }

    /// Corresponds to the `FORMAT` attribute (`JSON` when absent).
    pub fn format(&self) -> (r: EnumeratedString<'_, Format>)
        ensures
            match self.view().format {
                Some(v) => reads_as_text(r, v),
                None => r == EnumeratedString::<'_, Format>::Known(Format::Json),
            },
    {
        match &self.attribute_list.format {
            Some(v) => EnumeratedString::from_str(v.as_str()),
            None => EnumeratedString::Known(Format::Json),
        }
    }

    /// Corresponds to the `LANGUAGE` attribute.
    pub fn language(&self) -> (r: Option<&str>)
        ensures
            opt_text(r) == self.view().language,
    {
        self.opt_language()
    }

    fn opt_value(&self) -> (r: Option<&str>)
        ensures
            opt_text(r) == self.view().value,
    {
        match &self.attribute_list.value {
            Some(v) => Some(v.as_str()),
            None => None,
        }
    }

    fn opt_uri(&self) -> (r: Option<&str>)
        ensures
            opt_text(r) == self.view().uri,
    {
        match &self.attribute_list.uri {
            Some(v) => Some(v.as_str()),
            None => None,
        }
    }

    fn opt_format(&self) -> (r: Option<&str>)
        ensures
            opt_text(r) == self.view().format,
    {
        match &self.attribute_list.format {
            Some(v) => Some(v.as_str()),
            None => None,
        }
    }

    fn opt_language(&self) -> (r: Option<&str>)
        ensures
            opt_text(r) == self.view().language,
    {
        match &self.attribute_list.language {
            Some(v) => Some(v.as_str()),
            None => None,
        }
    }

    /// Sets the `DATA-ID` attribute.
    pub fn set_data_id(&mut self, data_id: &str)
        ensures
            final(self).view() == (SessionDataAttributes { data_id: data_id@, ..old(self).view() }),
            final(self).output() == session_data_line(session_data_written(final(self).view())),
    {
        self.attribute_list.data_id = string_from(data_id);
        self.output_line_is_dirty = true;
    }

    /// Sets the `VALUE` attribute.
    pub fn set_value(&mut self, value: &str)
        ensures
            final(self).view() == (SessionDataAttributes { value: Some(value@), ..old(self).view() }),
            final(self).output() == session_data_line(session_data_written(final(self).view())),
    {
        self.attribute_list.value = Some(string_from(value));
        self.output_line_is_dirty = true;
    }

    /// Removes the `VALUE` attribute.
    pub fn unset_value(&mut self)
        ensures
            final(self).view() == (SessionDataAttributes { value: None, ..old(self).view() }),
            final(self).output() == session_data_line(session_data_written(final(self).view())),
    {
        self.attribute_list.value = None;
        self.output_line_is_dirty = true;
    }

    /// Sets the `URI` attribute.
    pub fn set_uri(&mut self, uri: &str)
        ensures
            final(self).view() == (SessionDataAttributes { uri: Some(uri@), ..old(self).view() }),
            final(self).output() == session_data_line(session_data_written(final(self).view())),
    {
        self.attribute_list.uri = Some(string_from(uri));
        self.output_line_is_dirty = true;
    }

    /// Removes the `URI` attribute.
    pub fn unset_uri(&mut self)
        ensures
            final(self).view() == (SessionDataAttributes { uri: None, ..old(self).view() }),
            final(self).output() == session_data_line(session_data_written(final(self).view())),
    {
        self.attribute_list.uri = None;
        self.output_line_is_dirty = true;
    }

    /// Sets the `FORMAT` attribute.
    pub fn set_format(&mut self, format: &str)
        ensures
            final(self).view() == (SessionDataAttributes { format: Some(format@), ..old(self).view() }),
            final(self).output() == session_data_line(session_data_written(final(self).view())),
    {
        self.attribute_list.format = Some(string_from(format));
        self.output_line_is_dirty = true;
    }

    /// Removes the `FORMAT` attribute.
    pub fn unset_format(&mut self)
        ensures
            final(self).view() == (SessionDataAttributes { format: None, ..old(self).view() }),
            final(self).output() == session_data_line(session_data_written(final(self).view())),
    {
        self.attribute_list.format = None;
        self.output_line_is_dirty = true;
    }

    /// Sets the `LANGUAGE` attribute.
    pub fn set_language(&mut self, language: &str)
        ensures
            final(self).view() == (SessionDataAttributes { language: Some(language@), ..old(self).view() }),
            final(self).output() == session_data_line(session_data_written(final(self).view())),
    {
        self.attribute_list.language = Some(string_from(language));
        self.output_line_is_dirty = true;
    }

    /// Removes the `LANGUAGE` attribute.
    pub fn unset_language(&mut self)
        ensures
            final(self).view() == (SessionDataAttributes { language: None, ..old(self).view() }),
            final(self).output() == session_data_line(session_data_written(final(self).view())),
    {
        self.attribute_list.language = None;
        self.output_line_is_dirty = true;
    }

}

impl IntoInnerTag for SessionData {
    fn into_inner(self) -> (r: TagInner)
        ensures
            r.view() == self.output(),
    {
        if self.output_line_is_dirty {
            let written = self.written();
            TagInner::from_line(calculate_line(&written))
        } else {
            TagInner::from_line(self.output_line)
        }
    }
}

/// The text of the `FORMAT` that session data reads as: the attribute, or `JSON` when it is
/// absent.
pub open spec fn format_or_default(a: SessionDataAttributes) -> Seq<char> {
    match a.format {
        Some(v) => v,
        None => "JSON"@,
    }
}

/// The text of a `FORMAT` attribute, `JSON` when it is absent.
fn format_text(format: &Option<String>) -> (r: &str)
    ensures
        r@ == match format {
            Some(v) => v@,
            None => "JSON"@,
        },
{
    match format {
        Some(v) => v.as_str(),
        None => "JSON",
    }
}

impl PartialEq for SessionData {
    fn eq(&self, other: &Self) -> (r: bool) {
        str_eq(self.data_id(), other.data_id()) && opt_str_eq(self.value(), other.value())
            && opt_str_eq(self.uri(), other.uri()) && str_eq(
            format_text(&self.attribute_list.format),
            format_text(&other.attribute_list.format),
        ) && opt_str_eq(self.language(), other.language())
    }
}

impl vstd::std_specs::cmp::PartialEqSpecImpl for SessionData {
    open spec fn obeys_eq_spec() -> bool {
        true
    }

    open spec fn eq_spec(&self, other: &Self) -> bool {
        &&& self.view().data_id == other.view().data_id
        &&& self.view().value == other.view().value
        &&& self.view().uri == other.view().uri
        &&& format_or_default(self.view()) == format_or_default(other.view())
        &&& self.view().language == other.view().language
    }
}

/// The attributes of the tag in the order in which its line writes them.
pub open spec fn session_data_entries(m: SessionDataAttributes) -> AttributeListView {
    push_quoted_opt(push_unquoted_opt(push_quoted_opt(push_quoted_opt(seq![("DATA-ID"@, AttributeValueView::Quoted(m.data_id))], "VALUE"@, m.value), "URI"@, m.uri), "FORMAT"@, opt_encode(m.format)), "LANGUAGE"@, m.language)
}

proof fn lemma_session_data_line_text(m: SessionDataAttributes)
    ensures
        session_data_line(m) == line_start(TagName::SessionData) + seq![58u8] + attribute_list_text(
            session_data_entries(m),
        ),
{
    let l0 = seq![("DATA-ID"@, AttributeValueView::Quoted(m.data_id))];
    let l1 = push_quoted_opt(l0, "VALUE"@, m.value);
    let l2 = push_quoted_opt(l1, "URI"@, m.uri);
    let l3 = push_unquoted_opt(l2, "FORMAT"@, opt_encode(m.format));
    let l4 = push_quoted_opt(l3, "LANGUAGE"@, m.language);
    assert(l4 == session_data_entries(m));
    assert(attribute_list_text(l0) =~= quoted_attribute("DATA-ID"@, m.data_id));
    lemma_push_quoted_opt_text(l0, "VALUE"@, m.value);
    lemma_push_quoted_opt_text(l1, "URI"@, m.uri);
    lemma_push_unquoted_opt_text(l2, "FORMAT"@, opt_encode(m.format));
    lemma_push_quoted_opt_text(l3, "LANGUAGE"@, m.language);
    assert(session_data_line(m) =~= line_start(TagName::SessionData) + seq![58u8] + attribute_list_text(l4));
}

proof fn lemma_session_data_entries_ok(m: SessionDataAttributes)
    requires
        quoted_value_ok(m.data_id),
        m.value matches Some(v) ==> quoted_value_ok(v),
        m.uri matches Some(v) ==> quoted_value_ok(v),
        m.format matches Some(v) ==> unquoted_value_ok(encode_utf8(v)),
        m.language matches Some(v) ==> quoted_value_ok(v),
    ensures
        entries_ok(session_data_entries(m)),
{
    reveal_strlit("DATA-ID");
    reveal_strlit("VALUE");
    reveal_strlit("URI");
    reveal_strlit("FORMAT");
    reveal_strlit("LANGUAGE");
    let l0 = seq![("DATA-ID"@, AttributeValueView::Quoted(m.data_id))];
    let l1 = push_quoted_opt(l0, "VALUE"@, m.value);
    let l2 = push_quoted_opt(l1, "URI"@, m.uri);
    let l3 = push_unquoted_opt(l2, "FORMAT"@, opt_encode(m.format));
    let l4 = push_quoted_opt(l3, "LANGUAGE"@, m.language);
    assert(l4 == session_data_entries(m));
    lemma_entries_ok_one("DATA-ID"@, AttributeValueView::Quoted(m.data_id));
    match m.value {
        Some(v) => {
            lemma_entries_ok_push(l0, "VALUE"@, AttributeValueView::Quoted(v));
        },
        None => {},
    }
    match m.uri {
        Some(v) => {
            lemma_entries_ok_push(l1, "URI"@, AttributeValueView::Quoted(v));
        },
        None => {},
    }
    match m.format {
        Some(v) => {
            lemma_entries_ok_push(l2, "FORMAT"@, AttributeValueView::Unquoted(encode_utf8(v)));
        },
        None => {},
    }
    match m.language {
        Some(v) => {
            lemma_entries_ok_push(l3, "LANGUAGE"@, AttributeValueView::Quoted(v));
        },
        None => {},
    }
}

proof fn lemma_session_data_lookup(m: SessionDataAttributes)
    ensures
        session_data_spec(session_data_entries(m)) == Ok::<SessionDataAttributes, ValidationError>(m),
{
    reveal_strlit("DATA-ID");
    reveal_strlit("VALUE");
    reveal_strlit("URI");
    reveal_strlit("FORMAT");
    reveal_strlit("LANGUAGE");
    assert("DATA-ID"@.len() != "VALUE"@.len());
    assert("DATA-ID"@.len() != "URI"@.len());
    assert("DATA-ID"@.len() != "FORMAT"@.len());
    assert("DATA-ID"@.len() != "LANGUAGE"@.len());
    assert("VALUE"@.len() != "URI"@.len());
    assert("VALUE"@.len() != "FORMAT"@.len());
    assert("VALUE"@.len() != "LANGUAGE"@.len());
    assert("URI"@.len() != "FORMAT"@.len());
    assert("URI"@.len() != "LANGUAGE"@.len());
    assert("FORMAT"@.len() != "LANGUAGE"@.len());
    let l0 = seq![("DATA-ID"@, AttributeValueView::Quoted(m.data_id))];
    let l1 = push_quoted_opt(l0, "VALUE"@, m.value);
    let l2 = push_quoted_opt(l1, "URI"@, m.uri);
    let l3 = push_unquoted_opt(l2, "FORMAT"@, opt_encode(m.format));
    let l4 = push_quoted_opt(l3, "LANGUAGE"@, m.language);
    assert(l4 == session_data_entries(m));
    lemma_lookup_push(Seq::empty(), ("DATA-ID"@, AttributeValueView::Quoted(m.data_id)), "DATA-ID"@);
    lemma_lookup_push(Seq::empty(), ("DATA-ID"@, AttributeValueView::Quoted(m.data_id)), "VALUE"@);
    lemma_lookup_push(Seq::empty(), ("DATA-ID"@, AttributeValueView::Quoted(m.data_id)), "URI"@);
    lemma_lookup_push(Seq::empty(), ("DATA-ID"@, AttributeValueView::Quoted(m.data_id)), "FORMAT"@);
    lemma_lookup_push(Seq::empty(), ("DATA-ID"@, AttributeValueView::Quoted(m.data_id)), "LANGUAGE"@);
    assert(Seq::<(Seq<char>, AttributeValueView)>::empty().push(("DATA-ID"@, AttributeValueView::Quoted(m.data_id))) =~= l0);
    match m.value {
        Some(v) => {
            lemma_lookup_push(l0, ("VALUE"@, AttributeValueView::Quoted(v)), "DATA-ID"@);
            lemma_lookup_push(l0, ("VALUE"@, AttributeValueView::Quoted(v)), "VALUE"@);
            lemma_lookup_push(l0, ("VALUE"@, AttributeValueView::Quoted(v)), "URI"@);
            lemma_lookup_push(l0, ("VALUE"@, AttributeValueView::Quoted(v)), "FORMAT"@);
            lemma_lookup_push(l0, ("VALUE"@, AttributeValueView::Quoted(v)), "LANGUAGE"@);
        },
        None => {},
    }
    match m.uri {
        Some(v) => {
            lemma_lookup_push(l1, ("URI"@, AttributeValueView::Quoted(v)), "DATA-ID"@);
            lemma_lookup_push(l1, ("URI"@, AttributeValueView::Quoted(v)), "VALUE"@);
            lemma_lookup_push(l1, ("URI"@, AttributeValueView::Quoted(v)), "URI"@);
            lemma_lookup_push(l1, ("URI"@, AttributeValueView::Quoted(v)), "FORMAT"@);
            lemma_lookup_push(l1, ("URI"@, AttributeValueView::Quoted(v)), "LANGUAGE"@);
        },
        None => {},
    }
    match m.format {
        Some(v) => {
            lemma_lookup_push(l2, ("FORMAT"@, AttributeValueView::Unquoted(encode_utf8(v))), "DATA-ID"@);
            lemma_lookup_push(l2, ("FORMAT"@, AttributeValueView::Unquoted(encode_utf8(v))), "VALUE"@);
            lemma_lookup_push(l2, ("FORMAT"@, AttributeValueView::Unquoted(encode_utf8(v))), "URI"@);
            lemma_lookup_push(l2, ("FORMAT"@, AttributeValueView::Unquoted(encode_utf8(v))), "FORMAT"@);
            lemma_lookup_push(l2, ("FORMAT"@, AttributeValueView::Unquoted(encode_utf8(v))), "LANGUAGE"@);
        },
        None => {},
    }
    match m.language {
        Some(v) => {
            lemma_lookup_push(l3, ("LANGUAGE"@, AttributeValueView::Quoted(v)), "DATA-ID"@);
            lemma_lookup_push(l3, ("LANGUAGE"@, AttributeValueView::Quoted(v)), "VALUE"@);
            lemma_lookup_push(l3, ("LANGUAGE"@, AttributeValueView::Quoted(v)), "URI"@);
            lemma_lookup_push(l3, ("LANGUAGE"@, AttributeValueView::Quoted(v)), "FORMAT"@);
            lemma_lookup_push(l3, ("LANGUAGE"@, AttributeValueView::Quoted(v)), "LANGUAGE"@);
        },
        None => {},
    }
    assert(quoted_attr(l4, "DATA-ID"@) == Some(m.data_id));
    assert(quoted_attr(l4, "VALUE"@) == m.value);
    assert(quoted_attr(l4, "URI"@) == m.uri);
    if let Some(v) = m.format {
        encode_utf8_valid_utf8(v);
        encode_utf8_decode_utf8(v);
    }
    assert(utf8_attr(l4, "FORMAT"@) == m.format);
    assert(quoted_attr(l4, "LANGUAGE"@) == m.language);
}

/// Writing and then reading session data gives it back: its line reads as its name with its
/// attributes as the value, and that value reads as the attributes, when no quoted value holds a
/// `"` or a line feed and no unquoted text value is empty, starts with `"`, or holds a `,` or a
/// line feed.
pub proof fn lemma_session_data_reads_back(m: SessionDataAttributes)
    requires
        quoted_value_ok(m.data_id),
        m.value matches Some(v) ==> quoted_value_ok(v),
        m.uri matches Some(v) ==> quoted_value_ok(v),
        m.format matches Some(v) ==> unquoted_value_ok(encode_utf8(v)),
        m.language matches Some(v) ==> quoted_value_ok(v),
    ensures
        session_data_line(m) == line_start(TagName::SessionData) + seq![58u8] + attribute_list_text(
            session_data_entries(m),
        ),
        unknown::starts_with_ext(session_data_line(m)),
        unknown::tag_after_ext_spec(session_data_line(m).subrange(4, session_data_line(m).len() as int))
            == Ok::<(Seq<u8>, Option<Seq<u8>>, Option<Seq<u8>>), UnknownTagSyntaxError>((
            encode_utf8(tag_name_text(TagName::SessionData)),
            Some(attribute_list_text(session_data_entries(m))),
            None,
        )),
        session_data_value_spec(Some(attribute_list_text(session_data_entries(m)))) == Ok::<
            SessionDataAttributes,
            ValidationError,
        >(m),
{
    let l = session_data_entries(m);
    let text = attribute_list_text(l);
    lemma_session_data_line_text(m);
    let rest = seq![58u8] + text;
    lemma_line_after_ext(TagName::SessionData, rest);
    assert(session_data_line(m) =~= line_start(TagName::SessionData) + rest);
    assert(encode_utf8(tag_name_text(TagName::SessionData)) + rest =~= encode_utf8(
        tag_name_text(TagName::SessionData),
    ) + seq![58u8] + text);
    lemma_tag_name_plain(TagName::SessionData);
    lemma_session_data_entries_ok(m);
    lemma_attribute_list_text_free_of_line_feed(l);
    unknown::lemma_read_written_tag(encode_utf8(tag_name_text(TagName::SessionData)), text);
    lemma_attribute_list_reads_back(l);
    lemma_attribute_list_text_kind(l);
    lemma_session_data_lookup(m);
}

/// The text of each value of [`Format`] is the one that the HLS specification gives it.
pub proof fn lemma_format_texts()
    ensures
        Format::Json.text() == "JSON"@,
        Format::Raw.text() == "RAW"@,
{
}

} // verus!
