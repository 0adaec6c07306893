//! The `#EXT-X-SESSION-KEY` tag.

use vstd::prelude::*;
use vstd::string::StringSliceAdditionalSpecFns;
use vstd::utf8::*;
use core::marker::PhantomData;

use crate::error::{UnknownTagSyntaxError, UnrecognizedEnumerationError, ValidationError};
use crate::tag::hls::enumerated_string::{
    reads_as_text, AsStaticCow, EnumeratedString, EnumeratedValue,
};
use crate::tag::hls::{
    lemma_attribute_list_text_kind,
    opt_str_eq, typed_attribute_list_of, typed_attribute_list_spec, comma_integer, comma_quoted,
    comma_unquoted, copy_opt, drop_integer, drop_text, get_integer, get_quoted,
    get_unquoted_str, integer_attr, line_start, opt_encode, opt_string, opt_text,
    push_comma_integer, push_comma_quoted, push_comma_unquoted_str, push_integer_attribute,
    push_quoted_attribute, push_unquoted_attribute, quoted_attr, quoted_attribute, start_line,
    unquoted_attribute, utf8_attr, value_bytes, without_text, TagName, entries_ok,
    lemma_attribute_list_text_free_of_line_feed, lemma_dec_unquoted_ok, lemma_entries_ok_one,
    lemma_entries_ok_push, lemma_line_after_ext, lemma_lookup_push, lemma_push_integer_opt_text,
    lemma_push_quoted_opt_text, lemma_push_unquoted_opt_text, lemma_tag_name_plain,
    push_integer_opt, push_quoted_opt, push_unquoted_opt, quoted_value_ok, tag_name_text,
    unquoted_value_ok,
};
use crate::tag::known::{IntoInnerTag, TagInner};
use crate::tag::unknown;
use crate::tag::value::{
    AttributeListView, attribute_list_text, lemma_attribute_list_reads_back,
    lemma_attribute_list_text_push, attribute_text, AttributeValueView,
};
use crate::utils::{dec, str_eq, string_from};
use crate::tag::hls::key::Method;

verus! {


/// The attributes of the `#EXT-X-SESSION-KEY` tag.
pub struct SessionKeyAttributes {
    /// The value of the `METHOD` attribute.
    pub method: Seq<char>,
    /// The value of the `URI` attribute.
    pub uri: Seq<char>,
    /// The value of the `IV` attribute.
    pub iv: Option<Seq<char>>,
    /// The value of the `KEYFORMAT` attribute.
    pub keyformat: Option<Seq<char>>,
    /// The value of the `KEYFORMATVERSIONS` attribute.
    pub keyformatversions: Option<Seq<char>>,
}

/// The line of the `#EXT-X-SESSION-KEY` tag with the attributes `m`: the required attributes, then
/// each optional attribute that is present, in a fixed order.
pub open spec fn session_key_line(m: SessionKeyAttributes) -> Seq<u8> {
    line_start(TagName::SessionKey) + seq![58u8] + unquoted_attribute("METHOD"@, encode_utf8(m.method))
        + seq![44u8] + quoted_attribute("URI"@, m.uri)
        + comma_unquoted("IV"@, opt_encode(m.iv))
        + comma_quoted("KEYFORMAT"@, m.keyformat)
        + comma_quoted("KEYFORMATVERSIONS"@, m.keyformatversions)
}

/// The attributes that a changed tag writes: an optional attribute that holds its default value
/// is left out.
pub open spec fn session_key_written(m: SessionKeyAttributes) -> SessionKeyAttributes {
    SessionKeyAttributes { keyformat: drop_text(m.keyformat, "identity"@), ..m }
}

/// The attributes that an attribute list gives the `#EXT-X-SESSION-KEY` tag: each required
/// attribute must be present and of its kind; an optional attribute of the wrong kind is taken as
/// absent.
pub open spec fn session_key_spec(list: AttributeListView) -> Result<SessionKeyAttributes, ValidationError> {
    match utf8_attr(list, "METHOD"@) {
        Some(method) => 
            match quoted_attr(list, "URI"@) {
                Some(uri) => 
                    Ok(SessionKeyAttributes {
                        method,
                        uri,
                        iv: utf8_attr(list, "IV"@),
                        keyformat: quoted_attr(list, "KEYFORMAT"@),
                        keyformatversions: quoted_attr(list, "KEYFORMATVERSIONS"@),
                    }),
                None => Err(ValidationError::MissingRequiredAttribute("URI")),
            },
        None => Err(ValidationError::MissingRequiredAttribute("METHOD")),
    }
}

/// The attributes that a tag value gives the `#EXT-X-SESSION-KEY` tag.
pub open spec fn session_key_value_spec(value: Option<Seq<u8>>) -> Result<SessionKeyAttributes, ValidationError> {
    match typed_attribute_list_spec(value) {
        Ok(list) => session_key_spec(list),
        Err(e) => Err(e),
    }
}

/// The attributes of the `#EXT-X-SESSION-KEY` tag, as values.
#[derive(Debug)]
struct SessionKeyAttributeList {
    /// The value of the `METHOD` attribute.
    method: String,
    /// The value of the `URI` attribute.
    uri: String,
    /// The value of the `IV` attribute.
    iv: Option<String>,
    /// The value of the `KEYFORMAT` attribute.
    keyformat: Option<String>,
    /// The value of the `KEYFORMATVERSIONS` attribute.
    keyformatversions: Option<String>,
}

impl SessionKeyAttributeList {
    /// The attributes.
    closed spec fn view(&self) -> SessionKeyAttributes {
        SessionKeyAttributes {
            method: self.method@,
            uri: self.uri@,
            iv: opt_string(self.iv),
            keyformat: opt_string(self.keyformat),
            keyformatversions: opt_string(self.keyformatversions),
        }
    }
}

fn calculate_line(a: &SessionKeyAttributeList) -> (r: Vec<u8>)
    ensures
        r@ == session_key_line(a.view()),
{
    let mut line = start_line(TagName::SessionKey);
    line.push(58u8);
    push_unquoted_attribute(&mut line, "METHOD", a.method.as_str().as_bytes());
    line.push(44u8);
    push_quoted_attribute(&mut line, "URI", a.uri.as_str());
    push_comma_unquoted_str(&mut line, "IV", &a.iv);
    push_comma_quoted(&mut line, "KEYFORMAT", &a.keyformat);
    push_comma_quoted(&mut line, "KEYFORMATVERSIONS", &a.keyformatversions);
    proof {
        assert(line@ =~= session_key_line(a.view()));
    }
    line
}

/// Placeholder struct for [`SessionKeyBuilder`] indicating that `method` needs to be set.
#[derive(Debug, Clone, Copy)]
pub struct SessionKeyMethodNeedsToBeSet;

/// Placeholder struct for [`SessionKeyBuilder`] indicating that `method` has been set.
#[derive(Debug, Clone, Copy)]
pub struct SessionKeyMethodHasBeenSet;

/// Placeholder struct for [`SessionKeyBuilder`] indicating that `uri` needs to be set.
#[derive(Debug, Clone, Copy)]
pub struct SessionKeyUriNeedsToBeSet;

/// Placeholder struct for [`SessionKeyBuilder`] indicating that `uri` has been set.
#[derive(Debug, Clone, Copy)]
pub struct SessionKeyUriHasBeenSet;

/// A builder for convenience in constructing a [`SessionKey`]; `finish` is only available once the
/// required attributes have been set.
#[derive(Debug)]
pub struct SessionKeyBuilder<MethodStatus, UriStatus> {
    attribute_list: SessionKeyAttributeList,
    methodstatus: PhantomData<MethodStatus>,
    uristatus: PhantomData<UriStatus>,
}

impl SessionKeyBuilder<SessionKeyMethodNeedsToBeSet, SessionKeyUriNeedsToBeSet> {
    /// Creates a new builder.
    pub fn new() -> (r: Self)
        ensures
            r.view() == (SessionKeyAttributes { method: Seq::empty(), uri: Seq::empty(), iv: None, keyformat: None, keyformatversions: None }),
    {
        SessionKeyBuilder { attribute_list: SessionKeyAttributeList { method: String::new(), uri: String::new(), iv: None, keyformat: None, keyformatversions: None }, methodstatus: PhantomData, uristatus: PhantomData }
    }
}

impl SessionKeyBuilder<SessionKeyMethodHasBeenSet, SessionKeyUriHasBeenSet> {
    /// Finishes building and constructs the `SessionKey`.
    pub fn finish(self) -> (r: SessionKey)
        ensures
            r.view() == self.view(),
            r.output() == session_key_line(self.view()),
    {
        SessionKey::new(self.attribute_list)
    }
}

impl<MethodStatus, UriStatus> SessionKeyBuilder<MethodStatus, UriStatus> {
    /// The attributes built so far.
    pub closed spec fn view(&self) -> SessionKeyAttributes {
        self.attribute_list.view()
    }

    /// Sets the `METHOD` attribute.
    pub fn with_method(self, method: &str) -> (r: SessionKeyBuilder<SessionKeyMethodHasBeenSet, UriStatus>)
        ensures
            r.view() == (SessionKeyAttributes { method: method@, ..self.view() }),
    {
        let mut attribute_list = self.attribute_list;
        attribute_list.method = string_from(method);
        SessionKeyBuilder { attribute_list, methodstatus: PhantomData, uristatus: PhantomData }
    }

    /// Sets the `URI` attribute.
    pub fn with_uri(self, uri: &str) -> (r: SessionKeyBuilder<MethodStatus, SessionKeyUriHasBeenSet>)
        ensures
            r.view() == (SessionKeyAttributes { uri: uri@, ..self.view() }),
    {
        let mut attribute_list = self.attribute_list;
        attribute_list.uri = string_from(uri);
        SessionKeyBuilder { attribute_list, methodstatus: PhantomData, uristatus: PhantomData }
    }

    /// Sets the `IV` attribute.
    pub fn with_iv(self, iv: &str) -> (r: Self)
        ensures
            r.view() == (SessionKeyAttributes { iv: Some(iv@), ..self.view() }),
    {
        let mut s = self;
        s.attribute_list.iv = Some(string_from(iv));
        s
    }

    /// Sets the `KEYFORMAT` attribute.
    pub fn with_keyformat(self, keyformat: &str) -> (r: Self)
        ensures
            r.view() == (SessionKeyAttributes { keyformat: Some(keyformat@), ..self.view() }),
    {
        let mut s = self;
        s.attribute_list.keyformat = Some(string_from(keyformat));
        s
    }

    /// Sets the `KEYFORMATVERSIONS` attribute.
    pub fn with_keyformatversions(self, keyformatversions: &str) -> (r: Self)
        ensures
            r.view() == (SessionKeyAttributes { keyformatversions: Some(keyformatversions@), ..self.view() }),
    {
        let mut s = self;
        s.attribute_list.keyformatversions = Some(string_from(keyformatversions));
        s
    }

}

/// Corresponds to the `#EXT-X-SESSION-KEY` tag.
///
/// <https://datatracker.ietf.org/doc/html/draft-pantos-hls-rfc8216bis-17#section-4.4.6.5>
#[derive(Debug)]
pub struct SessionKey {
    attribute_list: SessionKeyAttributeList,
    output_line: Vec<u8>,
    output_line_is_dirty: bool,
}

impl SessionKey {
    /// The attributes of the tag.
    pub closed spec fn view(&self) -> SessionKeyAttributes {
        self.attribute_list.view()
    }

    /// The line that the tag writes: the parsed or built line until the tag is changed, then the
    /// line calculated from its attributes (without optional attributes at their defaults).
    pub closed spec fn output(&self) -> Seq<u8> {
        if self.output_line_is_dirty {
            session_key_line(session_key_written(self.attribute_list.view()))
        } else {
            self.output_line@
        }
    }

    /// Constructs a new tag with the attributes `attribute_list`.
    fn new(attribute_list: SessionKeyAttributeList) -> (r: SessionKey)
        ensures
            r.view() == attribute_list.view(),
            r.output() == session_key_line(attribute_list.view()),
    {
        let output_line = calculate_line(&attribute_list);
        SessionKey { attribute_list, output_line, output_line_is_dirty: false }
    }

    /// Starts a builder for producing a `SessionKey`.
    pub fn builder() -> (r: SessionKeyBuilder<SessionKeyMethodNeedsToBeSet, SessionKeyUriNeedsToBeSet>)
        ensures
            r.view() == (SessionKeyAttributes { method: Seq::empty(), uri: Seq::empty(), iv: None, keyformat: None, keyformatversions: None }),
    {
        SessionKeyBuilder::new()
    }

    /// Reads the tag from a parsed tag line, whose value must be an attribute list.
    pub fn try_from(tag: unknown::Tag) -> (r: Result<SessionKey, ValidationError>)
        ensures
            match session_key_value_spec(value_bytes(tag)) {
                Ok(m) => r matches Ok(t) && t.view() == m && t.output() == tag.original_input@,
                Err(e) => r == Err::<SessionKey, ValidationError>(e),
            },
    {
        let list = typed_attribute_list_of(&tag)?;
        let method = match get_unquoted_str(&list, "METHOD") {
            Some(v) => v,
            None => return Err(ValidationError::MissingRequiredAttribute("METHOD")),
        };
        let uri = match get_quoted(&list, "URI") {
            Some(v) => v,
            None => return Err(ValidationError::MissingRequiredAttribute("URI")),
        };
        let attribute_list = SessionKeyAttributeList {
            method: string_from(method),
            uri: string_from(uri),
            iv: copy_opt(get_unquoted_str(&list, "IV")),
            keyformat: copy_opt(get_quoted(&list, "KEYFORMAT")),
            keyformatversions: copy_opt(get_quoted(&list, "KEYFORMATVERSIONS")),
        };
        let mut output_line: Vec<u8> = Vec::new();
        crate::utils::push_bytes(&mut output_line, tag.original_input);
        Ok(SessionKey { attribute_list, output_line, output_line_is_dirty: false })
    }

    /// The attributes that the changed tag writes.
    fn written(&self) -> (r: SessionKeyAttributeList)
        ensures
            r.view() == session_key_written(self.view()),
    {
        SessionKeyAttributeList {
            method: string_from(self.attribute_list.method.as_str()),
            uri: string_from(self.attribute_list.uri.as_str()),
            iv: copy_opt(self.opt_iv()),
            keyformat: without_text(&self.attribute_list.keyformat, "identity"),
            keyformatversions: copy_opt(self.opt_keyformatversions()),
        }
    }

    /// Corresponds to the `METHOD` attribute.
    pub fn method(&self) -> (r: EnumeratedString<'_, Method>)
        ensures
            reads_as_text(r, self.view().method),
    {
        EnumeratedString::from_str(self.attribute_list.method.as_str())
    }

    /// Corresponds to the `URI` attribute.
    pub fn uri(&self) -> (r: &str)
        ensures
            r@ == self.view().uri,
    {
        self.attribute_list.uri.as_str()
    }

    /// Corresponds to the `IV` attribute.
    pub fn iv(&self) -> (r: Option<&str>)
        ensures
            opt_text(r) == self.view().iv,
    {
        self.opt_iv()
    }

    /// Corresponds to the `KEYFORMAT` attribute (`identity` when absent).
    pub fn keyformat(&self) -> (r: &str)
        ensures
            r@ == match self.view().keyformat {
                Some(v) => v,
                None => "identity"@,
            },
    {
        match &self.attribute_list.keyformat {
            Some(v) => v.as_str(),
            None => "identity",
        }
    }

    /// Corresponds to the `KEYFORMATVERSIONS` attribute.
    pub fn keyformatversions(&self) -> (r: Option<&str>)
        ensures
            opt_text(r) == self.view().keyformatversions,
    {
        self.opt_keyformatversions()
    }

    fn opt_iv(&self) -> (r: Option<&str>)
        ensures
            opt_text(r) == self.view().iv,
    {
        match &self.attribute_list.iv {
            Some(v) => Some(v.as_str()),
            None => None,
        }
    }

    fn opt_keyformat(&self) -> (r: Option<&str>)
        ensures
            opt_text(r) == self.view().keyformat,
    {
        match &self.attribute_list.keyformat {
            Some(v) => Some(v.as_str()),
            None => None,
        }
    }

    fn opt_keyformatversions(&self) -> (r: Option<&str>)
        ensures
            opt_text(r) == self.view().keyformatversions,
    {
        match &self.attribute_list.keyformatversions {
            Some(v) => Some(v.as_str()),
            None => None,
        }
    }

    /// Sets the `METHOD` attribute.
    pub fn set_method(&mut self, method: &str)
        ensures
            final(self).view() == (SessionKeyAttributes { method: method@, ..old(self).view() }),
            final(self).output() == session_key_line(session_key_written(final(self).view())),
    {
        self.attribute_list.method = string_from(method);
        self.output_line_is_dirty = true;
    }

    /// Sets the `URI` attribute.
    pub fn set_uri(&mut self, uri: &str)
        ensures
            final(self).view() == (SessionKeyAttributes { uri: uri@, ..old(self).view() }),
            final(self).output() == session_key_line(session_key_written(final(self).view())),
    {
        self.attribute_list.uri = string_from(uri);
        self.output_line_is_dirty = true;
    }

    /// Sets the `IV` attribute.
    pub fn set_iv(&mut self, iv: &str)
        ensures
            final(self).view() == (SessionKeyAttributes { iv: Some(iv@), ..old(self).view() }),
            final(self).output() == session_key_line(session_key_written(final(self).view())),
    {
        self.attribute_list.iv = Some(string_from(iv));
        self.output_line_is_dirty = true;
    }

    /// Removes the `IV` attribute.
    pub fn unset_iv(&mut self)
        ensures
            final(self).view() == (SessionKeyAttributes { iv: None, ..old(self).view() }),
            final(self).output() == session_key_line(session_key_written(final(self).view())),
    {
        self.attribute_list.iv = None;
        self.output_line_is_dirty = true;
    }

    /// Sets the `KEYFORMAT` attribute.
    pub fn set_keyformat(&mut self, keyformat: &str)
        ensures
            final(self).view() == (SessionKeyAttributes { keyformat: Some(keyformat@), ..old(self).view() }),
            final(self).output() == session_key_line(session_key_written(final(self).view())),
    {
        self.attribute_list.keyformat = Some(string_from(keyformat));
        self.output_line_is_dirty = true;
    }

    /// Removes the `KEYFORMAT` attribute.
    pub fn unset_keyformat(&mut self)
        ensures
            final(self).view() == (SessionKeyAttributes { keyformat: None, ..old(self).view() }),
            final(self).output() == session_key_line(session_key_written(final(self).view())),
    {
        self.attribute_list.keyformat = None;
        self.output_line_is_dirty = true;
    }

    /// Sets the `KEYFORMATVERSIONS` attribute.
    pub fn set_keyformatversions(&mut self, keyformatversions: &str)
        ensures
            final(self).view() == (SessionKeyAttributes { keyformatversions: Some(keyformatversions@), ..old(self).view() }),
            final(self).output() == session_key_line(session_key_written(final(self).view())),
    {
        self.attribute_list.keyformatversions = Some(string_from(keyformatversions));
        self.output_line_is_dirty = true;
    }

    /// Removes the `KEYFORMATVERSIONS` attribute.
    pub fn unset_keyformatversions(&mut self)
        ensures
            final(self).view() == (SessionKeyAttributes { keyformatversions: None, ..old(self).view() }),
            final(self).output() == session_key_line(session_key_written(final(self).view())),
    {
        self.attribute_list.keyformatversions = None;
        self.output_line_is_dirty = true;
    }

}

impl IntoInnerTag for SessionKey {
    fn into_inner(self) -> (r: TagInner)
        ensures
            r.view() == self.output(),
    {
        if self.output_line_is_dirty {
            let written = self.written();
            TagInner::from_line(calculate_line(&written))
        } else {
            TagInner::from_line(self.output_line)
        }
    }
}

/// The `KEYFORMAT` that a session key reads as: the attribute, or `identity` when it is absent.
pub open spec fn session_keyformat_or_default(a: SessionKeyAttributes) -> Seq<char> {
    match a.keyformat {
        Some(v) => v,
        None => "identity"@,
    }
}

impl PartialEq for SessionKey {
    fn eq(&self, other: &Self) -> (r: bool) {
        str_eq(self.attribute_list.method.as_str(), other.attribute_list.method.as_str())
            && str_eq(self.uri(), other.uri()) && opt_str_eq(self.iv(), other.iv()) && str_eq(
            self.keyformat(),
            other.keyformat(),
        ) && opt_str_eq(self.keyformatversions(), other.keyformatversions())
    }
}

impl vstd::std_specs::cmp::PartialEqSpecImpl for SessionKey {
    open spec fn obeys_eq_spec() -> bool {
        true
    }

    open spec fn eq_spec(&self, other: &Self) -> bool {
        &&& self.view().method == other.view().method
        &&& self.view().uri == other.view().uri
        &&& self.view().iv == other.view().iv
        &&& session_keyformat_or_default(self.view()) == session_keyformat_or_default(
            other.view(),
        )
        &&& self.view().keyformatversions == other.view().keyformatversions
    }
}

/// The attributes of the tag in the order in which its line writes them.
pub open spec fn session_key_entries(m: SessionKeyAttributes) -> AttributeListView {
    push_quoted_opt(push_quoted_opt(push_unquoted_opt(seq![("METHOD"@, AttributeValueView::Unquoted(encode_utf8(m.method)))].push(("URI"@, AttributeValueView::Quoted(m.uri))), "IV"@, opt_encode(m.iv)), "KEYFORMAT"@, m.keyformat), "KEYFORMATVERSIONS"@, m.keyformatversions)
}

proof fn lemma_session_key_line_text(m: SessionKeyAttributes)
    ensures
        session_key_line(m) == line_start(TagName::SessionKey) + seq![58u8] + attribute_list_text(
            session_key_entries(m),
        ),
{
    let l0 = seq![("METHOD"@, AttributeValueView::Unquoted(encode_utf8(m.method)))];
    let l1 = l0.push(("URI"@, AttributeValueView::Quoted(m.uri)));
    let l2 = push_unquoted_opt(l1, "IV"@, opt_encode(m.iv));
    let l3 = push_quoted_opt(l2, "KEYFORMAT"@, m.keyformat);
    let l4 = push_quoted_opt(l3, "KEYFORMATVERSIONS"@, m.keyformatversions);
    assert(l4 == session_key_entries(m));
    assert(attribute_list_text(l0) =~= unquoted_attribute("METHOD"@, encode_utf8(m.method)));
    lemma_attribute_list_text_push(l0, ("URI"@, AttributeValueView::Quoted(m.uri)));
    assert(attribute_text(("URI"@, AttributeValueView::Quoted(m.uri))) =~= quoted_attribute("URI"@, m.uri));
    lemma_push_unquoted_opt_text(l1, "IV"@, opt_encode(m.iv));
    lemma_push_quoted_opt_text(l2, "KEYFORMAT"@, m.keyformat);
    lemma_push_quoted_opt_text(l3, "KEYFORMATVERSIONS"@, m.keyformatversions);
    assert(session_key_line(m) =~= line_start(TagName::SessionKey) + seq![58u8] + attribute_list_text(l4));
}

proof fn lemma_session_key_entries_ok(m: SessionKeyAttributes)
    requires
        unquoted_value_ok(encode_utf8(m.method)),
        quoted_value_ok(m.uri),
        m.iv matches Some(v) ==> unquoted_value_ok(encode_utf8(v)),
        m.keyformat matches Some(v) ==> quoted_value_ok(v),
        m.keyformatversions matches Some(v) ==> quoted_value_ok(v),
    ensures
        entries_ok(session_key_entries(m)),
{
    reveal_strlit("METHOD");
    reveal_strlit("URI");
    reveal_strlit("IV");
    reveal_strlit("KEYFORMAT");
    reveal_strlit("KEYFORMATVERSIONS");
    let l0 = seq![("METHOD"@, AttributeValueView::Unquoted(encode_utf8(m.method)))];
    let l1 = l0.push(("URI"@, AttributeValueView::Quoted(m.uri)));
    let l2 = push_unquoted_opt(l1, "IV"@, opt_encode(m.iv));
    let l3 = push_quoted_opt(l2, "KEYFORMAT"@, m.keyformat);
    let l4 = push_quoted_opt(l3, "KEYFORMATVERSIONS"@, m.keyformatversions);
    assert(l4 == session_key_entries(m));
    lemma_entries_ok_one("METHOD"@, AttributeValueView::Unquoted(encode_utf8(m.method)));
    lemma_entries_ok_push(l0, "URI"@, AttributeValueView::Quoted(m.uri));
    match m.iv {
        Some(v) => {
            lemma_entries_ok_push(l1, "IV"@, AttributeValueView::Unquoted(encode_utf8(v)));
        },
        None => {},
    }
    match m.keyformat {
        Some(v) => {
            lemma_entries_ok_push(l2, "KEYFORMAT"@, AttributeValueView::Quoted(v));
        },
        None => {},
    }
    match m.keyformatversions {
        Some(v) => {
            lemma_entries_ok_push(l3, "KEYFORMATVERSIONS"@, AttributeValueView::Quoted(v));
        },
        None => {},
    }
}

proof fn lemma_session_key_lookup(m: SessionKeyAttributes)
    ensures
        session_key_spec(session_key_entries(m)) == Ok::<SessionKeyAttributes, ValidationError>(m),
{
    reveal_strlit("METHOD");
    reveal_strlit("URI");
    reveal_strlit("IV");
    reveal_strlit("KEYFORMAT");
    reveal_strlit("KEYFORMATVERSIONS");
    assert("METHOD"@.len() != "URI"@.len());
    assert("METHOD"@.len() != "IV"@.len());
    assert("METHOD"@.len() != "KEYFORMAT"@.len());
    assert("METHOD"@.len() != "KEYFORMATVERSIONS"@.len());
    assert("URI"@.len() != "IV"@.len());
    assert("URI"@.len() != "KEYFORMAT"@.len());
    assert("URI"@.len() != "KEYFORMATVERSIONS"@.len());
    assert("IV"@.len() != "KEYFORMAT"@.len());
    assert("IV"@.len() != "KEYFORMATVERSIONS"@.len());
    assert("KEYFORMAT"@.len() != "KEYFORMATVERSIONS"@.len());
    let l0 = seq![("METHOD"@, AttributeValueView::Unquoted(encode_utf8(m.method)))];
    let l1 = l0.push(("URI"@, AttributeValueView::Quoted(m.uri)));
    let l2 = push_unquoted_opt(l1, "IV"@, opt_encode(m.iv));
    let l3 = push_quoted_opt(l2, "KEYFORMAT"@, m.keyformat);
    let l4 = push_quoted_opt(l3, "KEYFORMATVERSIONS"@, m.keyformatversions);
    assert(l4 == session_key_entries(m));
    lemma_lookup_push(Seq::empty(), ("METHOD"@, AttributeValueView::Unquoted(encode_utf8(m.method))), "METHOD"@);
    lemma_lookup_push(Seq::empty(), ("METHOD"@, AttributeValueView::Unquoted(encode_utf8(m.method))), "URI"@);
    lemma_lookup_push(Seq::empty(), ("METHOD"@, AttributeValueView::Unquoted(encode_utf8(m.method))), "IV"@);
    lemma_lookup_push(Seq::empty(), ("METHOD"@, AttributeValueView::Unquoted(encode_utf8(m.method))), "KEYFORMAT"@);
    lemma_lookup_push(Seq::empty(), ("METHOD"@, AttributeValueView::Unquoted(encode_utf8(m.method))), "KEYFORMATVERSIONS"@);
    assert(Seq::<(Seq<char>, AttributeValueView)>::empty().push(("METHOD"@, AttributeValueView::Unquoted(encode_utf8(m.method)))) =~= l0);
    lemma_lookup_push(l0, ("URI"@, AttributeValueView::Quoted(m.uri)), "METHOD"@);
    lemma_lookup_push(l0, ("URI"@, AttributeValueView::Quoted(m.uri)), "URI"@);
    lemma_lookup_push(l0, ("URI"@, AttributeValueView::Quoted(m.uri)), "IV"@);
    lemma_lookup_push(l0, ("URI"@, AttributeValueView::Quoted(m.uri)), "KEYFORMAT"@);
    lemma_lookup_push(l0, ("URI"@, AttributeValueView::Quoted(m.uri)), "KEYFORMATVERSIONS"@);
    match m.iv {
        Some(v) => {
            lemma_lookup_push(l1, ("IV"@, AttributeValueView::Unquoted(encode_utf8(v))), "METHOD"@);
            lemma_lookup_push(l1, ("IV"@, AttributeValueView::Unquoted(encode_utf8(v))), "URI"@);
            lemma_lookup_push(l1, ("IV"@, AttributeValueView::Unquoted(encode_utf8(v))), "IV"@);
            lemma_lookup_push(l1, ("IV"@, AttributeValueView::Unquoted(encode_utf8(v))), "KEYFORMAT"@);
            lemma_lookup_push(l1, ("IV"@, AttributeValueView::Unquoted(encode_utf8(v))), "KEYFORMATVERSIONS"@);
        },
        None => {},
    }
    match m.keyformat {
        Some(v) => {
            lemma_lookup_push(l2, ("KEYFORMAT"@, AttributeValueView::Quoted(v)), "METHOD"@);
            lemma_lookup_push(l2, ("KEYFORMAT"@, AttributeValueView::Quoted(v)), "URI"@);
            lemma_lookup_push(l2, ("KEYFORMAT"@, AttributeValueView::Quoted(v)), "IV"@);
            lemma_lookup_push(l2, ("KEYFORMAT"@, AttributeValueView::Quoted(v)), "KEYFORMAT"@);
            lemma_lookup_push(l2, ("KEYFORMAT"@, AttributeValueView::Quoted(v)), "KEYFORMATVERSIONS"@);
        },
        None => {},
    }
    match m.keyformatversions {
        Some(v) => {
            lemma_lookup_push(l3, ("KEYFORMATVERSIONS"@, AttributeValueView::Quoted(v)), "METHOD"@);
            lemma_lookup_push(l3, ("KEYFORMATVERSIONS"@, AttributeValueView::Quoted(v)), "URI"@);
            lemma_lookup_push(l3, ("KEYFORMATVERSIONS"@, AttributeValueView::Quoted(v)), "IV"@);
            lemma_lookup_push(l3, ("KEYFORMATVERSIONS"@, AttributeValueView::Quoted(v)), "KEYFORMAT"@);
            lemma_lookup_push(l3, ("KEYFORMATVERSIONS"@, AttributeValueView::Quoted(v)), "KEYFORMATVERSIONS"@);
        },
        None => {},
    }
    encode_utf8_valid_utf8(m.method);
    encode_utf8_decode_utf8(m.method);
    assert(utf8_attr(l4, "METHOD"@) == Some(m.method));
    assert(quoted_attr(l4, "URI"@) == Some(m.uri));
    if let Some(v) = m.iv {
        encode_utf8_valid_utf8(v);
        encode_utf8_decode_utf8(v);
    }
    assert(utf8_attr(l4, "IV"@) == m.iv);
    assert(quoted_attr(l4, "KEYFORMAT"@) == m.keyformat);
    assert(quoted_attr(l4, "KEYFORMATVERSIONS"@) == m.keyformatversions);
}

/// Writing and then reading a session key gives it back: its line reads as its name with its
/// attributes as the value, and that value reads as the attributes, when no quoted value holds a
/// `"` or a line feed and no unquoted text value is empty, starts with `"`, or holds a `,` or a
/// line feed.
pub proof fn lemma_session_key_reads_back(m: SessionKeyAttributes)
    requires
        unquoted_value_ok(encode_utf8(m.method)),
        quoted_value_ok(m.uri),
        m.iv matches Some(v) ==> unquoted_value_ok(encode_utf8(v)),
        m.keyformat matches Some(v) ==> quoted_value_ok(v),
        m.keyformatversions matches Some(v) ==> quoted_value_ok(v),
    ensures
        session_key_line(m) == line_start(TagName::SessionKey) + seq![58u8] + attribute_list_text(
            session_key_entries(m),
        ),
        unknown::starts_with_ext(session_key_line(m)),
        unknown::tag_after_ext_spec(session_key_line(m).subrange(4, session_key_line(m).len() as int))
            == Ok::<(Seq<u8>, Option<Seq<u8>>, Option<Seq<u8>>), UnknownTagSyntaxError>((
            encode_utf8(tag_name_text(TagName::SessionKey)),
            Some(attribute_list_text(session_key_entries(m))),
            None,
        )),
        session_key_value_spec(Some(attribute_list_text(session_key_entries(m)))) == Ok::<
            SessionKeyAttributes,
            ValidationError,
        >(m),
{
    let l = session_key_entries(m);
    let text = attribute_list_text(l);
    lemma_session_key_line_text(m);
    let rest = seq![58u8] + text;
    lemma_line_after_ext(TagName::SessionKey, rest);
    assert(session_key_line(m) =~= line_start(TagName::SessionKey) + rest);
    assert(encode_utf8(tag_name_text(TagName::SessionKey)) + rest =~= encode_utf8(
        tag_name_text(TagName::SessionKey),
    ) + seq![58u8] + text);
    lemma_tag_name_plain(TagName::SessionKey);
    lemma_session_key_entries_ok(m);
    lemma_attribute_list_text_free_of_line_feed(l);
    unknown::lemma_read_written_tag(encode_utf8(tag_name_text(TagName::SessionKey)), text);
    lemma_attribute_list_reads_back(l);
    lemma_attribute_list_text_kind(l);
    lemma_session_key_lookup(m);
}

} // verus!
