//! The `#EXT-X-KEY` tag.

use vstd::prelude::*;
use vstd::string::StringSliceAdditionalSpecFns;
use vstd::utf8::*;
use core::marker::PhantomData;

use crate::error::{UnknownTagSyntaxError, UnrecognizedEnumerationError, ValidationError};
use crate::tag::hls::enumerated_string::{
    reads_as_text, AsStaticCow, EnumeratedString, EnumeratedValue,
};
use crate::tag::hls::{
    lemma_attribute_list_text_kind,
    opt_str_eq, typed_attribute_list_of, typed_attribute_list_spec, comma_integer, comma_quoted,
    comma_unquoted, copy_opt, drop_integer, drop_text, get_integer, get_quoted,
    get_unquoted_str, integer_attr, line_start, opt_encode, opt_string, opt_text,
    push_comma_integer, push_comma_quoted, push_comma_unquoted_str, push_integer_attribute,
    push_quoted_attribute, push_unquoted_attribute, quoted_attr, quoted_attribute, start_line,
    unquoted_attribute, utf8_attr, value_bytes, without_text, TagName, entries_ok,
    lemma_attribute_list_text_free_of_line_feed, lemma_dec_unquoted_ok, lemma_entries_ok_one,
    lemma_entries_ok_push, lemma_line_after_ext, lemma_lookup_push, lemma_push_integer_opt_text,
    lemma_push_quoted_opt_text, lemma_push_unquoted_opt_text, lemma_tag_name_plain,
    push_integer_opt, push_quoted_opt, push_unquoted_opt, quoted_value_ok, tag_name_text,
    unquoted_value_ok,
};
use crate::tag::known::{IntoInnerTag, TagInner};
use crate::tag::unknown;
use crate::tag::value::{
    AttributeListView, attribute_list_text, lemma_attribute_list_reads_back,
    lemma_attribute_list_text_push, attribute_text, AttributeValueView,
};
use crate::utils::{dec, str_eq, string_from};

verus! {

/// Corresponds to the `METHOD` attribute of `#EXT-X-KEY` and `#EXT-X-SESSION-KEY`.
#[derive(Debug, Clone, Copy, PartialEq, Eq, Structural)]
pub enum Method {
    /// Media segments are not encrypted.
    Unencrypted,
    /// Media segments are completely encrypted using AES-128 with CBC and PKCS7 padding.
    Aes128,
    /// Media segments are sample encrypted using AES (the `cbcs` scheme for fMP4).
    SampleAes,
    /// Like `SAMPLE-AES`, but fMP4 segments use the `cenc` scheme.
    SampleAesCtr,
}

impl AsStaticCow for Method {
    open spec fn obeys_text_spec() -> bool {
        true
    }

    open spec fn text(&self) -> Seq<char> {
        match self {
            Method::Unencrypted => "NONE"@,
            Method::Aes128 => "AES-128"@,
            Method::SampleAes => "SAMPLE-AES"@,
            Method::SampleAesCtr => "SAMPLE-AES-CTR"@,
        }
    }

    fn as_cow(&self) -> (r: String)
        ensures
            r@ == self.text(),
    {
        match self {
            Method::Unencrypted => string_from("NONE"),
            Method::Aes128 => string_from("AES-128"),
            Method::SampleAes => string_from("SAMPLE-AES"),
            Method::SampleAesCtr => string_from("SAMPLE-AES-CTR"),
        }
    }
}

impl EnumeratedValue for Method {
    open spec fn from_text(s: Seq<char>) -> Option<Self> {
        if s == "NONE"@ {
            Some(Method::Unencrypted)
        } else if s == "AES-128"@ {
            Some(Method::Aes128)
        } else if s == "SAMPLE-AES"@ {
            Some(Method::SampleAes)
        } else if s == "SAMPLE-AES-CTR"@ {
            Some(Method::SampleAesCtr)
        } else {
            None
        }
    }

    fn try_from_str(value: &str) -> (r: Result<Self, UnrecognizedEnumerationError<'_>>)
        ensures
            match Self::from_text(value@) {
                Some(t) => r == Ok::<Self, UnrecognizedEnumerationError<'_>>(t),
                None => r matches Err(e) && e.value == value,
            },
    {
        if str_eq(value, "NONE") {
            return Ok(Method::Unencrypted);
        }
        if str_eq(value, "AES-128") {
            return Ok(Method::Aes128);
        }
        if str_eq(value, "SAMPLE-AES") {
            return Ok(Method::SampleAes);
        }
        if str_eq(value, "SAMPLE-AES-CTR") {
            return Ok(Method::SampleAesCtr);
        }
        Err(UnrecognizedEnumerationError::new(value))
    }
}

/// Reading back the text of any [`Method`] gives that value.
pub proof fn lemma_method_round_trip(v: Method)
    ensures
        Method::from_text(v.text()) == Some(v),
{
    match v {
        Method::Unencrypted => {
            reveal_strlit("NONE");
        },
        Method::Aes128 => {
            reveal_strlit("AES-128");
            reveal_strlit("NONE");
            assert("NONE"@.len() != "AES-128"@.len());
        },
        Method::SampleAes => {
            reveal_strlit("SAMPLE-AES");
            reveal_strlit("NONE");
            assert("NONE"@.len() != "SAMPLE-AES"@.len());
            reveal_strlit("AES-128");
            assert("AES-128"@.len() != "SAMPLE-AES"@.len());
        },
        Method::SampleAesCtr => {
            reveal_strlit("SAMPLE-AES-CTR");
            reveal_strlit("NONE");
            assert("NONE"@.len() != "SAMPLE-AES-CTR"@.len());
            reveal_strlit("AES-128");
            assert("AES-128"@.len() != "SAMPLE-AES-CTR"@.len());
            reveal_strlit("SAMPLE-AES");
            assert("SAMPLE-AES"@.len() != "SAMPLE-AES-CTR"@.len());
        },
    }
}

/// The attributes of the `#EXT-X-KEY` tag.
pub struct KeyAttributes {
    /// The value of the `METHOD` attribute.
    pub method: Seq<char>,
    /// The value of the `URI` attribute.
    pub uri: Option<Seq<char>>,
    /// The value of the `IV` attribute.
    pub iv: Option<Seq<char>>,
    /// The value of the `KEYFORMAT` attribute.
    pub keyformat: Option<Seq<char>>,
    /// The value of the `KEYFORMATVERSIONS` attribute.
    pub keyformatversions: Option<Seq<char>>,
}

/// The line of the `#EXT-X-KEY` tag with the attributes `m`: the required attributes, then each
/// optional attribute that is present, in a fixed order.
pub open spec fn key_line(m: KeyAttributes) -> Seq<u8> {
    line_start(TagName::Key) + seq![58u8] + unquoted_attribute("METHOD"@, encode_utf8(m.method))
        + comma_quoted("URI"@, m.uri)
        + comma_unquoted("IV"@, opt_encode(m.iv))
        + comma_quoted("KEYFORMAT"@, m.keyformat)
        + comma_quoted("KEYFORMATVERSIONS"@, m.keyformatversions)
}

/// The attributes that a changed tag writes: an optional attribute that holds its default value
/// is left out.
pub open spec fn key_written(m: KeyAttributes) -> KeyAttributes {
    KeyAttributes { keyformat: drop_text(m.keyformat, "identity"@), ..m }
}

/// The attributes that an attribute list gives the `#EXT-X-KEY` tag: each required attribute must
/// be present and of its kind; an optional attribute of the wrong kind is taken as absent.
pub open spec fn key_spec(list: AttributeListView) -> Result<KeyAttributes, ValidationError> {
    match utf8_attr(list, "METHOD"@) {
        Some(method) => 
            Ok(KeyAttributes {
                method,
                uri: quoted_attr(list, "URI"@),
                iv: utf8_attr(list, "IV"@),
                keyformat: quoted_attr(list, "KEYFORMAT"@),
                keyformatversions: quoted_attr(list, "KEYFORMATVERSIONS"@),
            }),
        None => Err(ValidationError::MissingRequiredAttribute("METHOD")),
    }
}

/// The attributes that a tag value gives the `#EXT-X-KEY` tag.
pub open spec fn key_value_spec(value: Option<Seq<u8>>) -> Result<KeyAttributes, ValidationError> {
    match typed_attribute_list_spec(value) {
        Ok(list) => key_spec(list),
        Err(e) => Err(e),
    }
}

/// The attributes of the `#EXT-X-KEY` tag, as values.
#[derive(Debug)]
pub struct KeyAttributeList {
    /// The value of the `METHOD` attribute.
    pub method: String,
    /// The value of the `URI` attribute.
    pub uri: Option<String>,
    /// The value of the `IV` attribute.
    pub iv: Option<String>,
    /// The value of the `KEYFORMAT` attribute.
    pub keyformat: Option<String>,
    /// The value of the `KEYFORMATVERSIONS` attribute.
    pub keyformatversions: Option<String>,
}

impl KeyAttributeList {
    /// The attributes.
    pub open spec fn view(&self) -> KeyAttributes {
        KeyAttributes {
            method: self.method@,
            uri: opt_string(self.uri),
            iv: opt_string(self.iv),
            keyformat: opt_string(self.keyformat),
            keyformatversions: opt_string(self.keyformatversions),
        }
    }
}

fn calculate_line(a: &KeyAttributeList) -> (r: Vec<u8>)
    ensures
        r@ == key_line(a.view()),
{
    let mut line = start_line(TagName::Key);
    line.push(58u8);
    push_unquoted_attribute(&mut line, "METHOD", a.method.as_str().as_bytes());
    push_comma_quoted(&mut line, "URI", &a.uri);
    push_comma_unquoted_str(&mut line, "IV", &a.iv);
    push_comma_quoted(&mut line, "KEYFORMAT", &a.keyformat);
    push_comma_quoted(&mut line, "KEYFORMATVERSIONS", &a.keyformatversions);
    proof {
        assert(line@ =~= key_line(a.view()));
    }
    line
}

/// A builder for convenience in constructing a [`Key`].
#[derive(Debug)]
pub struct KeyBuilder {
    attribute_list: KeyAttributeList,
}

impl KeyBuilder {
    /// The attributes built so far.
    pub closed spec fn view(&self) -> KeyAttributes {
        self.attribute_list.view()
    }

    /// Creates a new builder.
    pub fn new(method: &str) -> (r: Self)
        ensures
            r.view() == (KeyAttributes { method: method@, uri: None, iv: None, keyformat: None, keyformatversions: None }),
    {
        KeyBuilder { attribute_list: KeyAttributeList { method: string_from(method), uri: None, iv: None, keyformat: None, keyformatversions: None } }
    }

    /// Finishes building and constructs the `Key`.
    pub fn finish(self) -> (r: Key)
        ensures
            r.view() == self.view(),
            r.output() == key_line(self.view()),
    {
        Key::new(self.attribute_list)
    }

    /// Sets the `URI` attribute.
    pub fn with_uri(self, uri: &str) -> (r: Self)
        ensures
            r.view() == (KeyAttributes { uri: Some(uri@), ..self.view() }),
    {
        let mut s = self;
        s.attribute_list.uri = Some(string_from(uri));
        s
    }

    /// Sets the `IV` attribute.
    pub fn with_iv(self, iv: &str) -> (r: Self)
        ensures
            r.view() == (KeyAttributes { iv: Some(iv@), ..self.view() }),
    {
        let mut s = self;
        s.attribute_list.iv = Some(string_from(iv));
        s
    }

    /// Sets the `KEYFORMAT` attribute.
    pub fn with_keyformat(self, keyformat: &str) -> (r: Self)
        ensures
            r.view() == (KeyAttributes { keyformat: Some(keyformat@), ..self.view() }),
    {
        let mut s = self;
        s.attribute_list.keyformat = Some(string_from(keyformat));
        s
    }

    /// Sets the `KEYFORMATVERSIONS` attribute.
    pub fn with_keyformatversions(self, keyformatversions: &str) -> (r: Self)
        ensures
            r.view() == (KeyAttributes { keyformatversions: Some(keyformatversions@), ..self.view() }),
    {
        let mut s = self;
        s.attribute_list.keyformatversions = Some(string_from(keyformatversions));
        s
    }

}

/// Corresponds to the `#EXT-X-KEY` tag.
///
/// <https://datatracker.ietf.org/doc/html/draft-pantos-hls-rfc8216bis-17#section-4.4.4.4>
#[derive(Debug)]
pub struct Key {
    attribute_list: KeyAttributeList,
    output_line: Vec<u8>,
    output_line_is_dirty: bool,
}

impl Key {
    /// The attributes of the tag.
    pub closed spec fn view(&self) -> KeyAttributes {
        self.attribute_list.view()
    }

    /// The line that the tag writes: the parsed or built line until the tag is changed, then the
    /// line calculated from its attributes (without optional attributes at their defaults).
    pub closed spec fn output(&self) -> Seq<u8> {
        if self.output_line_is_dirty {
            key_line(key_written(self.attribute_list.view()))
        } else {
            self.output_line@
        }
    }

    /// Constructs a new tag with the attributes `attribute_list`.
    pub fn new(attribute_list: KeyAttributeList) -> (r: Key)
        ensures
            r.view() == attribute_list.view(),
            r.output() == key_line(attribute_list.view()),
    {
        let output_line = calculate_line(&attribute_list);
        Key { attribute_list, output_line, output_line_is_dirty: false }
    }

    /// Starts a builder for producing a `Key`.
    pub fn builder(method: &str) -> (r: KeyBuilder)
        ensures
            r.view() == (KeyAttributes { method: method@, uri: None, iv: None, keyformat: None, keyformatversions: None }),
    {
        KeyBuilder::new(method)
    }

    /// Reads the tag from a parsed tag line, whose value must be an attribute list.
    pub fn try_from(tag: unknown::Tag) -> (r: Result<Key, ValidationError>)
        ensures
            match key_value_spec(value_bytes(tag)) {
                Ok(m) => r matches Ok(t) && t.view() == m && t.output() == tag.original_input@,
                Err(e) => r == Err::<Key, ValidationError>(e),
            },
    {
        let list = typed_attribute_list_of(&tag)?;
        let method = match get_unquoted_str(&list, "METHOD") {
            Some(v) => v,
            None => return Err(ValidationError::MissingRequiredAttribute("METHOD")),
        };
        let attribute_list = KeyAttributeList {
            method: string_from(method),
            uri: copy_opt(get_quoted(&list, "URI")),
            iv: copy_opt(get_unquoted_str(&list, "IV")),
            keyformat: copy_opt(get_quoted(&list, "KEYFORMAT")),
            keyformatversions: copy_opt(get_quoted(&list, "KEYFORMATVERSIONS")),
        };
        let mut output_line: Vec<u8> = Vec::new();
        crate::utils::push_bytes(&mut output_line, tag.original_input);
        Ok(Key { attribute_list, output_line, output_line_is_dirty: false })
    }

    /// The attributes that the changed tag writes.
    fn written(&self) -> (r: KeyAttributeList)
        ensures
            r.view() == key_written(self.view()),
    {
        KeyAttributeList {
            method: string_from(self.attribute_list.method.as_str()),
            uri: copy_opt(self.opt_uri()),
            iv: copy_opt(self.opt_iv()),
            keyformat: without_text(&self.attribute_list.keyformat, "identity"),
            keyformatversions: copy_opt(self.opt_keyformatversions()),
        }
    }

    /// Corresponds to the `METHOD` attribute.
    pub fn method(&self) -> (r: EnumeratedString<'_, Method>)
        ensures
            reads_as_text(r, self.view().method),
    {
        EnumeratedString::from_str(self.attribute_list.method.as_str())
    }

    /// Corresponds to the `URI` attribute.
    pub fn uri(&self) -> (r: Option<&str>)
        ensures
            opt_text(r) == self.view().uri,
    {
        self.opt_uri()
    }

    /// Corresponds to the `IV` attribute.
    pub fn iv(&self) -> (r: Option<&str>)
        ensures
            opt_text(r) == self.view().iv,
    {
        self.opt_iv()
    }

    /// Corresponds to the `KEYFORMAT` attribute (`identity` when absent).
    pub fn keyformat(&self) -> (r: &str)
        ensures
            r@ == match self.view().keyformat {
                Some(v) => v,
                None => "identity"@,
            },
    {
        match &self.attribute_list.keyformat {
            Some(v) => v.as_str(),
            None => "identity",
        }
    }

    /// Corresponds to the `KEYFORMATVERSIONS` attribute.
    pub fn keyformatversions(&self) -> (r: Option<&str>)
        ensures
            opt_text(r) == self.view().keyformatversions,
    {
        self.opt_keyformatversions()
    }

    fn opt_uri(&self) -> (r: Option<&str>)
        ensures
            opt_text(r) == self.view().uri,
    {
        match &self.attribute_list.uri {
            Some(v) => Some(v.as_str()),
            None => None,
        }
    }

    fn opt_iv(&self) -> (r: Option<&str>)
        ensures
            opt_text(r) == self.view().iv,
    {
        match &self.attribute_list.iv {
            Some(v) => Some(v.as_str()),
            None => None,
        }
    }

    fn opt_keyformat(&self) -> (r: Option<&str>)
        ensures
            opt_text(r) == self.view().keyformat,
    {
        match &self.attribute_list.keyformat {
            Some(v) => Some(v.as_str()),
            None => None,
        }
    }

    fn opt_keyformatversions(&self) -> (r: Option<&str>)
        ensures
            opt_text(r) == self.view().keyformatversions,
    {
        match &self.attribute_list.keyformatversions {
            Some(v) => Some(v.as_str()),
            None => None,
        }
    }

    /// Sets the `METHOD` attribute.
    pub fn set_method(&mut self, method: &str)
        ensures
            final(self).view() == (KeyAttributes { method: method@, ..old(self).view() }),
            final(self).output() == key_line(key_written(final(self).view())),
    {
        self.attribute_list.method = string_from(method);
        self.output_line_is_dirty = true;
    }

    /// Sets the `URI` attribute.
    pub fn set_uri(&mut self, uri: &str)
        ensures
            final(self).view() == (KeyAttributes { uri: Some(uri@), ..old(self).view() }),
            final(self).output() == key_line(key_written(final(self).view())),
    {
        self.attribute_list.uri = Some(string_from(uri));
        self.output_line_is_dirty = true;
    }

    /// Removes the `URI` attribute.
    pub fn unset_uri(&mut self)
        ensures
            final(self).view() == (KeyAttributes { uri: None, ..old(self).view() }),
            final(self).output() == key_line(key_written(final(self).view())),
    {
        self.attribute_list.uri = None;
        self.output_line_is_dirty = true;
    }

    /// Sets the `IV` attribute.
    pub fn set_iv(&mut self, iv: &str)
        ensures
            final(self).view() == (KeyAttributes { iv: Some(iv@), ..old(self).view() }),
            final(self).output() == key_line(key_written(final(self).view())),
    {
        self.attribute_list.iv = Some(string_from(iv));
        self.output_line_is_dirty = true;
    }

    /// Removes the `IV` attribute.
    pub fn unset_iv(&mut self)
        ensures
            final(self).view() == (KeyAttributes { iv: None, ..old(self).view() }),
            final(self).output() == key_line(key_written(final(self).view())),
    {
        self.attribute_list.iv = None;
        self.output_line_is_dirty = true;
    }

    /// Sets the `KEYFORMAT` attribute.
    pub fn set_keyformat(&mut self, keyformat: &str)
        ensures
            final(self).view() == (KeyAttributes { keyformat: Some(keyformat@), ..old(self).view() }),
            final(self).output() == key_line(key_written(final(self).view())),
    {
        self.attribute_list.keyformat = Some(string_from(keyformat));
        self.output_line_is_dirty = true;
    }

    /// Removes the `KEYFORMAT` attribute.
    pub fn unset_keyformat(&mut self)
        ensures
            final(self).view() == (KeyAttributes { keyformat: None, ..old(self).view() }),
            final(self).output() == key_line(key_written(final(self).view())),
    {
        self.attribute_list.keyformat = None;
        self.output_line_is_dirty = true;
    }

    /// Sets the `KEYFORMATVERSIONS` attribute.
    pub fn set_keyformatversions(&mut self, keyformatversions: &str)
        ensures
            final(self).view() == (KeyAttributes { keyformatversions: Some(keyformatversions@), ..old(self).view() }),
            final(self).output() == key_line(key_written(final(self).view())),
    {
        self.attribute_list.keyformatversions = Some(string_from(keyformatversions));
        self.output_line_is_dirty = true;
    }

    /// Removes the `KEYFORMATVERSIONS` attribute.
    pub fn unset_keyformatversions(&mut self)
        ensures
            final(self).view() == (KeyAttributes { keyformatversions: None, ..old(self).view() }),
            final(self).output() == key_line(key_written(final(self).view())),
    {
        self.attribute_list.keyformatversions = None;
        self.output_line_is_dirty = true;
    }

    /// Consumes the tag and provides the line it writes.
    pub fn into_inner(self) -> (r: TagInner)
        ensures
            r.view() == self.output(),
    {
        if self.output_line_is_dirty {
            let written = self.written();
            TagInner::from_line(calculate_line(&written))
        } else {
            TagInner::from_line(self.output_line)
        }
    }

}

/// The `KEYFORMAT` that a key reads as: the attribute, or `identity` when it is absent.
pub open spec fn keyformat_or_default(a: KeyAttributes) -> Seq<char> {
    match a.keyformat {
        Some(v) => v,
        None => "identity"@,
    }
}

impl PartialEq for Key {
    fn eq(&self, other: &Self) -> (r: bool) {
        str_eq(self.attribute_list.method.as_str(), other.attribute_list.method.as_str())
            && opt_str_eq(self.uri(), other.uri()) && opt_str_eq(self.iv(), other.iv()) && str_eq(
            self.keyformat(),
            other.keyformat(),
        ) && opt_str_eq(self.keyformatversions(), other.keyformatversions())
    }
}

impl vstd::std_specs::cmp::PartialEqSpecImpl for Key {
    open spec fn obeys_eq_spec() -> bool {
        true
    }

    open spec fn eq_spec(&self, other: &Self) -> bool {
        &&& self.view().method == other.view().method
        &&& self.view().uri == other.view().uri
        &&& self.view().iv == other.view().iv
        &&& keyformat_or_default(self.view()) == keyformat_or_default(other.view())
        &&& self.view().keyformatversions == other.view().keyformatversions
    }
}

/// The attributes of the tag in the order in which its line writes them.
pub open spec fn key_entries(m: KeyAttributes) -> AttributeListView {
    push_quoted_opt(push_quoted_opt(push_unquoted_opt(push_quoted_opt(seq![("METHOD"@, AttributeValueView::Unquoted(encode_utf8(m.method)))], "URI"@, m.uri), "IV"@, opt_encode(m.iv)), "KEYFORMAT"@, m.keyformat), "KEYFORMATVERSIONS"@, m.keyformatversions)
}

proof fn lemma_key_line_text(m: KeyAttributes)
    ensures
        key_line(m) == line_start(TagName::Key) + seq![58u8] + attribute_list_text(
            key_entries(m),
        ),
{
    let l0 = seq![("METHOD"@, AttributeValueView::Unquoted(encode_utf8(m.method)))];
    let l1 = push_quoted_opt(l0, "URI"@, m.uri);
    let l2 = push_unquoted_opt(l1, "IV"@, opt_encode(m.iv));
    let l3 = push_quoted_opt(l2, "KEYFORMAT"@, m.keyformat);
    let l4 = push_quoted_opt(l3, "KEYFORMATVERSIONS"@, m.keyformatversions);
    assert(l4 == key_entries(m));
    assert(attribute_list_text(l0) =~= unquoted_attribute("METHOD"@, encode_utf8(m.method)));
    lemma_push_quoted_opt_text(l0, "URI"@, m.uri);
    lemma_push_unquoted_opt_text(l1, "IV"@, opt_encode(m.iv));
    lemma_push_quoted_opt_text(l2, "KEYFORMAT"@, m.keyformat);
    lemma_push_quoted_opt_text(l3, "KEYFORMATVERSIONS"@, m.keyformatversions);
    assert(key_line(m) =~= line_start(TagName::Key) + seq![58u8] + attribute_list_text(l4));
}

proof fn lemma_key_entries_ok(m: KeyAttributes)
    requires
        unquoted_value_ok(encode_utf8(m.method)),
        m.uri matches Some(v) ==> quoted_value_ok(v),
        m.iv matches Some(v) ==> unquoted_value_ok(encode_utf8(v)),
        m.keyformat matches Some(v) ==> quoted_value_ok(v),
        m.keyformatversions matches Some(v) ==> quoted_value_ok(v),
    ensures
        entries_ok(key_entries(m)),
{
    reveal_strlit("METHOD");
    reveal_strlit("URI");
    reveal_strlit("IV");
    reveal_strlit("KEYFORMAT");
    reveal_strlit("KEYFORMATVERSIONS");
    let l0 = seq![("METHOD"@, AttributeValueView::Unquoted(encode_utf8(m.method)))];
    let l1 = push_quoted_opt(l0, "URI"@, m.uri);
    let l2 = push_unquoted_opt(l1, "IV"@, opt_encode(m.iv));
    let l3 = push_quoted_opt(l2, "KEYFORMAT"@, m.keyformat);
    let l4 = push_quoted_opt(l3, "KEYFORMATVERSIONS"@, m.keyformatversions);
    assert(l4 == key_entries(m));
    lemma_entries_ok_one("METHOD"@, AttributeValueView::Unquoted(encode_utf8(m.method)));
    match m.uri {
        Some(v) => {
            lemma_entries_ok_push(l0, "URI"@, AttributeValueView::Quoted(v));
        },
        None => {},
    }
    match m.iv {
        Some(v) => {
            lemma_entries_ok_push(l1, "IV"@, AttributeValueView::Unquoted(encode_utf8(v)));
        },
        None => {},
    }
    match m.keyformat {
        Some(v) => {
            lemma_entries_ok_push(l2, "KEYFORMAT"@, AttributeValueView::Quoted(v));
        },
        None => {},
    }
    match m.keyformatversions {
        Some(v) => {
            lemma_entries_ok_push(l3, "KEYFORMATVERSIONS"@, AttributeValueView::Quoted(v));
        },
        None => {},
    }
}

proof fn lemma_key_lookup(m: KeyAttributes)
    ensures
        key_spec(key_entries(m)) == Ok::<KeyAttributes, ValidationError>(m),
{
    reveal_strlit("METHOD");
    reveal_strlit("URI");
    reveal_strlit("IV");
    reveal_strlit("KEYFORMAT");
    reveal_strlit("KEYFORMATVERSIONS");
    assert("METHOD"@.len() != "URI"@.len());
    assert("METHOD"@.len() != "IV"@.len());
    assert("METHOD"@.len() != "KEYFORMAT"@.len());
    assert("METHOD"@.len() != "KEYFORMATVERSIONS"@.len());
    assert("URI"@.len() != "IV"@.len());
    assert("URI"@.len() != "KEYFORMAT"@.len());
    assert("URI"@.len() != "KEYFORMATVERSIONS"@.len());
    assert("IV"@.len() != "KEYFORMAT"@.len());
    assert("IV"@.len() != "KEYFORMATVERSIONS"@.len());
    assert("KEYFORMAT"@.len() != "KEYFORMATVERSIONS"@.len());
    let l0 = seq![("METHOD"@, AttributeValueView::Unquoted(encode_utf8(m.method)))];
    let l1 = push_quoted_opt(l0, "URI"@, m.uri);
    let l2 = push_unquoted_opt(l1, "IV"@, opt_encode(m.iv));
    let l3 = push_quoted_opt(l2, "KEYFORMAT"@, m.keyformat);
    let l4 = push_quoted_opt(l3, "KEYFORMATVERSIONS"@, m.keyformatversions);
    assert(l4 == key_entries(m));
    lemma_lookup_push(Seq::empty(), ("METHOD"@, AttributeValueView::Unquoted(encode_utf8(m.method))), "METHOD"@);
    lemma_lookup_push(Seq::empty(), ("METHOD"@, AttributeValueView::Unquoted(encode_utf8(m.method))), "URI"@);
    lemma_lookup_push(Seq::empty(), ("METHOD"@, AttributeValueView::Unquoted(encode_utf8(m.method))), "IV"@);
    lemma_lookup_push(Seq::empty(), ("METHOD"@, AttributeValueView::Unquoted(encode_utf8(m.method))), "KEYFORMAT"@);
    lemma_lookup_push(Seq::empty(), ("METHOD"@, AttributeValueView::Unquoted(encode_utf8(m.method))), "KEYFORMATVERSIONS"@);
    assert(Seq::<(Seq<char>, AttributeValueView)>::empty().push(("METHOD"@, AttributeValueView::Unquoted(encode_utf8(m.method)))) =~= l0);
    match m.uri {
        Some(v) => {
            lemma_lookup_push(l0, ("URI"@, AttributeValueView::Quoted(v)), "METHOD"@);
            lemma_lookup_push(l0, ("URI"@, AttributeValueView::Quoted(v)), "URI"@);
            lemma_lookup_push(l0, ("URI"@, AttributeValueView::Quoted(v)), "IV"@);
            lemma_lookup_push(l0, ("URI"@, AttributeValueView::Quoted(v)), "KEYFORMAT"@);
            lemma_lookup_push(l0, ("URI"@, AttributeValueView::Quoted(v)), "KEYFORMATVERSIONS"@);
        },
        None => {},
    }
    match m.iv {
        Some(v) => {
            lemma_lookup_push(l1, ("IV"@, AttributeValueView::Unquoted(encode_utf8(v))), "METHOD"@);
            lemma_lookup_push(l1, ("IV"@, AttributeValueView::Unquoted(encode_utf8(v))), "URI"@);
            lemma_lookup_push(l1, ("IV"@, AttributeValueView::Unquoted(encode_utf8(v))), "IV"@);
            lemma_lookup_push(l1, ("IV"@, AttributeValueView::Unquoted(encode_utf8(v))), "KEYFORMAT"@);
            lemma_lookup_push(l1, ("IV"@, AttributeValueView::Unquoted(encode_utf8(v))), "KEYFORMATVERSIONS"@);
        },
        None => {},
    }
    match m.keyformat {
        Some(v) => {
            lemma_lookup_push(l2, ("KEYFORMAT"@, AttributeValueView::Quoted(v)), "METHOD"@);
            lemma_lookup_push(l2, ("KEYFORMAT"@, AttributeValueView::Quoted(v)), "URI"@);
            lemma_lookup_push(l2, ("KEYFORMAT"@, AttributeValueView::Quoted(v)), "IV"@);
            lemma_lookup_push(l2, ("KEYFORMAT"@, AttributeValueView::Quoted(v)), "KEYFORMAT"@);
            lemma_lookup_push(l2, ("KEYFORMAT"@, AttributeValueView::Quoted(v)), "KEYFORMATVERSIONS"@);
        },
        None => {},
    }
    match m.keyformatversions {
        Some(v) => {
            lemma_lookup_push(l3, ("KEYFORMATVERSIONS"@, AttributeValueView::Quoted(v)), "METHOD"@);
            lemma_lookup_push(l3, ("KEYFORMATVERSIONS"@, AttributeValueView::Quoted(v)), "URI"@);
            lemma_lookup_push(l3, ("KEYFORMATVERSIONS"@, AttributeValueView::Quoted(v)), "IV"@);
            lemma_lookup_push(l3, ("KEYFORMATVERSIONS"@, AttributeValueView::Quoted(v)), "KEYFORMAT"@);
            lemma_lookup_push(l3, ("KEYFORMATVERSIONS"@, AttributeValueView::Quoted(v)), "KEYFORMATVERSIONS"@);
        },
        None => {},
    }
    encode_utf8_valid_utf8(m.method);
    encode_utf8_decode_utf8(m.method);
    assert(utf8_attr(l4, "METHOD"@) == Some(m.method));
    assert(quoted_attr(l4, "URI"@) == m.uri);
    if let Some(v) = m.iv {
        encode_utf8_valid_utf8(v);
        encode_utf8_decode_utf8(v);
    }
    assert(utf8_attr(l4, "IV"@) == m.iv);
    assert(quoted_attr(l4, "KEYFORMAT"@) == m.keyformat);
    assert(quoted_attr(l4, "KEYFORMATVERSIONS"@) == m.keyformatversions);
}

/// Writing and then reading a key gives it back: its line reads as its name with its
/// attributes as the value, and that value reads as the attributes, when no quoted value holds a
/// `"` or a line feed and no unquoted text value is empty, starts with `"`, or holds a `,` or a
/// line feed.
pub proof fn lemma_key_reads_back(m: KeyAttributes)
    requires
        unquoted_value_ok(encode_utf8(m.method)),
        m.uri matches Some(v) ==> quoted_value_ok(v),
        m.iv matches Some(v) ==> unquoted_value_ok(encode_utf8(v)),
        m.keyformat matches Some(v) ==> quoted_value_ok(v),
        m.keyformatversions matches Some(v) ==> quoted_value_ok(v),
    ensures
        key_line(m) == line_start(TagName::Key) + seq![58u8] + attribute_list_text(
            key_entries(m),
        ),
        unknown::starts_with_ext(key_line(m)),
        unknown::tag_after_ext_spec(key_line(m).subrange(4, key_line(m).len() as int))
            == Ok::<(Seq<u8>, Option<Seq<u8>>, Option<Seq<u8>>), UnknownTagSyntaxError>((
            encode_utf8(tag_name_text(TagName::Key)),
            Some(attribute_list_text(key_entries(m))),
            None,
        )),
        key_value_spec(Some(attribute_list_text(key_entries(m)))) == Ok::<
            KeyAttributes,
            ValidationError,
        >(m),
{
    let l = key_entries(m);
    let text = attribute_list_text(l);
    lemma_key_line_text(m);
    let rest = seq![58u8] + text;
    lemma_line_after_ext(TagName::Key, rest);
    assert(key_line(m) =~= line_start(TagName::Key) + rest);
    assert(encode_utf8(tag_name_text(TagName::Key)) + rest =~= encode_utf8(
        tag_name_text(TagName::Key),
    ) + seq![58u8] + text);
    lemma_tag_name_plain(TagName::Key);
    lemma_key_entries_ok(m);
    lemma_attribute_list_text_free_of_line_feed(l);
    unknown::lemma_read_written_tag(encode_utf8(tag_name_text(TagName::Key)), text);
    lemma_attribute_list_reads_back(l);
    lemma_attribute_list_text_kind(l);
    lemma_key_lookup(m);
}

/// The text of each value of [`Method`] is the one that the HLS specification gives it.
pub proof fn lemma_method_texts()
    ensures
        Method::Unencrypted.text() == "NONE"@,
        Method::Aes128.text() == "AES-128"@,
        Method::SampleAes.text() == "SAMPLE-AES"@,
        Method::SampleAesCtr.text() == "SAMPLE-AES-CTR"@,
{
}

} // verus!
