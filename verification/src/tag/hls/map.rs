//! The `#EXT-X-MAP` tag.

use vstd::prelude::*;
use vstd::string::StringSliceAdditionalSpecFns;
use vstd::string::StringExecFns;
use vstd::utf8::*;
use vstd::slice::slice_subrange;

use crate::error::{UnknownTagSyntaxError, ValidationError};
use crate::tag::hls::{
    lemma_attribute_list_text_kind,
    typed_attribute_list_of, typed_attribute_list_spec, entries_ok, get_quoted,
    lemma_attribute_list_text_free_of_line_feed, lemma_entries_ok_one, lemma_entries_ok_push,
    lemma_line_after_ext, lemma_lookup_push, lemma_tag_name_plain, line_start,
    push_quoted_attribute, quoted_attr, quoted_attribute, quoted_value_ok, start_line,
    tag_name_text, value_bytes, TagName,
};
use crate::tag::known::TagInner;
use crate::tag::unknown;
use crate::tag::value::{
    attribute_list_text, attribute_text, lemma_attribute_list_reads_back,
    lemma_attribute_list_text_push, AttributeListView, AttributeValueView,
};
use crate::utils::{
    str_eq, dec, dec_chars, find_byte, first_index, lemma_dec_ascii, lemma_dec_digits,
    lemma_encode_utf8_concat, lemma_first_index_is, lemma_parse_uint_of_dec, parse_uint,
    parse_uint_spec, string_from, u64_to_string,
};

verus! {

/// The `BYTERANGE` attribute of `#EXT-X-MAP`: a sub-range of the resource.
#[derive(Debug, PartialEq, Eq, Structural, Clone, Copy)]
pub struct MapByterange {
    /// The length of the sub-range in bytes.
    pub length: u64,
    /// The start of the sub-range, as a byte offset from the start of the resource.
    pub offset: u64,
}

/// The text of a sub-range: `<length>@<offset>`.
pub open spec fn map_byterange_text(b: MapByterange) -> Seq<char> {
    dec_chars(b.length as nat) + seq!['@'] + dec_chars(b.offset as nat)
}

/// The sub-range that the text bytes `s` describe: the two numbers around the first `@`.
pub open spec fn map_byterange_spec(s: Seq<u8>) -> Option<MapByterange> {
    match first_index(s, 64u8) {
        None => None,
        Some(i) => match (
            parse_uint_spec(s.subrange(0, i), u64::MAX as nat),
            parse_uint_spec(s.subrange(i + 1, s.len() as int), u64::MAX as nat),
        ) {
            (Some(length), Some(offset)) => Some(
                MapByterange { length: length as u64, offset: offset as u64 },
            ),
            _ => None,
        },
    }
}

impl MapByterange {
    /// The text of the sub-range: `<length>@<offset>`.
    pub fn to_string(&self) -> (r: String)
        ensures
            r@ == map_byterange_text(*self),
    {
        let mut s = u64_to_string(self.length);
        let at = string_from("@");
        proof {
            reveal_strlit("@");
        }
        s.append(at.as_str());
        let offset = u64_to_string(self.offset);
        s.append(offset.as_str());
        s
    }

    /// Reads `<length>@<offset>`.
    pub fn from_str(value: &str) -> (r: Option<MapByterange>)
        ensures
            r == map_byterange_spec(value.spec_bytes()),
    {
        let b = value.as_bytes();
        let len = b.len();
        match find_byte(64u8, b) {
            None => {
                proof {
                    assert(!(exists|i: int| 0 <= i < b@.len() && b@[i] == 64u8));
                }
                None
            },
            Some(i) => {
                proof {
                    lemma_first_index_is(b@, 64u8, i as int);
                }
                let after = i + 1;
                let length = parse_uint(slice_subrange(b, 0, i), 18446744073709551615);
                let offset = parse_uint(slice_subrange(b, after, len), 18446744073709551615);
                match (length, offset) {
                    (Some(length), Some(offset)) => Some(MapByterange { length, offset }),
                    _ => None,
                }
            },
        }
    }
}

/// Reading back the text of a sub-range gives the sub-range.
pub proof fn lemma_map_byterange_round_trip(b: MapByterange)
    ensures
        map_byterange_spec(encode_utf8(map_byterange_text(b))) == Some(b),
{
    let l = dec(b.length as nat);
    let o = dec(b.offset as nat);
    lemma_dec_ascii(b.length as nat);
    lemma_dec_ascii(b.offset as nat);
    lemma_dec_digits(b.length as nat);
    lemma_dec_digits(b.offset as nat);
    lemma_encode_utf8_concat(dec_chars(b.length as nat), seq!['@']);
    lemma_encode_utf8_concat(dec_chars(b.length as nat) + seq!['@'], dec_chars(b.offset as nat));
    assert(encode_utf8(seq!['@']) =~= seq![64u8]) by {
        assert(is_ascii_chars(seq!['@']));
        is_ascii_chars_encode_utf8(seq!['@']);
        assert(('@' as u8) == 64u8);
    }
    let s = l + seq![64u8] + o;
    assert(encode_utf8(map_byterange_text(b)) == s);
    assert forall|j: int| 0 <= j < l.len() implies s[j] != 64u8 by {
        assert(s[j] == l[j]);
        assert(crate::utils::is_digit(l[j]));
    }
    lemma_first_index_is(s, 64u8, l.len() as int);
    assert(s.subrange(0, l.len() as int) =~= l);
    assert(s.subrange(l.len() as int + 1, s.len() as int) =~= o);
    lemma_parse_uint_of_dec(b.length as nat, u64::MAX as nat);
    lemma_parse_uint_of_dec(b.offset as nat, u64::MAX as nat);
}

/// The attributes of the `#EXT-X-MAP` tag.
pub struct MapAttributes {
    /// The value of the `URI` attribute.
    pub uri: Seq<char>,
    /// The value of the `BYTERANGE` attribute.
    pub byterange: Option<MapByterange>,
}

/// The line of the `#EXT-X-MAP` tag with the attributes `m`:
/// `#EXT-X-MAP:URI="<uri>"[,BYTERANGE="<length>@<offset>"]`.
pub open spec fn map_line(m: MapAttributes) -> Seq<u8> {
    line_start(TagName::XMap) + seq![58u8] + quoted_attribute("URI"@, m.uri) + match m.byterange {
        Some(b) => seq![44u8] + quoted_attribute("BYTERANGE"@, map_byterange_text(b)),
        None => Seq::empty(),
    }
}

/// The attributes that an attribute list gives the `#EXT-X-MAP` tag: `URI` is required; a
/// `BYTERANGE` that does not read as `<length>@<offset>` is taken as absent.
pub open spec fn map_spec(list: AttributeListView) -> Result<MapAttributes, ValidationError> {
    match quoted_attr(list, "URI"@) {
        Some(uri) => Ok(
            MapAttributes {
                uri,
                byterange: match quoted_attr(list, "BYTERANGE"@) {
                    Some(t) => map_byterange_spec(encode_utf8(t)),
                    None => None,
                },
            },
        ),
        None => Err(ValidationError::MissingRequiredAttribute("URI")),
    }
}

/// The attributes that a tag value gives the `#EXT-X-MAP` tag.
pub open spec fn map_value_spec(value: Option<Seq<u8>>) -> Result<MapAttributes, ValidationError> {
    match typed_attribute_list_spec(value) {
        Ok(list) => map_spec(list),
        Err(e) => Err(e),
    }
}

/// The attributes of the `#EXT-X-MAP` tag, as values.
#[derive(Debug)]
pub struct MapAttributeList {
    /// The value of the `URI` attribute.
    pub uri: String,
    /// The value of the `BYTERANGE` attribute.
    pub byterange: Option<MapByterange>,
}

impl MapAttributeList {
    /// The attributes.
    pub open spec fn view(&self) -> MapAttributes {
        MapAttributes { uri: self.uri@, byterange: self.byterange }
    }
}

fn calculate_line(a: &MapAttributeList) -> (r: Vec<u8>)
    ensures
        r@ == map_line(a.view()),
{
    let mut line = start_line(TagName::XMap);
    line.push(58u8);
    push_quoted_attribute(&mut line, "URI", a.uri.as_str());
    if let Some(b) = a.byterange {
        line.push(44u8);
        let text = b.to_string();
        push_quoted_attribute(&mut line, "BYTERANGE", text.as_str());
    }
    proof {
        assert(line@ =~= map_line(a.view()));
    }
    line
}

/// A builder for convenience in constructing a [`XMap`].
#[derive(Debug)]
pub struct MapBuilder {
    attribute_list: MapAttributeList,
}

impl MapBuilder {
    /// The attributes built so far.
    pub closed spec fn view(&self) -> MapAttributes {
        self.attribute_list.view()
    }

    /// Creates a new builder.
    pub fn new(uri: &str) -> (r: Self)
        ensures
            r.view() == (MapAttributes { uri: uri@, byterange: None }),
    {
        MapBuilder { attribute_list: MapAttributeList { uri: string_from(uri), byterange: None } }
    }

    /// Finishes building and constructs the tag.
    pub fn finish(self) -> (r: XMap)
        ensures
            r.view() == self.view(),
            r.output() == map_line(self.view()),
    {
        XMap::new(self.attribute_list)
    }

    /// Sets the `URI` attribute.
    pub fn with_uri(self, uri: &str) -> (r: Self)
        ensures
            r.view() == (MapAttributes { uri: uri@, ..self.view() }),
    {
        let mut s = self;
        s.attribute_list.uri = string_from(uri);
        s
    }

    /// Sets the `BYTERANGE` attribute.
    pub fn with_byterange(self, byterange: MapByterange) -> (r: Self)
        ensures
            r.view() == (MapAttributes { byterange: Some(byterange), ..self.view() }),
    {
        let mut s = self;
        s.attribute_list.byterange = Some(byterange);
        s
    }
}

/// Corresponds to the `#EXT-X-MAP` tag.
///
/// <https://datatracker.ietf.org/doc/html/draft-pantos-hls-rfc8216bis-17#section-4.4.4.5>
#[derive(Debug)]
pub struct XMap {
    attribute_list: MapAttributeList,
    output_line: Vec<u8>,
    output_line_is_dirty: bool,
}

impl XMap {
    /// The attributes of the tag.
    pub closed spec fn view(&self) -> MapAttributes {
        self.attribute_list.view()
    }

    /// The line that the tag writes: the parsed or built line until the tag is changed, then the
    /// line calculated from its attributes.
    pub closed spec fn output(&self) -> Seq<u8> {
        if self.output_line_is_dirty {
            map_line(self.attribute_list.view())
        } else {
            self.output_line@
        }
    }

    /// Constructs a new tag with the attributes `attribute_list`.
    pub fn new(attribute_list: MapAttributeList) -> (r: XMap)
        ensures
            r.view() == attribute_list.view(),
            r.output() == map_line(attribute_list.view()),
    {
        let output_line = calculate_line(&attribute_list);
        XMap { attribute_list, output_line, output_line_is_dirty: false }
    }

    /// Starts a builder for producing the tag.
    pub fn builder(uri: &str) -> (r: MapBuilder)
        ensures
            r.view() == (MapAttributes { uri: uri@, byterange: None }),
    {
        MapBuilder::new(uri)
    }

    /// Reads the tag from a parsed tag line, whose value must be an attribute list with `URI`.
    pub fn try_from(tag: unknown::Tag) -> (r: Result<XMap, ValidationError>)
        ensures
            match map_value_spec(value_bytes(tag)) {
                Ok(m) => r matches Ok(t) && t.view() == m && t.output() == tag.original_input@,
                Err(e) => r == Err::<XMap, ValidationError>(e),
            },
    {
        let list = typed_attribute_list_of(&tag)?;
        let uri = match get_quoted(&list, "URI") {
            Some(v) => v,
            None => return Err(ValidationError::MissingRequiredAttribute("URI")),
        };
        let byterange = match get_quoted(&list, "BYTERANGE") {
            Some(t) => MapByterange::from_str(t),
            None => None,
        };
        let attribute_list = MapAttributeList { uri: string_from(uri), byterange };
        let mut output_line: Vec<u8> = Vec::new();
        crate::utils::push_bytes(&mut output_line, tag.original_input);
        Ok(XMap { attribute_list, output_line, output_line_is_dirty: false })
    }

    /// Consumes the tag and provides the line it writes.
    pub fn into_inner(self) -> (r: TagInner)
        ensures
            r.view() == self.output(),
    {
        if self.output_line_is_dirty {
            TagInner::from_line(calculate_line(&self.attribute_list))
        } else {
            TagInner::from_line(self.output_line)
        }
    }

    /// Corresponds to the `URI` attribute.
    pub fn uri(&self) -> (r: &str)
        ensures
            r@ == self.view().uri,
    {
        self.attribute_list.uri.as_str()
    }

    /// Corresponds to the `BYTERANGE` attribute.
    pub fn byterange(&self) -> (r: Option<MapByterange>)
        ensures
            r == self.view().byterange,
    {
        self.attribute_list.byterange
    }

    /// Sets the `URI` attribute.
    pub fn set_uri(&mut self, uri: &str)
        ensures
            final(self).view() == (MapAttributes { uri: uri@, ..old(self).view() }),
            final(self).output() == map_line(final(self).view()),
    {
        self.attribute_list.uri = string_from(uri);
        self.output_line_is_dirty = true;
    }

    /// Sets the `BYTERANGE` attribute.
    pub fn set_byterange(&mut self, byterange: MapByterange)
        ensures
            final(self).view() == (MapAttributes { byterange: Some(byterange), ..old(self).view() }),
            final(self).output() == map_line(final(self).view()),
    {
        self.attribute_list.byterange = Some(byterange);
        self.output_line_is_dirty = true;
    }

    /// Removes the `BYTERANGE` attribute.
    pub fn unset_byterange(&mut self)
        ensures
            final(self).view() == (MapAttributes { byterange: None, ..old(self).view() }),
            final(self).output() == map_line(final(self).view()),
    {
        self.attribute_list.byterange = None;
        self.output_line_is_dirty = true;
    }
}

impl PartialEq for XMap {
    fn eq(&self, other: &Self) -> (r: bool) {
        str_eq(self.uri(), other.uri()) && match (self.byterange(), other.byterange()) {
            (Some(a), Some(b)) => a.length == b.length && a.offset == b.offset,
            (None, None) => true,
            _ => false,
        }
    }
}

impl vstd::std_specs::cmp::PartialEqSpecImpl for XMap {
    open spec fn obeys_eq_spec() -> bool {
        true
    }

    open spec fn eq_spec(&self, other: &Self) -> bool {
        &&& self.view().uri == other.view().uri
        &&& self.view().byterange == other.view().byterange
    }
}

/// The text of a sub-range can be written in quotes so that it reads back.
proof fn lemma_map_byterange_text_ok(b: MapByterange)
    ensures
        quoted_value_ok(map_byterange_text(b)),
{
    let l = dec(b.length as nat);
    let o = dec(b.offset as nat);
    lemma_dec_ascii(b.length as nat);
    lemma_dec_ascii(b.offset as nat);
    lemma_dec_digits(b.length as nat);
    lemma_dec_digits(b.offset as nat);
    lemma_encode_utf8_concat(dec_chars(b.length as nat), seq!['@']);
    lemma_encode_utf8_concat(dec_chars(b.length as nat) + seq!['@'], dec_chars(b.offset as nat));
    assert(encode_utf8(seq!['@']) =~= seq![64u8]) by {
        assert(is_ascii_chars(seq!['@']));
        is_ascii_chars_encode_utf8(seq!['@']);
        assert(('@' as u8) == 64u8);
    }
    let s = l + seq![64u8] + o;
    assert(encode_utf8(map_byterange_text(b)) == s);
    assert forall|j: int| 0 <= j < s.len() implies s[j] != 34u8 && s[j] != 10u8 by {
        if j < l.len() {
            assert(crate::utils::is_digit(l[j]));
        } else if j > l.len() {
            assert(s[j] == o[j - l.len() - 1]);
            assert(crate::utils::is_digit(o[j - l.len() - 1]));
        }
    }
    assert(!s.contains(34u8));
}

/// The attributes of a map tag in the order in which its line writes them.
pub open spec fn map_entries(m: MapAttributes) -> AttributeListView {
    let first = seq![("URI"@, AttributeValueView::Quoted(m.uri))];
    match m.byterange {
        Some(b) => first.push(("BYTERANGE"@, AttributeValueView::Quoted(map_byterange_text(b)))),
        None => first,
    }
}

#[verifier::spinoff_prover]
#[verifier::rlimit(40)]
proof fn lemma_map_entries(m: MapAttributes)
    requires
        quoted_value_ok(m.uri),
    ensures
        map_line(m) == line_start(TagName::XMap) + seq![58u8] + attribute_list_text(map_entries(m)),
        entries_ok(map_entries(m)),
        map_spec(map_entries(m)) == Ok::<MapAttributes, ValidationError>(m),
{
    reveal_strlit("URI");
    reveal_strlit("BYTERANGE");
    assert("URI"@.len() != "BYTERANGE"@.len());
    let e0 = ("URI"@, AttributeValueView::Quoted(m.uri));
    let first = seq![e0];
    let empty = Seq::<(Seq<char>, AttributeValueView)>::empty();
    assert(empty.push(e0) =~= first);
    assert(attribute_list_text(first) =~= quoted_attribute("URI"@, m.uri));
    lemma_entries_ok_one("URI"@, AttributeValueView::Quoted(m.uri));
    lemma_lookup_push(empty, e0, "URI"@);
    lemma_lookup_push(empty, e0, "BYTERANGE"@);
    match m.byterange {
        Some(b) => {
            let e1 = ("BYTERANGE"@, AttributeValueView::Quoted(map_byterange_text(b)));
            lemma_attribute_list_text_push(first, e1);
            assert(attribute_text(e1) =~= quoted_attribute("BYTERANGE"@, map_byterange_text(b)));
            lemma_map_byterange_text_ok(b);
            lemma_entries_ok_push(first, "BYTERANGE"@, AttributeValueView::Quoted(map_byterange_text(b)));
            lemma_lookup_push(first, e1, "URI"@);
            lemma_lookup_push(first, e1, "BYTERANGE"@);
            lemma_map_byterange_round_trip(b);
        },
        None => {},
    }
    assert(map_line(m) =~= line_start(TagName::XMap) + seq![58u8] + attribute_list_text(map_entries(m)));
}

/// Writing and then reading a map tag gives it back: its line reads as its name with its
/// attributes as the value, and that value reads as the attributes, when the URI holds no `"` and
/// no line feed.
pub proof fn lemma_map_reads_back(m: MapAttributes)
    requires
        quoted_value_ok(m.uri),
    ensures
        map_line(m) == line_start(TagName::XMap) + seq![58u8] + attribute_list_text(map_entries(m)),
        unknown::starts_with_ext(map_line(m)),
        unknown::tag_after_ext_spec(map_line(m).subrange(4, map_line(m).len() as int)) == Ok::<
            (Seq<u8>, Option<Seq<u8>>, Option<Seq<u8>>),
            UnknownTagSyntaxError,
        >((encode_utf8(tag_name_text(TagName::XMap)), Some(attribute_list_text(map_entries(m))), None)),
        map_value_spec(Some(attribute_list_text(map_entries(m)))) == Ok::<MapAttributes, ValidationError>(
            m,
        ),
{
    let l = map_entries(m);
    let text = attribute_list_text(l);
    lemma_map_entries(m);
    let rest = seq![58u8] + text;
    lemma_line_after_ext(TagName::XMap, rest);
    assert(map_line(m) =~= line_start(TagName::XMap) + rest);
    assert(encode_utf8(tag_name_text(TagName::XMap)) + rest =~= encode_utf8(
        tag_name_text(TagName::XMap),
    ) + seq![58u8] + text);
    lemma_tag_name_plain(TagName::XMap);
    lemma_attribute_list_text_free_of_line_feed(l);
    unknown::lemma_read_written_tag(encode_utf8(tag_name_text(TagName::XMap)), text);
    lemma_attribute_list_reads_back(l);
    lemma_attribute_list_text_kind(l);
}

} // verus!
