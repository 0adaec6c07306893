//! The value component of a tag line (everything after the `:`) and the ways of reading it.

use vstd::prelude::*;
use vstd::string::StringSliceAdditionalSpecFns;
use vstd::utf8::*;
use vstd::slice::slice_subrange;

use crate::date::{date_time_spec, parse_bytes, DateTime};
use crate::error::{
    AttributeListSyntaxError, DateTimeSyntaxError, DecimalResolutionParseError,
    ParseDecimalIntegerRangeError, ParseNumberError, ParsePlaylistTypeError,
    ValidationErrorValueKind,
};
use crate::utils::{
    str_eq, str_from_utf8, bytes_eq, dec, dec_chars, find_byte, first_index, is_digit,
    lemma_dec_ascii, lemma_dec_digits, lemma_encode_utf8_concat, lemma_first_index_is,
    lemma_first_index_facts, lemma_parse_u64_of_dec, parse_u64, parse_u64_spec, push_u64,
    string_from, u64_to_string, find_any_of_three_bytes,
};

verus! {

/// The raw value of a tag line (everything after the first `:`), with methods that read it as
/// the value types of the HLS specification.
#[derive(Debug, PartialEq, Eq, Clone, Copy)]
pub struct TagValue<'a>(pub &'a [u8]);

/// Whether a byte tells the kind of a tag value: a line feed, `,` or `=`.
pub open spec fn is_kind_mark(b: u8) -> bool {
    b == 10u8 || b == 44u8 || b == 61u8
}

/// Whether position `i` of `b` holds the first byte of `b` that tells the kind of a tag value.
pub open spec fn first_kind_mark(b: Seq<u8>, i: int) -> bool {
    &&& 0 <= i < b.len()
    &&& is_kind_mark(b[i])
    &&& forall|j: int| 0 <= j < i ==> !is_kind_mark(#[trigger] b[j])
}

/// The kind of a tag value with the text `b`, by the first of its bytes that is a line feed, `,`
/// or `=`: `=` makes an attribute list, `,` a decimal floating point number with a title, and a
/// line feed, or none of the three, an unparsed value.
pub open spec fn value_kind_of_text(b: Seq<u8>) -> ValidationErrorValueKind {
    if exists|i: int| #[trigger] first_kind_mark(b, i) && b[i] == 61u8 {
        ValidationErrorValueKind::AttributeList
    } else if exists|i: int| #[trigger] first_kind_mark(b, i) && b[i] == 44u8 {
        ValidationErrorValueKind::DecimalFloatingPointWithOptionalTitle
    } else {
        ValidationErrorValueKind::Unparsed
    }
}

/// The kind of a tag value that may be absent: no value is empty.
pub open spec fn value_kind_spec(value: Option<Seq<u8>>) -> ValidationErrorValueKind {
    match value {
        None => ValidationErrorValueKind::Empty,
        Some(b) => value_kind_of_text(b),
    }
}

/// There is at most one first byte that tells the kind of a value.
proof fn lemma_first_kind_mark_unique(b: Seq<u8>, i: int, k: int)
    requires
        first_kind_mark(b, i),
        first_kind_mark(b, k),
    ensures
        i == k,
{
    if i < k {
        assert(!is_kind_mark(b[i]));
    }
    if k < i {
        assert(!is_kind_mark(b[k]));
    }
}

/// The kind of a value whose first byte that tells the kind is at `i`.
pub proof fn lemma_value_kind_at(b: Seq<u8>, i: int)
    requires
        first_kind_mark(b, i),
    ensures
        value_kind_of_text(b) == (if b[i] == 61u8 {
            ValidationErrorValueKind::AttributeList
        } else if b[i] == 44u8 {
            ValidationErrorValueKind::DecimalFloatingPointWithOptionalTitle
        } else {
            ValidationErrorValueKind::Unparsed
        }),
{
    assert forall|k: int| #[trigger] first_kind_mark(b, k) implies k == i by {
        lemma_first_kind_mark_unique(b, i, k);
    }
}

/// A value with no line feed, `,` or `=` is unparsed.
pub proof fn lemma_value_kind_unmarked(b: Seq<u8>)
    requires
        forall|j: int| 0 <= j < b.len() ==> !is_kind_mark(#[trigger] b[j]),
    ensures
        value_kind_of_text(b) == ValidationErrorValueKind::Unparsed,
{
    assert forall|k: int| !(#[trigger] first_kind_mark(b, k)) by {
        if 0 <= k < b.len() {
            assert(!is_kind_mark(b[k]));
        }
    }
}

/// The kind of a tag value that may be absent.
pub fn value_kind(value: Option<TagValue>) -> (r: ValidationErrorValueKind)
    ensures
        r == value_kind_spec(
            match value {
                Some(v) => Some(v.0@),
                None => None,
            },
        ),
{
    match value {
        None => ValidationErrorValueKind::Empty,
        Some(v) => {
            let b = v.0;
            match find_any_of_three_bytes(10u8, 44u8, 61u8, b) {
                Some(i) => {
                    proof {
                        assert(first_kind_mark(b@, i as int));
                        lemma_value_kind_at(b@, i as int);
                    }
                    if b[i] == 61u8 {
                        ValidationErrorValueKind::AttributeList
                    } else if b[i] == 44u8 {
                        ValidationErrorValueKind::DecimalFloatingPointWithOptionalTitle
                    } else {
                        ValidationErrorValueKind::Unparsed
                    }
                },
                None => {
                    proof {
                        lemma_value_kind_unmarked(b@);
                    }
                    ValidationErrorValueKind::Unparsed
                },
            }
        },
    }
}

/// A tag value that has not been read as any particular type yet.
pub type UnparsedTagValue<'a> = TagValue<'a>;

/// The HLS playlist type, as defined in `#EXT-X-PLAYLIST-TYPE`.
#[derive(Debug, PartialEq, Eq, Structural, Clone, Copy)]
pub enum HlsPlaylistType {
    /// Media Segments can only be added to the end of the Media Playlist.
    Event,
    /// The Media Playlist cannot change.
    Vod,
}

/// The result of reading `s` as a playlist type.
pub open spec fn playlist_type_spec(s: Seq<u8>) -> Result<HlsPlaylistType, ParsePlaylistTypeError> {
    if s == "VOD".spec_bytes() {
        Ok(HlsPlaylistType::Vod)
    } else if s == "EVENT".spec_bytes() {
        Ok(HlsPlaylistType::Event)
    } else {
        Err(ParsePlaylistTypeError::InvalidValue)
    }
}

/// The result of reading `s` as a decimal integer range (`<n>[@<o>]`).
pub open spec fn decimal_integer_range_spec(s: Seq<u8>) -> Result<
    (u64, Option<u64>),
    ParseDecimalIntegerRangeError,
> {
    match first_index(s, 64u8) {
        Some(n) => match parse_u64_spec(s.subrange(0, n)) {
            Err(e) => Err(ParseDecimalIntegerRangeError::InvalidLength(e)),
            Ok(length) => match parse_u64_spec(s.subrange(n + 1, s.len() as int)) {
                Err(e) => Err(ParseDecimalIntegerRangeError::InvalidOffset(e)),
                Ok(offset) => Ok((length, Some(offset))),
            },
        },
        None => match parse_u64_spec(s) {
            Err(e) => Err(ParseDecimalIntegerRangeError::InvalidLength(e)),
            Ok(length) => Ok((length, None)),
        },
    }
}

impl<'a> TagValue<'a> {
    /// Reads the value as a playlist type (`EVENT` or `VOD`).
    pub fn try_as_hls_playlist_type(&self) -> (r: Result<HlsPlaylistType, ParsePlaylistTypeError>)
        ensures
            r == playlist_type_spec(self.0@),
    {
        if bytes_eq(self.0, "VOD".as_bytes()) {
            Ok(HlsPlaylistType::Vod)
        } else if bytes_eq(self.0, "EVENT".as_bytes()) {
            Ok(HlsPlaylistType::Event)
        } else {
            Err(ParsePlaylistTypeError::InvalidValue)
        }
    }

    /// Reads the value as a decimal integer.
    pub fn try_as_decimal_integer(&self) -> (r: Result<u64, ParseNumberError>)
        ensures
            r == parse_u64_spec(self.0@),
    {
        parse_u64(self.0)
    }

    /// Splits the value as `<duration>,[<title>]` at its first comma: the bytes of the duration,
    /// and the title (empty without a comma), which must be valid UTF-8.
    pub fn try_as_duration_and_title(&self) -> (r: Result<(&'a [u8], &'a str), core::str::Utf8Error>)
        ensures
            match first_index(self.0@, 44u8) {
                None => r matches Ok((d, t)) && d@ == self.0@ && t@.len() == 0,
                Some(n) => {
                    &&& r is Ok <==> valid_utf8(self.0@.subrange(n + 1, self.0@.len() as int))
                    &&& r matches Ok((d, t)) ==> d@ == self.0@.subrange(0, n) && t.spec_bytes()
                        == self.0@.subrange(n + 1, self.0@.len() as int)
                },
            },
    {
        let s = self.0;
        let len = s.len();
        match find_byte(44u8, s) {
            None => {
                proof {
                    lemma_first_index_facts(s@, 44u8);
                    reveal_strlit("");
                }
                Ok((s, ""))
            },
            Some(n) => {
                proof {
                    lemma_first_index_is(s@, 44u8, n as int);
                }
                let title = str_from_utf8(slice_subrange(s, n + 1, len))?;
                Ok((slice_subrange(s, 0, n), title))
            },
        }
    }

    /// Reads the value as a date and time (`YYYY-MM-DDThh:mm:ss[.sss]` and `Z` or an offset).
    pub fn try_as_date_time(&self) -> (r: Result<DateTime, DateTimeSyntaxError>)
        ensures
            r == date_time_spec(self.0@),
    {
        parse_bytes(self.0)
    }

    /// Reads the value as a decimal integer range (`<n>[@<o>]`).
    pub fn try_as_decimal_integer_range(&self) -> (r: Result<
        (u64, Option<u64>),
        ParseDecimalIntegerRangeError,
    >)
        ensures
            r == decimal_integer_range_spec(self.0@),
    {
        let s = self.0;
        let len = s.len();
        match find_byte(64u8, s) {
            Some(n) => {
                proof {
                    lemma_first_index_is(s@, 64u8, n as int);
                }
                let length = match parse_u64(slice_subrange(s, 0, n)) {
                    Ok(l) => l,
                    Err(e) => return Err(ParseDecimalIntegerRangeError::InvalidLength(e)),
                };
                let offset = match parse_u64(slice_subrange(s, n + 1, s.len())) {
                    Ok(o) => o,
                    Err(e) => return Err(ParseDecimalIntegerRangeError::InvalidOffset(e)),
                };
                Ok((length, Some(offset)))
            },
            None => {
                proof {
                    assert(!(exists|i: int| 0 <= i < s@.len() && s@[i] == 64u8));
                }
                match parse_u64(s) {
                    Ok(length) => Ok((length, None)),
                    Err(e) => Err(ParseDecimalIntegerRangeError::InvalidLength(e)),
                }
            },
        }
    }
}

/// An owned copy of a tag value.
#[derive(Debug, PartialEq, Eq, Clone)]
pub struct MutableUnparsedTagValue(pub Vec<u8>);

impl MutableUnparsedTagValue {
    /// Copies the bytes of `value`.
    pub fn from_unparsed(value: TagValue<'_>) -> (r: Self)
        ensures
            r.0@ == value.0@,
    {
        let mut v: Vec<u8> = Vec::new();
        crate::utils::push_bytes(&mut v, value.0);
        MutableUnparsedTagValue(v)
    }
}

/// A decimal resolution (`<width>x<height>`).
#[derive(Debug, PartialEq, Eq, Clone, Copy)]
pub struct DecimalResolution {
    /// A horizontal pixel dimension (width).
    pub width: u64,
    /// A vertical pixel dimension (height).
    pub height: u64,
}

/// The result of reading `s` as a decimal resolution: the width is everything before the first
/// `x` and the height everything after it.
pub open spec fn decimal_resolution_spec(s: Seq<u8>) -> Result<
    DecimalResolution,
    DecimalResolutionParseError,
> {
    match first_index(s, 120u8) {
        None => match parse_u64_spec(s) {
            Err(e) => Err(DecimalResolutionParseError::InvalidWidth(e)),
            Ok(_) => Err(DecimalResolutionParseError::MissingHeight),
        },
        Some(n) => match parse_u64_spec(s.subrange(0, n)) {
            Err(e) => Err(DecimalResolutionParseError::InvalidWidth(e)),
            Ok(width) => match parse_u64_spec(s.subrange(n + 1, s.len() as int)) {
                Err(e) => Err(DecimalResolutionParseError::InvalidHeight(e)),
                Ok(height) => Ok(DecimalResolution { width, height }),
            },
        },
    }
}

/// The text of a decimal resolution (`<width>x<height>`).
pub open spec fn decimal_resolution_text(r: DecimalResolution) -> Seq<char> {
    dec_chars(r.width as nat) + seq!['x'] + dec_chars(r.height as nat)
}

/// Reading back the text of a decimal resolution gives the resolution; the text is the width's
/// digits, `x` and the height's digits.
#[verifier::spinoff_prover]
#[verifier::rlimit(40)]
pub proof fn lemma_decimal_resolution_round_trip(r: DecimalResolution)
    ensures
        encode_utf8(decimal_resolution_text(r)) == dec(r.width as nat) + seq![120u8] + dec(
            r.height as nat,
        ),
        decimal_resolution_spec(encode_utf8(decimal_resolution_text(r))) == Ok::<
            DecimalResolution,
            DecimalResolutionParseError,
        >(r),
{
    let w = dec(r.width as nat);
    let h = dec(r.height as nat);
    lemma_dec_ascii(r.width as nat);
    lemma_dec_ascii(r.height as nat);
    lemma_dec_digits(r.width as nat);
    lemma_encode_utf8_concat(dec_chars(r.width as nat), seq!['x']);
    lemma_encode_utf8_concat(dec_chars(r.width as nat) + seq!['x'], dec_chars(r.height as nat));
    assert(encode_utf8(seq!['x']) =~= seq![120u8]) by {
        assert(is_ascii_chars(seq!['x']));
        is_ascii_chars_encode_utf8(seq!['x']);
        assert(('x' as u8) == 120u8);
    }
    let s = w + seq![120u8] + h;
    assert(encode_utf8(decimal_resolution_text(r)) == s);
    assert forall|j: int| 0 <= j < w.len() implies s[j] != 120u8 by {
        assert(s[j] == w[j]);
        assert(is_digit(w[j]));
    }
    lemma_first_index_is(s, 120u8, w.len() as int);
    assert(s.subrange(0, w.len() as int) =~= w);
    assert(s.subrange(w.len() as int + 1, s.len() as int) =~= h);
    lemma_parse_u64_of_dec(r.width);
    lemma_parse_u64_of_dec(r.height);
}

impl DecimalResolution {
    /// Reads `s` as `<width>x<height>`.
    pub fn try_from_str(s: &str) -> (r: Result<Self, DecimalResolutionParseError>)
        ensures
            r == decimal_resolution_spec(s.spec_bytes()),
    {
        let b = s.as_bytes();
        let len = b.len();
        match find_byte(120u8, b) {
            None => {
                proof {
                    assert(!(exists|i: int| 0 <= i < b@.len() && b@[i] == 120u8));
                }
                match parse_u64(b) {
                    Err(e) => Err(DecimalResolutionParseError::InvalidWidth(e)),
                    Ok(_) => Err(DecimalResolutionParseError::MissingHeight),
                }
            },
            Some(n) => {
                proof {
                    lemma_first_index_is(b@, 120u8, n as int);
                }
                let width = match parse_u64(slice_subrange(b, 0, n)) {
                    Ok(w) => w,
                    Err(e) => return Err(DecimalResolutionParseError::InvalidWidth(e)),
                };
                match parse_u64(slice_subrange(b, n + 1, b.len())) {
                    Ok(height) => Ok(DecimalResolution { width, height }),
                    Err(e) => Err(DecimalResolutionParseError::InvalidHeight(e)),
                }
            },
        }
    }

    /// The text of the resolution (`<width>x<height>`).
    pub fn to_string(&self) -> (r: String)
        ensures
            r@ == decimal_resolution_text(*self),
    {
        let mut s = u64_to_string(self.width);
        let x = string_from("x");
        proof {
            reveal_strlit("x");
        }
        s.append(x.as_str());
        let h = u64_to_string(self.height);
        s.append(h.as_str());
        s
    }
}

/// An attribute value that was not enclosed in quotes (a `decimal-integer`,
/// `hexadecimal-sequence`, `enumerated-string`, `decimal-resolution`, or a floating point number).
#[derive(Debug, PartialEq, Eq, Clone, Copy)]
pub struct UnquotedAttributeValue<'a>(pub &'a [u8]);

impl<'a> UnquotedAttributeValue<'a> {
    /// Reads the value as a decimal integer.
    pub fn try_as_decimal_integer(&self) -> (r: Result<u64, ParseNumberError>)
        ensures
            r == parse_u64_spec(self.0@),
    {
        parse_u64(self.0)
    }

    /// Reads the value as text.
    pub fn try_as_utf_8(&self) -> (r: Result<&'a str, core::str::Utf8Error>)
        ensures
            r is Ok <==> valid_utf8(self.0@),
            r matches Ok(s) ==> s.spec_bytes() == self.0@ && s@ == decode_utf8(self.0@),
    {
        let r = str_from_utf8(self.0);
        proof {
            if let Ok(s) = r {
                encode_utf8_decode_utf8(s@);
            }
        }
        r
    }
}

/// The value of an attribute in an attribute list.
#[derive(Debug, PartialEq, Eq, Clone, Copy)]
pub enum AttributeValue<'a> {
    /// A `quoted-string` (the text between the quotes).
    Quoted(&'a str),
    /// Any other value, left as bytes.
    Unquoted(UnquotedAttributeValue<'a>),
}

/// The abstract value of an attribute.
pub enum AttributeValueView {
    /// A quoted string with these characters.
    Quoted(Seq<char>),
    /// An unquoted value with these bytes.
    Unquoted(Seq<u8>),
}

impl<'a> AttributeValue<'a> {
    /// The abstract value of the attribute.
    pub open spec fn view(self) -> AttributeValueView {
        match self {
            AttributeValue::Quoted(s) => AttributeValueView::Quoted(s@),
            AttributeValue::Unquoted(u) => AttributeValueView::Unquoted(u.0@),
        }
    }

    /// The text of a quoted value.
    pub fn quoted(&self) -> (r: Option<&'a str>)
        ensures
            match self.view() {
                AttributeValueView::Quoted(q) => r matches Some(s) && s@ == q,
                AttributeValueView::Unquoted(_) => r is None,
            },
    {
        match self {
            AttributeValue::Quoted(s) => Some(*s),
            AttributeValue::Unquoted(_) => None,
        }
    }

    /// The bytes of an unquoted value.
    pub fn unquoted(&self) -> (r: Option<UnquotedAttributeValue<'a>>)
        ensures
            match self.view() {
                AttributeValueView::Quoted(_) => r is None,
                AttributeValueView::Unquoted(u) => r matches Some(v) && v.0@ == u,
            },
    {
        match self {
            AttributeValue::Quoted(_) => None,
            AttributeValue::Unquoted(u) => Some(*u),
        }
    }
}

/// The abstract content of an attribute list: its attributes in the order they were written.
pub type AttributeListView = Seq<(Seq<char>, AttributeValueView)>;

/// Puts `prefix` before the attributes of a successful result.
pub open spec fn with_prefix(
    prefix: AttributeListView,
    r: Result<AttributeListView, AttributeListSyntaxError>,
) -> Result<AttributeListView, AttributeListSyntaxError> {
    match r {
        Ok(l) => Ok(prefix + l),
        Err(e) => Err(e),
    }
}

/// Reading the first attribute of `s`: the attribute, and the position in `s` where the next
/// attribute starts (`None` when the list ends after it). The name runs up to the first `=` (and
/// may be empty); nothing after the `=` is an error; a value starting with `"` runs up to the
/// next `"` and must be followed by `,` or the end (a carriage return there is refused as white
/// space); any other value runs up to the next `,` or the end (and may be empty when a `,` follows
/// the `=`).
#[verifier::opaque]
pub open spec fn next_attribute_spec(s: Seq<u8>) -> Result<
    ((Seq<char>, AttributeValueView), Option<int>),
    AttributeListSyntaxError,
> {
    match first_index(s, 61u8) {
        None => Err(AttributeListSyntaxError::MissingEquals),
        Some(n) => {
            let name = s.subrange(0, n);
            let rest = s.subrange(n + 1, s.len() as int);
            if !valid_utf8(name) {
                Err(AttributeListSyntaxError::InvalidUtf8)
            } else if rest.len() == 0 {
                Err(AttributeListSyntaxError::EmptyAttributeValue)
            } else if rest[0] == 34u8 {
                let inner = rest.subrange(1, rest.len() as int);
                match first_index(inner, 34u8) {
                    None => Err(AttributeListSyntaxError::UnterminatedQuotedString),
                    Some(m) => {
                        let q = inner.subrange(0, m);
                        let after = inner.subrange(m + 1, inner.len() as int);
                        let entry = (decode_utf8(name), AttributeValueView::Quoted(decode_utf8(q)));
                        if !valid_utf8(q) {
                            Err(AttributeListSyntaxError::InvalidUtf8)
                        } else if after.len() == 0 {
                            Ok((entry, None))
                        } else if after[0] == 44u8 {
                            Ok((entry, Some(n + m + 4)))
                        } else if after[0] == 13u8 {
                            Err(AttributeListSyntaxError::UnexpectedWhitespaceAfterQuotedString)
                        } else {
                            Err(AttributeListSyntaxError::UnexpectedCharacterAfterQuotedString(
                                after[0],
                            ))
                        }
                    },
                }
            } else {
                match first_index(rest, 44u8) {
                    None => Ok(((decode_utf8(name), AttributeValueView::Unquoted(rest)), None)),
                    Some(m) => Ok(
                        (
                            (decode_utf8(name), AttributeValueView::Unquoted(rest.subrange(0, m))),
                            Some(n + m + 2),
                        ),
                    ),
                }
            }
        },
    }
}

/// The result of reading `s` as an attribute list
/// (`<AttributeName>=<AttributeValue>[,<AttributeName>=<AttributeValue>...]`), attribute after
/// attribute as [`next_attribute_spec`] reads them.
pub open spec fn attribute_list_spec(s: Seq<u8>) -> Result<
    AttributeListView,
    AttributeListSyntaxError,
>
    decreases s.len(),
{
    match next_attribute_spec(s) {
        Err(e) => Err(e),
        Ok((entry, None)) => Ok(seq![entry]),
        Ok((entry, Some(k))) => if 0 < k <= s.len() {
            with_prefix(seq![entry], attribute_list_spec(s.subrange(k, s.len() as int)))
        } else {
            Err(AttributeListSyntaxError::MissingEquals)
        },
    }
}

/// The value of the last attribute called `name` in `list`, if any.
pub open spec fn lookup_attribute(list: AttributeListView, name: Seq<char>) -> Option<
    AttributeValueView,
>
    decreases list.len(),
{
    if list.len() == 0 {
        None
    } else if list.last().0 == name {
        Some(list.last().1)
    } else {
        lookup_attribute(list.drop_last(), name)
    }
}

/// The attributes of an attribute-list tag value, in the order in which they were written.
///
/// When a name occurs more than once, the last occurrence is the one that [`Self::get`] gives.
#[derive(Debug, PartialEq, Eq, Clone)]
pub struct AttributeList<'a> {
    entries: Vec<(&'a str, AttributeValue<'a>)>,
}

/// The abstract form of one attribute.
pub open spec fn entry_view<'a>(e: (&'a str, AttributeValue<'a>)) -> (
    Seq<char>,
    AttributeValueView,
) {
    (e.0@, e.1.view())
}

/// The abstract form of a sequence of attributes.
pub open spec fn entries_view<'a>(v: Seq<(&'a str, AttributeValue<'a>)>) -> AttributeListView {
    v.map_values(|e: (&'a str, AttributeValue<'a>)| entry_view(e))
}

impl<'a> AttributeList<'a> {
    /// The attributes in the order in which they were written.
    pub closed spec fn view(&self) -> AttributeListView {
        entries_view(self.entries@)
    }

    /// The value of the attribute called `name` (its last occurrence).
    pub fn get(&self, name: &str) -> (r: Option<AttributeValue<'a>>)
        ensures
            match lookup_attribute(self.view(), name@) {
                None => r is None,
                Some(v) => r matches Some(x) && x.view() == v,
            },
    {
        let mut i = self.entries.len();
        proof {
            assert(self.view().subrange(0, i as int) =~= self.view());
        }
        while i > 0
            invariant
                i <= self.entries@.len(),
                lookup_attribute(self.view(), name@) == lookup_attribute(
                    self.view().subrange(0, i as int),
                    name@,
                ),
            decreases i,
        {
            let entry = self.entries[i - 1];
            let ghost sub = self.view().subrange(0, i as int);
            assert(sub.last() == entry_view(entry));
            assert(sub.drop_last() == self.view().subrange(0, i - 1));
            if str_eq(entry.0, name) {
                return Some(entry.1);
            }
            i -= 1;
        }
        None
    }

    /// The number of attributes written in the list.
    pub fn len(&self) -> (r: usize)
        ensures
            r == self.view().len(),
    {
        self.entries.len()
    }

    /// The name of the attribute written at position `i`.
    pub fn name_at(&self, i: usize) -> (r: &'a str)
        requires
            i < self.view().len(),
        ensures
            r@ == self.view()[i as int].0,
    {
        self.entries[i].0
    }

    /// The value of the attribute written at position `i`.
    pub fn value_at(&self, i: usize) -> (r: AttributeValue<'a>)
        requires
            i < self.view().len(),
        ensures
            r.view() == self.view()[i as int].1,
    {
        self.entries[i].1
    }
}

/// Reads the first attribute of `s` and the position where the next one starts.
#[verifier::rlimit(30)]
fn next_attribute<'a>(s: &'a [u8]) -> (r: Result<
    ((&'a str, AttributeValue<'a>), Option<usize>),
    AttributeListSyntaxError,
>)
    ensures
        match next_attribute_spec(s@) {
            Ok((entry, next)) => r matches Ok((e, k)) && entry_view(e) == entry && (match k {
                Some(k) => next == Some(k as int),
                None => next is None,
            }),
            Err(e) => r == Err::<((&'a str, AttributeValue<'a>), Option<usize>), AttributeListSyntaxError>(e),
        },
        r matches Ok((_, Some(k))) ==> 0 < k <= s@.len(),
{
    reveal(next_attribute_spec);
    let len = s.len();
    let n = match find_byte(61u8, s) {
        None => {
            proof {
                assert(!(exists|i: int| 0 <= i < s@.len() && s@[i] == 61u8));
            }
            return Err(AttributeListSyntaxError::MissingEquals);
        },
        Some(n) => n,
    };
    proof {
        lemma_first_index_is(s@, 61u8, n as int);
    }
    let name = match str_from_utf8(slice_subrange(s, 0, n)) {
        Ok(name) => name,
        Err(_) => return Err(AttributeListSyntaxError::InvalidUtf8),
    };
    proof {
        encode_utf8_decode_utf8(name@);
    }
    let rest = slice_subrange(s, n + 1, len);
    let rest_len = rest.len();
    if rest_len == 0 {
        return Err(AttributeListSyntaxError::EmptyAttributeValue);
    }
    if rest[0] == 34u8 {
        let inner = slice_subrange(rest, 1, rest_len);
        let inner_len = inner.len();
        proof {
            assert(inner@ == s@.subrange(n + 1, s@.len() as int).subrange(1, rest@.len() as int));
        }
        let m = match find_byte(34u8, inner) {
            None => {
                proof {
                    assert(!(exists|i: int| 0 <= i < inner@.len() && inner@[i] == 34u8));
                }
                return Err(AttributeListSyntaxError::UnterminatedQuotedString);
            },
            Some(m) => m,
        };
        proof {
            lemma_first_index_is(inner@, 34u8, m as int);
        }
        let q = match str_from_utf8(slice_subrange(inner, 0, m)) {
            Ok(q) => q,
            Err(_) => return Err(AttributeListSyntaxError::InvalidUtf8),
        };
        proof {
            encode_utf8_decode_utf8(q@);
        }
        let entry = (name, AttributeValue::Quoted(q));
        if m + 1 == inner_len {
            Ok((entry, None))
        } else if inner[m + 1] == 44u8 {
            Ok((entry, Some(n + m + 4)))
        } else if inner[m + 1] == 13u8 {
            Err(AttributeListSyntaxError::UnexpectedWhitespaceAfterQuotedString)
        } else {
            Err(AttributeListSyntaxError::UnexpectedCharacterAfterQuotedString(inner[m + 1]))
        }
    } else {
        match find_byte(44u8, rest) {
            None => {
                proof {
                    assert(!(exists|i: int| 0 <= i < rest@.len() && rest@[i] == 44u8));
                }
                Ok(((name, AttributeValue::Unquoted(UnquotedAttributeValue(rest))), None))
            },
            Some(m) => {
                proof {
                    lemma_first_index_is(rest@, 44u8, m as int);
                }
                Ok(
                    (
                        (name, AttributeValue::Unquoted(
                            UnquotedAttributeValue(slice_subrange(rest, 0, m)),
                        )),
                        Some(n + m + 2),
                    ),
                )
            },
        }
    }
}

proof fn lemma_entries_view_push<'a>(
    v: Seq<(&'a str, AttributeValue<'a>)>,
    e: (&'a str, AttributeValue<'a>),
)
    ensures
        entries_view(v.push(e)) == entries_view(v) + seq![entry_view(e)],
{
    assert(entries_view(v.push(e)) =~= entries_view(v) + seq![entry_view(e)]);
}

impl<'a> TagValue<'a> {
    /// Reads the value as an attribute list.
    pub fn try_as_attribute_list(&self) -> (r: Result<AttributeList<'a>, AttributeListSyntaxError>)
        ensures
            match attribute_list_spec(self.0@) {
                Ok(list) => r matches Ok(l) && l.view() == list,
                Err(e) => r == Err::<AttributeList<'a>, AttributeListSyntaxError>(e),
            },
    {
        let s = self.0;
        let len = s.len();
        let mut entries: Vec<(&'a str, AttributeValue<'a>)> = Vec::new();
        let mut pos: usize = 0;
        proof {
            assert(entries_view(entries@) =~= Seq::<(Seq<char>, AttributeValueView)>::empty());
            assert(s@.subrange(0, s@.len() as int) =~= s@);
        }
        loop
            invariant
                pos <= len == s@.len(),
                s@ == self.0@,
                attribute_list_spec(s@) == with_prefix(
                    entries_view(entries@),
                    attribute_list_spec(s@.subrange(pos as int, len as int)),
                ),
            decreases len - pos,
        {
            let ghost cur = s@.subrange(pos as int, len as int);
            let step = next_attribute(slice_subrange(s, pos, len));
            match step {
                Err(e) => {
                    proof {
                        assert(attribute_list_spec(cur) == Err::<
                            AttributeListView,
                            AttributeListSyntaxError,
                        >(e));
                    }
                    return Err(e);
                },
                Ok((entry, None)) => {
                    let ghost before = entries@;
                    entries.push(entry);
                    proof {
                        lemma_entries_view_push(before, entry);
                        assert(attribute_list_spec(cur) == Ok::<
                            AttributeListView,
                            AttributeListSyntaxError,
                        >(seq![entry_view(entry)]));
                    }
                    let list = AttributeList { entries };
                    return Ok(list);
                },
                Ok((entry, Some(k))) => {
                    if k == 0 || k > len - pos {
                        proof {
                            assert(false);
                        }
                        return Err(AttributeListSyntaxError::MissingEquals);
                    }
                    let ghost before = entries@;
                    entries.push(entry);
                    proof {
                        lemma_entries_view_push(before, entry);
                        assert(attribute_list_spec(cur) == with_prefix(
                            seq![entry_view(entry)],
                            attribute_list_spec(cur.subrange(k as int, cur.len() as int)),
                        ));
                        assert(cur.subrange(k as int, cur.len() as int) =~= s@.subrange(
                            pos + k,
                            len as int,
                        ));
                        if let Ok(l) = attribute_list_spec(s@.subrange(pos + k, len as int)) {
                            assert(entries_view(before) + (seq![entry_view(entry)] + l)
                                =~= entries_view(entries@) + l);
                        }
                    }
                    pos = pos + k;
                },
            }
        }
    }
}

/// An attribute value that a custom tag writes.
#[derive(Debug, PartialEq, Clone)]
pub enum WritableAttributeValue {
    /// A decimal integer, written in decimal.
    DecimalInteger(u64),
    /// A signed decimal floating point number, held as the text it is written as (such as `-1.5`).
    SignedDecimalFloatingPoint(String),
    /// A decimal resolution, written as `<width>x<height>`.
    DecimalResolution(DecimalResolution),
    /// A quoted string, written between `"` characters.
    QuotedString(String),
    /// An unquoted string, written as it is.
    UnquotedString(String),
}

/// The value of a tag that a custom tag writes (everything after the `:`).
#[derive(Debug, PartialEq, Clone)]
pub enum WritableTagValue {
    /// No value: the tag is written as its name alone.
    Empty,
    /// A duration and a title (`<duration>,<title>`), the duration held as the text it is written
    /// as; an empty title is left out along with its comma.
    DecimalFloatingPointWithOptionalTitle(String, String),
    /// A decimal integer.
    DecimalInteger(u64),
    /// A decimal integer range (`<n>[@<o>]`).
    DecimalIntegerRange(u64, Option<u64>),
    /// A date and time.
    DateTime(DateTime),
    /// An attribute list, written in the order given as `<name>=<value>` pairs separated by commas.
    AttributeList(Vec<(String, WritableAttributeValue)>),
    /// A UTF-8 string, written as it is.
    Utf8(String),
}

/// The value of an attribute as written: a quoted value between `"` characters.
pub open spec fn attribute_value_text(v: AttributeValueView) -> Seq<u8> {
    match v {
        AttributeValueView::Quoted(q) => seq![34u8] + encode_utf8(q) + seq![34u8],
        AttributeValueView::Unquoted(u) => u,
    }
}

/// One attribute as written: `<name>=<value>`.
pub open spec fn attribute_text(e: (Seq<char>, AttributeValueView)) -> Seq<u8> {
    encode_utf8(e.0) + seq![61u8] + attribute_value_text(e.1)
}

/// An attribute list as written: its attributes in order, separated by commas.
pub open spec fn attribute_list_text(l: AttributeListView) -> Seq<u8>
    decreases l.len(),
{
    if l.len() == 0 {
        Seq::empty()
    } else if l.len() == 1 {
        attribute_text(l[0])
    } else {
        attribute_text(l[0]) + seq![44u8] + attribute_list_text(l.drop_first())
    }
}

/// Whether an attribute can be written so that it reads back: a name that is not empty and holds
/// no `=`, and a quoted value that holds no `"`, or an unquoted value that is not empty, does not
/// start with `"` and holds no `,`.
pub open spec fn writable_attribute_entry(e: (Seq<char>, AttributeValueView)) -> bool {
    &&& encode_utf8(e.0).len() > 0
    &&& !encode_utf8(e.0).contains(61u8)
    &&& match e.1 {
        AttributeValueView::Quoted(q) => !encode_utf8(q).contains(34u8),
        AttributeValueView::Unquoted(u) => u.len() > 0 && u[0] != 34u8 && !u.contains(44u8),
    }
}

/// In a written attribute followed by more, the name runs up to the first `=`.
proof fn lemma_written_name(e: (Seq<char>, AttributeValueView), tail: Seq<u8>)
    requires
        writable_attribute_entry(e),
    ensures
        first_index(attribute_text(e) + tail, 61u8) == Some(encode_utf8(e.0).len() as int),
        (attribute_text(e) + tail).subrange(0, encode_utf8(e.0).len() as int) == encode_utf8(e.0),
        (attribute_text(e) + tail).subrange(
            encode_utf8(e.0).len() as int + 1,
            (attribute_text(e) + tail).len() as int,
        ) == attribute_value_text(e.1) + tail,
        valid_utf8(encode_utf8(e.0)),
        decode_utf8(encode_utf8(e.0)) == e.0,
{
    let name = encode_utf8(e.0);
    let s = attribute_text(e) + tail;
    let n = name.len() as int;
    encode_utf8_valid_utf8(e.0);
    encode_utf8_decode_utf8(e.0);
    assert forall|j: int| 0 <= j < n implies s[j] != 61u8 by {
        assert(s[j] == name[j]);
        if name[j] == 61u8 {
            assert(name.contains(61u8));
        }
    }
    assert(s[n] == 61u8);
    lemma_first_index_is(s, 61u8, n);
    assert(s.subrange(0, n) =~= name);
    assert(s.subrange(n + 1, s.len() as int) =~= attribute_value_text(e.1) + tail);
}

/// In a written unquoted value followed by the end or by a comma, the value ends at the first
/// comma.
proof fn lemma_written_unquoted(u: Seq<u8>, tail: Seq<u8>)
    requires
        !u.contains(44u8),
        tail.len() == 0 || tail[0] == 44u8,
    ensures
        tail.len() == 0 ==> first_index(u + tail, 44u8) is None && u + tail == u,
        tail.len() > 0 ==> first_index(u + tail, 44u8) == Some(u.len() as int) && (u + tail).subrange(
            0,
            u.len() as int,
        ) == u,
{
    let rest = u + tail;
    let m = u.len() as int;
    assert forall|j: int| 0 <= j < m implies rest[j] != 44u8 by {
        assert(rest[j] == u[j]);
        if u[j] == 44u8 {
            assert(u.contains(44u8));
        }
    }
    if tail.len() == 0 {
        assert(rest =~= u);
        assert(!(exists|j: int| 0 <= j < rest.len() && rest[j] == 44u8));
    } else {
        lemma_first_index_is(rest, 44u8, m);
        assert(rest.subrange(0, m) =~= u);
    }
}

/// How an attribute with a quoted value reads, from the positions of its `=` and its closing `"`.
#[verifier::spinoff_prover]
#[verifier::rlimit(60)]
proof fn lemma_next_quoted_attribute_reads(
    s: Seq<u8>,
    name: Seq<char>,
    q: Seq<char>,
    n: int,
    m: int,
    last: bool,
)
    requires
        n == encode_utf8(name).len(),
        m == encode_utf8(q).len(),
        first_index(s, 61u8) == Some(n),
        n > 0,
        s.subrange(0, n) == encode_utf8(name),
        s.len() > n + 1,
        s[n + 1] == 34u8,
        first_index(s.subrange(n + 2, s.len() as int), 34u8) == Some(m),
        s.subrange(n + 2, n + 2 + m) == encode_utf8(q),
        last <==> s.len() == n + m + 3,
        !last ==> s[n + m + 3] == 44u8,
    ensures
        next_attribute_spec(s) == Ok::<((Seq<char>, AttributeValueView), Option<int>), AttributeListSyntaxError>(
            (
                (name, AttributeValueView::Quoted(q)),
                if last {
                    None
                } else {
                    Some(n + m + 4)
                },
            ),
        ),
{
    reveal(next_attribute_spec);
    encode_utf8_valid_utf8(name);
    encode_utf8_decode_utf8(name);
    encode_utf8_valid_utf8(q);
    encode_utf8_decode_utf8(q);
    lemma_first_index_facts(s, 61u8);
    lemma_first_index_facts(s.subrange(n + 2, s.len() as int), 34u8);
    let rest = s.subrange(n + 1, s.len() as int);
    let inner = rest.subrange(1, rest.len() as int);
    assert(inner =~= s.subrange(n + 2, s.len() as int));
    assert(inner.subrange(0, m) =~= s.subrange(n + 2, n + 2 + m));
    let after = inner.subrange(m + 1, inner.len() as int);
    if !last {
        assert(after[0] == s[n + m + 3]);
    }
}

/// Reading an attribute with a quoted value written at the start of `s`.
#[verifier::spinoff_prover]
#[verifier::rlimit(100)]
proof fn lemma_next_quoted_attribute_of_written(name: Seq<char>, q: Seq<char>, tail: Seq<u8>)
    requires
        writable_attribute_entry((name, AttributeValueView::Quoted(q))),
        tail.len() == 0 || tail[0] == 44u8,
    ensures
        next_attribute_spec(attribute_text((name, AttributeValueView::Quoted(q))) + tail) == Ok::<
            ((Seq<char>, AttributeValueView), Option<int>),
            AttributeListSyntaxError,
        >(
            (
                (name, AttributeValueView::Quoted(q)),
                if tail.len() == 0 {
                    None
                } else {
                    Some(attribute_text((name, AttributeValueView::Quoted(q))).len() as int + 1)
                },
            ),
        ),
{
    let e = (name, AttributeValueView::Quoted(q));
    let nb = encode_utf8(name);
    let qb = encode_utf8(q);
    let n = nb.len() as int;
    let m = qb.len() as int;
    let a = nb + seq![61u8, 34u8] + qb + seq![34u8];
    assert(attribute_text(e) =~= a);
    assert(a.len() == n + m + 3);
    let s = attribute_text(e) + tail;
    assert(s =~= a + tail);
    assert(first_index(s, 61u8) == Some(n) && s.subrange(0, n) == nb) by {
        lemma_written_name(e, tail);
    }
    let inner = s.subrange(n + 2, s.len() as int);
    assert(inner =~= qb + seq![34u8] + tail);
    assert(first_index(inner, 34u8) == Some(m)) by {
        assert forall|j: int| 0 <= j < m implies inner[j] != 34u8 by {
            assert(inner[j] == qb[j]);
            if qb[j] == 34u8 {
                assert(qb.contains(34u8));
            }
        }
        lemma_first_index_is(inner, 34u8, m);
    }
    assert(s.subrange(n + 2, n + 2 + m) =~= qb);
    assert(s[n + 1] == 34u8);
    if tail.len() > 0 {
        assert(s[n + m + 3] == tail[0]);
    }
    lemma_next_quoted_attribute_reads(s, name, q, n, m, tail.len() == 0);
}

/// Reading an attribute with an unquoted value written at the start of `s`.
#[verifier::spinoff_prover]
#[verifier::rlimit(40)]
proof fn lemma_next_unquoted_attribute_of_written(name: Seq<char>, u: Seq<u8>, tail: Seq<u8>)
    requires
        writable_attribute_entry((name, AttributeValueView::Unquoted(u))),
        tail.len() == 0 || tail[0] == 44u8,
    ensures
        next_attribute_spec(attribute_text((name, AttributeValueView::Unquoted(u))) + tail) == Ok::<
            ((Seq<char>, AttributeValueView), Option<int>),
            AttributeListSyntaxError,
        >(
            (
                (name, AttributeValueView::Unquoted(u)),
                if tail.len() == 0 {
                    None
                } else {
                    Some(attribute_text((name, AttributeValueView::Unquoted(u))).len() as int + 1)
                },
            ),
        ),
{
    let e = (name, AttributeValueView::Unquoted(u));
    reveal(next_attribute_spec);
    lemma_written_name(e, tail);
    lemma_written_unquoted(u, tail);
    let s = attribute_text(e) + tail;
    let n = encode_utf8(name).len() as int;
    let rest = s.subrange(n + 1, s.len() as int);
    assert(rest == u + tail);
    assert(attribute_text(e).len() == n + u.len() + 1);
}

/// Reading an attribute written at the start of `s`, followed by the end or by a comma and more.
proof fn lemma_next_attribute_of_written(e: (Seq<char>, AttributeValueView), tail: Seq<u8>)
    requires
        writable_attribute_entry(e),
        tail.len() == 0 || tail[0] == 44u8,
    ensures
        next_attribute_spec(attribute_text(e) + tail) == Ok::<
            ((Seq<char>, AttributeValueView), Option<int>),
            AttributeListSyntaxError,
        >((e, if tail.len() == 0 {
            None
        } else {
            Some(attribute_text(e).len() as int + 1)
        })),
{
    match e.1 {
        AttributeValueView::Quoted(q) => {
            lemma_next_quoted_attribute_of_written(e.0, q, tail);
        },
        AttributeValueView::Unquoted(u) => {
            lemma_next_unquoted_attribute_of_written(e.0, u, tail);
        },
    }
}

/// Writing and then reading an attribute list gives it back: the text of a list of attributes
/// that can be written reads as that list.
pub proof fn lemma_attribute_list_reads_back(l: AttributeListView)
    requires
        l.len() > 0,
        forall|i: int| 0 <= i < l.len() ==> writable_attribute_entry(#[trigger] l[i]),
    ensures
        attribute_list_spec(attribute_list_text(l)) == Ok::<AttributeListView, AttributeListSyntaxError>(
            l,
        ),
    decreases l.len(),
{
    let e = l[0];
    assert(writable_attribute_entry(l[0]));
    if l.len() == 1 {
        lemma_next_attribute_of_written(e, Seq::empty());
        assert(attribute_text(e) + Seq::<u8>::empty() =~= attribute_text(e));
        assert(seq![e] =~= l);
    } else {
        let rest = l.drop_first();
        let tail = seq![44u8] + attribute_list_text(rest);
        assert forall|i: int| 0 <= i < rest.len() implies writable_attribute_entry(
            #[trigger] rest[i],
        ) by {
            assert(rest[i] == l[i + 1]);
        }
        lemma_attribute_list_reads_back(rest);
        lemma_next_attribute_of_written(e, tail);
        let s = attribute_list_text(l);
        assert(s =~= attribute_text(e) + tail);
        let k = attribute_text(e).len() as int + 1;
        assert(s.subrange(k, s.len() as int) =~= attribute_list_text(rest));
        assert(seq![e] + rest =~= l);
    }
}

/// Adding an attribute at the end of a written list adds a comma and the attribute.
pub proof fn lemma_attribute_list_text_push(l: AttributeListView, x: (Seq<char>, AttributeValueView))
    requires
        l.len() > 0,
    ensures
        attribute_list_text(l.push(x)) == attribute_list_text(l) + seq![44u8] + attribute_text(x),
    decreases l.len(),
{
    let p = l.push(x);
    assert(p[0] == l[0]);
    if l.len() == 1 {
        assert(p.drop_first() =~= seq![x]);
        assert(attribute_list_text(seq![x]) == attribute_text(x));
        assert(attribute_list_text(p) == attribute_text(l[0]) + seq![44u8] + attribute_text(x));
        assert(attribute_list_text(l) == attribute_text(l[0]));
    } else {
        lemma_attribute_list_text_push(l.drop_first(), x);
        assert(p.drop_first() =~= l.drop_first().push(x));
        assert(attribute_list_text(p) == attribute_text(l[0]) + seq![44u8] + attribute_list_text(
            l.drop_first().push(x),
        ));
        assert(attribute_list_text(p) =~= attribute_list_text(l) + seq![44u8] + attribute_text(x));
    }
}

} // verus!
