//! The `#EXT-X-DATERANGE` tag: the values of its `CUE` attribute, and reading and writing its
//! attributes with each decimal floating point value held as its text.

use vstd::prelude::*;
use vstd::string::StringSliceAdditionalSpecFns;
use vstd::utf8::*;

use crate::date::{date_time_spec, date_time_text, parse, DateTime};
use crate::error::{UnrecognizedEnumerationError, ValidationError};
use crate::tag::hls::enumerated_string::{AsStaticCow, EnumeratedValue};
use crate::tag::hls::{
    typed_attribute_list_of, typed_attribute_list_spec, comma_quoted, comma_unquoted, comma_yes,
    copy_opt, get_quoted, get_unquoted_str, get_yes, line_start, opt_encode, opt_string,
    push_comma_quoted, push_comma_unquoted_str, push_comma_yes, push_quoted_attribute,
    push_unquoted_attribute, quoted_attr, quoted_attribute, start_line, unquoted_attribute,
    utf8_attr, value_bytes, yes_attr, TagName,
};
use crate::tag::unknown;
use crate::tag::value::{AttributeList, AttributeListView, AttributeValue, AttributeValueView};
use crate::utils::{push_bytes, push_str, str_eq, str_from_utf8, string_from};

verus! {

/// Corresponds to the values of the `CUE` attribute of `#EXT-X-DATERANGE`.
#[derive(Debug, Clone, Copy, PartialEq, Eq, Structural)]
pub enum Cue {
    /// An action is to be triggered before playback of the primary asset begins.
    Pre,
    /// An action is to be triggered after the primary asset has been played to its end without
    /// error.
    Post,
    /// An action is to be triggered once.
    Once,
}

impl AsStaticCow for Cue {
    open spec fn obeys_text_spec() -> bool {
        true
    }

    open spec fn text(&self) -> Seq<char> {
        match self {
            Cue::Pre => "PRE"@,
            Cue::Post => "POST"@,
            Cue::Once => "ONCE"@,
        }
    }

    fn as_cow(&self) -> (r: String)
        ensures
            r@ == self.text(),
    {
        match self {
            Cue::Pre => string_from("PRE"),
            Cue::Post => string_from("POST"),
            Cue::Once => string_from("ONCE"),
        }
    }
}

impl EnumeratedValue for Cue {
    open spec fn from_text(s: Seq<char>) -> Option<Self> {
        if s == "PRE"@ {
            Some(Cue::Pre)
        } else if s == "POST"@ {
            Some(Cue::Post)
        } else if s == "ONCE"@ {
            Some(Cue::Once)
        } else {
            None
        }
    }

    fn try_from_str(value: &str) -> (r: Result<Self, UnrecognizedEnumerationError<'_>>)
        ensures
            match Self::from_text(value@) {
                Some(t) => r == Ok::<Self, UnrecognizedEnumerationError<'_>>(t),
                None => r matches Err(e) && e.value == value,
            },
    {
        if str_eq(value, "PRE") {
            return Ok(Cue::Pre);
        }
        if str_eq(value, "POST") {
            return Ok(Cue::Post);
        }
        if str_eq(value, "ONCE") {
            return Ok(Cue::Once);
        }
        Err(UnrecognizedEnumerationError::new(value))
    }
}

/// Reading back the text of any [`Cue`] gives that value.
pub proof fn lemma_cue_round_trip(v: Cue)
    ensures
        Cue::from_text(v.text()) == Some(v),
{
    match v {
        Cue::Pre => {
            reveal_strlit("PRE");
        },
        Cue::Post => {
            reveal_strlit("POST");
            reveal_strlit("PRE");
            assert("PRE"@.len() != "POST"@.len());
        },
        Cue::Once => {
            reveal_strlit("ONCE");
            reveal_strlit("PRE");
            assert("PRE"@.len() != "ONCE"@.len());
            reveal_strlit("POST");
            assert("POST"@[0] != "ONCE"@[0]);
        },
    }
}

/// Whether `b` is an ASCII hexadecimal digit (`0`-`9`, `a`-`f`, `A`-`F`).
pub open spec fn is_hex_digit(b: u8) -> bool {
    (48 <= b <= 57) || (97 <= b <= 102) || (65 <= b <= 70)
}

/// Whether the bytes `s` are a hexadecimal sequence: `0x` or `0X` followed by hexadecimal digits
/// (none at all included).
pub open spec fn hexadecimal_sequence_spec(s: Seq<u8>) -> bool {
    &&& s.len() >= 2
    &&& s[0] == 48u8
    &&& (s[1] == 120u8 || s[1] == 88u8)
    &&& forall|i: int| 2 <= i < s.len() ==> #[trigger] is_hex_digit(s[i])
}

/// Whether `s` is a hexadecimal sequence, as an unquoted extension attribute value of
/// `#EXT-X-DATERANGE` may be.
pub fn is_hexadecimal_sequence(s: &str) -> (r: bool)
    ensures
        r == hexadecimal_sequence_spec(s.spec_bytes()),
{
    let b = s.as_bytes();
    let len = b.len();
    if len < 2 || b[0] != 48u8 || (b[1] != 120u8 && b[1] != 88u8) {
        return false;
    }
    let mut i: usize = 2;
    while i < len
        invariant
            2 <= i <= len == b@.len(),
            b@ == s.spec_bytes(),
            forall|j: int| 2 <= j < i ==> #[trigger] is_hex_digit(b@[j]),
        decreases len - i,
    {
        let c = b[i];
        if !((48u8 <= c && c <= 57u8) || (97u8 <= c && c <= 102u8) || (65u8 <= c && c <= 70u8)) {
            assert(!is_hex_digit(b@[i as int]));
            return false;
        }
        i += 1;
    }
    true
}


/// The value of an extension (`X-<name>`) attribute of `#EXT-X-DATERANGE`.
pub enum ExtensionValueView {
    /// A quoted string.
    QuotedString(Seq<char>),
    /// A hexadecimal sequence (`0x...`).
    HexadecimalSequence(Seq<char>),
    /// Any other unquoted text: the text of a signed decimal floating point number, if it is one.
    DecimalFloatingPoint(Seq<char>),
}

/// The value of an extension (`X-<name>`) attribute of `#EXT-X-DATERANGE`, with a decimal
/// floating point value held as its text.
#[derive(Debug, Clone, PartialEq)]
pub enum ExtensionValue {
    /// A quoted string.
    QuotedString(String),
    /// A hexadecimal sequence (`0x...`).
    HexadecimalSequence(String),
    /// Any other unquoted text: the text of a signed decimal floating point number, if it is one.
    DecimalFloatingPoint(String),
}

impl ExtensionValue {
    /// The value.
    pub open spec fn view(&self) -> ExtensionValueView {
        match self {
            ExtensionValue::QuotedString(s) => ExtensionValueView::QuotedString(s@),
            ExtensionValue::HexadecimalSequence(s) => ExtensionValueView::HexadecimalSequence(s@),
            ExtensionValue::DecimalFloatingPoint(s) => ExtensionValueView::DecimalFloatingPoint(s@),
        }
    }
}

/// What an attribute value gives an extension attribute: a quoted string stays one, unquoted text
/// that is valid UTF-8 is a hexadecimal sequence or else the text of a number, and other bytes
/// give nothing.
pub open spec fn extension_value_of(v: AttributeValueView) -> Option<ExtensionValueView> {
    match v {
        AttributeValueView::Quoted(q) => Some(ExtensionValueView::QuotedString(q)),
        AttributeValueView::Unquoted(u) => if !valid_utf8(u) {
            None
        } else if hexadecimal_sequence_spec(u) {
            Some(ExtensionValueView::HexadecimalSequence(decode_utf8(u)))
        } else {
            Some(ExtensionValueView::DecimalFloatingPoint(decode_utf8(u)))
        },
    }
}

/// Whether `name` is the name of an extension attribute: its text starts with `X-`.
pub open spec fn is_extension_name(name: Seq<char>) -> bool {
    let b = encode_utf8(name);
    b.len() >= 2 && b[0] == 88u8 && b[1] == 45u8
}

/// The extension attributes of `list`, in the order in which it holds them: each attribute whose
/// name starts with `X-` and whose value gives an extension value.
pub open spec fn extension_entries(list: AttributeListView) -> Seq<(Seq<char>, ExtensionValueView)>
    decreases list.len(),
{
    if list.len() == 0 {
        Seq::empty()
    } else {
        let rest = extension_entries(list.drop_last());
        let (name, value) = list.last();
        match extension_value_of(value) {
            Some(e) => if is_extension_name(name) {
                rest.push((name, e))
            } else {
                rest
            },
            None => rest,
        }
    }
}

/// The date and time that the quoted attribute `name` of `list` holds, if its text is one.
pub open spec fn date_attr(list: AttributeListView, name: Seq<char>) -> Option<DateTime> {
    match quoted_attr(list, name) {
        Some(t) => match date_time_spec(encode_utf8(t)) {
            Ok(d) => Some(d),
            Err(_) => None,
        },
        None => None,
    }
}

/// The text of the attribute `name` of `list`, which may be quoted or unquoted (valid UTF-8).
pub open spec fn text_attr(list: AttributeListView, name: Seq<char>) -> Option<Seq<char>> {
    match quoted_attr(list, name) {
        Some(q) => Some(q),
        None => utf8_attr(list, name),
    }
}

/// The attributes of an `#EXT-X-DATERANGE` tag, with each decimal floating point value
/// (`DURATION`, `PLANNED-DURATION` and numbers among the extension attributes) held as the text
/// that writes it.
pub struct DaterangeAttributes {
    /// The `ID` attribute.
    pub id: Seq<char>,
    /// The `START-DATE` attribute.
    pub start_date: DateTime,
    /// The `CLASS` attribute.
    pub class: Option<Seq<char>>,
    /// The `CUE` attribute.
    pub cue: Option<Seq<char>>,
    /// The `END-DATE` attribute.
    pub end_date: Option<DateTime>,
    /// The text of the `DURATION` attribute.
    pub duration: Option<Seq<char>>,
    /// The text of the `PLANNED-DURATION` attribute.
    pub planned_duration: Option<Seq<char>>,
    /// The extension (`X-<name>`) attributes, in order.
    pub extension_attributes: Seq<(Seq<char>, ExtensionValueView)>,
    /// Whether `END-ON-NEXT=YES` is given.
    pub end_on_next: bool,
    /// The `SCTE35-CMD` attribute.
    pub scte35_cmd: Option<Seq<char>>,
    /// The `SCTE35-OUT` attribute.
    pub scte35_out: Option<Seq<char>>,
    /// The `SCTE35-IN` attribute.
    pub scte35_in: Option<Seq<char>>,
}

/// The attributes that an attribute list gives an `#EXT-X-DATERANGE` tag: `ID` (quoted) and
/// `START-DATE` (a quoted date and time) are required; an optional attribute of the wrong kind is
/// taken as absent, the `SCTE35` attributes may be quoted or not, and `END-ON-NEXT` is set only
/// when its value is `YES`.
pub open spec fn daterange_spec(list: AttributeListView) -> Result<
    DaterangeAttributes,
    ValidationError,
> {
    match quoted_attr(list, "ID"@) {
        Some(id) => match date_attr(list, "START-DATE"@) {
            Some(start_date) => Ok(
                DaterangeAttributes {
                    id,
                    start_date,
                    class: quoted_attr(list, "CLASS"@),
                    cue: quoted_attr(list, "CUE"@),
                    end_date: date_attr(list, "END-DATE"@),
                    duration: utf8_attr(list, "DURATION"@),
                    planned_duration: utf8_attr(list, "PLANNED-DURATION"@),
                    extension_attributes: extension_entries(list),
                    end_on_next: yes_attr(list, "END-ON-NEXT"@),
                    scte35_cmd: text_attr(list, "SCTE35-CMD"@),
                    scte35_out: text_attr(list, "SCTE35-OUT"@),
                    scte35_in: text_attr(list, "SCTE35-IN"@),
                },
            ),
            None => Err(ValidationError::MissingRequiredAttribute("START-DATE")),
        },
        None => Err(ValidationError::MissingRequiredAttribute("ID")),
    }
}

/// The attributes that a tag value gives an `#EXT-X-DATERANGE` tag.
pub open spec fn daterange_value_spec(value: Option<Seq<u8>>) -> Result<
    DaterangeAttributes,
    ValidationError,
> {
    match typed_attribute_list_spec(value) {
        Ok(list) => daterange_spec(list),
        Err(e) => Err(e),
    }
}

/// A date and time attribute as written: `<name>="<date and time>"`.
pub open spec fn date_attribute(name: Seq<char>, d: DateTime) -> Seq<u8> {
    encode_utf8(name) + seq![61u8, 34u8] + date_time_text(d) + seq![34u8]
}

/// An extension attribute as written after the attributes before it: `,<name>=<value>`, with a
/// quoted string in quotes.
pub open spec fn extension_text(e: (Seq<char>, ExtensionValueView)) -> Seq<u8> {
    seq![44u8] + match e.1 {
        ExtensionValueView::QuotedString(q) => quoted_attribute(e.0, q),
        ExtensionValueView::HexadecimalSequence(h) => unquoted_attribute(e.0, encode_utf8(h)),
        ExtensionValueView::DecimalFloatingPoint(f) => unquoted_attribute(e.0, encode_utf8(f)),
    }
}

/// The extension attributes as written, in order.
pub open spec fn extensions_text(es: Seq<(Seq<char>, ExtensionValueView)>) -> Seq<u8>
    decreases es.len(),
{
    if es.len() == 0 {
        Seq::empty()
    } else {
        extensions_text(es.drop_last()) + extension_text(es.last())
    }
}

/// The line of an `#EXT-X-DATERANGE` tag with the attributes `a`: `ID` and `START-DATE` first,
/// then `CLASS`, `CUE`, `END-DATE`, `DURATION`, `PLANNED-DURATION`, the extension attributes in
/// order, the `SCTE35` attributes (unquoted) and `END-ON-NEXT`, each where present.
pub open spec fn daterange_line(a: DaterangeAttributes) -> Seq<u8> {
    line_start(TagName::Daterange) + seq![58u8] + daterange_line_head(a) + extensions_text(
        a.extension_attributes,
    ) + daterange_line_tail(a)
}

/// An optional date and time attribute as written after the attributes before it:
/// `,<name>="<date and time>"` when there is one, nothing otherwise.
pub open spec fn comma_date(name: Seq<char>, d: Option<DateTime>) -> Seq<u8> {
    match d {
        Some(x) => seq![44u8] + date_attribute(name, x),
        None => Seq::empty(),
    }
}

/// `ID`, `START-DATE`, `CLASS`, `CUE`, `END-DATE`, `DURATION` and `PLANNED-DURATION`, as written.
pub open spec fn daterange_line_head(a: DaterangeAttributes) -> Seq<u8> {
    quoted_attribute("ID"@, a.id) + seq![44u8] + date_attribute("START-DATE"@, a.start_date)
        + daterange_line_dates(a)
}

/// `CLASS`, `CUE`, `END-DATE`, `DURATION` and `PLANNED-DURATION`, as written where present.
pub open spec fn daterange_line_dates(a: DaterangeAttributes) -> Seq<u8> {
    comma_quoted("CLASS"@, a.class) + comma_quoted("CUE"@, a.cue) + comma_date(
        "END-DATE"@,
        a.end_date,
    ) + comma_unquoted("DURATION"@, opt_encode(a.duration)) + comma_unquoted(
        "PLANNED-DURATION"@,
        opt_encode(a.planned_duration),
    )
}

/// `SCTE35-CMD`, `SCTE35-OUT`, `SCTE35-IN` (unquoted) and `END-ON-NEXT`, as written where present.
pub open spec fn daterange_line_tail(a: DaterangeAttributes) -> Seq<u8> {
    comma_unquoted("SCTE35-CMD"@, opt_encode(a.scte35_cmd)) + comma_unquoted(
        "SCTE35-OUT"@,
        opt_encode(a.scte35_out),
    ) + comma_unquoted("SCTE35-IN"@, opt_encode(a.scte35_in)) + comma_yes(
        "END-ON-NEXT"@,
        a.end_on_next,
    )
}

/// The attributes of an `#EXT-X-DATERANGE` tag as values, with each decimal floating point value
/// held as the text that writes it.
#[derive(Debug, Clone, PartialEq)]
pub struct DaterangeLine {
    /// The `ID` attribute.
    pub id: String,
    /// The `START-DATE` attribute.
    pub start_date: DateTime,
    /// The `CLASS` attribute.
    pub class: Option<String>,
    /// The `CUE` attribute.
    pub cue: Option<String>,
    /// The `END-DATE` attribute.
    pub end_date: Option<DateTime>,
    /// The text of the `DURATION` attribute.
    pub duration: Option<String>,
    /// The text of the `PLANNED-DURATION` attribute.
    pub planned_duration: Option<String>,
    /// The extension (`X-<name>`) attributes, in order.
    pub extension_attributes: Vec<(String, ExtensionValue)>,
    /// Whether `END-ON-NEXT=YES` is given.
    pub end_on_next: bool,
    /// The `SCTE35-CMD` attribute.
    pub scte35_cmd: Option<String>,
    /// The `SCTE35-OUT` attribute.
    pub scte35_out: Option<String>,
    /// The `SCTE35-IN` attribute.
    pub scte35_in: Option<String>,
}

/// The extension attributes as names and values.
pub open spec fn extensions_view(es: Seq<(String, ExtensionValue)>) -> Seq<
    (Seq<char>, ExtensionValueView),
> {
    es.map_values(|e: (String, ExtensionValue)| (e.0@, e.1.view()))
}

impl DaterangeLine {
    /// The attributes.
    pub open spec fn view(&self) -> DaterangeAttributes {
        DaterangeAttributes {
            id: self.id@,
            start_date: self.start_date,
            class: opt_string(self.class),
            cue: opt_string(self.cue),
            end_date: self.end_date,
            duration: opt_string(self.duration),
            planned_duration: opt_string(self.planned_duration),
            extension_attributes: extensions_view(self.extension_attributes@),
            end_on_next: self.end_on_next,
            scte35_cmd: opt_string(self.scte35_cmd),
            scte35_out: opt_string(self.scte35_out),
            scte35_in: opt_string(self.scte35_in),
        }
    }

    /// Reads the attributes of an `#EXT-X-DATERANGE` tag from a parsed tag line, whose value must
    /// be an attribute list with a quoted `ID` and a quoted `START-DATE` date and time.
    pub fn try_from(tag: &unknown::Tag) -> (r: Result<DaterangeLine, ValidationError>)
        ensures
            match daterange_value_spec(value_bytes(*tag)) {
                Ok(a) => r matches Ok(l) && l.view() == a,
                Err(e) => r == Err::<DaterangeLine, ValidationError>(e),
            },
    {
        let list = typed_attribute_list_of(tag)?;
        let id = match get_quoted(&list, "ID") {
            Some(v) => v,
            None => return Err(ValidationError::MissingRequiredAttribute("ID")),
        };
        let start_date = match get_date(&list, "START-DATE") {
            Some(d) => d,
            None => return Err(ValidationError::MissingRequiredAttribute("START-DATE")),
        };
        Ok(DaterangeLine {
            id: string_from(id),
            start_date,
            class: copy_opt(get_quoted(&list, "CLASS")),
            cue: copy_opt(get_quoted(&list, "CUE")),
            end_date: get_date(&list, "END-DATE"),
            duration: copy_opt(get_unquoted_str(&list, "DURATION")),
            planned_duration: copy_opt(get_unquoted_str(&list, "PLANNED-DURATION")),
            extension_attributes: read_extensions(&list),
            end_on_next: get_yes(&list, "END-ON-NEXT"),
            scte35_cmd: get_text(&list, "SCTE35-CMD"),
            scte35_out: get_text(&list, "SCTE35-OUT"),
            scte35_in: get_text(&list, "SCTE35-IN"),
        })
    }
}

/// The date and time that the quoted attribute `name` of `list` holds.
fn get_date(list: &AttributeList, name: &str) -> (r: Option<DateTime>)
    ensures
        r == date_attr(list.view(), name@),
{
    match get_quoted(list, name) {
        Some(t) => match parse(t) {
            Ok(d) => Some(d),
            Err(_) => None,
        },
        None => None,
    }
}

/// The text of the attribute `name` of `list`, quoted or unquoted.
fn get_text(list: &AttributeList, name: &str) -> (r: Option<String>)
    ensures
        opt_string(r) == text_attr(list.view(), name@),
{
    match get_quoted(list, name) {
        Some(q) => Some(string_from(q)),
        None => copy_opt(get_unquoted_str(list, name)),
    }
}

/// What an attribute value gives an extension attribute.
pub fn extension_value(v: AttributeValue) -> (r: Option<ExtensionValue>)
    ensures
        match extension_value_of(v.view()) {
            Some(e) => r matches Some(x) && x.view() == e,
            None => r is None,
        },
{
    match v {
        AttributeValue::Quoted(q) => Some(ExtensionValue::QuotedString(string_from(q))),
        AttributeValue::Unquoted(u) => match str_from_utf8(u.0) {
            Ok(t) => {
                proof {
                    encode_utf8_decode_utf8(t@);
                }
                if is_hexadecimal_sequence(t) {
                    Some(ExtensionValue::HexadecimalSequence(string_from(t)))
                } else {
                    Some(ExtensionValue::DecimalFloatingPoint(string_from(t)))
                }
            },
            Err(_) => None,
        },
    }
}

/// Whether `name` starts with `X-`.
fn starts_with_x(name: &str) -> (r: bool)
    ensures
        r == is_extension_name(name@),
{
    let b = name.as_bytes();
    b.len() >= 2 && b[0] == 88u8 && b[1] == 45u8
}

/// The extension attributes of `list`, in order.
fn read_extensions(list: &AttributeList) -> (r: Vec<(String, ExtensionValue)>)
    ensures
        extensions_view(r@) == extension_entries(list.view()),
{
    let mut out: Vec<(String, ExtensionValue)> = Vec::new();
    let n = list.len();
    let mut i: usize = 0;
    while i < n
        invariant
            0 <= i <= n == list.view().len(),
            extensions_view(out@) == extension_entries(list.view().subrange(0, i as int)),
        decreases n - i,
    {
        let name = list.name_at(i);
        let value = list.value_at(i);
        let ghost prefix = list.view().subrange(0, i as int);
        let ghost next = list.view().subrange(0, i as int + 1);
        proof {
            assert(next.drop_last() =~= prefix);
            assert(next.last() == list.view()[i as int]);
        }
        match extension_value(value) {
            Some(e) => {
                if starts_with_x(name) {
                    let ghost before = out@;
                    out.push((string_from(name), e));
                    proof {
                        assert(out@ == before.push((out@.last().0, out@.last().1)));
                        assert(extensions_view(out@) =~= extensions_view(before).push(
                            (name@, e.view()),
                        ));
                    }
                }
            },
            None => {},
        }
        i += 1;
    }
    proof {
        assert(list.view().subrange(0, n as int) =~= list.view());
    }
    out
}

/// Appends `,<name>="<date and time>"` to `line` when there is a date and time.
fn push_comma_date(line: &mut Vec<u8>, name: &str, d: Option<DateTime>)
    ensures
        final(line)@ == old(line)@ + comma_date(name@, d),
{
    if let Some(x) = d {
        line.push(44u8);
        push_date_attribute(line, name, &x);
        proof {
            assert(final(line)@ =~= old(line)@ + (seq![44u8] + date_attribute(name@, x)));
        }
    } else {
        proof {
            assert(final(line)@ =~= old(line)@ + Seq::<u8>::empty());
        }
    }
}

/// Appends `<name>="<date and time>"` to `line`.
fn push_date_attribute(line: &mut Vec<u8>, name: &str, d: &DateTime)
    ensures
        final(line)@ == old(line)@ + date_attribute(name@, *d),
{
    push_str(line, name);
    line.push(61u8);
    line.push(34u8);
    let text = d.to_bytes();
    push_bytes(line, text.as_slice());
    line.push(34u8);
    proof {
        assert(final(line)@ =~= old(line)@ + date_attribute(name@, *d));
    }
}

fn push_daterange_line_head(line: &mut Vec<u8>, a: &DaterangeLine)
    ensures
        final(line)@ == old(line)@ + daterange_line_head(a.view()),
{
    push_quoted_attribute(line, "ID", a.id.as_str());
    line.push(44u8);
    push_date_attribute(line, "START-DATE", &a.start_date);
    push_daterange_line_dates(line, a);
    proof {
        assert(final(line)@ =~= old(line)@ + daterange_line_head(a.view()));
    }
}

fn push_daterange_line_dates(line: &mut Vec<u8>, a: &DaterangeLine)
    ensures
        final(line)@ == old(line)@ + daterange_line_dates(a.view()),
{
    push_comma_quoted(line, "CLASS", &a.class);
    push_comma_quoted(line, "CUE", &a.cue);
    push_comma_date(line, "END-DATE", a.end_date);
    push_comma_unquoted_str(line, "DURATION", &a.duration);
    push_comma_unquoted_str(line, "PLANNED-DURATION", &a.planned_duration);
    proof {
        assert(final(line)@ =~= old(line)@ + daterange_line_dates(a.view()));
    }
}

/// Appends the extension attributes `es` to `line`, in order.
fn push_extensions(line: &mut Vec<u8>, es: &Vec<(String, ExtensionValue)>)
    ensures
        final(line)@ == old(line)@ + extensions_text(extensions_view(es@)),
{
    let n = es.len();
    let mut i: usize = 0;
    while i < n
        invariant
            0 <= i <= n == es@.len(),
            line@ == old(line)@ + extensions_text(extensions_view(es@.subrange(0, i as int))),
        decreases n - i,
    {
        let (name, value) = &es[i];
        let ghost before = line@;
        line.push(44u8);
        match value {
            ExtensionValue::QuotedString(q) => push_quoted_attribute(line, name.as_str(), q.as_str()),
            ExtensionValue::HexadecimalSequence(h) => push_unquoted_attribute(
                line,
                name.as_str(),
                h.as_str().as_bytes(),
            ),
            ExtensionValue::DecimalFloatingPoint(f) => push_unquoted_attribute(
                line,
                name.as_str(),
                f.as_str().as_bytes(),
            ),
        }
        proof {
            let prefix = extensions_view(es@.subrange(0, i as int));
            let next = extensions_view(es@.subrange(0, i as int + 1));
            assert(next.drop_last() =~= prefix);
            assert(next.last() == (name@, value.view()));
            assert(line@ =~= before + extension_text((name@, value.view())));
        }
        i += 1;
    }
    proof {
        assert(es@.subrange(0, n as int) =~= es@);
    }
}

fn push_daterange_line_tail(line: &mut Vec<u8>, a: &DaterangeLine)
    ensures
        final(line)@ == old(line)@ + daterange_line_tail(a.view()),
{
    push_comma_unquoted_str(line, "SCTE35-CMD", &a.scte35_cmd);
    push_comma_unquoted_str(line, "SCTE35-OUT", &a.scte35_out);
    push_comma_unquoted_str(line, "SCTE35-IN", &a.scte35_in);
    push_comma_yes(line, "END-ON-NEXT", a.end_on_next);
    proof {
        assert(final(line)@ =~= old(line)@ + daterange_line_tail(a.view()));
    }
}

/// The line of an `#EXT-X-DATERANGE` tag with the attributes `a`.
pub fn calculate_line(a: &DaterangeLine) -> (r: Vec<u8>)
    ensures
        r@ == daterange_line(a.view()),
{
    let mut line = start_line(TagName::Daterange);
    line.push(58u8);
    push_daterange_line_head(&mut line, a);
    push_extensions(&mut line, &a.extension_attributes);
    push_daterange_line_tail(&mut line, a);
    proof {
        assert(line@ =~= daterange_line(a.view()));
    }
    line
}

/// The text of each value of [`Cue`] is the one that the HLS specification gives it.
pub proof fn lemma_cue_texts()
    ensures
        Cue::Pre.text() == "PRE"@,
        Cue::Post.text() == "POST"@,
        Cue::Once.text() == "ONCE"@,
{
}

} // verus!
