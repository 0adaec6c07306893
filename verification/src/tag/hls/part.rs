//! The `#EXT-X-PART` tag: its sub-range, and reading and writing its attributes with its decimal
//! floating point value held as its text.

use vstd::prelude::*;
use vstd::string::StringSliceAdditionalSpecFns;
use vstd::string::StringExecFns;
use vstd::utf8::*;
use vstd::slice::slice_subrange;

use crate::utils::{
    dec, dec_chars, find_byte, first_index, lemma_dec_ascii, lemma_dec_digits,
    lemma_encode_utf8_concat, lemma_first_index_is, lemma_parse_uint_of_dec, parse_uint,
    parse_uint_spec, string_from, u64_to_string,
};
use crate::error::ValidationError;
use crate::tag::hls::{
    attribute_list_of, attribute_list_value_spec, comma_quoted, comma_yes, get_quoted,
    get_unquoted_str, get_yes, line_start, push_comma_yes, push_quoted_attribute,
    push_unquoted_attribute, quoted_attr, quoted_attribute, start_line, unquoted_attribute,
    utf8_attr, value_bytes, yes_attr, quoted_value_ok, TagName,
};
use crate::tag::unknown;
use crate::tag::value::{AttributeList, AttributeListView};
use crate::tag::hls::{entries_ok, lemma_attribute_list_text_free_of_line_feed, lemma_entries_ok_one, lemma_entries_ok_push, lemma_line_after_ext, lemma_lookup_push, lemma_push_quoted_opt_text, lemma_tag_name_plain, push_quoted_opt, tag_name_text, unquoted_value_ok, push_yes, lemma_push_yes_text, lemma_yes_unquoted_ok, lemma_lookup_push_quoted_opt, lemma_lookup_push_yes};
use crate::tag::value::{attribute_list_text, lemma_attribute_list_reads_back, lemma_attribute_list_text_push, attribute_text, AttributeValueView};
use crate::error::UnknownTagSyntaxError;

verus! {

/// Placeholder struct for the `#EXT-X-PART` builder indicating that `uri` needs to be set.
#[derive(Debug, Clone, Copy)]
pub struct PartUriNeedsToBeSet;

/// Placeholder struct for the `#EXT-X-PART` builder indicating that `duration` needs to be set.
#[derive(Debug, Clone, Copy)]
pub struct PartDurationNeedsToBeSet;

/// Placeholder struct for the `#EXT-X-PART` builder indicating that `uri` has been set.
#[derive(Debug, Clone, Copy)]
pub struct PartUriHasBeenSet;

/// Placeholder struct for the `#EXT-X-PART` builder indicating that `duration` has been set.
#[derive(Debug, Clone, Copy)]
pub struct PartDurationHasBeenSet;

/// Corresponds to the `BYTERANGE` attribute of `#EXT-X-PART` (`<n>[@<o>]`).
#[derive(Debug, PartialEq, Eq, Structural, Clone, Copy)]
pub struct PartByterange {
    /// The length component (`n` in `<n>[@<o>]`).
    pub length: u64,
    /// The offset component (`o` in `<n>[@<o>]`).
    pub offset: Option<u64>,
}

/// The text of a sub-range: `<length>` or `<length>@<offset>`.
pub open spec fn part_byterange_text(b: PartByterange) -> Seq<char> {
    match b.offset {
        Some(o) => dec_chars(b.length as nat) + seq!['@'] + dec_chars(o as nat),
        None => dec_chars(b.length as nat),
    }
}

/// The sub-range that the text bytes `s` describe: the number before the first `@`, and the
/// number after it when there is one.
pub open spec fn part_byterange_spec(s: Seq<u8>) -> Option<PartByterange> {
    match first_index(s, 64u8) {
        None => match parse_uint_spec(s, u64::MAX as nat) {
            Some(length) => Some(PartByterange { length: length as u64, offset: None }),
            None => None,
        },
        Some(i) => match (
            parse_uint_spec(s.subrange(0, i), u64::MAX as nat),
            parse_uint_spec(s.subrange(i + 1, s.len() as int), u64::MAX as nat),
        ) {
            (Some(length), Some(offset)) => Some(
                PartByterange { length: length as u64, offset: Some(offset as u64) },
            ),
            _ => None,
        },
    }
}

impl PartByterange {
    /// The text of the sub-range: `<length>` or `<length>@<offset>`.
    pub fn to_string(&self) -> (r: String)
        ensures
            r@ == part_byterange_text(*self),
    {
        let mut s = u64_to_string(self.length);
        if let Some(o) = self.offset {
            let at = string_from("@");
            proof {
                reveal_strlit("@");
            }
            s.append(at.as_str());
            let offset = u64_to_string(o);
            s.append(offset.as_str());
        }
        s
    }

    /// Reads `<length>[@<offset>]`.
    pub fn from_str(value: &str) -> (r: Option<PartByterange>)
        ensures
            r == part_byterange_spec(value.spec_bytes()),
    {
        let b = value.as_bytes();
        let len = b.len();
        match find_byte(64u8, b) {
            None => {
                proof {
                    assert(!(exists|i: int| 0 <= i < b@.len() && b@[i] == 64u8));
                }
                match parse_uint(b, 18446744073709551615) {
                    Some(length) => Some(PartByterange { length, offset: None }),
                    None => None,
                }
            },
            Some(i) => {
                proof {
                    lemma_first_index_is(b@, 64u8, i as int);
                }
                let after = i + 1;
                let length = parse_uint(slice_subrange(b, 0, i), 18446744073709551615);
                let offset = parse_uint(slice_subrange(b, after, len), 18446744073709551615);
                match (length, offset) {
                    (Some(length), Some(offset)) => Some(
                        PartByterange { length, offset: Some(offset) },
                    ),
                    _ => None,
                }
            },
        }
    }
}

/// The sub-range that the quoted attribute `name` of `list` holds, if its text is one.
pub open spec fn part_byterange_attr(list: AttributeListView, name: Seq<char>) -> Option<
    PartByterange,
> {
    match quoted_attr(list, name) {
        Some(t) => part_byterange_spec(encode_utf8(t)),
        None => None,
    }
}

/// The sub-range that the quoted attribute `name` of `list` holds.
fn get_part_byterange(list: &AttributeList, name: &str) -> (r: Option<PartByterange>)
    ensures
        r == part_byterange_attr(list.view(), name@),
{
    match get_quoted(list, name) {
        Some(t) => PartByterange::from_str(t),
        None => None,
    }
}

/// The text of an optional sub-range.
pub open spec fn opt_part_byterange_text(b: Option<PartByterange>) -> Option<Seq<char>> {
    match b {
        Some(x) => Some(part_byterange_text(x)),
        None => None,
    }
}

/// Appends `,<name>="<sub-range>"` to `line` when there is a sub-range.
fn push_comma_part_byterange(line: &mut Vec<u8>, name: &str, value: Option<PartByterange>)
    ensures
        final(line)@ == old(line)@ + comma_quoted(name@, opt_part_byterange_text(value)),
{
    match value {
        Some(b) => {
            let text = b.to_string();
            line.push(44u8);
            push_quoted_attribute(line, name, text.as_str());
            proof {
                assert(final(line)@ =~= old(line)@ + comma_quoted(
                    name@,
                    opt_part_byterange_text(value),
                ));
            }
        },
        None => {
            proof {
                assert(final(line)@ =~= old(line)@ + comma_quoted(
                    name@,
                    opt_part_byterange_text(value),
                ));
            }
        },
    }
}

/// Reading back the text of a sub-range gives the sub-range.
#[verifier::spinoff_prover]
pub proof fn lemma_part_byterange_round_trip(b: PartByterange)
    ensures
        part_byterange_spec(encode_utf8(part_byterange_text(b))) == Some(b),
{
    let l = dec(b.length as nat);
    lemma_dec_ascii(b.length as nat);
    lemma_dec_digits(b.length as nat);
    lemma_parse_uint_of_dec(b.length as nat, u64::MAX as nat);
    assert forall|j: int| 0 <= j < l.len() implies l[j] != 64u8 by {
        assert(crate::utils::is_digit(l[j]));
    }
    match b.offset {
        None => {
            assert(!(exists|i: int| 0 <= i < l.len() && l[i] == 64u8));
        },
        Some(off) => {
            let o = dec(off as nat);
            lemma_dec_ascii(off as nat);
            lemma_dec_digits(off as nat);
            lemma_encode_utf8_concat(dec_chars(b.length as nat), seq!['@']);
            lemma_encode_utf8_concat(dec_chars(b.length as nat) + seq!['@'], dec_chars(off as nat));
            assert(encode_utf8(seq!['@']) =~= seq![64u8]) by {
                assert(is_ascii_chars(seq!['@']));
                is_ascii_chars_encode_utf8(seq!['@']);
                assert(('@' as u8) == 64u8);
            }
            let s = l + seq![64u8] + o;
            assert(encode_utf8(part_byterange_text(b)) == s);
            assert forall|j: int| 0 <= j < l.len() implies s[j] != 64u8 by {
                assert(s[j] == l[j]);
            }
            lemma_first_index_is(s, 64u8, l.len() as int);
            assert(s.subrange(0, l.len() as int) =~= l);
            assert(s.subrange(l.len() as int + 1, s.len() as int) =~= o);
            lemma_parse_uint_of_dec(off as nat, u64::MAX as nat);
        },
    }
}

/// The text of a sub-range can be written quoted so that it reads back.
#[verifier::spinoff_prover]
pub proof fn lemma_part_byterange_value_ok(b: PartByterange)
    ensures
        quoted_value_ok(part_byterange_text(b)),
{
    let l = dec(b.length as nat);
    lemma_dec_ascii(b.length as nat);
    lemma_dec_digits(b.length as nat);
    let s = match b.offset {
        Some(off) => {
            lemma_dec_ascii(off as nat);
            lemma_dec_digits(off as nat);
            lemma_encode_utf8_concat(dec_chars(b.length as nat), seq!['@']);
            lemma_encode_utf8_concat(dec_chars(b.length as nat) + seq!['@'], dec_chars(off as nat));
            assert(encode_utf8(seq!['@']) =~= seq![64u8]) by {
                assert(is_ascii_chars(seq!['@']));
                is_ascii_chars_encode_utf8(seq!['@']);
                assert(('@' as u8) == 64u8);
            }
            l + seq![64u8] + dec(off as nat)
        },
        None => l,
    };
    assert(encode_utf8(part_byterange_text(b)) == s);
    assert forall|j: int| 0 <= j < s.len() implies s[j] != 34u8 && s[j] != 10u8 by {
        if j < l.len() {
            assert(s[j] == l[j]);
            assert(crate::utils::is_digit(l[j]));
        } else if j > l.len() {
            let o = dec(b.offset->0 as nat);
            assert(s[j] == o[j - l.len() - 1]);
            assert(crate::utils::is_digit(o[j - l.len() - 1]));
        }
    }
    assert(!s.contains(34u8));
}

/// The attributes of an `#EXT-X-PART` tag, with each decimal floating point value (`DURATION`) held
/// as the text that writes it.
pub struct PartAttributes {
    /// The `URI` attribute.
    pub uri: Seq<char>,
    /// The text of the `DURATION` attribute.
    pub duration: Seq<char>,
    /// Whether `INDEPENDENT=YES` is given.
    pub independent: bool,
    /// The `BYTERANGE` attribute.
    pub byterange: Option<PartByterange>,
    /// Whether `GAP=YES` is given.
    pub gap: bool,
}

/// The attributes that an attribute list gives an `#EXT-X-PART` tag: `URI`, `DURATION` are
/// required; an optional attribute of the wrong kind is taken as absent; a flag is set only when
/// its value is `YES`.
pub open spec fn part_spec(list: AttributeListView) -> Result<PartAttributes, ValidationError> {
    match quoted_attr(list, "URI"@) {
        Some(uri) => {
            match utf8_attr(list, "DURATION"@) {
                Some(duration) => {
                    Ok(PartAttributes {
                        uri,
                        duration,
                        independent: yes_attr(list, "INDEPENDENT"@),
                        byterange: part_byterange_attr(list, "BYTERANGE"@),
                        gap: yes_attr(list, "GAP"@),
                    })
                },
                None => Err(ValidationError::MissingRequiredAttribute("DURATION")),
            }
        },
        None => Err(ValidationError::MissingRequiredAttribute("URI")),
    }
}

/// The attributes that a tag value gives an `#EXT-X-PART` tag.
pub open spec fn part_value_spec(value: Option<Seq<u8>>) -> Result<
    PartAttributes,
    ValidationError,
> {
    match attribute_list_value_spec(value) {
        Ok(list) => part_spec(list),
        Err(e) => Err(e),
    }
}

/// The attributes `URI`, `DURATION`, `INDEPENDENT`, `BYTERANGE`, `GAP` as written where present.
pub open spec fn part_attributes_text(a: PartAttributes) -> Seq<u8> {
    quoted_attribute("URI"@, a.uri)
        + seq![44u8] + unquoted_attribute("DURATION"@, encode_utf8(a.duration))
        + comma_yes("INDEPENDENT"@, a.independent)
        + comma_quoted("BYTERANGE"@, opt_part_byterange_text(a.byterange))
        + comma_yes("GAP"@, a.gap)
}

/// The line of an `#EXT-X-PART` tag with the attributes `a`: `URI`, `DURATION` first, then each
/// optional attribute that is present, in a fixed order.
pub open spec fn part_line(a: PartAttributes) -> Seq<u8> {
    line_start(TagName::Part) + seq![58u8] + part_attributes_text(a)
}

/// The attributes of an `#EXT-X-PART` tag as values, with each decimal floating point value
/// (`DURATION`) held as the text that writes it.
#[derive(Debug, Clone, PartialEq)]
pub struct PartLine {
    /// The `URI` attribute.
    pub uri: String,
    /// The text of the `DURATION` attribute.
    pub duration: String,
    /// Whether `INDEPENDENT=YES` is given.
    pub independent: bool,
    /// The `BYTERANGE` attribute.
    pub byterange: Option<PartByterange>,
    /// Whether `GAP=YES` is given.
    pub gap: bool,
}

impl PartLine {
    /// The attributes.
    pub open spec fn view(&self) -> PartAttributes {
        PartAttributes {
            uri: self.uri@,
            duration: self.duration@,
            independent: self.independent,
            byterange: self.byterange,
            gap: self.gap,
        }
    }

    /// Reads the attributes of an `#EXT-X-PART` tag from a parsed tag line, whose value must be an
    /// attribute list with `URI`, `DURATION`.
    pub fn try_from(tag: &unknown::Tag) -> (r: Result<PartLine, ValidationError>)
        ensures
            match part_value_spec(value_bytes(*tag)) {
                Ok(a) => r matches Ok(l) && l.view() == a,
                Err(e) => r == Err::<PartLine, ValidationError>(e),
            },
    {
        let list = attribute_list_of(tag)?;
        let uri = match get_quoted(&list, "URI") {
            Some(v) => v,
            None => return Err(ValidationError::MissingRequiredAttribute("URI")),
        };
        let duration = match get_unquoted_str(&list, "DURATION") {
            Some(v) => v,
            None => return Err(ValidationError::MissingRequiredAttribute("DURATION")),
        };
        Ok(PartLine {
            uri: string_from(uri),
            duration: string_from(duration),
            independent: get_yes(&list, "INDEPENDENT"),
            byterange: get_part_byterange(&list, "BYTERANGE"),
            gap: get_yes(&list, "GAP"),
        })
    }
}

fn push_part_attributes_text(line: &mut Vec<u8>, a: &PartLine)
    ensures
        final(line)@ == old(line)@ + part_attributes_text(a.view()),
{
    push_quoted_attribute(line, "URI", a.uri.as_str());
    line.push(44u8);
    push_unquoted_attribute(line, "DURATION", a.duration.as_str().as_bytes());
    push_comma_yes(line, "INDEPENDENT", a.independent);
    push_comma_part_byterange(line, "BYTERANGE", a.byterange);
    push_comma_yes(line, "GAP", a.gap);
    proof {
        assert(final(line)@ =~= old(line)@ + part_attributes_text(a.view()));
    }
}

/// The line of an `#EXT-X-PART` tag with the attributes `a`.
pub fn calculate_line(a: &PartLine) -> (r: Vec<u8>)
    ensures
        r@ == part_line(a.view()),
{
    let mut line = start_line(TagName::Part);
    line.push(58u8);
    push_part_attributes_text(&mut line, a);
    proof {
        assert(line@ =~= part_line(a.view()));
    }
    line
}


/// The attributes of the tag in the order in which its line writes them.
pub open spec fn part_entries(m: PartAttributes) -> AttributeListView {
    let l = seq![("URI"@, AttributeValueView::Quoted(m.uri))];
    let l = l.push(("DURATION"@, AttributeValueView::Unquoted(encode_utf8(m.duration))));
    let l = push_yes(l, "INDEPENDENT"@, m.independent);
    let l = push_quoted_opt(l, "BYTERANGE"@, opt_part_byterange_text(m.byterange));
    push_yes(l, "GAP"@, m.gap)
}

proof fn lemma_part_text_0(m: PartAttributes)
    ensures
        attribute_list_text(part_entries(m)) == part_attributes_text(m),
{
    let p0 = seq![("URI"@, AttributeValueView::Quoted(m.uri))];
    assert(attribute_list_text(p0) =~= quoted_attribute("URI"@, m.uri));
    let p1 = p0.push(("DURATION"@, AttributeValueView::Unquoted(encode_utf8(m.duration))));
    lemma_attribute_list_text_push(p0, ("DURATION"@, AttributeValueView::Unquoted(encode_utf8(m.duration))));
    assert(attribute_text(("DURATION"@, AttributeValueView::Unquoted(encode_utf8(m.duration)))) =~= unquoted_attribute("DURATION"@, encode_utf8(m.duration)));
    assert(attribute_list_text(p1) == (quoted_attribute("URI"@, m.uri)) + (seq![44u8] + unquoted_attribute("DURATION"@, encode_utf8(m.duration))));
    let p2 = push_yes(p1, "INDEPENDENT"@, m.independent);
    lemma_push_yes_text(p1, "INDEPENDENT"@, m.independent);
    assert(attribute_list_text(p2) == (quoted_attribute("URI"@, m.uri)) + (seq![44u8] + unquoted_attribute("DURATION"@, encode_utf8(m.duration))) + (comma_yes("INDEPENDENT"@, m.independent)));
    let p3 = push_quoted_opt(p2, "BYTERANGE"@, opt_part_byterange_text(m.byterange));
    lemma_push_quoted_opt_text(p2, "BYTERANGE"@, opt_part_byterange_text(m.byterange));
    assert(attribute_list_text(p3) == (quoted_attribute("URI"@, m.uri)) + (seq![44u8] + unquoted_attribute("DURATION"@, encode_utf8(m.duration))) + (comma_yes("INDEPENDENT"@, m.independent)) + (comma_quoted("BYTERANGE"@, opt_part_byterange_text(m.byterange))));
    let p4 = push_yes(p3, "GAP"@, m.gap);
    lemma_push_yes_text(p3, "GAP"@, m.gap);
    assert(attribute_list_text(p4) == (quoted_attribute("URI"@, m.uri)) + (seq![44u8] + unquoted_attribute("DURATION"@, encode_utf8(m.duration))) + (comma_yes("INDEPENDENT"@, m.independent)) + (comma_quoted("BYTERANGE"@, opt_part_byterange_text(m.byterange))) + (comma_yes("GAP"@, m.gap)));
    assert(p4 == part_entries(m));
    assert(attribute_list_text(p4) =~= part_attributes_text(m));
}

proof fn lemma_part_line_text(m: PartAttributes)
    ensures
        part_line(m) == line_start(TagName::Part) + seq![58u8] + attribute_list_text(part_entries(m)),
{
    let pre = line_start(TagName::Part) + seq![58u8];
    lemma_part_text_0(m);
    assert(pre + attribute_list_text(part_entries(m)) == pre + part_attributes_text(m));
}

proof fn lemma_part_ok_0(m: PartAttributes)
    requires
        quoted_value_ok(m.uri),
        unquoted_value_ok(encode_utf8(m.duration)),
    ensures
        entries_ok(part_entries(m)),
{
    reveal_strlit("URI");
    reveal_strlit("DURATION");
    reveal_strlit("INDEPENDENT");
    reveal_strlit("BYTERANGE");
    reveal_strlit("GAP");
    let p0 = seq![("URI"@, AttributeValueView::Quoted(m.uri))];
    lemma_entries_ok_one("URI"@, AttributeValueView::Quoted(m.uri));
    let p1 = p0.push(("DURATION"@, AttributeValueView::Unquoted(encode_utf8(m.duration))));
    lemma_entries_ok_push(p0, "DURATION"@, AttributeValueView::Unquoted(encode_utf8(m.duration)));
    let p2 = push_yes(p1, "INDEPENDENT"@, m.independent);
    if m.independent {
        lemma_yes_unquoted_ok();
        lemma_entries_ok_push(p1, "INDEPENDENT"@, AttributeValueView::Unquoted("YES".spec_bytes()));
    }
    let p3 = push_quoted_opt(p2, "BYTERANGE"@, opt_part_byterange_text(m.byterange));
    match m.byterange {
        Some(v) => {
            lemma_part_byterange_value_ok(v);
            lemma_entries_ok_push(p2, "BYTERANGE"@, AttributeValueView::Quoted(part_byterange_text(v)));
        },
        None => {},
    }
    let p4 = push_yes(p3, "GAP"@, m.gap);
    if m.gap {
        lemma_yes_unquoted_ok();
        lemma_entries_ok_push(p3, "GAP"@, AttributeValueView::Unquoted("YES".spec_bytes()));
    }
    assert(p4 == part_entries(m));
}

#[verifier::spinoff_prover]
proof fn lemma_part_lookup_0(m: PartAttributes)
    ensures
        quoted_attr(part_entries(m), "URI"@) == Some(m.uri),
        utf8_attr(part_entries(m), "DURATION"@) == Some(m.duration),
        yes_attr(part_entries(m), "INDEPENDENT"@) == m.independent,
{
    reveal_strlit("URI");
    reveal_strlit("DURATION");
    reveal_strlit("INDEPENDENT");
    reveal_strlit("BYTERANGE");
    reveal_strlit("GAP");
    assert("URI"@.len() != "DURATION"@.len());
    assert("URI"@.len() != "INDEPENDENT"@.len());
    assert("URI"@.len() != "BYTERANGE"@.len());
    assert("URI"@[0] != "GAP"@[0]);
    assert("DURATION"@.len() != "URI"@.len());
    assert("DURATION"@.len() != "INDEPENDENT"@.len());
    assert("DURATION"@.len() != "BYTERANGE"@.len());
    assert("DURATION"@.len() != "GAP"@.len());
    assert("INDEPENDENT"@.len() != "URI"@.len());
    assert("INDEPENDENT"@.len() != "DURATION"@.len());
    assert("INDEPENDENT"@.len() != "BYTERANGE"@.len());
    assert("INDEPENDENT"@.len() != "GAP"@.len());
    let l0 = seq![("URI"@, AttributeValueView::Quoted(m.uri))];
    let l1 = l0.push(("DURATION"@, AttributeValueView::Unquoted(encode_utf8(m.duration))));
    let l2 = push_yes(l1, "INDEPENDENT"@, m.independent);
    let l3 = push_quoted_opt(l2, "BYTERANGE"@, opt_part_byterange_text(m.byterange));
    let l4 = push_yes(l3, "GAP"@, m.gap);
    assert(l4 == part_entries(m));
    lemma_lookup_push(Seq::empty(), ("URI"@, AttributeValueView::Quoted(m.uri)), "URI"@);
    lemma_lookup_push(l0, ("DURATION"@, AttributeValueView::Unquoted(encode_utf8(m.duration))), "URI"@);
    lemma_lookup_push_yes(l1, "INDEPENDENT"@, m.independent, "URI"@);
    lemma_lookup_push_quoted_opt(l2, "BYTERANGE"@, opt_part_byterange_text(m.byterange), "URI"@);
    lemma_lookup_push_yes(l3, "GAP"@, m.gap, "URI"@);
    lemma_lookup_push(Seq::empty(), ("URI"@, AttributeValueView::Quoted(m.uri)), "DURATION"@);
    lemma_lookup_push(l0, ("DURATION"@, AttributeValueView::Unquoted(encode_utf8(m.duration))), "DURATION"@);
    lemma_lookup_push_yes(l1, "INDEPENDENT"@, m.independent, "DURATION"@);
    lemma_lookup_push_quoted_opt(l2, "BYTERANGE"@, opt_part_byterange_text(m.byterange), "DURATION"@);
    lemma_lookup_push_yes(l3, "GAP"@, m.gap, "DURATION"@);
    lemma_lookup_push(Seq::empty(), ("URI"@, AttributeValueView::Quoted(m.uri)), "INDEPENDENT"@);
    lemma_lookup_push(l0, ("DURATION"@, AttributeValueView::Unquoted(encode_utf8(m.duration))), "INDEPENDENT"@);
    lemma_lookup_push_yes(l1, "INDEPENDENT"@, m.independent, "INDEPENDENT"@);
    lemma_lookup_push_quoted_opt(l2, "BYTERANGE"@, opt_part_byterange_text(m.byterange), "INDEPENDENT"@);
    lemma_lookup_push_yes(l3, "GAP"@, m.gap, "INDEPENDENT"@);
    assert(Seq::<(Seq<char>, AttributeValueView)>::empty().push(("URI"@, AttributeValueView::Quoted(m.uri))) =~= l0);
    encode_utf8_valid_utf8(m.duration);
    encode_utf8_decode_utf8(m.duration);
    assert(quoted_attr(l4, "URI"@) == Some(m.uri));
    assert(utf8_attr(l4, "DURATION"@) == Some(m.duration));
    assert(yes_attr(l4, "INDEPENDENT"@) == m.independent);
}

#[verifier::spinoff_prover]
proof fn lemma_part_lookup_1(m: PartAttributes)
    ensures
        part_byterange_attr(part_entries(m), "BYTERANGE"@) == m.byterange,
        yes_attr(part_entries(m), "GAP"@) == m.gap,
{
    reveal_strlit("URI");
    reveal_strlit("DURATION");
    reveal_strlit("INDEPENDENT");
    reveal_strlit("BYTERANGE");
    reveal_strlit("GAP");
    assert("BYTERANGE"@.len() != "URI"@.len());
    assert("BYTERANGE"@.len() != "DURATION"@.len());
    assert("BYTERANGE"@.len() != "INDEPENDENT"@.len());
    assert("BYTERANGE"@.len() != "GAP"@.len());
    assert("GAP"@[0] != "URI"@[0]);
    assert("GAP"@.len() != "DURATION"@.len());
    assert("GAP"@.len() != "INDEPENDENT"@.len());
    assert("GAP"@.len() != "BYTERANGE"@.len());
    let l0 = seq![("URI"@, AttributeValueView::Quoted(m.uri))];
    let l1 = l0.push(("DURATION"@, AttributeValueView::Unquoted(encode_utf8(m.duration))));
    let l2 = push_yes(l1, "INDEPENDENT"@, m.independent);
    let l3 = push_quoted_opt(l2, "BYTERANGE"@, opt_part_byterange_text(m.byterange));
    let l4 = push_yes(l3, "GAP"@, m.gap);
    assert(l4 == part_entries(m));
    lemma_lookup_push(Seq::empty(), ("URI"@, AttributeValueView::Quoted(m.uri)), "BYTERANGE"@);
    lemma_lookup_push(l0, ("DURATION"@, AttributeValueView::Unquoted(encode_utf8(m.duration))), "BYTERANGE"@);
    lemma_lookup_push_yes(l1, "INDEPENDENT"@, m.independent, "BYTERANGE"@);
    lemma_lookup_push_quoted_opt(l2, "BYTERANGE"@, opt_part_byterange_text(m.byterange), "BYTERANGE"@);
    lemma_lookup_push_yes(l3, "GAP"@, m.gap, "BYTERANGE"@);
    lemma_lookup_push(Seq::empty(), ("URI"@, AttributeValueView::Quoted(m.uri)), "GAP"@);
    lemma_lookup_push(l0, ("DURATION"@, AttributeValueView::Unquoted(encode_utf8(m.duration))), "GAP"@);
    lemma_lookup_push_yes(l1, "INDEPENDENT"@, m.independent, "GAP"@);
    lemma_lookup_push_quoted_opt(l2, "BYTERANGE"@, opt_part_byterange_text(m.byterange), "GAP"@);
    lemma_lookup_push_yes(l3, "GAP"@, m.gap, "GAP"@);
    assert(Seq::<(Seq<char>, AttributeValueView)>::empty().push(("URI"@, AttributeValueView::Quoted(m.uri))) =~= l0);
    if let Some(v) = m.byterange {
        crate::tag::hls::part::lemma_part_byterange_round_trip(v);
    }
    assert(part_byterange_attr(l4, "BYTERANGE"@) == m.byterange);
    assert(yes_attr(l4, "GAP"@) == m.gap);
}

proof fn lemma_part_lookup(m: PartAttributes)
    ensures
        part_spec(part_entries(m)) == Ok::<PartAttributes, ValidationError>(m),
{
    lemma_part_lookup_0(m);
    lemma_part_lookup_1(m);
}

/// Writing and then reading a part tag gives it back: its line reads as its name with its
/// attributes as the value, and that value reads as the attributes, when the URI holds no `"` and
/// no line feed and the duration is not empty, does not start with `"`, and holds no `,` and no
/// line feed.
pub proof fn lemma_part_reads_back(m: PartAttributes)
    requires
        quoted_value_ok(m.uri),
        unquoted_value_ok(encode_utf8(m.duration)),
    ensures
        part_line(m) == line_start(TagName::Part) + seq![58u8] + attribute_list_text(
            part_entries(m),
        ),
        unknown::starts_with_ext(part_line(m)),
        unknown::tag_after_ext_spec(part_line(m).subrange(4, part_line(m).len() as int))
            == Ok::<(Seq<u8>, Option<Seq<u8>>, Option<Seq<u8>>), UnknownTagSyntaxError>((
            encode_utf8(tag_name_text(TagName::Part)),
            Some(attribute_list_text(part_entries(m))),
            None,
        )),
        part_value_spec(Some(attribute_list_text(part_entries(m)))) == Ok::<
            PartAttributes,
            ValidationError,
        >(m),
{
    let l = part_entries(m);
    let text = attribute_list_text(l);
    lemma_part_line_text(m);
    let rest = seq![58u8] + text;
    lemma_line_after_ext(TagName::Part, rest);
    assert(part_line(m) =~= line_start(TagName::Part) + rest);
    assert(encode_utf8(tag_name_text(TagName::Part)) + rest =~= encode_utf8(
        tag_name_text(TagName::Part),
    ) + seq![58u8] + text);
    lemma_tag_name_plain(TagName::Part);
    lemma_part_ok_0(m);
    lemma_attribute_list_text_free_of_line_feed(l);
    unknown::lemma_read_written_tag(encode_utf8(tag_name_text(TagName::Part)), text);
    lemma_attribute_list_reads_back(l);
    lemma_part_lookup(m);
}

} // verus!
