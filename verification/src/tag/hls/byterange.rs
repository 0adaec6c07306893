//! The `#EXT-X-BYTERANGE` tag.

use vstd::prelude::*;
use vstd::utf8::*;

use crate::error::{
    ValidationErrorValueKind, ParseTagValueError, UnknownTagSyntaxError, ValidationError};
use crate::tag::hls::{
    tag_value_kind,
    lemma_line_after_ext, lemma_tag_name_plain, line_start, start_line, tag_name_text,
    value_bytes, TagName,
};
use crate::tag::known::TagInner;
use crate::tag::unknown;
use crate::tag::value::decimal_integer_range_spec;
use crate::utils::{
    dec, first_index, is_digit, lemma_dec_digits, lemma_first_index_is, lemma_parse_u64_of_dec,
    push_u64,
};

use crate::tag::value::{is_kind_mark, lemma_value_kind_unmarked, value_kind_of_text, value_kind_spec};

verus! {

/// Corresponds to the `#EXT-X-BYTERANGE` tag.
///
/// <https://datatracker.ietf.org/doc/html/draft-pantos-hls-rfc8216bis-17#section-4.4.4.2>
#[derive(Debug, Clone)]
pub struct Byterange {
    length: u64,
    offset: Option<u64>,
    output_line: Vec<u8>,
    output_line_is_dirty: bool,
}

/// The result of reading the value of a tag as a decimal integer range (`<n>[@<o>]`).
pub open spec fn byterange_value_spec(value: Option<Seq<u8>>) -> Result<
    (u64, Option<u64>),
    ValidationError,
> {
    match value {
        Some(b) if value_kind_of_text(b) == ValidationErrorValueKind::Unparsed => match decimal_integer_range_spec(b) {
            Ok(r) => Ok(r),
            Err(e) => Err(
                ValidationError::ErrorExtractingTagValue(ParseTagValueError::DecimalIntegerRange(e)),
            ),
        },
        _ => Err(ValidationError::UnexpectedValueType(value_kind_spec(value))),
    }
}

/// The line of the tag: `#EXT-X-BYTERANGE:<n>[@<o>]`.
pub open spec fn byterange_line(length: u64, offset: Option<u64>) -> Seq<u8> {
    let start = line_start(TagName::Byterange) + seq![58u8] + dec(length as nat);
    match offset {
        Some(o) => start + seq![64u8] + dec(o as nat),
        None => start,
    }
}

fn calculate_line(length: u64, offset: Option<u64>) -> (r: Vec<u8>)
    ensures
        r@ == byterange_line(length, offset),
{
    let mut line = start_line(TagName::Byterange);
    line.push(58u8);
    push_u64(&mut line, length);
    if let Some(o) = offset {
        line.push(64u8);
        push_u64(&mut line, o);
    }
    line
}

impl Byterange {
    /// The length and offset that the tag carries.
    pub closed spec fn view(&self) -> (u64, Option<u64>) {
        (self.length, self.offset)
    }

    /// The line that the tag writes: the parsed line until the tag is changed, then the line
    /// calculated from its value.
    pub closed spec fn output(&self) -> Seq<u8> {
        if self.output_line_is_dirty {
            byterange_line(self.length, self.offset)
        } else {
            self.output_line@
        }
    }

    /// Reads the tag from a parsed tag line, whose value must be `<n>[@<o>]`.
    pub fn try_from(tag: unknown::Tag) -> (r: Result<Byterange, ValidationError>)
        ensures
            match byterange_value_spec(value_bytes(tag)) {
                Ok(v) => r matches Ok(t) && t.view() == v && t.output() == tag.original_input@,
                Err(e) => r == Err::<Byterange, ValidationError>(e),
            },
    {
        let kind = tag_value_kind(&tag);
        if !matches!(kind, ValidationErrorValueKind::Unparsed) {
            return Err(ValidationError::UnexpectedValueType(kind));
        }
        let value = match tag.value {
            None => {
                return Err(
                    ValidationError::ErrorExtractingTagValue(ParseTagValueError::UnexpectedEmpty),
                )
            },
            Some(v) => v,
        };
        let (length, offset) = match value.try_as_decimal_integer_range() {
            Ok(r) => r,
            Err(e) => {
                return Err(
                    ValidationError::ErrorExtractingTagValue(
                        ParseTagValueError::DecimalIntegerRange(e),
                    ),
                )
            },
        };
        let mut output_line: Vec<u8> = Vec::new();
        crate::utils::push_bytes(&mut output_line, tag.original_input);
        Ok(Byterange { length, offset, output_line, output_line_is_dirty: false })
    }

    /// Constructs a new tag.
    pub fn new(length: u64, offset: Option<u64>) -> (r: Byterange)
        ensures
            r.view() == (length, offset),
            r.output() == byterange_line(length, offset),
    {
        Byterange {
            length,
            offset,
            output_line: calculate_line(length, offset),
            output_line_is_dirty: false,
        }
    }

    /// The length of the sub-range in bytes.
    pub fn length(&self) -> (r: u64)
        ensures
            r == self.view().0,
    {
        self.length
    }

    /// The start of the sub-range, as a byte offset from the start of the resource.
    pub fn offset(&self) -> (r: Option<u64>)
        ensures
            r == self.view().1,
    {
        self.offset
    }

    /// Sets the length of the sub-range.
    pub fn set_length(&mut self, length: u64)
        ensures
            final(self).view() == (length, old(self).view().1),
            final(self).output() == byterange_line(length, old(self).view().1),
    {
        self.length = length;
        self.output_line_is_dirty = true;
    }

    /// Sets the offset of the sub-range.
    pub fn set_offset(&mut self, offset: u64)
        ensures
            final(self).view() == (old(self).view().0, Some(offset)),
            final(self).output() == byterange_line(old(self).view().0, Some(offset)),
    {
        self.offset = Some(offset);
        self.output_line_is_dirty = true;
    }

    /// Removes the offset of the sub-range.
    pub fn unset_offset(&mut self)
        ensures
            final(self).view() == (old(self).view().0, None::<u64>),
            final(self).output() == byterange_line(old(self).view().0, None),
    {
        self.offset = None;
        self.output_line_is_dirty = true;
    }

    /// Consumes the tag and provides the line it writes.
    pub fn into_inner(self) -> (r: TagInner)
        ensures
            r.view() == self.output(),
    {
        if self.output_line_is_dirty {
            TagInner::from_line(calculate_line(self.length, self.offset))
        } else {
            TagInner::from_line(self.output_line)
        }
    }
}


impl PartialEq for Byterange {
    fn eq(&self, other: &Self) -> (r: bool) {
        self.length == other.length && match (self.offset, other.offset) {
            (Some(a), Some(b)) => a == b,
            (None, None) => true,
            _ => false,
        }
    }
}

impl vstd::std_specs::cmp::PartialEqSpecImpl for Byterange {
    open spec fn obeys_eq_spec() -> bool {
        true
    }

    open spec fn eq_spec(&self, other: &Self) -> bool {
        self.view() == other.view()
    }
}

/// The text of a byte range as written: `<length>` or `<length>@<offset>`.
pub open spec fn byterange_text(length: u64, offset: Option<u64>) -> Seq<u8> {
    match offset {
        Some(o) => dec(length as nat) + seq![64u8] + dec(o as nat),
        None => dec(length as nat),
    }
}

/// The text of a byte range is an unparsed value: it holds no line feed, `,` or `=`.
proof fn lemma_byterange_text_kind(length: u64, offset: Option<u64>)
    ensures
        value_kind_of_text(byterange_text(length, offset)) == ValidationErrorValueKind::Unparsed,
{
    let text = byterange_text(length, offset);
    let l = dec(length as nat);
    lemma_dec_digits(length as nat);
    match offset {
        Some(o) => {
            let od = dec(o as nat);
            lemma_dec_digits(o as nat);
            assert forall|i: int| 0 <= i < text.len() implies !is_kind_mark(#[trigger] text[i]) by {
                if i < l.len() {
                    assert(is_digit(l[i]));
                } else if i > l.len() {
                    assert(text[i] == od[i - l.len() - 1]);
                    assert(is_digit(od[i - l.len() - 1]));
                }
            }
        },
        None => {
            assert forall|i: int| 0 <= i < text.len() implies !is_kind_mark(#[trigger] text[i]) by {
                assert(is_digit(l[i]));
            }
        },
    }
    lemma_value_kind_unmarked(text);
}

proof fn lemma_byterange_text_reads(length: u64, offset: Option<u64>)
    ensures
        unknown::no_line_feed(byterange_text(length, offset)),
        decimal_integer_range_spec(byterange_text(length, offset)) == Ok::<
            (u64, Option<u64>),
            crate::error::ParseDecimalIntegerRangeError,
        >((length, offset)),
        byterange_value_spec(Some(byterange_text(length, offset))) == Ok::<
            (u64, Option<u64>),
            ValidationError,
        >((length, offset)),
{
    let text = byterange_text(length, offset);
    let l = dec(length as nat);
    lemma_byterange_text_kind(length, offset);
    lemma_dec_digits(length as nat);
    lemma_parse_u64_of_dec(length);
    match offset {
        Some(o) => {
            let od = dec(o as nat);
            lemma_dec_digits(o as nat);
            lemma_parse_u64_of_dec(o);
            assert forall|i: int| 0 <= i < text.len() implies text[i] != 10u8 by {
                if i < l.len() {
                    assert(is_digit(l[i]));
                } else if i > l.len() {
                    assert(text[i] == od[i - l.len() - 1]);
                    assert(is_digit(od[i - l.len() - 1]));
                }
            }
            assert forall|j: int| 0 <= j < l.len() implies text[j] != 64u8 by {
                assert(is_digit(l[j]));
            }
            lemma_first_index_is(text, 64u8, l.len() as int);
            assert(text.subrange(0, l.len() as int) =~= l);
            assert(text.subrange(l.len() as int + 1, text.len() as int) =~= od);
        },
        None => {
            assert forall|i: int| 0 <= i < text.len() implies text[i] != 10u8 && text[i] != 64u8 by {
                assert(is_digit(l[i]));
            }
            assert(!(exists|i: int| 0 <= i < text.len() && text[i] == 64u8));
        },
    }
}

/// Writing and then reading a byte range gives it back: the line of a byte range reads as the
/// tag's name with the range's text as its value, and that value reads as the range.
#[verifier::spinoff_prover]
pub proof fn lemma_byterange_reads_back(length: u64, offset: Option<u64>)
    ensures
        byterange_line(length, offset) == line_start(TagName::Byterange) + seq![58u8]
            + byterange_text(length, offset),
        unknown::starts_with_ext(byterange_line(length, offset)),
        unknown::tag_after_ext_spec(
            byterange_line(length, offset).subrange(4, byterange_line(length, offset).len() as int),
        ) == Ok::<(Seq<u8>, Option<Seq<u8>>, Option<Seq<u8>>), UnknownTagSyntaxError>(
            (
                encode_utf8(tag_name_text(TagName::Byterange)),
                Some(byterange_text(length, offset)),
                None,
            ),
        ),
        byterange_value_spec(Some(byterange_text(length, offset))) == Ok::<
            (u64, Option<u64>),
            ValidationError,
        >((length, offset)),
{
    let text = byterange_text(length, offset);
    let rest = seq![58u8] + text;
    lemma_line_after_ext(TagName::Byterange, rest);
    assert(byterange_line(length, offset) =~= line_start(TagName::Byterange) + rest) by {
        let start = line_start(TagName::Byterange) + seq![58u8] + dec(length as nat);
        match offset {
            Some(o) => {
                assert(byterange_line(length, offset) == start + seq![64u8] + dec(o as nat));
            },
            None => {
                assert(byterange_line(length, offset) == start);
            },
        }
    }
    assert(encode_utf8(tag_name_text(TagName::Byterange)) + rest =~= encode_utf8(
        tag_name_text(TagName::Byterange),
    ) + seq![58u8] + text);
    lemma_tag_name_plain(TagName::Byterange);
    lemma_byterange_text_reads(length, offset);
    let name = encode_utf8(tag_name_text(TagName::Byterange));
    unknown::lemma_read_written_tag(name, text);
    let line = byterange_line(length, offset);
    assert(line.subrange(4, line.len() as int) == name + seq![58u8] + text);
}

} // verus!
