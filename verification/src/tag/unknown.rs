//! Reading tag lines without knowing the tag.
//!
//! Every tag line is first read as an unknown [`Tag`] (a name and an optional value); the known
//! tags are then built from it.

use vstd::prelude::*;
use vstd::string::StringSliceAdditionalSpecFns;
use vstd::utf8::*;
use vstd::slice::slice_subrange;

use crate::error::{UnknownTagSyntaxError, ValidationError};
use crate::line::{ParsedByteSlice, ParsedLineSlice};
use crate::tag::value::TagValue;
use crate::utils::{
    bytes_eq, find_either_byte, first_index, first_index_either, lemma_first_index_facts,
    lemma_first_index_either_is, lemma_valid_utf8_split_at_ascii, split_line_spec,
    split_on_new_line, str_from_utf8,
};

verus! {

/// A tag line found in the input: its name and value, not yet given a strong type.
///
/// A tag is unknown when its name is not one of the tags the library knows, or when its known
/// form was not wanted, or when it failed to meet the requirements of its known form (in which
/// case [`Self::validation_error`] says why).
#[derive(Debug, PartialEq, Eq, Clone, Copy)]
pub struct Tag<'a> {
    /// Everything after `#EXT` and before the first `:` or line end.
    pub name: &'a str,
    /// Everything after the first `:` up to the line end, if there is a `:`.
    pub value: Option<TagValue<'a>>,
    /// The input from the start of the tag line (it may run past the end of the line).
    pub original_input: &'a [u8],
    /// Why the tag could not be given its known form, if it could not.
    pub validation_error: Option<ValidationError>,
}

impl<'a> Tag<'a> {
    /// The name of the tag: everything after `#EXT` and before the `:` or line end (`M3U` for
    /// `#EXTM3U`, `-X-VERSION` for `#EXT-X-VERSION:3`).
    pub fn name(&self) -> (r: &'a str)
        ensures
            r == self.name,
    {
        self.name
    }

    /// The value of the tag: everything after the first `:` (`None` when there is no `:`).
    pub fn value(&self) -> (r: Option<TagValue<'a>>)
        ensures
            r == self.value,
    {
        self.value
    }

    /// The error that made this tag unknown, if a known tag failed validation.
    pub fn validation_error(&self) -> (r: Option<ValidationError>)
        ensures
            r == self.validation_error,
    {
        self.validation_error
    }

    /// The bytes of the tag line, without its line ending.
    pub fn as_bytes(&self) -> (r: &'a [u8])
        ensures
            r@ == split_line_spec(self.original_input@).0,
    {
        split_on_new_line(self.original_input).parsed
    }
}

/// The abstract result of reading a tag line: the name's bytes, the value's bytes (if any), and
/// what follows the line (if anything).
pub open spec fn tag_after_ext_spec(t: Seq<u8>) -> Result<
    (Seq<u8>, Option<Seq<u8>>, Option<Seq<u8>>),
    UnknownTagSyntaxError,
> {
    if t.len() == 0 || t[0] == 10u8 || t[0] == 13u8 {
        Err(UnknownTagSyntaxError::UnexpectedNoTagName)
    } else {
        match first_index_either(t, 58u8, 10u8) {
            Some(n) => if t[n] == 58u8 {
                let split = split_line_spec(t.subrange(n + 1, t.len() as int));
                Ok((t.subrange(0, n), Some(split.0), split.1))
            } else if t[n - 1] == 13u8 {
                Ok((t.subrange(0, n - 1), None, Some(t.subrange(n + 1, t.len() as int))))
            } else {
                Ok((t.subrange(0, n), None, Some(t.subrange(n + 1, t.len() as int))))
            },
            None => Ok((t, None, None)),
        }
    }
}

/// Reads a tag line from `input` (which follows `#EXT` in `original_input`), stopping at the end
/// of the line.
pub(crate) fn parse_assuming_ext_taken<'a>(input: &'a [u8], original_input: &'a [u8]) -> (r: Result<
    ParsedByteSlice<'a, Tag<'a>>,
    UnknownTagSyntaxError,
>)
    requires
        valid_utf8(input@),
    ensures
        match tag_after_ext_spec(input@) {
            Err(e) => r == Err::<ParsedByteSlice<'a, Tag<'a>>, UnknownTagSyntaxError>(e),
            Ok((name, value, remaining)) => r matches Ok(p) && p.parsed.name.spec_bytes() == name
                && p.parsed.original_input == original_input && p.parsed.validation_error is None
                && (match value {
                Some(v) => p.parsed.value matches Some(x) && x.0@ == v,
                None => p.parsed.value is None,
            }) && (match remaining {
                Some(rem) => p.remaining matches Some(x) && x@ == rem,
                None => p.remaining is None,
            }),
        },
        r matches Ok(p) ==> (p.remaining matches Some(x) ==> valid_utf8(x@)),
{
    let len = input.len();
    if len == 0 || input[0] == 10u8 || input[0] == 13u8 {
        return Err(UnknownTagSyntaxError::UnexpectedNoTagName);
    }
    match find_either_byte(58u8, 10u8, input) {
        Some(n) => {
            proof {
                lemma_first_index_either_is(input@, 58u8, 10u8, n as int);
                lemma_valid_utf8_split_at_ascii(input@, n as int);
            }
            if input[n] == 58u8 {
                let name = match str_from_utf8(slice_subrange(input, 0, n)) {
                    Ok(name) => name,
                    Err(_) => return Err(UnknownTagSyntaxError::InvalidUtf8),
                };
                let rest = split_on_new_line(slice_subrange(input, n + 1, len));
                proof {
                    lemma_split_line_remaining_valid(input@.subrange(n + 1, input@.len() as int));
                }
                Ok(ParsedByteSlice {
                    parsed: Tag {
                        name,
                        value: Some(TagValue(rest.parsed)),
                        original_input,
                        validation_error: None,
                    },
                    remaining: rest.remaining,
                })
            } else if input[n - 1] == 13u8 {
                proof {
                    lemma_valid_utf8_split_at_ascii(input@.subrange(0, n as int), n - 1);
                    assert(input@.subrange(0, n as int).subrange(0, n - 1) =~= input@.subrange(
                        0,
                        n - 1,
                    ));
                }
                let name = match str_from_utf8(slice_subrange(input, 0, n - 1)) {
                    Ok(name) => name,
                    Err(_) => return Err(UnknownTagSyntaxError::InvalidUtf8),
                };
                Ok(ParsedByteSlice {
                    parsed: Tag { name, value: None, original_input, validation_error: None },
                    remaining: Some(slice_subrange(input, n + 1, len)),
                })
            } else {
                let name = match str_from_utf8(slice_subrange(input, 0, n)) {
                    Ok(name) => name,
                    Err(_) => return Err(UnknownTagSyntaxError::InvalidUtf8),
                };
                Ok(ParsedByteSlice {
                    parsed: Tag { name, value: None, original_input, validation_error: None },
                    remaining: Some(slice_subrange(input, n + 1, len)),
                })
            }
        },
        None => {
            proof {
                assert(!(exists|i: int|
                    0 <= i < input@.len() && (input@[i] == 58u8 || input@[i] == 10u8)));
            }
            let name = match str_from_utf8(input) {
                Ok(name) => name,
                Err(_) => return Err(UnknownTagSyntaxError::InvalidUtf8),
            };
            Ok(ParsedByteSlice {
                parsed: Tag { name, value: None, original_input, validation_error: None },
                remaining: None,
            })
        },
    }
}

proof fn lemma_split_line_remaining_valid(b: Seq<u8>)
    requires
        valid_utf8(b),
    ensures
        split_line_spec(b).1 matches Some(rem) ==> valid_utf8(rem),
{
    lemma_first_index_facts(b, 10u8);
    if let Some(n) = first_index(b, 10u8) {
        lemma_valid_utf8_split_at_ascii(b, n);
    }
}

/// Whether the bytes start with `#EXT`.
pub open spec fn starts_with_ext(b: Seq<u8>) -> bool {
    b.len() >= 4 && b.subrange(0, 4) == "#EXT".spec_bytes()
}

/// Reads a tag line (a line starting with `#EXT`) from the start of `input`, stopping at the end
/// of the line.
pub fn parse(input: &str) -> (r: Result<ParsedLineSlice<'_, Tag<'_>>, UnknownTagSyntaxError>)
    ensures
        !starts_with_ext(input.spec_bytes()) ==> r == Err::<
            ParsedLineSlice<'_, Tag<'_>>,
            UnknownTagSyntaxError,
        >(UnknownTagSyntaxError::InvalidTag),
        starts_with_ext(input.spec_bytes()) ==> match tag_after_ext_spec(
            input.spec_bytes().subrange(4, input.spec_bytes().len() as int),
        ) {
            Err(e) => r == Err::<ParsedLineSlice<'_, Tag<'_>>, UnknownTagSyntaxError>(e),
            Ok((name, value, remaining)) => r matches Ok(p) && p.parsed.name.spec_bytes() == name
                && p.parsed.original_input@ == input.spec_bytes()
                && p.parsed.validation_error is None && (match value {
                Some(v) => p.parsed.value matches Some(x) && x.0@ == v,
                None => p.parsed.value is None,
            }) && (match remaining {
                Some(rem) => p.remaining matches Some(x) && x.spec_bytes() == rem,
                None => p.remaining is None,
            }),
        },
{
    let bytes = input.as_bytes();
    let len = bytes.len();
    proof {
        encode_utf8_valid_utf8(input@);
    }
    if len < 4 || !bytes_eq(slice_subrange(bytes, 0, 4), "#EXT".as_bytes()) {
        return Err(UnknownTagSyntaxError::InvalidTag);
    }
    proof {
        reveal_strlit("#EXT");
        vstd::string::is_ascii_spec_bytes("#EXT");
        assert(bytes@[3] == bytes@.subrange(0, 4)[3]);
        lemma_valid_utf8_split_at_ascii(bytes@, 3);
    }
    let rest = slice_subrange(bytes, 4, len);
    let parsed = parse_assuming_ext_taken(rest, bytes)?;
    let remaining = match parsed.remaining {
        None => None,
        Some(rem) => {
            match str_from_utf8(rem) {
                Ok(s) => Some(s),
                Err(_) => return Err(UnknownTagSyntaxError::InvalidUtf8),
            }
        },
    };
    Ok(ParsedLineSlice { parsed: parsed.parsed, remaining })
}

/// Bytes that can stand as the name of a tag in a line: not empty, not starting with a carriage
/// return, and holding no `:` and no line feed.
pub open spec fn plain_tag_name(name: Seq<u8>) -> bool {
    &&& name.len() > 0
    &&& name[0] != 13u8
    &&& forall|i: int| 0 <= i < name.len() ==> name[i] != 58u8 && name[i] != 10u8
}

/// Whether the bytes hold no line feed.
pub open spec fn no_line_feed(value: Seq<u8>) -> bool {
    forall|i: int| 0 <= i < value.len() ==> value[i] != 10u8
}

/// Reading what follows `#EXT` in a line written as `<name>:<value>` gives back the name and the
/// value (and no more input), when the name is plain and the value holds no line feed.
pub proof fn lemma_read_written_tag(name: Seq<u8>, value: Seq<u8>)
    requires
        plain_tag_name(name),
        no_line_feed(value),
    ensures
        tag_after_ext_spec(name + seq![58u8] + value) == Ok::<
            (Seq<u8>, Option<Seq<u8>>, Option<Seq<u8>>),
            UnknownTagSyntaxError,
        >((name, Some(value), None)),
{
    let t = name + seq![58u8] + value;
    let n = name.len() as int;
    assert(t[0] == name[0]);
    assert forall|j: int| 0 <= j < n implies t[j] != 58u8 && t[j] != 10u8 by {
        assert(t[j] == name[j]);
    }
    lemma_first_index_either_is(t, 58u8, 10u8, n);
    assert(t.subrange(n + 1, t.len() as int) =~= value);
    assert(t.subrange(0, n) =~= name);
    assert(!(exists|i: int| 0 <= i < value.len() && value[i] == 10u8));
    assert(first_index(value, 10u8) is None);
}

/// Reading what follows `#EXT` in a line written as `<name>` alone gives back the name, with no
/// value (and no more input), when the name is plain.
pub proof fn lemma_read_written_flag_tag(name: Seq<u8>)
    requires
        plain_tag_name(name),
    ensures
        tag_after_ext_spec(name) == Ok::<
            (Seq<u8>, Option<Seq<u8>>, Option<Seq<u8>>),
            UnknownTagSyntaxError,
        >((name, None, None)),
{
    assert(!(exists|i: int| 0 <= i < name.len() && (name[i] == 58u8 || name[i] == 10u8)));
    assert(first_index_either(name, 58u8, 10u8) is None);
}

} // verus!
