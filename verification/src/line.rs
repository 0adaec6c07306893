//! Results of parsing that carry the unparsed rest of the input.

use vstd::prelude::*;

verus! {

/// A parsed value together with the bytes that follow the parsed line, if any.
#[derive(Debug, PartialEq, Clone, Copy)]
pub struct ParsedByteSlice<'a, T> {
    /// The value parsed from the line.
    pub parsed: T,
    /// The bytes after the line feed that ended the line (`None` when the input had no line feed).
    pub remaining: Option<&'a [u8]>,
}

/// A parsed value together with the text that follows the parsed line, if any.
#[derive(Debug, PartialEq, Clone, Copy)]
pub struct ParsedLineSlice<'a, T> {
    /// The value parsed from the line.
    pub parsed: T,
    /// The text after the line feed that ended the line (`None` when the input had no line feed).
    pub remaining: Option<&'a str>,
}

} // verus!
