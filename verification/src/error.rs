//! Errors reported while parsing and validating tags.

use vstd::prelude::*;

verus! {

/// Failure to read a `decimal-integer`.
#[derive(Debug, PartialEq, Eq, Clone, Copy)]
pub enum ParseNumberError {
    /// There were no digits to read.
    Empty,
    /// A byte that is not a decimal digit was found.
    InvalidDigit(u8),
    /// The number does not fit in a `u64`.
    NumberTooBig,
}

/// Failure to read a `decimal-integer-range` (`<n>[@<o>]`).
#[derive(Debug, PartialEq, Eq, Clone, Copy)]
pub enum ParseDecimalIntegerRangeError {
    /// The length component (`<n>`) was not a decimal integer.
    InvalidLength(ParseNumberError),
    /// The offset component (`<o>`) was not a decimal integer.
    InvalidOffset(ParseNumberError),
}

/// Failure to read an `EXT-X-PLAYLIST-TYPE` value.
#[derive(Debug, PartialEq, Eq, Clone, Copy)]
pub enum ParsePlaylistTypeError {
    /// The value was neither `EVENT` nor `VOD`.
    InvalidValue,
}

/// Failure to read a `decimal-resolution` (`<width>x<height>`).
#[derive(Debug, PartialEq, Eq, Clone, Copy)]
pub enum DecimalResolutionParseError {
    /// There was no `x` separating the width from the height.
    MissingHeight,
    /// The width was not a decimal integer.
    InvalidWidth(ParseNumberError),
    /// The height was not a decimal integer.
    InvalidHeight(ParseNumberError),
}

/// Failure to read a date and time value.
#[derive(Debug, PartialEq, Eq, Clone, Copy)]
pub enum DateTimeSyntaxError {
    /// The value does not follow `YYYY-MM-DDThh:mm:ss[.sss](Z|+hh:mm|-hh:mm)`.
    InvalidSyntax,
    /// A component of the value is out of its range (such as a month of 13).
    OutOfRange,
}

/// Failure to read the value of a tag.
#[derive(Debug, PartialEq, Eq, Clone, Copy)]
pub enum ParseTagValueError {
    /// The tag was expected to have a value but had none.
    UnexpectedEmpty,
    /// The tag was expected to have no value but had one.
    NotEmpty,
    /// The value was expected to be a decimal integer.
    DecimalInteger(ParseNumberError),
    /// The value was expected to be a decimal integer range.
    DecimalIntegerRange(ParseDecimalIntegerRangeError),
    /// The value was expected to be a playlist type.
    PlaylistType(ParsePlaylistTypeError),
    /// The value was expected to be a date and time.
    DateTime(DateTimeSyntaxError),
    /// The value was expected to be an attribute list.
    AttributeList(AttributeListSyntaxError),
    /// The value was expected to be a decimal floating point number (with an optional title).
    DecimalFloatingPoint(ParseFloatError),
}

/// Failure to read a decimal floating point number.
#[derive(Debug, PartialEq, Eq, Clone, Copy)]
pub struct ParseFloatError;

/// Failure to read an attribute list (`<AttributeName>=<AttributeValue>[,...]`).
#[derive(Debug, PartialEq, Eq, Clone, Copy)]
pub enum AttributeListSyntaxError {
    /// An attribute name was not followed by `=`.
    MissingEquals,
    /// Nothing followed the `=` of the last attribute.
    EmptyAttributeValue,
    /// A quoted string was not closed before the end of the value.
    UnterminatedQuotedString,
    /// A quoted string was followed by a carriage return that does not end the line.
    UnexpectedWhitespaceAfterQuotedString,
    /// A quoted string was followed by something other than `,` or the end of the value.
    UnexpectedCharacterAfterQuotedString(u8),
    /// An attribute name or quoted string was not valid UTF-8.
    InvalidUtf8,
}

/// Failure to read a tag line.
#[derive(Debug, PartialEq, Eq, Clone, Copy)]
pub enum UnknownTagSyntaxError {
    /// The line does not start with `#EXT`.
    InvalidTag,
    /// There is nothing after `#EXT`.
    UnexpectedNoTagName,
    /// The line could not be split at the expected position.
    InvalidUtf8,
}

/// The kind of a tag value, as told by the first line feed, `,` or `=` in it.
#[derive(Debug, PartialEq, Eq, Clone, Copy)]
pub enum ValidationErrorValueKind {
    /// There is no value.
    Empty,
    /// A `,` comes first: a decimal floating point number followed by a title.
    DecimalFloatingPointWithOptionalTitle,
    /// An `=` comes first: an attribute list.
    AttributeList,
    /// Neither `,` nor `=` comes before the end of the value or a line feed.
    Unparsed,
}

/// The reason a tag could not be given its strong type.
#[derive(Debug, PartialEq, Eq, Clone, Copy)]
pub enum ValidationError {
    /// The tag name is not one that the type describes.
    UnexpectedTagName,
    /// An attribute that the tag requires is absent (or of the wrong kind).
    MissingRequiredAttribute(&'static str),
    /// The tag value is of another kind than the tag requires; the kind it is of is given.
    UnexpectedValueType(ValidationErrorValueKind),
    /// The tag value could not be read as the kind of value the tag requires.
    ErrorExtractingTagValue(ParseTagValueError),
    /// An enumerated string was not one of the defined values.
    InvalidEnumeratedString,
    /// The conversion is not implemented for this type.
    NotImplemented,
}

/// A value that is not one of the cases of an enumerated string.
#[derive(Debug, PartialEq, Eq, Clone, Copy)]
pub struct UnrecognizedEnumerationError<'a> {
    /// The unrecognized value.
    pub value: &'a str,
}

impl<'a> UnrecognizedEnumerationError<'a> {
    /// Records `value` as unrecognized.
    pub fn new(value: &'a str) -> (r: Self)
        ensures
            r.value == value,
    {
        Self { value }
    }
}

} // verus!
