//! The `#EXT-X-GAP` tag.

use vstd::prelude::*;

use crate::error::{ParseTagValueError, ValidationError};
use crate::tag::hls::{line_start, start_line, TagName};
use crate::tag::known::{IntoInnerTag, TagInner};
use crate::tag::unknown;

verus! {

/// Corresponds to the `#EXT-X-GAP` tag.
///
/// <https://datatracker.ietf.org/doc/html/draft-pantos-hls-rfc8216bis-17#section-4.4.4.7>
#[derive(Debug, PartialEq, Eq, Structural, Clone, Copy)]
pub struct Gap;

impl Gap {
    /// Reads the tag from a parsed tag line, which must have no value.
    pub fn try_from(tag: unknown::Tag) -> (r: Result<Gap, ValidationError>)
        ensures
            r == (if tag.value is Some {
                Err::<Gap, ValidationError>(
                    ValidationError::ErrorExtractingTagValue(ParseTagValueError::NotEmpty),
                )
            } else {
                Ok::<Gap, ValidationError>(Gap)
            }),
    {
        if tag.value.is_some() {
            return Err(ValidationError::ErrorExtractingTagValue(ParseTagValueError::NotEmpty));
        }
        Ok(Gap)
    }
}

impl IntoInnerTag for Gap {
    fn into_inner(self) -> (r: TagInner)
        ensures
            r.view() == line_start(TagName::Gap),
    {
        TagInner::from_line(start_line(TagName::Gap))
    }
}

} // verus!
