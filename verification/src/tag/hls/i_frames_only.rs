//! The `#EXT-X-I-FRAMES-ONLY` tag.

use vstd::prelude::*;

use crate::error::{ParseTagValueError, ValidationError};
use crate::tag::hls::{line_start, start_line, TagName};
use crate::tag::known::{IntoInnerTag, TagInner};
use crate::tag::unknown;

verus! {

/// Corresponds to the `#EXT-X-I-FRAMES-ONLY` tag.
///
/// <https://datatracker.ietf.org/doc/html/draft-pantos-hls-rfc8216bis-17#section-4.4.3.6>
#[derive(Debug, PartialEq, Eq, Structural, Clone, Copy)]
pub struct IFramesOnly;

impl IFramesOnly {
    /// Reads the tag from a parsed tag line, which must have no value.
    pub fn try_from(tag: unknown::Tag) -> (r: Result<IFramesOnly, ValidationError>)
        ensures
            r == (if tag.value is Some {
                Err::<IFramesOnly, ValidationError>(
                    ValidationError::ErrorExtractingTagValue(ParseTagValueError::NotEmpty),
                )
            } else {
                Ok::<IFramesOnly, ValidationError>(IFramesOnly)
            }),
    {
        if tag.value.is_some() {
            return Err(ValidationError::ErrorExtractingTagValue(ParseTagValueError::NotEmpty));
        }
        Ok(IFramesOnly)
    }
}

impl IntoInnerTag for IFramesOnly {
    fn into_inner(self) -> (r: TagInner)
        ensures
            r.view() == line_start(TagName::IFramesOnly),
    {
        TagInner::from_line(start_line(TagName::IFramesOnly))
    }
}

} // verus!
