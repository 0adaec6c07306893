//! The `#EXTM3U` tag.

use vstd::prelude::*;

use crate::error::{ParseTagValueError, ValidationError};
use crate::tag::hls::{line_start, start_line, TagName};
use crate::tag::known::{IntoInnerTag, TagInner};
use crate::tag::unknown;

verus! {

/// Corresponds to the `#EXTM3U` tag.
///
/// <https://datatracker.ietf.org/doc/html/draft-pantos-hls-rfc8216bis-17#section-4.4.1.1>
#[derive(Debug, PartialEq, Eq, Structural, Clone, Copy)]
pub struct M3u;

impl M3u {
    /// Reads the tag from a parsed tag line, which must have no value.
    pub fn try_from(tag: unknown::Tag) -> (r: Result<M3u, ValidationError>)
        ensures
            r == (if tag.value is Some {
                Err::<M3u, ValidationError>(
                    ValidationError::ErrorExtractingTagValue(ParseTagValueError::NotEmpty),
                )
            } else {
                Ok::<M3u, ValidationError>(M3u)
            }),
    {
        if tag.value.is_some() {
            return Err(ValidationError::ErrorExtractingTagValue(ParseTagValueError::NotEmpty));
        }
        Ok(M3u)
    }
}

impl IntoInnerTag for M3u {
    fn into_inner(self) -> (r: TagInner)
        ensures
            r.view() == line_start(TagName::M3u),
    {
        TagInner::from_line(start_line(TagName::M3u))
    }
}

} // verus!
