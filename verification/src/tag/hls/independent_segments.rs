//! The `#EXT-X-INDEPENDENT-SEGMENTS` tag.

use vstd::prelude::*;

use crate::error::ValidationError;
use crate::tag::hls::{line_start, start_line, TagName};
use crate::tag::known::{IntoInnerTag, TagInner};
use crate::tag::unknown;

verus! {

/// Corresponds to the `#EXT-X-INDEPENDENT-SEGMENTS` tag.
///
/// <https://datatracker.ietf.org/doc/html/draft-pantos-hls-rfc8216bis-17#section-4.4.2.1>
#[derive(Debug, PartialEq, Eq, Structural, Clone, Copy)]
pub struct IndependentSegments;

impl IndependentSegments {
    /// Reads the tag from a parsed tag line; any value that the line carries is ignored.
    pub fn try_from(tag: unknown::Tag) -> (r: Result<IndependentSegments, ValidationError>)
        ensures
            r == Ok::<IndependentSegments, ValidationError>(IndependentSegments),
    {
        Ok(IndependentSegments)
    }
}

impl IntoInnerTag for IndependentSegments {
    fn into_inner(self) -> (r: TagInner)
        ensures
            r.view() == line_start(TagName::IndependentSegments),
    {
        TagInner::from_line(start_line(TagName::IndependentSegments))
    }
}

} // verus!
