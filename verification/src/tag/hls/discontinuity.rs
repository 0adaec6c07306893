//! The `#EXT-X-DISCONTINUITY` tag.

use vstd::prelude::*;

use crate::error::ValidationError;
use crate::tag::hls::{line_start, start_line, TagName};
use crate::tag::known::TagInner;
use crate::tag::unknown;

verus! {

/// Corresponds to the `#EXT-X-DISCONTINUITY` tag.
///
/// <https://datatracker.ietf.org/doc/html/draft-pantos-hls-rfc8216bis-17#section-4.4.4.3>
#[derive(Debug, PartialEq, Eq, Structural, Clone, Copy)]
pub struct Discontinuity;

impl Discontinuity {
    /// Reads the tag from a parsed tag line; any value that the line carries is ignored.
    pub fn try_from(tag: unknown::Tag) -> (r: Result<Discontinuity, ValidationError>)
        ensures
            r == Ok::<Discontinuity, ValidationError>(Discontinuity),
    {
        Ok(Discontinuity)
    }

    /// Consumes the tag and provides the line it writes.
    pub fn into_inner(self) -> (r: TagInner)
        ensures
            r.view() == line_start(TagName::Discontinuity),
    {
        TagInner::from_line(start_line(TagName::Discontinuity))
    }
}


} // verus!
