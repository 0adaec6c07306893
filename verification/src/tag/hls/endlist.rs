//! The `#EXT-X-ENDLIST` tag.

use vstd::prelude::*;

use crate::error::ValidationError;
use crate::tag::hls::{line_start, start_line, TagName};
use crate::tag::known::{IntoInnerTag, TagInner};
use crate::tag::unknown;

verus! {

/// Corresponds to the `#EXT-X-ENDLIST` tag.
///
/// <https://datatracker.ietf.org/doc/html/draft-pantos-hls-rfc8216bis-17#section-4.4.3.4>
#[derive(Debug, PartialEq, Eq, Structural, Clone, Copy)]
pub struct Endlist;

impl Endlist {
    /// Reads the tag from a parsed tag line; any value that the line carries is ignored.
    pub fn try_from(tag: unknown::Tag) -> (r: Result<Endlist, ValidationError>)
        ensures
            r == Ok::<Endlist, ValidationError>(Endlist),
    {
        Ok(Endlist)
    }
}

impl IntoInnerTag for Endlist {
    fn into_inner(self) -> (r: TagInner)
        ensures
            r.view() == line_start(TagName::Endlist),
    {
        TagInner::from_line(start_line(TagName::Endlist))
    }
}

} // verus!
