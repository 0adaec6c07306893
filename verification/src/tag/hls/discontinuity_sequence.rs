//! The `#EXT-X-DISCONTINUITY-SEQUENCE` tag.

use vstd::prelude::*;

use crate::error::ValidationError;
use crate::tag::hls::{
    integer_line, integer_tag_line, integer_value, integer_value_spec, value_bytes, TagName,
};
use crate::tag::known::{IntoInnerTag, TagInner};
use crate::tag::unknown;

verus! {

/// Corresponds to the `#EXT-X-DISCONTINUITY-SEQUENCE` tag.
///
/// <https://datatracker.ietf.org/doc/html/draft-pantos-hls-rfc8216bis-17#section-4.4.3.3>
#[derive(Debug, Clone)]
pub struct DiscontinuitySequence {
    discontinuity_sequence: u64,
    output_line: Vec<u8>,
    output_line_is_dirty: bool,
}

impl DiscontinuitySequence {
    /// The discontinuity sequence number of the first media segment that the tag carries.
    pub closed spec fn view(&self) -> u64 {
        self.discontinuity_sequence
    }

    /// The line that the tag writes: the parsed line until the tag is changed, then the line
    /// calculated from its value.
    pub closed spec fn output(&self) -> Seq<u8> {
        if self.output_line_is_dirty {
            integer_line(TagName::DiscontinuitySequence, self.discontinuity_sequence)
        } else {
            self.output_line@
        }
    }

    /// Reads the tag from a parsed tag line, whose value must be a decimal integer.
    pub fn try_from(tag: unknown::Tag) -> (r: Result<DiscontinuitySequence, ValidationError>)
        ensures
            match integer_value_spec(value_bytes(tag)) {
                Ok(n) => r matches Ok(t) && t.view() == n && t.output() == tag.original_input@,
                Err(e) => r == Err::<DiscontinuitySequence, ValidationError>(e),
            },
    {
        let discontinuity_sequence = integer_value(&tag)?;
        let mut output_line: Vec<u8> = Vec::new();
        crate::utils::push_bytes(&mut output_line, tag.original_input);
        Ok(DiscontinuitySequence { discontinuity_sequence, output_line, output_line_is_dirty: false })
    }

    /// Constructs a new tag.
    pub fn new(discontinuity_sequence: u64) -> (r: DiscontinuitySequence)
        ensures
            r.view() == discontinuity_sequence,
            r.output() == integer_line(TagName::DiscontinuitySequence, discontinuity_sequence),
    {
        DiscontinuitySequence { discontinuity_sequence, output_line: integer_tag_line(TagName::DiscontinuitySequence, discontinuity_sequence), output_line_is_dirty: false }
    }

    /// The discontinuity sequence number of the first media segment.
    pub fn discontinuity_sequence(&self) -> (r: u64)
        ensures
            r == self.view(),
    {
        self.discontinuity_sequence
    }

    /// Sets the discontinuity sequence number of the first media segment.
    pub fn set_discontinuity_sequence(&mut self, discontinuity_sequence: u64)
        ensures
            final(self).view() == discontinuity_sequence,
            final(self).output() == integer_line(TagName::DiscontinuitySequence, discontinuity_sequence),
    {
        self.discontinuity_sequence = discontinuity_sequence;
        self.output_line_is_dirty = true;
    }
}

impl IntoInnerTag for DiscontinuitySequence {
    fn into_inner(self) -> (r: TagInner)
        ensures
            r.view() == self.output(),
    {
        if self.output_line_is_dirty {
            TagInner::from_line(integer_tag_line(TagName::DiscontinuitySequence, self.discontinuity_sequence))
        } else {
            TagInner::from_line(self.output_line)
        }
    }
}

impl PartialEq for DiscontinuitySequence {
    fn eq(&self, other: &Self) -> (r: bool) {
        self.discontinuity_sequence == other.discontinuity_sequence
    }
}

impl vstd::std_specs::cmp::PartialEqSpecImpl for DiscontinuitySequence {
    open spec fn obeys_eq_spec() -> bool {
        true
    }

    open spec fn eq_spec(&self, other: &Self) -> bool {
        self.view() == other.view()
    }
}

} // verus!
