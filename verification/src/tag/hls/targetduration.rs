//! The `#EXT-X-TARGETDURATION` tag.

use vstd::prelude::*;

use crate::error::ValidationError;
use crate::tag::hls::{
    integer_line, integer_tag_line, integer_value, integer_value_spec, value_bytes, TagName,
};
use crate::tag::known::{IntoInnerTag, TagInner};
use crate::tag::unknown;

verus! {

/// Corresponds to the `#EXT-X-TARGETDURATION` tag.
///
/// <https://datatracker.ietf.org/doc/html/draft-pantos-hls-rfc8216bis-17#section-4.4.3.1>
#[derive(Debug, Clone)]
pub struct Targetduration {
    target_duration: u64,
    output_line: Vec<u8>,
    output_line_is_dirty: bool,
}

impl Targetduration {
    /// The maximum media segment duration in seconds that the tag carries.
    pub closed spec fn view(&self) -> u64 {
        self.target_duration
    }

    /// The line that the tag writes: the parsed line until the tag is changed, then the line
    /// calculated from its value.
    pub closed spec fn output(&self) -> Seq<u8> {
        if self.output_line_is_dirty {
            integer_line(TagName::Targetduration, self.target_duration)
        } else {
            self.output_line@
        }
    }

    /// Reads the tag from a parsed tag line, whose value must be a decimal integer.
    pub fn try_from(tag: unknown::Tag) -> (r: Result<Targetduration, ValidationError>)
        ensures
            match integer_value_spec(value_bytes(tag)) {
                Ok(n) => r matches Ok(t) && t.view() == n && t.output() == tag.original_input@,
                Err(e) => r == Err::<Targetduration, ValidationError>(e),
            },
    {
        let target_duration = integer_value(&tag)?;
        let mut output_line: Vec<u8> = Vec::new();
        crate::utils::push_bytes(&mut output_line, tag.original_input);
        Ok(Targetduration { target_duration, output_line, output_line_is_dirty: false })
    }

    /// Constructs a new tag.
    pub fn new(target_duration: u64) -> (r: Targetduration)
        ensures
            r.view() == target_duration,
            r.output() == integer_line(TagName::Targetduration, target_duration),
    {
        Targetduration { target_duration, output_line: integer_tag_line(TagName::Targetduration, target_duration), output_line_is_dirty: false }
    }

    /// The maximum media segment duration in seconds.
    pub fn target_duration(&self) -> (r: u64)
        ensures
            r == self.view(),
    {
        self.target_duration
    }

    /// Sets the maximum media segment duration in seconds.
    pub fn set_target_duration(&mut self, target_duration: u64)
        ensures
            final(self).view() == target_duration,
            final(self).output() == integer_line(TagName::Targetduration, target_duration),
    {
        self.target_duration = target_duration;
        self.output_line_is_dirty = true;
    }
}

impl IntoInnerTag for Targetduration {
    fn into_inner(self) -> (r: TagInner)
        ensures
            r.view() == self.output(),
    {
        if self.output_line_is_dirty {
            TagInner::from_line(integer_tag_line(TagName::Targetduration, self.target_duration))
        } else {
            TagInner::from_line(self.output_line)
        }
    }
}

impl PartialEq for Targetduration {
    fn eq(&self, other: &Self) -> (r: bool) {
        self.target_duration == other.target_duration
    }
}

impl vstd::std_specs::cmp::PartialEqSpecImpl for Targetduration {
    open spec fn obeys_eq_spec() -> bool {
        true
    }

    open spec fn eq_spec(&self, other: &Self) -> bool {
        self.view() == other.view()
    }
}

} // verus!
