//! The `#EXT-X-BITRATE` tag.

use vstd::prelude::*;

use crate::error::ValidationError;
use crate::tag::hls::{
    integer_line, integer_tag_line, integer_value, integer_value_spec, value_bytes, TagName,
};
use crate::tag::known::{IntoInnerTag, TagInner};
use crate::tag::unknown;

verus! {

/// Corresponds to the `#EXT-X-BITRATE` tag.
///
/// <https://datatracker.ietf.org/doc/html/draft-pantos-hls-rfc8216bis-17#section-4.4.4.8>
#[derive(Debug, Clone)]
pub struct Bitrate {
    bitrate: u64,
    output_line: Vec<u8>,
    output_line_is_dirty: bool,
}

impl Bitrate {
    /// The approximate segment bit rate in kilobits per second that the tag carries.
    pub closed spec fn view(&self) -> u64 {
        self.bitrate
    }

    /// The line that the tag writes: the parsed line until the tag is changed, then the line
    /// calculated from its value.
    pub closed spec fn output(&self) -> Seq<u8> {
        if self.output_line_is_dirty {
            integer_line(TagName::Bitrate, self.bitrate)
        } else {
            self.output_line@
        }
    }

    /// Reads the tag from a parsed tag line, whose value must be a decimal integer.
    pub fn try_from(tag: unknown::Tag) -> (r: Result<Bitrate, ValidationError>)
        ensures
            match integer_value_spec(value_bytes(tag)) {
                Ok(n) => r matches Ok(t) && t.view() == n && t.output() == tag.original_input@,
                Err(e) => r == Err::<Bitrate, ValidationError>(e),
            },
    {
        let bitrate = integer_value(&tag)?;
        let mut output_line: Vec<u8> = Vec::new();
        crate::utils::push_bytes(&mut output_line, tag.original_input);
        Ok(Bitrate { bitrate, output_line, output_line_is_dirty: false })
    }

    /// Constructs a new tag.
    pub fn new(bitrate: u64) -> (r: Bitrate)
        ensures
            r.view() == bitrate,
            r.output() == integer_line(TagName::Bitrate, bitrate),
    {
        Bitrate { bitrate, output_line: integer_tag_line(TagName::Bitrate, bitrate), output_line_is_dirty: false }
    }

    /// The approximate segment bit rate in kilobits per second.
    pub fn bitrate(&self) -> (r: u64)
        ensures
            r == self.view(),
    {
        self.bitrate
    }

    /// Sets the approximate segment bit rate in kilobits per second.
    pub fn set_bitrate(&mut self, bitrate: u64)
        ensures
            final(self).view() == bitrate,
            final(self).output() == integer_line(TagName::Bitrate, bitrate),
    {
        self.bitrate = bitrate;
        self.output_line_is_dirty = true;
    }
}

impl IntoInnerTag for Bitrate {
    fn into_inner(self) -> (r: TagInner)
        ensures
            r.view() == self.output(),
    {
        if self.output_line_is_dirty {
            TagInner::from_line(integer_tag_line(TagName::Bitrate, self.bitrate))
        } else {
            TagInner::from_line(self.output_line)
        }
    }
}

impl PartialEq for Bitrate {
    fn eq(&self, other: &Self) -> (r: bool) {
        self.bitrate == other.bitrate
    }
}

impl vstd::std_specs::cmp::PartialEqSpecImpl for Bitrate {
    open spec fn obeys_eq_spec() -> bool {
        true
    }

    open spec fn eq_spec(&self, other: &Self) -> bool {
        self.view() == other.view()
    }
}

} // verus!
