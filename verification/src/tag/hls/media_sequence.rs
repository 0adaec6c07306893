//! The `#EXT-X-MEDIA-SEQUENCE` tag.

use vstd::prelude::*;

use crate::error::ValidationError;
use crate::tag::hls::{
    integer_line, integer_tag_line, integer_value, integer_value_spec, value_bytes, TagName,
};
use crate::tag::known::TagInner;
use crate::tag::unknown;

verus! {

/// Corresponds to the `#EXT-X-MEDIA-SEQUENCE` tag.
///
/// <https://datatracker.ietf.org/doc/html/draft-pantos-hls-rfc8216bis-17#section-4.4.3.2>
#[derive(Debug, Clone)]
pub struct MediaSequence {
    media_sequence: u64,
    output_line: Vec<u8>,
    output_line_is_dirty: bool,
}

impl MediaSequence {
    /// The media sequence number of the first media segment that the tag carries.
    pub closed spec fn view(&self) -> u64 {
        self.media_sequence
    }

    /// The line that the tag writes: the parsed line until the tag is changed, then the line
    /// calculated from its value.
    pub closed spec fn output(&self) -> Seq<u8> {
        if self.output_line_is_dirty {
            integer_line(TagName::MediaSequence, self.media_sequence)
        } else {
            self.output_line@
        }
    }

    /// Reads the tag from a parsed tag line, whose value must be a decimal integer.
    pub fn try_from(tag: unknown::Tag) -> (r: Result<MediaSequence, ValidationError>)
        ensures
            match integer_value_spec(value_bytes(tag)) {
                Ok(n) => r matches Ok(t) && t.view() == n && t.output() == tag.original_input@,
                Err(e) => r == Err::<MediaSequence, ValidationError>(e),
            },
    {
        let media_sequence = integer_value(&tag)?;
        let mut output_line: Vec<u8> = Vec::new();
        crate::utils::push_bytes(&mut output_line, tag.original_input);
        Ok(MediaSequence { media_sequence, output_line, output_line_is_dirty: false })
    }

    /// Constructs a new tag.
    pub fn new(media_sequence: u64) -> (r: MediaSequence)
        ensures
            r.view() == media_sequence,
            r.output() == integer_line(TagName::MediaSequence, media_sequence),
    {
        MediaSequence { media_sequence, output_line: integer_tag_line(TagName::MediaSequence, media_sequence), output_line_is_dirty: false }
    }

    /// The media sequence number of the first media segment.
    pub fn media_sequence(&self) -> (r: u64)
        ensures
            r == self.view(),
    {
        self.media_sequence
    }

    /// Sets the media sequence number of the first media segment.
    pub fn set_media_sequence(&mut self, media_sequence: u64)
        ensures
            final(self).view() == media_sequence,
            final(self).output() == integer_line(TagName::MediaSequence, media_sequence),
    {
        self.media_sequence = media_sequence;
        self.output_line_is_dirty = true;
    }

    /// Consumes the tag and provides the line it writes.
    pub fn into_inner(self) -> (r: TagInner)
        ensures
            r.view() == self.output(),
    {
        if self.output_line_is_dirty {
            TagInner::from_line(integer_tag_line(TagName::MediaSequence, self.media_sequence))
        } else {
            TagInner::from_line(self.output_line)
        }
    }
}


impl PartialEq for MediaSequence {
    fn eq(&self, other: &Self) -> (r: bool) {
        self.media_sequence == other.media_sequence
    }
}

impl vstd::std_specs::cmp::PartialEqSpecImpl for MediaSequence {
    open spec fn obeys_eq_spec() -> bool {
        true
    }

    open spec fn eq_spec(&self, other: &Self) -> bool {
        self.view() == other.view()
    }
}

} // verus!
