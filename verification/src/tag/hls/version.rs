//! The `#EXT-X-VERSION` tag.

use vstd::prelude::*;

use crate::error::ValidationError;
use crate::tag::hls::{
    integer_line, integer_tag_line, integer_value, integer_value_spec, value_bytes, TagName,
};
use crate::tag::known::TagInner;
use crate::tag::unknown;

verus! {

/// Corresponds to the `#EXT-X-VERSION` tag.
///
/// <https://datatracker.ietf.org/doc/html/draft-pantos-hls-rfc8216bis-17#section-4.4.1.2>
#[derive(Debug, Clone)]
pub struct Version {
    version: u64,
    output_line: Vec<u8>,
    output_line_is_dirty: bool,
}

impl Version {
    /// The version number that the tag carries.
    pub closed spec fn view(&self) -> u64 {
        self.version
    }

    /// The line that the tag writes: the parsed line until the tag is changed, then the line
    /// calculated from its value.
    pub closed spec fn output(&self) -> Seq<u8> {
        if self.output_line_is_dirty {
            integer_line(TagName::Version, self.version)
        } else {
            self.output_line@
        }
    }

    /// Reads the tag from a parsed tag line, whose value must be a decimal integer.
    pub fn try_from(tag: unknown::Tag) -> (r: Result<Version, ValidationError>)
        ensures
            match integer_value_spec(value_bytes(tag)) {
                Ok(n) => r matches Ok(t) && t.view() == n && t.output() == tag.original_input@,
                Err(e) => r == Err::<Version, ValidationError>(e),
            },
    {
        let version = integer_value(&tag)?;
        let mut output_line: Vec<u8> = Vec::new();
        crate::utils::push_bytes(&mut output_line, tag.original_input);
        Ok(Version { version, output_line, output_line_is_dirty: false })
    }

    /// Constructs a new tag.
    pub fn new(version: u64) -> (r: Version)
        ensures
            r.view() == version,
            r.output() == integer_line(TagName::Version, version),
    {
        Version { version, output_line: integer_tag_line(TagName::Version, version), output_line_is_dirty: false }
    }

    /// The version number.
    pub fn version(&self) -> (r: u64)
        ensures
            r == self.view(),
    {
        self.version
    }

    /// Sets the version number.
    pub fn set_version(&mut self, version: u64)
        ensures
            final(self).view() == version,
            final(self).output() == integer_line(TagName::Version, version),
    {
        self.version = version;
        self.output_line_is_dirty = true;
    }

    /// Consumes the tag and provides the line it writes.
    pub fn into_inner(self) -> (r: TagInner)
        ensures
            r.view() == self.output(),
    {
        if self.output_line_is_dirty {
            TagInner::from_line(integer_tag_line(TagName::Version, self.version))
        } else {
            TagInner::from_line(self.output_line)
        }
    }
}


impl PartialEq for Version {
    fn eq(&self, other: &Self) -> (r: bool) {
        self.version == other.version
    }
}

impl vstd::std_specs::cmp::PartialEqSpecImpl for Version {
    open spec fn obeys_eq_spec() -> bool {
        true
    }

    open spec fn eq_spec(&self, other: &Self) -> bool {
        self.view() == other.view()
    }
}

} // verus!
