//! The `#EXT-X-PROGRAM-DATE-TIME` tag.

use vstd::prelude::*;

use vstd::utf8::*;

use crate::date::{
    date_time_spec, date_time_text, in_range, lemma_date_time_round_trip,
    lemma_date_time_text_free_of_value_marks, push_date_time, DateTime,
};
use crate::error::{
    ValidationErrorValueKind, ParseTagValueError, UnknownTagSyntaxError, ValidationError};
use crate::tag::hls::{
    tag_value_kind,
    lemma_line_after_ext, lemma_tag_name_plain, line_start, start_line, tag_name_text,
    value_bytes, TagName,
};
use crate::tag::known::TagInner;
use crate::tag::unknown;

use crate::tag::value::{is_kind_mark, lemma_value_kind_unmarked, value_kind_of_text, value_kind_spec};

verus! {

/// The line of the tag for a date and time: `#EXT-X-PROGRAM-DATE-TIME:` and the date and time.
pub open spec fn program_date_time_line(d: DateTime) -> Seq<u8> {
    line_start(TagName::ProgramDateTime) + seq![58u8] + date_time_text(d)
}

/// The result of reading the value of a tag as a date and time.
pub open spec fn date_time_value_spec(value: Option<Seq<u8>>) -> Result<DateTime, ValidationError> {
    match value {
        Some(b) if value_kind_of_text(b) == ValidationErrorValueKind::Unparsed => match date_time_spec(b) {
            Ok(d) => Ok(d),
            Err(e) => Err(ValidationError::ErrorExtractingTagValue(ParseTagValueError::DateTime(e))),
        },
        _ => Err(ValidationError::UnexpectedValueType(value_kind_spec(value))),
    }
}

/// Writes the line of the tag for a date and time.
fn calculate_line(d: &DateTime) -> (r: Vec<u8>)
    ensures
        r@ == program_date_time_line(*d),
{
    let mut line = start_line(TagName::ProgramDateTime);
    line.push(58u8);
    push_date_time(&mut line, d);
    line
}

/// Corresponds to the `#EXT-X-PROGRAM-DATE-TIME` tag.
///
/// <https://datatracker.ietf.org/doc/html/draft-pantos-hls-rfc8216bis-17#section-4.4.4.6>
#[derive(Debug, Clone)]
pub struct ProgramDateTime {
    program_date_time: DateTime,
    output_line: Vec<u8>,
    output_line_is_dirty: bool,
}

impl ProgramDateTime {
    /// The date and time that the tag carries.
    pub closed spec fn view(&self) -> DateTime {
        self.program_date_time
    }

    /// The line that the tag writes: the parsed line until the tag is changed, then the line
    /// calculated from its value.
    pub closed spec fn output(&self) -> Seq<u8> {
        if self.output_line_is_dirty {
            program_date_time_line(self.program_date_time)
        } else {
            self.output_line@
        }
    }

    /// Reads the tag from a parsed tag line, whose value must be a date and time.
    pub fn try_from(tag: unknown::Tag) -> (r: Result<ProgramDateTime, ValidationError>)
        ensures
            match date_time_value_spec(value_bytes(tag)) {
                Ok(d) => r matches Ok(t) && t.view() == d && t.output() == tag.original_input@,
                Err(e) => r == Err::<ProgramDateTime, ValidationError>(e),
            },
    {
        let kind = tag_value_kind(&tag);
        if !matches!(kind, ValidationErrorValueKind::Unparsed) {
            return Err(ValidationError::UnexpectedValueType(kind));
        }
        let program_date_time = match tag.value {
            None => {
                return Err(
                    ValidationError::ErrorExtractingTagValue(ParseTagValueError::UnexpectedEmpty),
                )
            },
            Some(v) => match v.try_as_date_time() {
                Ok(d) => d,
                Err(e) => {
                    return Err(
                        ValidationError::ErrorExtractingTagValue(ParseTagValueError::DateTime(e)),
                    )
                },
            },
        };
        let mut output_line: Vec<u8> = Vec::new();
        crate::utils::push_bytes(&mut output_line, tag.original_input);
        Ok(ProgramDateTime { program_date_time, output_line, output_line_is_dirty: false })
    }

    /// Constructs a new tag.
    pub fn new(program_date_time: DateTime) -> (r: ProgramDateTime)
        ensures
            r.view() == program_date_time,
            r.output() == program_date_time_line(program_date_time),
    {
        ProgramDateTime {
            program_date_time,
            output_line: calculate_line(&program_date_time),
            output_line_is_dirty: false,
        }
    }

    /// The date and time.
    pub fn program_date_time(&self) -> (r: DateTime)
        ensures
            r == self.view(),
    {
        self.program_date_time
    }

    /// Sets the date and time.
    pub fn set_program_date_time(&mut self, program_date_time: DateTime)
        ensures
            final(self).view() == program_date_time,
            final(self).output() == program_date_time_line(program_date_time),
    {
        self.program_date_time = program_date_time;
        self.output_line_is_dirty = true;
    }

    /// Consumes the tag and provides the line it writes.
    pub fn into_inner(self) -> (r: TagInner)
        ensures
            r.view() == self.output(),
    {
        if self.output_line_is_dirty {
            TagInner::from_line(calculate_line(&self.program_date_time))
        } else {
            TagInner::from_line(self.output_line)
        }
    }
}

impl PartialEq for ProgramDateTime {
    fn eq(&self, other: &Self) -> (r: bool) {
        self.program_date_time == other.program_date_time
    }
}

impl vstd::std_specs::cmp::PartialEqSpecImpl for ProgramDateTime {
    open spec fn obeys_eq_spec() -> bool {
        true
    }

    open spec fn eq_spec(&self, other: &Self) -> bool {
        self.view() == other.view()
    }
}

/// Writing and then reading a program date and time gives it back: the line of a date and time
/// whose components are in range reads as the tag's name with the text of the date and time as
/// its value, and that value reads as the date and time.
pub proof fn lemma_program_date_time_reads_back(d: DateTime)
    requires
        in_range(d),
    ensures
        unknown::starts_with_ext(program_date_time_line(d)),
        unknown::tag_after_ext_spec(
            program_date_time_line(d).subrange(4, program_date_time_line(d).len() as int),
        ) == Ok::<(Seq<u8>, Option<Seq<u8>>, Option<Seq<u8>>), UnknownTagSyntaxError>(
            (encode_utf8(tag_name_text(TagName::ProgramDateTime)), Some(date_time_text(d)), None),
        ),
        date_time_value_spec(Some(date_time_text(d))) == Ok::<DateTime, ValidationError>(d),
{
    let rest = seq![58u8] + date_time_text(d);
    lemma_line_after_ext(TagName::ProgramDateTime, rest);
    assert(program_date_time_line(d) =~= line_start(TagName::ProgramDateTime) + rest);
    assert(encode_utf8(tag_name_text(TagName::ProgramDateTime)) + rest =~= encode_utf8(
        tag_name_text(TagName::ProgramDateTime),
    ) + seq![58u8] + date_time_text(d));
    lemma_tag_name_plain(TagName::ProgramDateTime);
    lemma_date_time_text_free_of_value_marks(d);
    unknown::lemma_read_written_tag(
        encode_utf8(tag_name_text(TagName::ProgramDateTime)),
        date_time_text(d),
    );
    lemma_date_time_round_trip(d);
    assert forall|j: int| 0 <= j < date_time_text(d).len() implies !is_kind_mark(
        #[trigger] date_time_text(d)[j],
    ) by {}
    lemma_value_kind_unmarked(date_time_text(d));
}

} // verus!
