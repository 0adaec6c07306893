//! The `#EXTINF` tag: reading its value as a duration and a title, and writing its line, with the
//! duration, a decimal floating point number, held as its text.

use vstd::prelude::*;
use vstd::string::StringSliceAdditionalSpecFns;
use vstd::utf8::*;

use crate::error::{ParseFloatError, ParseTagValueError, UnknownTagSyntaxError, ValidationError};
use crate::tag::hls::{
    lemma_line_after_ext, lemma_tag_name_plain, line_start, start_line, tag_name_text, value_bytes,
    TagName,
};
use crate::tag::unknown;
use crate::utils::{first_index, lemma_first_index_is, push_bytes, push_str, string_from};

verus! {

/// What the value of an `#EXTINF` tag reads as: the bytes of the duration (everything before the
/// first comma) and the title (everything after it, or nothing without a comma). There must be a
/// value, and its title must be valid UTF-8.
pub open spec fn inf_value_spec(value: Option<Seq<u8>>) -> Result<
    (Seq<u8>, Seq<char>),
    ValidationError,
> {
    match value {
        None => Err(ValidationError::ErrorExtractingTagValue(ParseTagValueError::UnexpectedEmpty)),
        Some(v) => match first_index(v, 44u8) {
            None => Ok((v, Seq::empty())),
            Some(n) => {
                let title = v.subrange(n + 1, v.len() as int);
                if valid_utf8(title) {
                    Ok((v.subrange(0, n), decode_utf8(title)))
                } else {
                    Err(
                        ValidationError::ErrorExtractingTagValue(
                            ParseTagValueError::DecimalFloatingPoint(ParseFloatError),
                        ),
                    )
                }
            },
        },
    }
}

/// Reads the value of an `#EXTINF` tag as the bytes of its duration and its title. A title that
/// is not valid UTF-8 is refused with the error of a duration that is not a number.
pub fn duration_and_title<'a>(tag: &unknown::Tag<'a>) -> (r: Result<
    (&'a [u8], &'a str),
    ValidationError,
>)
    ensures
        match inf_value_spec(value_bytes(*tag)) {
            Ok((d, t)) => r matches Ok((rd, rt)) && rd@ == d && rt@ == t,
            Err(e) => r == Err::<(&'a [u8], &'a str), ValidationError>(e),
        },
{
    let value = match tag.value {
        Some(v) => v,
        None => {
            return Err(ValidationError::ErrorExtractingTagValue(ParseTagValueError::UnexpectedEmpty))
        },
    };
    match value.try_as_duration_and_title() {
        Ok((d, t)) => {
            proof {
                encode_utf8_decode_utf8(t@);
            }
            Ok((d, t))
        },
        Err(_) => Err(
            ValidationError::ErrorExtractingTagValue(
                ParseTagValueError::DecimalFloatingPoint(ParseFloatError),
            ),
        ),
    }
}

/// The value of an `#EXTINF` tag: the bytes of its duration, a decimal floating point number held
/// as the text that writes it, and its title.
#[derive(Debug, Clone, PartialEq)]
pub struct InfLine {
    /// The text of the duration.
    pub duration: Vec<u8>,
    /// The title.
    pub title: String,
}

/// The line of an `#EXTINF` tag with the duration bytes `duration` and the title `title`: the
/// title follows a comma when it is not empty.
pub open spec fn inf_bytes_line(duration: Seq<u8>, title: Seq<char>) -> Seq<u8> {
    line_start(TagName::Inf) + seq![58u8] + duration + if title.len() == 0 {
        Seq::empty()
    } else {
        seq![44u8] + encode_utf8(title)
    }
}

impl InfLine {
    /// The duration bytes and the title.
    pub open spec fn view(&self) -> (Seq<u8>, Seq<char>) {
        (self.duration@, self.title@)
    }

    /// Reads the value of an `#EXTINF` tag as its duration bytes and its title, as
    /// [`duration_and_title`] does.
    pub fn try_from(tag: &unknown::Tag) -> (r: Result<InfLine, ValidationError>)
        ensures
            match inf_value_spec(value_bytes(*tag)) {
                Ok(a) => r matches Ok(l) && l.view() == a,
                Err(e) => r == Err::<InfLine, ValidationError>(e),
            },
    {
        let (d, t) = duration_and_title(tag)?;
        let mut duration: Vec<u8> = Vec::new();
        push_bytes(&mut duration, d);
        proof {
            assert(duration@ =~= d@);
        }
        Ok(InfLine { duration, title: string_from(t) })
    }

    /// The line of an `#EXTINF` tag with this duration and title.
    pub fn to_line(&self) -> (r: Vec<u8>)
        ensures
            r@ == inf_bytes_line(self.duration@, self.title@),
    {
        let mut line = start_line(TagName::Inf);
        line.push(58u8);
        push_bytes(&mut line, self.duration.as_slice());
        let title = self.title.as_str();
        proof {
            encode_utf8_decode_utf8(title@);
            assert(decode_utf8(Seq::<u8>::empty()) =~= Seq::<char>::empty());
        }
        if title.as_bytes().len() > 0 {
            line.push(44u8);
            push_str(&mut line, title);
            proof {
                assert(title@.len() != 0);
                assert(line@ =~= inf_bytes_line(self.duration@, self.title@));
            }
        } else {
            proof {
                assert(encode_utf8(title@) =~= Seq::<u8>::empty());
                assert(title@.len() == 0);
                assert(line@ =~= inf_bytes_line(self.duration@, self.title@));
            }
        }
        line
    }
}

/// The line of an `#EXTINF` tag with the duration text `duration` and the title `title`: the
/// title follows a comma when it is not empty.
pub open spec fn inf_line(duration: Seq<char>, title: Seq<char>) -> Seq<u8> {
    line_start(TagName::Inf) + seq![58u8] + encode_utf8(duration) + if title.len() == 0 {
        Seq::empty()
    } else {
        seq![44u8] + encode_utf8(title)
    }
}

/// The line of an `#EXTINF` tag with the duration text `duration` and the title `title`.
pub fn calculate_line(duration: &str, title: &str) -> (r: Vec<u8>)
    ensures
        r@ == inf_line(duration@, title@),
{
    let mut line = start_line(TagName::Inf);
    line.push(58u8);
    push_str(&mut line, duration);
    proof {
        encode_utf8_decode_utf8(title@);
        assert(decode_utf8(Seq::<u8>::empty()) =~= Seq::<char>::empty());
    }
    if title.as_bytes().len() > 0 {
        line.push(44u8);
        push_str(&mut line, title);
        proof {
            assert(title@.len() != 0);
            assert(line@ =~= inf_line(duration@, title@));
        }
    } else {
        proof {
            assert(encode_utf8(title@) =~= Seq::<u8>::empty());
            assert(title@.len() == 0);
            assert(line@ =~= inf_line(duration@, title@));
        }
    }
    line
}


/// The value of an `#EXTINF` line as written: the duration text, then a comma and the title when
/// the title is not empty.
pub open spec fn inf_value_text(duration: Seq<char>, title: Seq<char>) -> Seq<u8> {
    encode_utf8(duration) + if title.len() == 0 {
        Seq::empty()
    } else {
        seq![44u8] + encode_utf8(title)
    }
}

/// The written value of an `#EXTINF` line holds no line feed and reads back as its duration text
/// and title, when the duration text holds no `,` and neither holds a line feed.
proof fn lemma_inf_value_reads_back(duration: Seq<char>, title: Seq<char>)
    requires
        !encode_utf8(duration).contains(44u8),
        unknown::no_line_feed(encode_utf8(duration)),
        unknown::no_line_feed(encode_utf8(title)),
    ensures
        unknown::no_line_feed(inf_value_text(duration, title)),
        inf_value_spec(Some(inf_value_text(duration, title))) == Ok::<
            (Seq<u8>, Seq<char>),
            ValidationError,
        >((encode_utf8(duration), title)),
{
    let d = encode_utf8(duration);
    let t = encode_utf8(title);
    let v = inf_value_text(duration, title);
    encode_utf8_valid_utf8(title);
    encode_utf8_decode_utf8(title);
    if title.len() == 0 {
        assert(v =~= d);
        assert(!(exists|i: int| 0 <= i < v.len() && v[i] == 44u8));
        assert(title =~= Seq::<char>::empty());
    } else {
        assert(v =~= d + seq![44u8] + t);
        assert forall|j: int| 0 <= j < d.len() implies v[j] != 44u8 by {
            assert(v[j] == d[j]);
        }
        lemma_first_index_is(v, 44u8, d.len() as int);
        assert(v.subrange(0, d.len() as int) =~= d);
        assert(v.subrange(d.len() as int + 1, v.len() as int) =~= t);
        assert forall|j: int| 0 <= j < v.len() implies v[j] != 10u8 by {
            if j < d.len() {
                assert(v[j] == d[j]);
            } else if j > d.len() {
                assert(v[j] == t[j - d.len() - 1]);
            }
        }
    }
}

/// Writing and then reading an `#EXTINF` line gives back its duration text and title: the line
/// reads as the tag's name with the duration and title as the value, and that value reads as the
/// duration and the title, when the duration text holds no `,` and neither holds a line feed.
pub proof fn lemma_inf_reads_back(duration: Seq<char>, title: Seq<char>)
    requires
        !encode_utf8(duration).contains(44u8),
        unknown::no_line_feed(encode_utf8(duration)),
        unknown::no_line_feed(encode_utf8(title)),
    ensures
        inf_line(duration, title) == line_start(TagName::Inf) + seq![58u8] + inf_value_text(
            duration,
            title,
        ),
        unknown::starts_with_ext(inf_line(duration, title)),
        unknown::tag_after_ext_spec(
            inf_line(duration, title).subrange(4, inf_line(duration, title).len() as int),
        ) == Ok::<(Seq<u8>, Option<Seq<u8>>, Option<Seq<u8>>), UnknownTagSyntaxError>((
            encode_utf8(tag_name_text(TagName::Inf)),
            Some(inf_value_text(duration, title)),
            None,
        )),
        inf_value_spec(Some(inf_value_text(duration, title))) == Ok::<
            (Seq<u8>, Seq<char>),
            ValidationError,
        >((encode_utf8(duration), title)),
{
    let v = inf_value_text(duration, title);
    let rest = seq![58u8] + v;
    assert(inf_line(duration, title) =~= line_start(TagName::Inf) + rest);
    lemma_line_after_ext(TagName::Inf, rest);
    assert(encode_utf8(tag_name_text(TagName::Inf)) + rest =~= encode_utf8(
        tag_name_text(TagName::Inf),
    ) + seq![58u8] + v);
    lemma_tag_name_plain(TagName::Inf);
    lemma_inf_value_reads_back(duration, title);
    unknown::lemma_read_written_tag(encode_utf8(tag_name_text(TagName::Inf)), v);
}

} // verus!
