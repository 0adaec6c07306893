//! The `#EXT-X-START` tag: reading and writing its attributes, with its decimal floating point
//! value held as its text.

use vstd::prelude::*;
use vstd::string::StringSliceAdditionalSpecFns;
use vstd::utf8::*;

use crate::error::ValidationError;
use crate::tag::hls::{
    attribute_list_of, attribute_list_value_spec, comma_yes, get_unquoted_str, get_yes,
    line_start, push_comma_yes, push_unquoted_attribute, start_line, unquoted_attribute,
    utf8_attr, value_bytes, yes_attr, TagName,
};
use crate::tag::unknown;
use crate::tag::value::AttributeListView;
use crate::utils::string_from;
use crate::tag::hls::{entries_ok, lemma_attribute_list_text_free_of_line_feed, lemma_entries_ok_one, lemma_entries_ok_push, lemma_line_after_ext, lemma_lookup_push, lemma_tag_name_plain, tag_name_text, unquoted_value_ok, push_yes, lemma_push_yes_text, lemma_yes_unquoted_ok, lemma_lookup_push_yes};
use crate::tag::value::{attribute_list_text, lemma_attribute_list_reads_back, AttributeValueView};
use crate::error::UnknownTagSyntaxError;

verus! {

/// Placeholder struct for the `#EXT-X-START` builder indicating that `time_offset` needs to be
/// set.
#[derive(Debug, Clone, Copy)]
pub struct StartTimeOffsetNeedsToBeSet;

/// Placeholder struct for the `#EXT-X-START` builder indicating that `time_offset` has been set.
#[derive(Debug, Clone, Copy)]
pub struct StartTimeOffsetHasBeenSet;

/// The attributes of an `#EXT-X-START` tag, with each decimal floating point value (`TIME-OFFSET`)
/// held as the text that writes it.
pub struct StartAttributes {
    /// The text of the `TIME-OFFSET` attribute.
    pub time_offset: Seq<char>,
    /// Whether `PRECISE=YES` is given.
    pub precise: bool,
}

/// The attributes that an attribute list gives an `#EXT-X-START` tag: `TIME-OFFSET` is required; a
/// flag is set only when its value is `YES`.
pub open spec fn start_spec(list: AttributeListView) -> Result<StartAttributes, ValidationError> {
    match utf8_attr(list, "TIME-OFFSET"@) {
        Some(time_offset) => {
            Ok(StartAttributes {
                time_offset,
                precise: yes_attr(list, "PRECISE"@),
            })
        },
        None => Err(ValidationError::MissingRequiredAttribute("TIME-OFFSET")),
    }
}

/// The attributes that a tag value gives an `#EXT-X-START` tag.
pub open spec fn start_value_spec(value: Option<Seq<u8>>) -> Result<
    StartAttributes,
    ValidationError,
> {
    match attribute_list_value_spec(value) {
        Ok(list) => start_spec(list),
        Err(e) => Err(e),
    }
}

/// The attributes `TIME-OFFSET`, `PRECISE` as written where present.
pub open spec fn start_attributes_text(a: StartAttributes) -> Seq<u8> {
    unquoted_attribute("TIME-OFFSET"@, encode_utf8(a.time_offset))
        + comma_yes("PRECISE"@, a.precise)
}

/// The line of an `#EXT-X-START` tag with the attributes `a`: `TIME-OFFSET` first, then each
/// optional attribute that is present, in a fixed order.
pub open spec fn start_tag_line(a: StartAttributes) -> Seq<u8> {
    line_start(TagName::Start) + seq![58u8] + start_attributes_text(a)
}

/// The attributes of an `#EXT-X-START` tag as values, with each decimal floating point value
/// (`TIME-OFFSET`) held as the text that writes it.
#[derive(Debug, Clone, PartialEq)]
pub struct StartLine {
    /// The text of the `TIME-OFFSET` attribute.
    pub time_offset: String,
    /// Whether `PRECISE=YES` is given.
    pub precise: bool,
}

impl StartLine {
    /// The attributes.
    pub open spec fn view(&self) -> StartAttributes {
        StartAttributes {
            time_offset: self.time_offset@,
            precise: self.precise,
        }
    }

    /// Reads the attributes of an `#EXT-X-START` tag from a parsed tag line, whose value must be an
    /// attribute list with `TIME-OFFSET`.
    pub fn try_from(tag: &unknown::Tag) -> (r: Result<StartLine, ValidationError>)
        ensures
            match start_value_spec(value_bytes(*tag)) {
                Ok(a) => r matches Ok(l) && l.view() == a,
                Err(e) => r == Err::<StartLine, ValidationError>(e),
            },
    {
        let list = attribute_list_of(tag)?;
        let time_offset = match get_unquoted_str(&list, "TIME-OFFSET") {
            Some(v) => v,
            None => return Err(ValidationError::MissingRequiredAttribute("TIME-OFFSET")),
        };
        Ok(StartLine {
            time_offset: string_from(time_offset),
            precise: get_yes(&list, "PRECISE"),
        })
    }
}

fn push_start_attributes_text(line: &mut Vec<u8>, a: &StartLine)
    ensures
        final(line)@ == old(line)@ + start_attributes_text(a.view()),
{
    push_unquoted_attribute(line, "TIME-OFFSET", a.time_offset.as_str().as_bytes());
    push_comma_yes(line, "PRECISE", a.precise);
    proof {
        assert(final(line)@ =~= old(line)@ + start_attributes_text(a.view()));
    }
}

/// The line of an `#EXT-X-START` tag with the attributes `a`.
pub fn calculate_line(a: &StartLine) -> (r: Vec<u8>)
    ensures
        r@ == start_tag_line(a.view()),
{
    let mut line = start_line(TagName::Start);
    line.push(58u8);
    push_start_attributes_text(&mut line, a);
    proof {
        assert(line@ =~= start_tag_line(a.view()));
    }
    line
}


/// The attributes of the tag in the order in which its line writes them.
pub open spec fn start_entries(m: StartAttributes) -> AttributeListView {
    let l = seq![("TIME-OFFSET"@, AttributeValueView::Unquoted(encode_utf8(m.time_offset)))];
    push_yes(l, "PRECISE"@, m.precise)
}

proof fn lemma_start_text_0(m: StartAttributes)
    ensures
        attribute_list_text(start_entries(m)) == start_attributes_text(m),
{
    let p0 = seq![("TIME-OFFSET"@, AttributeValueView::Unquoted(encode_utf8(m.time_offset)))];
    assert(attribute_list_text(p0) =~= unquoted_attribute("TIME-OFFSET"@, encode_utf8(m.time_offset)));
    let p1 = push_yes(p0, "PRECISE"@, m.precise);
    lemma_push_yes_text(p0, "PRECISE"@, m.precise);
    assert(attribute_list_text(p1) == (unquoted_attribute("TIME-OFFSET"@, encode_utf8(m.time_offset))) + (comma_yes("PRECISE"@, m.precise)));
    assert(p1 == start_entries(m));
}

proof fn lemma_start_line_text(m: StartAttributes)
    ensures
        start_tag_line(m) == line_start(TagName::Start) + seq![58u8] + attribute_list_text(start_entries(m)),
{
    let pre = line_start(TagName::Start) + seq![58u8];
    lemma_start_text_0(m);
    assert(pre + attribute_list_text(start_entries(m)) == pre + start_attributes_text(m));
}

proof fn lemma_start_ok_0(m: StartAttributes)
    requires
        unquoted_value_ok(encode_utf8(m.time_offset)),
    ensures
        entries_ok(start_entries(m)),
{
    reveal_strlit("TIME-OFFSET");
    reveal_strlit("PRECISE");
    let p0 = seq![("TIME-OFFSET"@, AttributeValueView::Unquoted(encode_utf8(m.time_offset)))];
    lemma_entries_ok_one("TIME-OFFSET"@, AttributeValueView::Unquoted(encode_utf8(m.time_offset)));
    let p1 = push_yes(p0, "PRECISE"@, m.precise);
    if m.precise {
        lemma_yes_unquoted_ok();
        lemma_entries_ok_push(p0, "PRECISE"@, AttributeValueView::Unquoted("YES".spec_bytes()));
    }
    assert(p1 == start_entries(m));
}

#[verifier::spinoff_prover]
proof fn lemma_start_lookup_0(m: StartAttributes)
    ensures
        utf8_attr(start_entries(m), "TIME-OFFSET"@) == Some(m.time_offset),
        yes_attr(start_entries(m), "PRECISE"@) == m.precise,
{
    reveal_strlit("TIME-OFFSET");
    reveal_strlit("PRECISE");
    assert("TIME-OFFSET"@.len() != "PRECISE"@.len());
    assert("PRECISE"@.len() != "TIME-OFFSET"@.len());
    let l0 = seq![("TIME-OFFSET"@, AttributeValueView::Unquoted(encode_utf8(m.time_offset)))];
    let l1 = push_yes(l0, "PRECISE"@, m.precise);
    assert(l1 == start_entries(m));
    lemma_lookup_push(Seq::empty(), ("TIME-OFFSET"@, AttributeValueView::Unquoted(encode_utf8(m.time_offset))), "TIME-OFFSET"@);
    lemma_lookup_push_yes(l0, "PRECISE"@, m.precise, "TIME-OFFSET"@);
    lemma_lookup_push(Seq::empty(), ("TIME-OFFSET"@, AttributeValueView::Unquoted(encode_utf8(m.time_offset))), "PRECISE"@);
    lemma_lookup_push_yes(l0, "PRECISE"@, m.precise, "PRECISE"@);
    assert(Seq::<(Seq<char>, AttributeValueView)>::empty().push(("TIME-OFFSET"@, AttributeValueView::Unquoted(encode_utf8(m.time_offset)))) =~= l0);
    encode_utf8_valid_utf8(m.time_offset);
    encode_utf8_decode_utf8(m.time_offset);
    assert(utf8_attr(l1, "TIME-OFFSET"@) == Some(m.time_offset));
    assert(yes_attr(l1, "PRECISE"@) == m.precise);
}

proof fn lemma_start_lookup(m: StartAttributes)
    ensures
        start_spec(start_entries(m)) == Ok::<StartAttributes, ValidationError>(m),
{
    lemma_start_lookup_0(m);
}

/// Writing and then reading a start tag gives it back: its line reads as its name with its
/// attributes as the value, and that value reads as the attributes, when the time offset is not
/// empty, does not start with `"`, and holds no `,` and no line feed.
pub proof fn lemma_start_reads_back(m: StartAttributes)
    requires
        unquoted_value_ok(encode_utf8(m.time_offset)),
    ensures
        start_tag_line(m) == line_start(TagName::Start) + seq![58u8] + attribute_list_text(
            start_entries(m),
        ),
        unknown::starts_with_ext(start_tag_line(m)),
        unknown::tag_after_ext_spec(start_tag_line(m).subrange(4, start_tag_line(m).len() as int))
            == Ok::<(Seq<u8>, Option<Seq<u8>>, Option<Seq<u8>>), UnknownTagSyntaxError>((
            encode_utf8(tag_name_text(TagName::Start)),
            Some(attribute_list_text(start_entries(m))),
            None,
        )),
        start_value_spec(Some(attribute_list_text(start_entries(m)))) == Ok::<
            StartAttributes,
            ValidationError,
        >(m),
{
    let l = start_entries(m);
    let text = attribute_list_text(l);
    lemma_start_line_text(m);
    let rest = seq![58u8] + text;
    lemma_line_after_ext(TagName::Start, rest);
    assert(start_tag_line(m) =~= line_start(TagName::Start) + rest);
    assert(encode_utf8(tag_name_text(TagName::Start)) + rest =~= encode_utf8(
        tag_name_text(TagName::Start),
    ) + seq![58u8] + text);
    lemma_tag_name_plain(TagName::Start);
    lemma_start_ok_0(m);
    lemma_attribute_list_text_free_of_line_feed(l);
    unknown::lemma_read_written_tag(encode_utf8(tag_name_text(TagName::Start)), text);
    lemma_attribute_list_reads_back(l);
    lemma_start_lookup(m);
}

} // verus!
