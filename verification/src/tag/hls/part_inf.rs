//! The `#EXT-X-PART-INF` tag: reading and writing its attributes, with its decimal floating point
//! value held as its text.

use vstd::prelude::*;
use vstd::string::StringSliceAdditionalSpecFns;
use vstd::utf8::*;

use crate::error::ValidationError;
use crate::tag::hls::{
    lemma_attribute_list_text_kind,
    typed_attribute_list_of, typed_attribute_list_spec, get_unquoted_str, line_start,
    push_unquoted_attribute, start_line, unquoted_attribute, utf8_attr, value_bytes, TagName,
};
use crate::tag::unknown;
use crate::tag::value::AttributeListView;
use crate::utils::string_from;
use crate::tag::hls::{entries_ok, lemma_attribute_list_text_free_of_line_feed, lemma_entries_ok_one, lemma_line_after_ext, lemma_lookup_push, lemma_tag_name_plain, tag_name_text, unquoted_value_ok};
use crate::tag::value::{attribute_list_text, lemma_attribute_list_reads_back, AttributeValueView};
use crate::error::UnknownTagSyntaxError;

verus! {

/// The attributes of an `#EXT-X-PART-INF` tag, with each decimal floating point value
/// (`PART-TARGET`) held as the text that writes it.
pub struct PartInfAttributes {
    /// The text of the `PART-TARGET` attribute.
    pub part_target: Seq<char>,
}

/// The attributes that an attribute list gives an `#EXT-X-PART-INF` tag: `PART-TARGET` is required.
pub open spec fn part_inf_spec(list: AttributeListView) -> Result<
    PartInfAttributes,
    ValidationError,
> {
    match utf8_attr(list, "PART-TARGET"@) {
        Some(part_target) => {
            Ok(PartInfAttributes {
                part_target,
            })
        },
        None => Err(ValidationError::MissingRequiredAttribute("PART-TARGET")),
    }
}

/// The attributes that a tag value gives an `#EXT-X-PART-INF` tag.
pub open spec fn part_inf_value_spec(value: Option<Seq<u8>>) -> Result<
    PartInfAttributes,
    ValidationError,
> {
    match typed_attribute_list_spec(value) {
        Ok(list) => part_inf_spec(list),
        Err(e) => Err(e),
    }
}

/// The attribute `PART-TARGET` as written.
pub open spec fn part_inf_attributes_text(a: PartInfAttributes) -> Seq<u8> {
    unquoted_attribute("PART-TARGET"@, encode_utf8(a.part_target))
}

/// The line of an `#EXT-X-PART-INF` tag with the attributes `a`: `PART-TARGET`.
pub open spec fn part_inf_line(a: PartInfAttributes) -> Seq<u8> {
    line_start(TagName::PartInf) + seq![58u8] + part_inf_attributes_text(a)
}

/// The attributes of an `#EXT-X-PART-INF` tag as values, with each decimal floating point value
/// (`PART-TARGET`) held as the text that writes it.
#[derive(Debug, Clone, PartialEq)]
pub struct PartInfLine {
    /// The text of the `PART-TARGET` attribute.
    pub part_target: String,
}

impl PartInfLine {
    /// The attributes.
    pub open spec fn view(&self) -> PartInfAttributes {
        PartInfAttributes {
            part_target: self.part_target@,
        }
    }

    /// Reads the attributes of an `#EXT-X-PART-INF` tag from a parsed tag line, whose value must be
    /// an attribute list with `PART-TARGET`.
    pub fn try_from(tag: &unknown::Tag) -> (r: Result<PartInfLine, ValidationError>)
        ensures
            match part_inf_value_spec(value_bytes(*tag)) {
                Ok(a) => r matches Ok(l) && l.view() == a,
                Err(e) => r == Err::<PartInfLine, ValidationError>(e),
            },
    {
        let list = typed_attribute_list_of(tag)?;
        let part_target = match get_unquoted_str(&list, "PART-TARGET") {
            Some(v) => v,
            None => return Err(ValidationError::MissingRequiredAttribute("PART-TARGET")),
        };
        Ok(PartInfLine {
            part_target: string_from(part_target),
        })
    }
}

fn push_part_inf_attributes_text(line: &mut Vec<u8>, a: &PartInfLine)
    ensures
        final(line)@ == old(line)@ + part_inf_attributes_text(a.view()),
{
    push_unquoted_attribute(line, "PART-TARGET", a.part_target.as_str().as_bytes());
    proof {
        assert(final(line)@ =~= old(line)@ + part_inf_attributes_text(a.view()));
    }
}

/// The line of an `#EXT-X-PART-INF` tag with the attributes `a`.
pub fn calculate_line(a: &PartInfLine) -> (r: Vec<u8>)
    ensures
        r@ == part_inf_line(a.view()),
{
    let mut line = start_line(TagName::PartInf);
    line.push(58u8);
    push_part_inf_attributes_text(&mut line, a);
    proof {
        assert(line@ =~= part_inf_line(a.view()));
    }
    line
}


/// The attributes of the tag in the order in which its line writes them.
pub open spec fn part_inf_entries(m: PartInfAttributes) -> AttributeListView {
    seq![("PART-TARGET"@, AttributeValueView::Unquoted(encode_utf8(m.part_target)))]
}

proof fn lemma_part_inf_text_0(m: PartInfAttributes)
    ensures
        attribute_list_text(part_inf_entries(m)) == part_inf_attributes_text(m),
{
    let p0 = seq![("PART-TARGET"@, AttributeValueView::Unquoted(encode_utf8(m.part_target)))];
    assert(attribute_list_text(p0) =~= unquoted_attribute("PART-TARGET"@, encode_utf8(m.part_target)));
    assert(p0 == part_inf_entries(m));
}

proof fn lemma_part_inf_line_text(m: PartInfAttributes)
    ensures
        part_inf_line(m) == line_start(TagName::PartInf) + seq![58u8] + attribute_list_text(part_inf_entries(m)),
{
    let pre = line_start(TagName::PartInf) + seq![58u8];
    lemma_part_inf_text_0(m);
    assert(pre + attribute_list_text(part_inf_entries(m)) == pre + part_inf_attributes_text(m));
}

proof fn lemma_part_inf_ok_0(m: PartInfAttributes)
    requires
        unquoted_value_ok(encode_utf8(m.part_target)),
    ensures
        entries_ok(part_inf_entries(m)),
{
    reveal_strlit("PART-TARGET");
    let p0 = seq![("PART-TARGET"@, AttributeValueView::Unquoted(encode_utf8(m.part_target)))];
    lemma_entries_ok_one("PART-TARGET"@, AttributeValueView::Unquoted(encode_utf8(m.part_target)));
    assert(p0 == part_inf_entries(m));
}

#[verifier::spinoff_prover]
proof fn lemma_part_inf_lookup_0(m: PartInfAttributes)
    ensures
        utf8_attr(part_inf_entries(m), "PART-TARGET"@) == Some(m.part_target),
{
    reveal_strlit("PART-TARGET");
    let l0 = seq![("PART-TARGET"@, AttributeValueView::Unquoted(encode_utf8(m.part_target)))];
    assert(l0 == part_inf_entries(m));
    lemma_lookup_push(Seq::empty(), ("PART-TARGET"@, AttributeValueView::Unquoted(encode_utf8(m.part_target))), "PART-TARGET"@);
    assert(Seq::<(Seq<char>, AttributeValueView)>::empty().push(("PART-TARGET"@, AttributeValueView::Unquoted(encode_utf8(m.part_target)))) =~= l0);
    encode_utf8_valid_utf8(m.part_target);
    encode_utf8_decode_utf8(m.part_target);
    assert(utf8_attr(l0, "PART-TARGET"@) == Some(m.part_target));
}

proof fn lemma_part_inf_lookup(m: PartInfAttributes)
    ensures
        part_inf_spec(part_inf_entries(m)) == Ok::<PartInfAttributes, ValidationError>(m),
{
    lemma_part_inf_lookup_0(m);
}

/// Writing and then reading a part information tag gives it back: its line reads as its name with
/// its attributes as the value, and that value reads as the attributes, when the part target is not
/// empty, does not start with `"`, and holds no `,` and no line feed.
pub proof fn lemma_part_inf_reads_back(m: PartInfAttributes)
    requires
        unquoted_value_ok(encode_utf8(m.part_target)),
    ensures
        part_inf_line(m) == line_start(TagName::PartInf) + seq![58u8] + attribute_list_text(
            part_inf_entries(m),
        ),
        unknown::starts_with_ext(part_inf_line(m)),
        unknown::tag_after_ext_spec(part_inf_line(m).subrange(4, part_inf_line(m).len() as int))
            == Ok::<(Seq<u8>, Option<Seq<u8>>, Option<Seq<u8>>), UnknownTagSyntaxError>((
            encode_utf8(tag_name_text(TagName::PartInf)),
            Some(attribute_list_text(part_inf_entries(m))),
            None,
        )),
        part_inf_value_spec(Some(attribute_list_text(part_inf_entries(m)))) == Ok::<
            PartInfAttributes,
            ValidationError,
        >(m),
{
    let l = part_inf_entries(m);
    let text = attribute_list_text(l);
    lemma_part_inf_line_text(m);
    let rest = seq![58u8] + text;
    lemma_line_after_ext(TagName::PartInf, rest);
    assert(part_inf_line(m) =~= line_start(TagName::PartInf) + rest);
    assert(encode_utf8(tag_name_text(TagName::PartInf)) + rest =~= encode_utf8(
        tag_name_text(TagName::PartInf),
    ) + seq![58u8] + text);
    lemma_tag_name_plain(TagName::PartInf);
    lemma_part_inf_ok_0(m);
    lemma_attribute_list_text_free_of_line_feed(l);
    unknown::lemma_read_written_tag(encode_utf8(tag_name_text(TagName::PartInf)), text);
    lemma_attribute_list_reads_back(l);
    lemma_attribute_list_text_kind(l);
    lemma_part_inf_lookup(m);
}

} // verus!
