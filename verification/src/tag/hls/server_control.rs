//! The `#EXT-X-SERVER-CONTROL` tag: reading and writing its attributes, with each decimal
//! floating point value held as its text.

use vstd::prelude::*;
use vstd::string::StringSliceAdditionalSpecFns;
use vstd::utf8::*;
use vstd::slice::slice_subrange;

use crate::error::ValidationError;
use crate::tag::hls::{
    lemma_attribute_list_text_kind,
    typed_attribute_list_of, typed_attribute_list_spec, comma_unquoted, comma_yes, copy_opt,
    get_unquoted_str, get_yes, line_start, opt_encode, opt_string, push_comma_unquoted_str,
    push_comma_yes, start_line, utf8_attr, value_bytes, yes_attr, TagName,
};
use crate::tag::unknown;
use crate::tag::value::AttributeListView;
use crate::utils::push_bytes;
use crate::error::UnknownTagSyntaxError;
use crate::tag::hls::{
    comma_list_text, entries_ok, lemma_attribute_list_text_free_of_line_feed,
    lemma_comma_list_text, lemma_comma_list_text_push, lemma_entries_ok_push, lemma_line_after_ext,
    lemma_lookup_push_unquoted_opt, lemma_lookup_push_yes, lemma_tag_name_plain,
    lemma_yes_unquoted_ok, push_unquoted_opt, push_yes, tag_name_text, unquoted_attribute,
    unquoted_value_ok,
};
use crate::tag::value::{
    attribute_list_text, attribute_text, lemma_attribute_list_reads_back, AttributeValueView,
};

verus! {

/// The attributes of an `#EXT-X-SERVER-CONTROL` tag, with each decimal floating point value
/// (`CAN-SKIP-UNTIL`, `HOLD-BACK`, `PART-HOLD-BACK`) held as the text that writes it.
pub struct ServerControlAttributes {
    /// The text of the `CAN-SKIP-UNTIL` attribute.
    pub can_skip_until: Option<Seq<char>>,
    /// Whether `CAN-SKIP-DATERANGES=YES` is given.
    pub can_skip_dateranges: bool,
    /// The text of the `HOLD-BACK` attribute.
    pub hold_back: Option<Seq<char>>,
    /// The text of the `PART-HOLD-BACK` attribute.
    pub part_hold_back: Option<Seq<char>>,
    /// Whether `CAN-BLOCK-RELOAD=YES` is given.
    pub can_block_reload: bool,
}

/// The attributes that an attribute list gives an `#EXT-X-SERVER-CONTROL` tag: an optional
/// attribute of the wrong kind is taken as absent; a flag is set only when its value is `YES`.
pub open spec fn server_control_spec(list: AttributeListView) -> Result<
    ServerControlAttributes,
    ValidationError,
> {
    Ok(ServerControlAttributes {
        can_skip_until: utf8_attr(list, "CAN-SKIP-UNTIL"@),
        can_skip_dateranges: yes_attr(list, "CAN-SKIP-DATERANGES"@),
        hold_back: utf8_attr(list, "HOLD-BACK"@),
        part_hold_back: utf8_attr(list, "PART-HOLD-BACK"@),
        can_block_reload: yes_attr(list, "CAN-BLOCK-RELOAD"@),
    })
}

/// The attributes that a tag value gives an `#EXT-X-SERVER-CONTROL` tag.
pub open spec fn server_control_value_spec(value: Option<Seq<u8>>) -> Result<
    ServerControlAttributes,
    ValidationError,
> {
    match typed_attribute_list_spec(value) {
        Ok(list) => server_control_spec(list),
        Err(e) => Err(e),
    }
}

/// The attributes `CAN-SKIP-UNTIL`, `CAN-SKIP-DATERANGES`, `HOLD-BACK`, `PART-HOLD-BACK` and
/// `CAN-BLOCK-RELOAD` as written where present, each after a comma.
pub open spec fn server_control_attributes_text(a: ServerControlAttributes) -> Seq<u8> {
    comma_unquoted("CAN-SKIP-UNTIL"@, opt_encode(a.can_skip_until))
        + comma_yes("CAN-SKIP-DATERANGES"@, a.can_skip_dateranges)
        + comma_unquoted("HOLD-BACK"@, opt_encode(a.hold_back))
        + comma_unquoted("PART-HOLD-BACK"@, opt_encode(a.part_hold_back))
        + comma_yes("CAN-BLOCK-RELOAD"@, a.can_block_reload)
}

/// The attributes of an `#EXT-X-SERVER-CONTROL` tag as written: those present, separated by commas.
pub open spec fn server_control_attributes(a: ServerControlAttributes) -> Seq<u8> {
    let t = server_control_attributes_text(a);
    if t.len() > 0 {
        t.drop_first()
    } else {
        t
    }
}

/// The line of an `#EXT-X-SERVER-CONTROL` tag with the attributes `a`.
pub open spec fn server_control_line(a: ServerControlAttributes) -> Seq<u8> {
    line_start(TagName::ServerControl) + seq![58u8] + server_control_attributes(a)
}

/// The attributes of an `#EXT-X-SERVER-CONTROL` tag as values, with each decimal floating point
/// value (`CAN-SKIP-UNTIL`, `HOLD-BACK`, `PART-HOLD-BACK`) held as the text that writes it.
#[derive(Debug, Clone, PartialEq)]
pub struct ServerControlLine {
    /// The text of the `CAN-SKIP-UNTIL` attribute.
    pub can_skip_until: Option<String>,
    /// Whether `CAN-SKIP-DATERANGES=YES` is given.
    pub can_skip_dateranges: bool,
    /// The text of the `HOLD-BACK` attribute.
    pub hold_back: Option<String>,
    /// The text of the `PART-HOLD-BACK` attribute.
    pub part_hold_back: Option<String>,
    /// Whether `CAN-BLOCK-RELOAD=YES` is given.
    pub can_block_reload: bool,
}

impl ServerControlLine {
    /// The attributes.
    pub open spec fn view(&self) -> ServerControlAttributes {
        ServerControlAttributes {
            can_skip_until: opt_string(self.can_skip_until),
            can_skip_dateranges: self.can_skip_dateranges,
            hold_back: opt_string(self.hold_back),
            part_hold_back: opt_string(self.part_hold_back),
            can_block_reload: self.can_block_reload,
        }
    }

    /// Reads the attributes of an `#EXT-X-SERVER-CONTROL` tag from a parsed tag line, whose value
    /// must be an attribute list.
    pub fn try_from(tag: &unknown::Tag) -> (r: Result<ServerControlLine, ValidationError>)
        ensures
            match server_control_value_spec(value_bytes(*tag)) {
                Ok(a) => r matches Ok(l) && l.view() == a,
                Err(e) => r == Err::<ServerControlLine, ValidationError>(e),
            },
    {
        let list = typed_attribute_list_of(tag)?;
        Ok(ServerControlLine {
            can_skip_until: copy_opt(get_unquoted_str(&list, "CAN-SKIP-UNTIL")),
            can_skip_dateranges: get_yes(&list, "CAN-SKIP-DATERANGES"),
            hold_back: copy_opt(get_unquoted_str(&list, "HOLD-BACK")),
            part_hold_back: copy_opt(get_unquoted_str(&list, "PART-HOLD-BACK")),
            can_block_reload: get_yes(&list, "CAN-BLOCK-RELOAD"),
        })
    }
}

fn push_server_control_attributes_text(line: &mut Vec<u8>, a: &ServerControlLine)
    ensures
        final(line)@ == old(line)@ + server_control_attributes_text(a.view()),
{
    push_comma_unquoted_str(line, "CAN-SKIP-UNTIL", &a.can_skip_until);
    push_comma_yes(line, "CAN-SKIP-DATERANGES", a.can_skip_dateranges);
    push_comma_unquoted_str(line, "HOLD-BACK", &a.hold_back);
    push_comma_unquoted_str(line, "PART-HOLD-BACK", &a.part_hold_back);
    push_comma_yes(line, "CAN-BLOCK-RELOAD", a.can_block_reload);
    proof {
        assert(final(line)@ =~= old(line)@ + server_control_attributes_text(a.view()));
    }
}

/// The line of an `#EXT-X-SERVER-CONTROL` tag with the attributes `a`.
pub fn calculate_line(a: &ServerControlLine) -> (r: Vec<u8>)
    ensures
        r@ == server_control_line(a.view()),
{
    let mut line = start_line(TagName::ServerControl);
    line.push(58u8);
    let mut attributes: Vec<u8> = Vec::new();
    push_server_control_attributes_text(&mut attributes, a);
    proof {
        assert(attributes@ =~= server_control_attributes_text(a.view()));
    }
    if attributes.len() > 0 {
        let n = attributes.len();
        push_bytes(&mut line, slice_subrange(attributes.as_slice(), 1, n));
    }
    proof {
        assert(line@ =~= server_control_line(a.view()));
    }
    line
}


/// The attributes of the tag in the order in which its line writes them.
pub open spec fn server_control_entries(m: ServerControlAttributes) -> AttributeListView {
    let l = Seq::empty();
    let l = push_unquoted_opt(l, "CAN-SKIP-UNTIL"@, opt_encode(m.can_skip_until));
    let l = push_yes(l, "CAN-SKIP-DATERANGES"@, m.can_skip_dateranges);
    let l = push_unquoted_opt(l, "HOLD-BACK"@, opt_encode(m.hold_back));
    let l = push_unquoted_opt(l, "PART-HOLD-BACK"@, opt_encode(m.part_hold_back));
    push_yes(l, "CAN-BLOCK-RELOAD"@, m.can_block_reload)
}

/// Writing an optional unquoted attribute after others writes a comma and the attribute when it is
/// present.
proof fn lemma_comma_push_unquoted_opt(l: AttributeListView, name: Seq<char>, v: Option<Seq<u8>>)
    ensures
        comma_list_text(push_unquoted_opt(l, name, v)) == comma_list_text(l) + comma_unquoted(name, v),
{
    match v {
        Some(u) => {
            lemma_comma_list_text_push(l, (name, AttributeValueView::Unquoted(u)));
            assert(attribute_text((name, AttributeValueView::Unquoted(u))) =~= unquoted_attribute(
                name,
                u,
            ));
            assert(comma_list_text(l) + seq![44u8] + unquoted_attribute(name, u) =~= comma_list_text(
                l,
            ) + comma_unquoted(name, v));
        },
        None => {
            assert(comma_list_text(l) + comma_unquoted(name, v) =~= comma_list_text(l));
        },
    }
}

/// Writing a flag attribute after others writes a comma and the attribute when it is set.
proof fn lemma_comma_push_yes(l: AttributeListView, name: Seq<char>, set: bool)
    ensures
        comma_list_text(push_yes(l, name, set)) == comma_list_text(l) + comma_yes(name, set),
{
    if set {
        let e = (name, AttributeValueView::Unquoted("YES".spec_bytes()));
        lemma_comma_list_text_push(l, e);
        assert(attribute_text(e) =~= unquoted_attribute(name, "YES".spec_bytes()));
        assert(comma_list_text(l) + seq![44u8] + unquoted_attribute(name, "YES".spec_bytes())
            =~= comma_list_text(l) + comma_yes(name, set));
    } else {
        assert(comma_list_text(l) + comma_yes(name, set) =~= comma_list_text(l));
    }
}

proof fn lemma_server_control_text(m: ServerControlAttributes)
    ensures
        comma_list_text(server_control_entries(m)) == server_control_attributes_text(m),
{
    let e = Seq::<(Seq<char>, AttributeValueView)>::empty();
    let p0 = push_unquoted_opt(e, "CAN-SKIP-UNTIL"@, opt_encode(m.can_skip_until));
    lemma_comma_push_unquoted_opt(e, "CAN-SKIP-UNTIL"@, opt_encode(m.can_skip_until));
    let p1 = push_yes(p0, "CAN-SKIP-DATERANGES"@, m.can_skip_dateranges);
    lemma_comma_push_yes(p0, "CAN-SKIP-DATERANGES"@, m.can_skip_dateranges);
    let p2 = push_unquoted_opt(p1, "HOLD-BACK"@, opt_encode(m.hold_back));
    lemma_comma_push_unquoted_opt(p1, "HOLD-BACK"@, opt_encode(m.hold_back));
    let p3 = push_unquoted_opt(p2, "PART-HOLD-BACK"@, opt_encode(m.part_hold_back));
    lemma_comma_push_unquoted_opt(p2, "PART-HOLD-BACK"@, opt_encode(m.part_hold_back));
    let p4 = push_yes(p3, "CAN-BLOCK-RELOAD"@, m.can_block_reload);
    lemma_comma_push_yes(p3, "CAN-BLOCK-RELOAD"@, m.can_block_reload);
    assert(comma_list_text(e) =~= Seq::<u8>::empty());
    assert(p4 == server_control_entries(m));
    assert(comma_list_text(p4) =~= server_control_attributes_text(m));
}

proof fn lemma_server_control_line_text(m: ServerControlAttributes)
    ensures
        server_control_line(m) == line_start(TagName::ServerControl) + seq![58u8] + attribute_list_text(
            server_control_entries(m),
        ),
{
    let l = server_control_entries(m);
    lemma_server_control_text(m);
    if l.len() > 0 {
        lemma_comma_list_text(l);
    } else {
        assert(l =~= Seq::<(Seq<char>, AttributeValueView)>::empty());
    }
}

proof fn lemma_server_control_ok(m: ServerControlAttributes)
    requires
        m.can_skip_until matches Some(v) ==> unquoted_value_ok(encode_utf8(v)),
        m.hold_back matches Some(v) ==> unquoted_value_ok(encode_utf8(v)),
        m.part_hold_back matches Some(v) ==> unquoted_value_ok(encode_utf8(v)),
    ensures
        entries_ok(server_control_entries(m)),
{
    reveal_strlit("CAN-SKIP-UNTIL");
    reveal_strlit("CAN-SKIP-DATERANGES");
    reveal_strlit("HOLD-BACK");
    reveal_strlit("PART-HOLD-BACK");
    reveal_strlit("CAN-BLOCK-RELOAD");
    assert(entries_ok(Seq::<(Seq<char>, AttributeValueView)>::empty()));
    let p0 = push_unquoted_opt(Seq::<(Seq<char>, AttributeValueView)>::empty(), "CAN-SKIP-UNTIL"@, opt_encode(m.can_skip_until));
    assert(entries_ok(p0)) by {
        if let Some(v) = m.can_skip_until {
            lemma_entries_ok_push(Seq::<(Seq<char>, AttributeValueView)>::empty(), "CAN-SKIP-UNTIL"@, AttributeValueView::Unquoted(encode_utf8(v)));
        }
    }
    let p1 = push_yes(p0, "CAN-SKIP-DATERANGES"@, m.can_skip_dateranges);
    assert(entries_ok(p1)) by {
        if m.can_skip_dateranges {
            lemma_yes_unquoted_ok();
            lemma_entries_ok_push(p0, "CAN-SKIP-DATERANGES"@, AttributeValueView::Unquoted("YES".spec_bytes()));
        }
    }
    let p2 = push_unquoted_opt(p1, "HOLD-BACK"@, opt_encode(m.hold_back));
    assert(entries_ok(p2)) by {
        if let Some(v) = m.hold_back {
            lemma_entries_ok_push(p1, "HOLD-BACK"@, AttributeValueView::Unquoted(encode_utf8(v)));
        }
    }
    let p3 = push_unquoted_opt(p2, "PART-HOLD-BACK"@, opt_encode(m.part_hold_back));
    assert(entries_ok(p3)) by {
        if let Some(v) = m.part_hold_back {
            lemma_entries_ok_push(p2, "PART-HOLD-BACK"@, AttributeValueView::Unquoted(encode_utf8(v)));
        }
    }
    let p4 = push_yes(p3, "CAN-BLOCK-RELOAD"@, m.can_block_reload);
    assert(entries_ok(p4)) by {
        if m.can_block_reload {
            lemma_yes_unquoted_ok();
            lemma_entries_ok_push(p3, "CAN-BLOCK-RELOAD"@, AttributeValueView::Unquoted("YES".spec_bytes()));
        }
    }
    assert(p4 == server_control_entries(m));
}

#[verifier::spinoff_prover]
proof fn lemma_server_control_lookup(m: ServerControlAttributes)
    ensures
        server_control_spec(server_control_entries(m)) == Ok::<ServerControlAttributes, ValidationError>(m),
{
    reveal_strlit("CAN-SKIP-UNTIL");
    reveal_strlit("CAN-SKIP-DATERANGES");
    reveal_strlit("HOLD-BACK");
    reveal_strlit("PART-HOLD-BACK");
    reveal_strlit("CAN-BLOCK-RELOAD");
    assert("CAN-SKIP-UNTIL"@.len() != "CAN-SKIP-DATERANGES"@.len());
    assert("CAN-SKIP-UNTIL"@.len() != "HOLD-BACK"@.len());
    assert("CAN-SKIP-UNTIL"@[0] != "PART-HOLD-BACK"@[0]);
    assert("CAN-SKIP-UNTIL"@.len() != "CAN-BLOCK-RELOAD"@.len());
    assert("CAN-SKIP-DATERANGES"@.len() != "HOLD-BACK"@.len());
    assert("CAN-SKIP-DATERANGES"@.len() != "PART-HOLD-BACK"@.len());
    assert("CAN-SKIP-DATERANGES"@.len() != "CAN-BLOCK-RELOAD"@.len());
    assert("HOLD-BACK"@.len() != "PART-HOLD-BACK"@.len());
    assert("HOLD-BACK"@.len() != "CAN-BLOCK-RELOAD"@.len());
    assert("PART-HOLD-BACK"@.len() != "CAN-BLOCK-RELOAD"@.len());
    let l0 = push_unquoted_opt(Seq::<(Seq<char>, AttributeValueView)>::empty(), "CAN-SKIP-UNTIL"@, opt_encode(m.can_skip_until));
    let l1 = push_yes(l0, "CAN-SKIP-DATERANGES"@, m.can_skip_dateranges);
    let l2 = push_unquoted_opt(l1, "HOLD-BACK"@, opt_encode(m.hold_back));
    let l3 = push_unquoted_opt(l2, "PART-HOLD-BACK"@, opt_encode(m.part_hold_back));
    let l4 = push_yes(l3, "CAN-BLOCK-RELOAD"@, m.can_block_reload);
    assert(l4 == server_control_entries(m));
    lemma_lookup_push_unquoted_opt(Seq::<(Seq<char>, AttributeValueView)>::empty(), "CAN-SKIP-UNTIL"@, opt_encode(m.can_skip_until), "CAN-SKIP-UNTIL"@);
    lemma_lookup_push_yes(l0, "CAN-SKIP-DATERANGES"@, m.can_skip_dateranges, "CAN-SKIP-UNTIL"@);
    lemma_lookup_push_unquoted_opt(l1, "HOLD-BACK"@, opt_encode(m.hold_back), "CAN-SKIP-UNTIL"@);
    lemma_lookup_push_unquoted_opt(l2, "PART-HOLD-BACK"@, opt_encode(m.part_hold_back), "CAN-SKIP-UNTIL"@);
    lemma_lookup_push_yes(l3, "CAN-BLOCK-RELOAD"@, m.can_block_reload, "CAN-SKIP-UNTIL"@);
    lemma_lookup_push_unquoted_opt(Seq::<(Seq<char>, AttributeValueView)>::empty(), "CAN-SKIP-UNTIL"@, opt_encode(m.can_skip_until), "CAN-SKIP-DATERANGES"@);
    lemma_lookup_push_yes(l0, "CAN-SKIP-DATERANGES"@, m.can_skip_dateranges, "CAN-SKIP-DATERANGES"@);
    lemma_lookup_push_unquoted_opt(l1, "HOLD-BACK"@, opt_encode(m.hold_back), "CAN-SKIP-DATERANGES"@);
    lemma_lookup_push_unquoted_opt(l2, "PART-HOLD-BACK"@, opt_encode(m.part_hold_back), "CAN-SKIP-DATERANGES"@);
    lemma_lookup_push_yes(l3, "CAN-BLOCK-RELOAD"@, m.can_block_reload, "CAN-SKIP-DATERANGES"@);
    lemma_lookup_push_unquoted_opt(Seq::<(Seq<char>, AttributeValueView)>::empty(), "CAN-SKIP-UNTIL"@, opt_encode(m.can_skip_until), "HOLD-BACK"@);
    lemma_lookup_push_yes(l0, "CAN-SKIP-DATERANGES"@, m.can_skip_dateranges, "HOLD-BACK"@);
    lemma_lookup_push_unquoted_opt(l1, "HOLD-BACK"@, opt_encode(m.hold_back), "HOLD-BACK"@);
    lemma_lookup_push_unquoted_opt(l2, "PART-HOLD-BACK"@, opt_encode(m.part_hold_back), "HOLD-BACK"@);
    lemma_lookup_push_yes(l3, "CAN-BLOCK-RELOAD"@, m.can_block_reload, "HOLD-BACK"@);
    lemma_lookup_push_unquoted_opt(Seq::<(Seq<char>, AttributeValueView)>::empty(), "CAN-SKIP-UNTIL"@, opt_encode(m.can_skip_until), "PART-HOLD-BACK"@);
    lemma_lookup_push_yes(l0, "CAN-SKIP-DATERANGES"@, m.can_skip_dateranges, "PART-HOLD-BACK"@);
    lemma_lookup_push_unquoted_opt(l1, "HOLD-BACK"@, opt_encode(m.hold_back), "PART-HOLD-BACK"@);
    lemma_lookup_push_unquoted_opt(l2, "PART-HOLD-BACK"@, opt_encode(m.part_hold_back), "PART-HOLD-BACK"@);
    lemma_lookup_push_yes(l3, "CAN-BLOCK-RELOAD"@, m.can_block_reload, "PART-HOLD-BACK"@);
    lemma_lookup_push_unquoted_opt(Seq::<(Seq<char>, AttributeValueView)>::empty(), "CAN-SKIP-UNTIL"@, opt_encode(m.can_skip_until), "CAN-BLOCK-RELOAD"@);
    lemma_lookup_push_yes(l0, "CAN-SKIP-DATERANGES"@, m.can_skip_dateranges, "CAN-BLOCK-RELOAD"@);
    lemma_lookup_push_unquoted_opt(l1, "HOLD-BACK"@, opt_encode(m.hold_back), "CAN-BLOCK-RELOAD"@);
    lemma_lookup_push_unquoted_opt(l2, "PART-HOLD-BACK"@, opt_encode(m.part_hold_back), "CAN-BLOCK-RELOAD"@);
    lemma_lookup_push_yes(l3, "CAN-BLOCK-RELOAD"@, m.can_block_reload, "CAN-BLOCK-RELOAD"@);
    if let Some(v) = m.can_skip_until {
        encode_utf8_valid_utf8(v);
        encode_utf8_decode_utf8(v);
    }
    assert(utf8_attr(l4, "CAN-SKIP-UNTIL"@) == m.can_skip_until);
    assert(yes_attr(l4, "CAN-SKIP-DATERANGES"@) == m.can_skip_dateranges);
    if let Some(v) = m.hold_back {
        encode_utf8_valid_utf8(v);
        encode_utf8_decode_utf8(v);
    }
    assert(utf8_attr(l4, "HOLD-BACK"@) == m.hold_back);
    if let Some(v) = m.part_hold_back {
        encode_utf8_valid_utf8(v);
        encode_utf8_decode_utf8(v);
    }
    assert(utf8_attr(l4, "PART-HOLD-BACK"@) == m.part_hold_back);
    assert(yes_attr(l4, "CAN-BLOCK-RELOAD"@) == m.can_block_reload);
}

/// Writing and then reading a server control tag with at least one attribute gives it back: its
/// line reads as its name with its attributes as the value, and that value reads as the
/// attributes, when no written number text is empty, starts with `"`, or holds a `,` or a line
/// feed.
pub proof fn lemma_server_control_reads_back(m: ServerControlAttributes)
    requires
        m.can_skip_until is Some || m.can_skip_dateranges || m.hold_back is Some
            || m.part_hold_back is Some || m.can_block_reload,
        m.can_skip_until matches Some(v) ==> unquoted_value_ok(encode_utf8(v)),
        m.hold_back matches Some(v) ==> unquoted_value_ok(encode_utf8(v)),
        m.part_hold_back matches Some(v) ==> unquoted_value_ok(encode_utf8(v)),
    ensures
        server_control_line(m) == line_start(TagName::ServerControl) + seq![58u8]
            + attribute_list_text(server_control_entries(m)),
        unknown::starts_with_ext(server_control_line(m)),
        unknown::tag_after_ext_spec(
            server_control_line(m).subrange(4, server_control_line(m).len() as int),
        ) == Ok::<(Seq<u8>, Option<Seq<u8>>, Option<Seq<u8>>), UnknownTagSyntaxError>((
            encode_utf8(tag_name_text(TagName::ServerControl)),
            Some(attribute_list_text(server_control_entries(m))),
            None,
        )),
        server_control_value_spec(Some(attribute_list_text(server_control_entries(m)))) == Ok::<
            ServerControlAttributes,
            ValidationError,
        >(m),
{
    let l = server_control_entries(m);
    let text = attribute_list_text(l);
    lemma_server_control_line_text(m);
    let rest = seq![58u8] + text;
    lemma_line_after_ext(TagName::ServerControl, rest);
    assert(server_control_line(m) =~= line_start(TagName::ServerControl) + rest);
    assert(encode_utf8(tag_name_text(TagName::ServerControl)) + rest =~= encode_utf8(
        tag_name_text(TagName::ServerControl),
    ) + seq![58u8] + text);
    lemma_tag_name_plain(TagName::ServerControl);
    lemma_server_control_ok(m);
    lemma_attribute_list_text_free_of_line_feed(l);
    unknown::lemma_read_written_tag(encode_utf8(tag_name_text(TagName::ServerControl)), text);
    assert(l.len() > 0);
    lemma_attribute_list_reads_back(l);
    lemma_attribute_list_text_kind(l);
    lemma_server_control_lookup(m);
}

} // verus!
