//! The `#EXT-X-DEFINE` tag.

use vstd::prelude::*;
use vstd::utf8::*;

use crate::error::{UnknownTagSyntaxError, ValidationError};
use crate::tag::hls::{
    lemma_line_start_free_of_line_feed, lemma_name_chars_bytes, lemma_no_line_feed_concat,
    lemma_quoted_attribute_free_of_line_feed, name_bytes,
    lemma_attribute_list_text_kind,
    typed_attribute_list_of, typed_attribute_list_spec, entries_ok, get_quoted,
    lemma_attribute_list_text_free_of_line_feed, lemma_entries_ok_one, lemma_entries_ok_push,
    lemma_line_after_ext, lemma_lookup_push, lemma_tag_name_plain, line_start,
    push_quoted_attribute, quoted_attr, quoted_attribute, quoted_value_ok, start_line,
    tag_name_text, value_bytes, TagName,
};
use crate::tag::known::TagInner;
use crate::tag::unknown;
use crate::tag::value::{
    attribute_list_text, attribute_text, lemma_attribute_list_reads_back,
    lemma_attribute_list_text_push, AttributeListView, AttributeValueView,
};
use crate::utils::{lemma_split_line_without_line_feed, split_line_spec, str_eq, string_from};

verus! {

/// The line of a `NAME`/`VALUE` definition: `#EXT-X-DEFINE:NAME="<name>",VALUE="<value>"`.
pub open spec fn name_line(name: Seq<char>, value: Seq<char>) -> Seq<u8> {
    line_start(TagName::Define) + seq![58u8] + quoted_attribute("NAME"@, name) + seq![44u8]
        + quoted_attribute("VALUE"@, value)
}

/// The line of an `IMPORT` definition: `#EXT-X-DEFINE:IMPORT="<import>"`.
pub open spec fn import_line(import: Seq<char>) -> Seq<u8> {
    line_start(TagName::Define) + seq![58u8] + quoted_attribute("IMPORT"@, import)
}

/// The line of a `QUERYPARAM` definition: `#EXT-X-DEFINE:QUERYPARAM="<queryparam>"`.
pub open spec fn queryparam_line(queryparam: Seq<char>) -> Seq<u8> {
    line_start(TagName::Define) + seq![58u8] + quoted_attribute("QUERYPARAM"@, queryparam)
}

/// A variable definition (`NAME` and `VALUE` attributes of `#EXT-X-DEFINE`).
#[derive(Debug, Clone)]
pub struct Name {
    name: String,
    value: String,
    output_line: Vec<u8>,
    output_line_is_dirty: bool,
}

fn calculate_name_line(name: &str, value: &str) -> (r: Vec<u8>)
    ensures
        r@ == name_line(name@, value@),
{
    let mut line = start_line(TagName::Define);
    line.push(58u8);
    push_quoted_attribute(&mut line, "NAME", name);
    line.push(44u8);
    push_quoted_attribute(&mut line, "VALUE", value);
    line
}

impl Name {
    /// The name and value of the variable.
    pub closed spec fn view(&self) -> (Seq<char>, Seq<char>) {
        (self.name@, self.value@)
    }

    /// The line that the definition writes: the parsed line until it is changed, then the line
    /// calculated from its attributes.
    pub closed spec fn output(&self) -> Seq<u8> {
        if self.output_line_is_dirty {
            name_line(self.name@, self.value@)
        } else {
            self.output_line@
        }
    }

    /// Constructs a new definition, which writes the line of its name and value.
    pub fn new(name: &str, value: &str) -> (r: Name)
        ensures
            r.view() == (name@, value@),
            r.output() == name_line(name@, value@),
    {
        Name {
            name: string_from(name),
            value: string_from(value),
            output_line: calculate_name_line(name, value),
            output_line_is_dirty: false,
        }
    }

    /// Consumes the definition and provides the line it writes.
    pub fn into_inner(self) -> (r: TagInner)
        ensures
            r.view() == self.output(),
    {
        if self.output_line_is_dirty {
            TagInner::from_line(calculate_name_line(self.name.as_str(), self.value.as_str()))
        } else {
            TagInner::from_line(self.output_line)
        }
    }

    /// The name of the variable.
    pub fn name(&self) -> (r: &str)
        ensures
            r@ == self.view().0,
    {
        self.name.as_str()
    }

    /// The value of the variable.
    pub fn value(&self) -> (r: &str)
        ensures
            r@ == self.view().1,
    {
        self.value.as_str()
    }

    /// Sets the name of the variable. From then on the definition writes the line of its current
    /// name and value.
    pub fn set_name(&mut self, name: &str)
        ensures
            final(self).view() == (name@, old(self).view().1),
            final(self).output() == name_line(final(self).view().0, final(self).view().1),
    {
        self.name = string_from(name);
        self.output_line_is_dirty = true;
    }

    /// Sets the value of the variable. From then on the definition writes the line of its current
    /// name and value.
    pub fn set_value(&mut self, value: &str)
        ensures
            final(self).view() == (old(self).view().0, value@),
            final(self).output() == name_line(final(self).view().0, final(self).view().1),
    {
        self.value = string_from(value);
        self.output_line_is_dirty = true;
    }
}

/// The line of a `NAME`/`VALUE` definition whose name and value hold no line feed is one line:
/// [`TagInner::value`] gives it whole, as `#EXT-X-DEFINE:NAME="<name>",VALUE="<value>"`.
pub proof fn lemma_name_line_is_one_line(name: Seq<char>, value: Seq<char>)
    requires
        unknown::no_line_feed(encode_utf8(name)),
        unknown::no_line_feed(encode_utf8(value)),
    ensures
        split_line_spec(name_line(name, value)).0 == name_line(name, value),
{
    reveal_strlit("NAME");
    reveal_strlit("VALUE");
    lemma_name_chars_bytes("NAME"@);
    lemma_name_chars_bytes("VALUE"@);
    assert(unknown::no_line_feed(encode_utf8("NAME"@))) by {
        assert forall|i: int| 0 <= i < encode_utf8("NAME"@).len() implies encode_utf8("NAME"@)[i]
            != 10u8 by {
            assert(name_bytes(encode_utf8("NAME"@)));
        }
    }
    assert(unknown::no_line_feed(encode_utf8("VALUE"@))) by {
        assert forall|i: int| 0 <= i < encode_utf8("VALUE"@).len() implies encode_utf8("VALUE"@)[i]
            != 10u8 by {
            assert(name_bytes(encode_utf8("VALUE"@)));
        }
    }
    lemma_line_start_free_of_line_feed(TagName::Define);
    lemma_quoted_attribute_free_of_line_feed("NAME"@, name);
    lemma_quoted_attribute_free_of_line_feed("VALUE"@, value);
    let a = line_start(TagName::Define) + seq![58u8];
    lemma_no_line_feed_concat(line_start(TagName::Define), seq![58u8]);
    let b = a + quoted_attribute("NAME"@, name);
    lemma_no_line_feed_concat(a, quoted_attribute("NAME"@, name));
    lemma_no_line_feed_concat(b, seq![44u8]);
    lemma_no_line_feed_concat(b + seq![44u8], quoted_attribute("VALUE"@, value));
    lemma_split_line_without_line_feed(name_line(name, value));
}

/// An import of a variable from the multivariant playlist (`IMPORT` attribute of
/// `#EXT-X-DEFINE`).
#[derive(Debug, Clone)]
pub struct Import {
    import: String,
    output_line: Vec<u8>,
    output_line_is_dirty: bool,
}

fn calculate_import_line(import: &str) -> (r: Vec<u8>)
    ensures
        r@ == import_line(import@),
{
    let mut line = start_line(TagName::Define);
    line.push(58u8);
    push_quoted_attribute(&mut line, "IMPORT", import);
    line
}

impl Import {
    /// The name of the imported variable.
    pub closed spec fn view(&self) -> Seq<char> {
        self.import@
    }

    /// The line that the import writes: the parsed line until it is changed, then the line
    /// calculated from its attribute.
    pub closed spec fn output(&self) -> Seq<u8> {
        if self.output_line_is_dirty {
            import_line(self.import@)
        } else {
            self.output_line@
        }
    }

    /// Constructs a new import.
    pub fn new(import: &str) -> (r: Import)
        ensures
            r.view() == import@,
            r.output() == import_line(import@),
    {
        Import {
            import: string_from(import),
            output_line: calculate_import_line(import),
            output_line_is_dirty: false,
        }
    }

    /// Consumes the import and provides the line it writes.
    pub fn into_inner(self) -> (r: TagInner)
        ensures
            r.view() == self.output(),
    {
        if self.output_line_is_dirty {
            TagInner::from_line(calculate_import_line(self.import.as_str()))
        } else {
            TagInner::from_line(self.output_line)
        }
    }

    /// The name of the imported variable.
    pub fn import(&self) -> (r: &str)
        ensures
            r@ == self.view(),
    {
        self.import.as_str()
    }

    /// Sets the name of the imported variable.
    pub fn set_import(&mut self, import: &str)
        ensures
            final(self).view() == import@,
            final(self).output() == import_line(import@),
    {
        self.import = string_from(import);
        self.output_line_is_dirty = true;
    }
}

/// A variable taken from the query parameters of the playlist URI (`QUERYPARAM` attribute of
/// `#EXT-X-DEFINE`).
#[derive(Debug, Clone)]
pub struct Queryparam {
    queryparam: String,
    output_line: Vec<u8>,
    output_line_is_dirty: bool,
}

fn calculate_queryparam_line(queryparam: &str) -> (r: Vec<u8>)
    ensures
        r@ == queryparam_line(queryparam@),
{
    let mut line = start_line(TagName::Define);
    line.push(58u8);
    push_quoted_attribute(&mut line, "QUERYPARAM", queryparam);
    line
}

impl Queryparam {
    /// The name of the query parameter.
    pub closed spec fn view(&self) -> Seq<char> {
        self.queryparam@
    }

    /// The line that the definition writes: the parsed line until it is changed, then the line
    /// calculated from its attribute.
    pub closed spec fn output(&self) -> Seq<u8> {
        if self.output_line_is_dirty {
            queryparam_line(self.queryparam@)
        } else {
            self.output_line@
        }
    }

    /// Constructs a new query parameter definition.
    pub fn new(queryparam: &str) -> (r: Queryparam)
        ensures
            r.view() == queryparam@,
            r.output() == queryparam_line(queryparam@),
    {
        Queryparam {
            queryparam: string_from(queryparam),
            output_line: calculate_queryparam_line(queryparam),
            output_line_is_dirty: false,
        }
    }

    /// Consumes the definition and provides the line it writes.
    pub fn into_inner(self) -> (r: TagInner)
        ensures
            r.view() == self.output(),
    {
        if self.output_line_is_dirty {
            TagInner::from_line(calculate_queryparam_line(self.queryparam.as_str()))
        } else {
            TagInner::from_line(self.output_line)
        }
    }

    /// The name of the query parameter.
    pub fn queryparam(&self) -> (r: &str)
        ensures
            r@ == self.view(),
    {
        self.queryparam.as_str()
    }

    /// Sets the name of the query parameter.
    pub fn set_queryparam(&mut self, queryparam: &str)
        ensures
            final(self).view() == queryparam@,
            final(self).output() == queryparam_line(queryparam@),
    {
        self.queryparam = string_from(queryparam);
        self.output_line_is_dirty = true;
    }
}

/// Corresponds to the `#EXT-X-DEFINE` tag.
///
/// <https://datatracker.ietf.org/doc/html/draft-pantos-hls-rfc8216bis-17#section-4.4.2.3>
#[derive(Debug, Clone, PartialEq)]
pub enum Define {
    /// A variable with its value (`NAME` and `VALUE`).
    Name(Name),
    /// A variable imported from the multivariant playlist (`IMPORT`).
    Import(Import),
    /// A variable taken from a query parameter (`QUERYPARAM`).
    Queryparam(Queryparam),
}

/// The abstract content of a definition.
pub enum DefineView {
    /// A variable with its value.
    Name(Seq<char>, Seq<char>),
    /// An imported variable.
    Import(Seq<char>),
    /// A query parameter.
    Queryparam(Seq<char>),
}

/// The definition that an attribute list describes: `NAME` (which then needs `VALUE`) comes
/// first, then `IMPORT`, then `QUERYPARAM`.
pub open spec fn define_spec(list: AttributeListView) -> Result<DefineView, ValidationError> {
    match quoted_attr(list, "NAME"@) {
        Some(name) => match quoted_attr(list, "VALUE"@) {
            Some(value) => Ok(DefineView::Name(name, value)),
            None => Err(ValidationError::MissingRequiredAttribute("VALUE")),
        },
        None => match quoted_attr(list, "IMPORT"@) {
            Some(import) => Ok(DefineView::Import(import)),
            None => match quoted_attr(list, "QUERYPARAM"@) {
                Some(q) => Ok(DefineView::Queryparam(q)),
                None => Err(ValidationError::MissingRequiredAttribute("NAME")),
            },
        },
    }
}

/// The definition that a tag value describes.
pub open spec fn define_value_spec(value: Option<Seq<u8>>) -> Result<DefineView, ValidationError> {
    match typed_attribute_list_spec(value) {
        Ok(list) => define_spec(list),
        Err(e) => Err(e),
    }
}

/// The line that a definition writes when calculated from its attributes.
pub open spec fn define_line(d: DefineView) -> Seq<u8> {
    match d {
        DefineView::Name(n, v) => name_line(n, v),
        DefineView::Import(i) => import_line(i),
        DefineView::Queryparam(q) => queryparam_line(q),
    }
}

impl Define {
    /// The abstract content of the definition.
    pub open spec fn view(&self) -> DefineView {
        match self {
            Define::Name(n) => DefineView::Name(n.view().0, n.view().1),
            Define::Import(i) => DefineView::Import(i.view()),
            Define::Queryparam(q) => DefineView::Queryparam(q.view()),
        }
    }

    /// The line that the definition writes.
    pub open spec fn output(&self) -> Seq<u8> {
        match self {
            Define::Name(n) => n.output(),
            Define::Import(i) => i.output(),
            Define::Queryparam(q) => q.output(),
        }
    }

    /// Reads the tag from a parsed tag line, whose value must be an attribute list.
    pub fn try_from(tag: unknown::Tag) -> (r: Result<Define, ValidationError>)
        ensures
            match define_value_spec(value_bytes(tag)) {
                Ok(v) => r matches Ok(d) && d.view() == v && d.output() == tag.original_input@,
                Err(e) => r == Err::<Define, ValidationError>(e),
            },
    {
        let list = typed_attribute_list_of(&tag)?;
        let mut output_line: Vec<u8> = Vec::new();
        crate::utils::push_bytes(&mut output_line, tag.original_input);
        if let Some(name) = get_quoted(&list, "NAME") {
            if let Some(value) = get_quoted(&list, "VALUE") {
                Ok(
                    Define::Name(
                        Name {
                            name: string_from(name),
                            value: string_from(value),
                            output_line,
                            output_line_is_dirty: false,
                        },
                    ),
                )
            } else {
                Err(ValidationError::MissingRequiredAttribute("VALUE"))
            }
        } else if let Some(import) = get_quoted(&list, "IMPORT") {
            Ok(
                Define::Import(
                    Import { import: string_from(import), output_line, output_line_is_dirty: false },
                ),
            )
        } else if let Some(queryparam) = get_quoted(&list, "QUERYPARAM") {
            Ok(
                Define::Queryparam(
                    Queryparam {
                        queryparam: string_from(queryparam),
                        output_line,
                        output_line_is_dirty: false,
                    },
                ),
            )
        } else {
            Err(ValidationError::MissingRequiredAttribute("NAME"))
        }
    }

    /// Constructs a variable definition with its value.
    pub fn new_name(name: &str, value: &str) -> (r: Define)
        ensures
            r.view() == DefineView::Name(name@, value@),
            r.output() == name_line(name@, value@),
    {
        Define::Name(Name::new(name, value))
    }

    /// Constructs an import.
    pub fn new_import(import: &str) -> (r: Define)
        ensures
            r.view() == DefineView::Import(import@),
            r.output() == import_line(import@),
    {
        Define::Import(Import::new(import))
    }

    /// Constructs a query parameter definition.
    pub fn new_queryparam(queryparam: &str) -> (r: Define)
        ensures
            r.view() == DefineView::Queryparam(queryparam@),
            r.output() == queryparam_line(queryparam@),
    {
        Define::Queryparam(Queryparam::new(queryparam))
    }

    /// The name of the variable, for a `NAME` definition.
    pub fn name(&self) -> (r: Option<&str>)
        ensures
            match self.view() {
                DefineView::Name(n, _) => r matches Some(s) && s@ == n,
                _ => r is None,
            },
    {
        match self {
            Define::Name(name) => Some(name.name()),
            _ => None,
        }
    }

    /// The value of the variable, for a `NAME` definition.
    pub fn value(&self) -> (r: Option<&str>)
        ensures
            match self.view() {
                DefineView::Name(_, v) => r matches Some(s) && s@ == v,
                _ => r is None,
            },
    {
        match self {
            Define::Name(name) => Some(name.value()),
            _ => None,
        }
    }

    /// The imported variable, for an `IMPORT` definition.
    pub fn import(&self) -> (r: Option<&str>)
        ensures
            match self.view() {
                DefineView::Import(i) => r matches Some(s) && s@ == i,
                _ => r is None,
            },
    {
        match self {
            Define::Import(import) => Some(import.import()),
            _ => None,
        }
    }

    /// The query parameter, for a `QUERYPARAM` definition.
    pub fn queryparam(&self) -> (r: Option<&str>)
        ensures
            match self.view() {
                DefineView::Queryparam(q) => r matches Some(s) && s@ == q,
                _ => r is None,
            },
    {
        match self {
            Define::Queryparam(queryparam) => Some(queryparam.queryparam()),
            _ => None,
        }
    }

    /// Makes the tag a `NAME` definition.
    pub fn set_name_and_value(&mut self, name: &str, value: &str)
        ensures
            final(self).view() == DefineView::Name(name@, value@),
            final(self).output() == name_line(name@, value@),
    {
        *self = Define::new_name(name, value);
    }

    /// Makes the tag an `IMPORT` definition.
    pub fn set_import(&mut self, import: &str)
        ensures
            final(self).view() == DefineView::Import(import@),
            final(self).output() == import_line(import@),
    {
        *self = Define::new_import(import);
    }

    /// Makes the tag a `QUERYPARAM` definition.
    pub fn set_queryparam(&mut self, queryparam: &str)
        ensures
            final(self).view() == DefineView::Queryparam(queryparam@),
            final(self).output() == queryparam_line(queryparam@),
    {
        *self = Define::new_queryparam(queryparam);
    }

    /// Consumes the tag and provides the line it writes.
    pub fn into_inner(self) -> (r: TagInner)
        ensures
            r.view() == self.output(),
    {
        match self {
            Define::Name(name) => name.into_inner(),
            Define::Import(import) => import.into_inner(),
            Define::Queryparam(queryparam) => queryparam.into_inner(),
        }
    }
}

impl PartialEq for Name {
    fn eq(&self, other: &Self) -> (r: bool) {
        str_eq(self.name.as_str(), other.name.as_str()) && str_eq(
            self.value.as_str(),
            other.value.as_str(),
        )
    }
}

impl vstd::std_specs::cmp::PartialEqSpecImpl for Name {
    open spec fn obeys_eq_spec() -> bool {
        true
    }

    open spec fn eq_spec(&self, other: &Self) -> bool {
        self.view() == other.view()
    }
}

impl PartialEq for Import {
    fn eq(&self, other: &Self) -> (r: bool) {
        str_eq(self.import.as_str(), other.import.as_str())
    }
}

impl vstd::std_specs::cmp::PartialEqSpecImpl for Import {
    open spec fn obeys_eq_spec() -> bool {
        true
    }

    open spec fn eq_spec(&self, other: &Self) -> bool {
        self.view() == other.view()
    }
}

impl PartialEq for Queryparam {
    fn eq(&self, other: &Self) -> (r: bool) {
        str_eq(self.queryparam.as_str(), other.queryparam.as_str())
    }
}

impl vstd::std_specs::cmp::PartialEqSpecImpl for Queryparam {
    open spec fn obeys_eq_spec() -> bool {
        true
    }

    open spec fn eq_spec(&self, other: &Self) -> bool {
        self.view() == other.view()
    }
}

/// The attributes of a definition in the order in which its line writes them.
pub open spec fn define_entries(d: DefineView) -> AttributeListView {
    match d {
        DefineView::Name(n, v) => seq![
            ("NAME"@, AttributeValueView::Quoted(n)),
            ("VALUE"@, AttributeValueView::Quoted(v)),
        ],
        DefineView::Import(i) => seq![("IMPORT"@, AttributeValueView::Quoted(i))],
        DefineView::Queryparam(q) => seq![("QUERYPARAM"@, AttributeValueView::Quoted(q))],
    }
}

/// Whether every value of a definition can be written in quotes so that it reads back.
pub open spec fn define_values_ok(d: DefineView) -> bool {
    match d {
        DefineView::Name(n, v) => quoted_value_ok(n) && quoted_value_ok(v),
        DefineView::Import(i) => quoted_value_ok(i),
        DefineView::Queryparam(q) => quoted_value_ok(q),
    }
}

proof fn lemma_define_entries(d: DefineView)
    requires
        define_values_ok(d),
    ensures
        define_line(d) == line_start(TagName::Define) + seq![58u8] + attribute_list_text(
            define_entries(d),
        ),
        entries_ok(define_entries(d)),
        define_spec(define_entries(d)) == Ok::<DefineView, ValidationError>(d),
{
    reveal_strlit("NAME");
    reveal_strlit("VALUE");
    reveal_strlit("IMPORT");
    reveal_strlit("QUERYPARAM");
    assert("NAME"@.len() != "VALUE"@.len());
    assert("NAME"@.len() != "IMPORT"@.len());
    assert("NAME"@.len() != "QUERYPARAM"@.len());
    assert("IMPORT"@.len() != "QUERYPARAM"@.len());
    assert("VALUE"@.len() != "IMPORT"@.len());
    assert("VALUE"@.len() != "QUERYPARAM"@.len());
    let l = define_entries(d);
    let empty = Seq::<(Seq<char>, AttributeValueView)>::empty();
    match d {
        DefineView::Name(n, v) => {
            let e0 = ("NAME"@, AttributeValueView::Quoted(n));
            let e1 = ("VALUE"@, AttributeValueView::Quoted(v));
            let l0 = seq![e0];
            assert(l0.push(e1) =~= l);
            lemma_attribute_list_text_push(l0, e1);
            assert(attribute_list_text(l0) =~= quoted_attribute("NAME"@, n));
            assert(attribute_text(e1) =~= quoted_attribute("VALUE"@, v));
            assert(define_line(d) =~= line_start(TagName::Define) + seq![58u8] + attribute_list_text(l));
            lemma_entries_ok_one("NAME"@, AttributeValueView::Quoted(n));
            lemma_entries_ok_push(l0, "VALUE"@, AttributeValueView::Quoted(v));
            assert(empty.push(e0) =~= l0);
            lemma_lookup_push(empty, e0, "NAME"@);
            lemma_lookup_push(empty, e0, "VALUE"@);
            lemma_lookup_push(l0, e1, "NAME"@);
            lemma_lookup_push(l0, e1, "VALUE"@);
        },
        DefineView::Import(i) => {
            let e0 = ("IMPORT"@, AttributeValueView::Quoted(i));
            assert(attribute_list_text(l) =~= quoted_attribute("IMPORT"@, i));
            assert(define_line(d) =~= line_start(TagName::Define) + seq![58u8] + attribute_list_text(l));
            lemma_entries_ok_one("IMPORT"@, AttributeValueView::Quoted(i));
            assert(empty.push(e0) =~= l);
            lemma_lookup_push(empty, e0, "NAME"@);
            lemma_lookup_push(empty, e0, "IMPORT"@);
        },
        DefineView::Queryparam(q) => {
            let e0 = ("QUERYPARAM"@, AttributeValueView::Quoted(q));
            assert(attribute_list_text(l) =~= quoted_attribute("QUERYPARAM"@, q));
            assert(define_line(d) =~= line_start(TagName::Define) + seq![58u8] + attribute_list_text(l));
            lemma_entries_ok_one("QUERYPARAM"@, AttributeValueView::Quoted(q));
            assert(empty.push(e0) =~= l);
            lemma_lookup_push(empty, e0, "NAME"@);
            lemma_lookup_push(empty, e0, "IMPORT"@);
            lemma_lookup_push(empty, e0, "QUERYPARAM"@);
        },
    }
}

/// Writing and then reading a definition gives it back: its line reads as the tag's name with its
/// attributes as the value, and that value reads as the definition, when no value holds a `"` or a
/// line feed.
pub proof fn lemma_define_reads_back(d: DefineView)
    requires
        define_values_ok(d),
    ensures
        define_line(d) == line_start(TagName::Define) + seq![58u8] + attribute_list_text(
            define_entries(d),
        ),
        unknown::starts_with_ext(define_line(d)),
        unknown::tag_after_ext_spec(define_line(d).subrange(4, define_line(d).len() as int)) == Ok::<
            (Seq<u8>, Option<Seq<u8>>, Option<Seq<u8>>),
            UnknownTagSyntaxError,
        >(
            (
                encode_utf8(tag_name_text(TagName::Define)),
                Some(attribute_list_text(define_entries(d))),
                None,
            ),
        ),
        define_value_spec(Some(attribute_list_text(define_entries(d)))) == Ok::<
            DefineView,
            ValidationError,
        >(d),
{
    let l = define_entries(d);
    let text = attribute_list_text(l);
    lemma_define_entries(d);
    let rest = seq![58u8] + text;
    lemma_line_after_ext(TagName::Define, rest);
    assert(define_line(d) =~= line_start(TagName::Define) + rest);
    assert(encode_utf8(tag_name_text(TagName::Define)) + rest =~= encode_utf8(
        tag_name_text(TagName::Define),
    ) + seq![58u8] + text);
    lemma_tag_name_plain(TagName::Define);
    lemma_attribute_list_text_free_of_line_feed(l);
    unknown::lemma_read_written_tag(encode_utf8(tag_name_text(TagName::Define)), text);
    lemma_attribute_list_reads_back(l);
    lemma_attribute_list_text_kind(l);
}

} // verus!
