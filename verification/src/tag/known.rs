//! What every known tag has in common: the line it writes.

use vstd::prelude::*;

use vstd::string::StringSliceAdditionalSpecFns;
use vstd::utf8::*;

use crate::date::{date_time_text, push_date_time};
use crate::error::ValidationError;
use crate::tag::hls::{tag_line_read, tag_name_of, TagLine};
use crate::tag::unknown;
use crate::tag::value::{
    attribute_list_spec, attribute_list_text, attribute_text, lemma_attribute_list_reads_back,
    lemma_attribute_list_text_push, writable_attribute_entry, AttributeListView,
    AttributeValueView, WritableAttributeValue, WritableTagValue,
};
use crate::utils::{dec, push_str, push_u64, split_line_spec, split_on_new_line};

verus! {

/// The line that a tag writes.
///
/// For a tag that was parsed and never changed this is the original input from the start of the
/// tag line (it may run past the end of the line, see [`Self::value`]); for a tag that was built
/// or changed it is the line calculated from the tag's attributes.
#[derive(Debug, Clone)]
pub struct TagInner {
    output_line: Vec<u8>,
}

impl TagInner {
    /// The bytes that the tag writes (possibly followed by the rest of the playlist).
    pub closed spec fn view(&self) -> Seq<u8> {
        self.output_line@
    }

    /// Wraps the bytes of an output line.
    pub fn from_line(line: Vec<u8>) -> (r: TagInner)
        ensures
            r.view() == line@,
    {
        TagInner { output_line: line }
    }

    /// The bytes of this tag's line only: everything up to (and not including) the first line
    /// ending.
    pub fn value(&self) -> (r: &[u8])
        ensures
            r@ == split_line_spec(self.view()).0,
    {
        split_on_new_line(self.output_line.as_slice()).parsed
    }
}

/// The ability to give up a tag for the line it writes.
pub trait IntoInnerTag: Sized {
    /// Consumes the tag and provides the line it writes.
    fn into_inner(self) -> TagInner;
}

/// The text that an attribute value of a custom tag writes after its `=`.
pub open spec fn writable_attribute_text(v: WritableAttributeValue) -> Seq<u8> {
    match v {
        WritableAttributeValue::DecimalInteger(n) => dec(n as nat),
        WritableAttributeValue::SignedDecimalFloatingPoint(t) => encode_utf8(t@),
        WritableAttributeValue::DecimalResolution(r) => dec(r.width as nat) + seq![120u8] + dec(
            r.height as nat,
        ),
        WritableAttributeValue::QuotedString(q) => seq![34u8] + encode_utf8(q@) + seq![34u8],
        WritableAttributeValue::UnquotedString(u) => encode_utf8(u@),
    }
}

/// One attribute of a custom tag as written: `<name>=<value>`.
pub open spec fn writable_attribute(a: (String, WritableAttributeValue)) -> Seq<u8> {
    encode_utf8(a.0@) + seq![61u8] + writable_attribute_text(a.1)
}

/// The attributes of a custom tag as written: each as `<name>=<value>`, separated by commas.
pub open spec fn writable_attributes(list: Seq<(String, WritableAttributeValue)>) -> Seq<u8>
    decreases list.len(),
{
    if list.len() == 0 {
        Seq::empty()
    } else if list.len() == 1 {
        writable_attribute(list[0])
    } else {
        writable_attributes(list.drop_last()) + seq![44u8] + writable_attribute(list.last())
    }
}

/// The line that a custom tag writes: `#EXT`, its name, and, unless the value is empty, `:` and
/// the value.
pub open spec fn writable_line(tag: WritableTag) -> Seq<u8> {
    let head = "#EXT".spec_bytes() + encode_utf8(tag.name@);
    match tag.value {
        WritableTagValue::Empty => head,
        WritableTagValue::DecimalFloatingPointWithOptionalTitle(n, t) => if t@.len() == 0 {
            head + seq![58u8] + encode_utf8(n@)
        } else {
            head + seq![58u8] + encode_utf8(n@) + seq![44u8] + encode_utf8(t@)
        },
        WritableTagValue::DecimalInteger(n) => head + seq![58u8] + dec(n as nat),
        WritableTagValue::DecimalIntegerRange(n, o) => match o {
            Some(o) => head + seq![58u8] + dec(n as nat) + seq![64u8] + dec(o as nat),
            None => head + seq![58u8] + dec(n as nat),
        },
        WritableTagValue::DateTime(d) => head + seq![58u8] + date_time_text(d),
        WritableTagValue::AttributeList(list) => head + seq![58u8] + writable_attributes(list@),
        WritableTagValue::Utf8(u) => head + seq![58u8] + encode_utf8(u@),
    }
}

/// A tag as a custom tag writes it: a name and a value, independent of any parsed input.
#[derive(Debug, PartialEq, Clone)]
pub struct WritableTag {
    /// The name of the tag: everything after the `#EXT` prefix and before the `:` or the end of
    /// the line (`M3U` for `#EXTM3U`, `-X-VERSION` for `#EXT-X-VERSION:3`).
    pub name: String,
    /// The value of the tag.
    pub value: WritableTagValue,
}

impl WritableTag {
    /// Creates a new tag.
    pub fn new(name: &str, value: WritableTagValue) -> (r: WritableTag)
        ensures
            r.name@ == name@,
            r.value == value,
    {
        WritableTag { name: name.to_string(), value }
    }
}

/// Appends the text of an attribute value to `line`.
fn push_writable_attribute_value(line: &mut Vec<u8>, v: &WritableAttributeValue)
    ensures
        final(line)@ == old(line)@ + writable_attribute_text(*v),
{
    match v {
        WritableAttributeValue::DecimalInteger(n) => push_u64(line, *n),
        WritableAttributeValue::SignedDecimalFloatingPoint(t) => push_str(line, t.as_str()),
        WritableAttributeValue::DecimalResolution(r) => {
            push_u64(line, r.width);
            line.push(120u8);
            push_u64(line, r.height);
        },
        WritableAttributeValue::QuotedString(q) => {
            line.push(34u8);
            push_str(line, q.as_str());
            line.push(34u8);
        },
        WritableAttributeValue::UnquotedString(u) => push_str(line, u.as_str()),
    }
    proof {
        assert(final(line)@ =~= old(line)@ + writable_attribute_text(*v));
    }
}

/// Appends the attributes of a custom tag to `line`.
fn push_writable_attributes(line: &mut Vec<u8>, list: &Vec<(String, WritableAttributeValue)>)
    ensures
        final(line)@ == old(line)@ + writable_attributes(list@),
{
    let ghost start = line@;
    let n = list.len();
    let mut i: usize = 0;
    proof {
        assert(list@.take(0) =~= Seq::<(String, WritableAttributeValue)>::empty());
        assert(line@ =~= start + writable_attributes(list@.take(0)));
    }
    while i < n
        invariant
            i <= n == list@.len(),
            start == old(line)@,
            line@ == start + writable_attributes(list@.take(i as int)),
        decreases n - i,
    {
        let ghost before = line@;
        if i > 0 {
            line.push(44u8);
        }
        let (name, value) = &list[i];
        push_str(line, name.as_str());
        line.push(61u8);
        push_writable_attribute_value(line, value);
        proof {
            let t = list@.take(i + 1);
            assert(t.drop_last() =~= list@.take(i as int));
            assert(t.last() == list@[i as int]);
            assert(writable_attribute(list@[i as int]) == encode_utf8(name@) + seq![61u8]
                + writable_attribute_text(*value));
            if i == 0 {
                assert(line@ =~= start + writable_attributes(t));
            } else {
                assert(line@ =~= start + writable_attributes(t));
            }
        }
        i += 1;
    }
    proof {
        assert(list@.take(n as int) =~= list@);
    }
}

/// Writes the line of a custom tag.
pub fn calculate_output(tag: &WritableTag) -> (r: Vec<u8>)
    ensures
        r@ == writable_line(*tag),
{
    let mut line: Vec<u8> = Vec::new();
    push_str(&mut line, "#EXT");
    push_str(&mut line, tag.name.as_str());
    let ghost head = line@;
    match &tag.value {
        WritableTagValue::Empty => {},
        WritableTagValue::DecimalFloatingPointWithOptionalTitle(n, t) => {
            line.push(58u8);
            push_str(&mut line, n.as_str());
            if !t.as_str().is_empty() {
                line.push(44u8);
                push_str(&mut line, t.as_str());
            }
        },
        WritableTagValue::DecimalInteger(n) => {
            line.push(58u8);
            push_u64(&mut line, *n);
        },
        WritableTagValue::DecimalIntegerRange(n, o) => {
            line.push(58u8);
            push_u64(&mut line, *n);
            if let Some(o) = o {
                line.push(64u8);
                push_u64(&mut line, *o);
            }
        },
        WritableTagValue::DateTime(d) => {
            line.push(58u8);
            push_date_time(&mut line, d);
        },
        WritableTagValue::AttributeList(list) => {
            line.push(58u8);
            push_writable_attributes(&mut line, list);
        },
        WritableTagValue::Utf8(u) => {
            line.push(58u8);
            push_str(&mut line, u.as_str());
        },
    }
    proof {
        assert(line@ =~= writable_line(*tag));
    }
    line
}

/// A tag that the user of the library defines (one that the HLS specification does not).
///
/// A tag line whose name (everything after `#EXT` and before `:`) passes [`Self::is_known_name`]
/// is read with [`Self::try_from_tag`] in place of being read as one of the tags of the HLS
/// specification.
///
/// An impl may state which names it knows in [`Self::known_name`] and what it reads in
/// [`Self::read`], and say so in [`Self::obeys_custom_tag_spec`]; the library then states what it
/// reads from a line with that in mind. An impl that keeps the defaults is promised nothing by
/// those statements.
pub trait CustomTag<'a>: Sized {
    /// Whether [`Self::known_name`] and [`Self::read`] state what [`Self::is_known_name`] and
    /// [`Self::try_from_tag`] give.
    open spec fn obeys_custom_tag_spec() -> bool {
        false
    }

    /// Whether `name` is a name of this custom tag, where `obeys_custom_tag_spec` holds.
    open spec fn known_name(name: Seq<char>) -> bool {
        false
    }

    /// What reading the custom tag from the tag line `tag` gives, where `obeys_custom_tag_spec`
    /// holds.
    open spec fn read(tag: unknown::Tag<'a>) -> Result<Self, ValidationError> {
        Err(ValidationError::NotImplemented)
    }

    /// Whether `name` is the name of this custom tag; only then is reading it attempted.
    fn is_known_name(name: &str) -> (r: bool)
        ensures
            Self::obeys_custom_tag_spec() ==> r == Self::known_name(name@),
    ;

    /// Reads the custom tag from a parsed tag line.
    fn try_from_tag(tag: unknown::Tag<'a>) -> (r: Result<Self, ValidationError>)
        ensures
            Self::obeys_custom_tag_spec() ==> r == Self::read(tag),
    ;
}

/// A custom tag that can be written.
///
/// An impl may state the tag that each value writes in [`Self::writable`], and say so in
/// [`Self::obeys_writable_spec`]; an impl that keeps the defaults is promised nothing by it.
pub trait WritableCustomTag<'a>: CustomTag<'a> {
    /// Whether [`Self::writable`] states what [`Self::into_writable_tag`] gives.
    open spec fn obeys_writable_spec() -> bool {
        false
    }

    /// The tag that the value writes, where `obeys_writable_spec` holds.
    open spec fn writable(&self) -> WritableTag {
        vstd::pervasive::arbitrary()
    }

    /// Consumes the custom tag and provides the tag to write.
    ///
    /// This is only used for a tag that was mutably borrowed (see [`CustomTagAccess::as_mut`]);
    /// a tag that never was writes its original input.
    fn into_writable_tag(self) -> (r: WritableTag)
        ensures
            Self::obeys_writable_spec() ==> r == self.writable(),
    ;
}

impl<'a, Custom: WritableCustomTag<'a>> IntoInnerTag for Custom {
    fn into_inner(self) -> TagInner {
        TagInner::from_line(calculate_output(&self.into_writable_tag()))
    }
}

/// A custom tag together with the input it was read from, which records whether the custom tag
/// was ever mutably borrowed.
///
/// As long as it was not, [`Self::into_inner`] gives the original input, with no new line
/// calculated.
#[derive(Debug, PartialEq, Clone)]
pub struct CustomTagAccess<'a, Custom: CustomTag<'a>> {
    custom_tag: Custom,
    is_dirty: bool,
    original_input: &'a [u8],
}

impl<'a, Custom: CustomTag<'a>> CustomTagAccess<'a, Custom> {
    /// The custom tag.
    pub closed spec fn custom(&self) -> Custom {
        self.custom_tag
    }

    /// Whether the custom tag was ever mutably borrowed.
    pub closed spec fn is_dirty(&self) -> bool {
        self.is_dirty
    }

    /// The input that the custom tag was read from.
    pub closed spec fn original_input(&self) -> Seq<u8> {
        self.original_input@
    }

    /// Reads the custom tag from a parsed tag line: what the custom tag's
    /// [`CustomTag::try_from_tag`] gives back, as [`Self::from_read`] takes it, with the line's
    /// input.
    pub fn try_from(tag: unknown::Tag<'a>) -> (r: Result<Self, ValidationError>)
        ensures
            r matches Ok(a) ==> !a.is_dirty() && a.original_input() == tag.original_input@,
            Custom::obeys_custom_tag_spec() ==> match Custom::read(tag) {
                Ok(c) => r matches Ok(a) && a.custom() == c,
                Err(e) => r == Err::<Self, ValidationError>(e),
            },
    {
        let original_input = tag.original_input;
        let read = Custom::try_from_tag(tag);
        Self::from_read(original_input, read)
    }

    /// Takes what reading a custom tag from the input `original_input` gave: the custom tag, not
    /// yet mutably borrowed, with that input, or the error of the reading.
    pub fn from_read(original_input: &'a [u8], read: Result<Custom, ValidationError>) -> (r: Result<
        Self,
        ValidationError,
    >)
        ensures
            match read {
                Ok(c) => r matches Ok(a) && a.custom() == c && !a.is_dirty() && a.original_input()
                    == original_input@,
                Err(e) => r == Err::<Self, ValidationError>(e),
            },
    {
        match read {
            Ok(custom_tag) => Ok(CustomTagAccess { custom_tag, is_dirty: false, original_input }),
            Err(e) => Err(e),
        }
    }

    /// Borrows the custom tag.
    pub fn as_ref(&self) -> (r: &Custom)
        ensures
            *r == self.custom(),
    {
        &self.custom_tag
    }

    /// Mutably borrows the custom tag; from then on the tag writes the line that its
    /// [`WritableCustomTag::into_writable_tag`] gives.
    pub fn as_mut(&mut self) -> (r: &mut Custom)
        ensures
            *r == old(self).custom(),
            final(self).custom() == *final(r),
            final(self).is_dirty(),
            final(self).original_input() == old(self).original_input(),
    {
        self.is_dirty = true;
        &mut self.custom_tag
    }
}

impl<'a, Custom: WritableCustomTag<'a>> CustomTagAccess<'a, Custom> {
    /// Consumes the access and provides the line the custom tag writes: its original input if it
    /// was never mutably borrowed, else the line of the tag that it gives to write.
    pub fn into_inner(self) -> (r: TagInner)
        ensures
            !self.is_dirty() ==> r.view() == self.original_input(),
            self.is_dirty() ==> exists|w: WritableTag| r.view() == writable_line(w),
            self.is_dirty() && Custom::obeys_writable_spec() ==> r.view() == writable_line(
                self.custom().writable(),
            ),
    {
        if self.is_dirty {
            let w = self.custom_tag.into_writable_tag();
            let line = calculate_output(&w);
            TagInner::from_line(line)
        } else {
            let mut line: Vec<u8> = Vec::new();
            crate::utils::push_bytes(&mut line, self.original_input);
            TagInner::from_line(line)
        }
    }
}

/// The custom tag for when there is none: no name is known to it, so it is never read.
#[derive(Debug, PartialEq, Eq, Structural, Clone, Copy)]
pub struct NoCustomTag;

impl<'a> CustomTag<'a> for NoCustomTag {
    open spec fn obeys_custom_tag_spec() -> bool {
        true
    }

    fn is_known_name(name: &str) -> (r: bool)
        ensures
            !r,
    {
        false
    }

    fn try_from_tag(tag: unknown::Tag<'a>) -> (r: Result<NoCustomTag, ValidationError>)
        ensures
            r == Err::<NoCustomTag, ValidationError>(ValidationError::NotImplemented),
    {
        Err(ValidationError::NotImplemented)
    }
}

impl<'a> WritableCustomTag<'a> for NoCustomTag {
    fn into_writable_tag(self) -> (r: WritableTag)
        ensures
            r.name@ == "-NO-TAG"@,
            r.value == WritableTagValue::Empty,
    {
        WritableTag::new("-NO-TAG", WritableTagValue::Empty)
    }
}

/// An attribute of a custom tag as it reads back: a quoted string as a quoted value, and anything
/// else as an unquoted value with the bytes that it is written as.
pub open spec fn writable_entry_view(a: (String, WritableAttributeValue)) -> (
    Seq<char>,
    AttributeValueView,
) {
    (
        a.0@,
        match a.1 {
            WritableAttributeValue::QuotedString(q) => AttributeValueView::Quoted(q@),
            _ => AttributeValueView::Unquoted(writable_attribute_text(a.1)),
        },
    )
}

/// The attributes of a custom tag as they read back.
pub open spec fn writable_list_view(l: Seq<(String, WritableAttributeValue)>) -> AttributeListView {
    l.map_values(|a: (String, WritableAttributeValue)| writable_entry_view(a))
}

proof fn lemma_writable_attributes_text(l: Seq<(String, WritableAttributeValue)>)
    ensures
        writable_attributes(l) == attribute_list_text(writable_list_view(l)),
    decreases l.len(),
{
    let v = writable_list_view(l);
    if l.len() == 0 {
        assert(v.len() == 0);
    } else {
        let a = l.last();
        assert(writable_attribute(a) =~= attribute_text(writable_entry_view(a)));
        if l.len() == 1 {
            assert(v =~= seq![writable_entry_view(l[0])]);
            assert(attribute_list_text(v) == attribute_text(v[0]));
        } else {
            lemma_writable_attributes_text(l.drop_last());
            assert(v =~= writable_list_view(l.drop_last()).push(writable_entry_view(a)));
            lemma_attribute_list_text_push(writable_list_view(l.drop_last()), writable_entry_view(a));
        }
    }
}

/// Writing and then reading a custom tag whose value is an attribute list gives the attributes
/// back: its line reads as its name with the attributes as the value, and that value reads as the
/// attributes (as [`writable_list_view`] gives them), when the name is plain, the attributes can
/// be written so that they read back, and no line feed is written.
pub proof fn lemma_custom_attribute_line_reads_back(
    name: String,
    list: Vec<(String, WritableAttributeValue)>,
)
    requires
        list@.len() > 0,
        forall|i: int|
            0 <= i < list@.len() ==> writable_attribute_entry(#[trigger] writable_entry_view(list@[i])),
        unknown::plain_tag_name(encode_utf8(name@)),
        unknown::no_line_feed(writable_attributes(list@)),
    ensures
        ({
            let line = writable_line(
                WritableTag { name, value: WritableTagValue::AttributeList(list) },
            );
            &&& unknown::starts_with_ext(line)
            &&& unknown::tag_after_ext_spec(line.subrange(4, line.len() as int)) == Ok::<
                (Seq<u8>, Option<Seq<u8>>, Option<Seq<u8>>),
                crate::error::UnknownTagSyntaxError,
            >((encode_utf8(name@), Some(writable_attributes(list@)), None))
        }),
        attribute_list_spec(writable_attributes(list@)) == Ok::<
            AttributeListView,
            crate::error::AttributeListSyntaxError,
        >(writable_list_view(list@)),
{
    let tag = WritableTag { name, value: WritableTagValue::AttributeList(list) };
    let line = writable_line(tag);
    let nb = encode_utf8(name@);
    let attrs = writable_attributes(list@);
    reveal_strlit("#EXT");
    vstd::string::is_ascii_spec_bytes("#EXT");
    assert("#EXT".spec_bytes().len() == 4);
    assert(line =~= "#EXT".spec_bytes() + (nb + seq![58u8] + attrs));
    assert(line.subrange(0, 4) =~= "#EXT".spec_bytes());
    assert(line.subrange(4, line.len() as int) =~= nb + seq![58u8] + attrs);
    unknown::lemma_read_written_tag(nb, attrs);
    let v = writable_list_view(list@);
    lemma_writable_attributes_text(list@);
    assert forall|i: int| 0 <= i < v.len() implies writable_attribute_entry(#[trigger] v[i]) by {
        assert(v[i] == writable_entry_view(list@[i]));
    }
    lemma_attribute_list_reads_back(v);
}


/// A known tag read from a tag line: one of the HLS specification, or a custom tag of the user's.
pub enum KnownTagLine<'a, Custom: CustomTag<'a>> {
    /// A tag of the HLS specification.
    Hls(TagLine),
    /// A custom tag, with the input it was read from.
    Custom(CustomTagAccess<'a, Custom>),
}

impl<'a, Custom: CustomTag<'a>> KnownTagLine<'a, Custom> {
    /// Reads a parsed tag line: as the custom tag when the custom tag's
    /// [`CustomTag::is_known_name`] knows its name, else as a tag of the HLS specification; the
    /// choice is taken as [`Self::from_choice`] takes it.
    pub fn try_from(tag: unknown::Tag<'a>) -> (r: Result<Self, ValidationError>)
        ensures
            r matches Ok(KnownTagLine::Hls(t)) ==> tag_name_of(tag.name@) == Some(t.name_spec())
                && tag_line_read(t.name_spec(), tag, Ok::<TagLine, ValidationError>(t)),
            r matches Ok(KnownTagLine::Custom(a)) ==> !a.is_dirty() && a.original_input()
                == tag.original_input@,
            Custom::obeys_custom_tag_spec() && Custom::known_name(tag.name@) ==> match Custom::read(
                tag,
            ) {
                Ok(c) => r matches Ok(KnownTagLine::Custom(a)) && a.custom() == c,
                Err(e) => r == Err::<Self, ValidationError>(e),
            },
            Custom::obeys_custom_tag_spec() && !Custom::known_name(tag.name@) ==> match tag_name_of(
                tag.name@,
            ) {
                None => r == Err::<Self, ValidationError>(ValidationError::UnexpectedTagName),
                Some(n) => (r is Ok ==> (r matches Ok(KnownTagLine::Hls(t)) && t.name_spec() == n
                    && tag_line_read(n, tag, Ok::<TagLine, ValidationError>(t)))) && (r is Err
                    ==> tag_line_read(n, tag, Err::<TagLine, ValidationError>(r->Err_0))),
            },
    {
        let custom = Custom::is_known_name(tag.name);
        Self::from_choice(tag, custom)
    }

    /// Reads a parsed tag line as the custom tag when `custom`, else as a tag of the HLS
    /// specification, as [`TagLine::try_from`] reads it.
    pub fn from_choice(tag: unknown::Tag<'a>, custom: bool) -> (r: Result<Self, ValidationError>)
        ensures
            !custom ==> match tag_name_of(tag.name@) {
                None => r == Err::<Self, ValidationError>(ValidationError::UnexpectedTagName),
                Some(n) => (r is Ok ==> (r matches Ok(KnownTagLine::Hls(t)) && t.name_spec() == n
                    && tag_line_read(n, tag, Ok::<TagLine, ValidationError>(t)))) && (r is Err
                    ==> tag_line_read(n, tag, Err::<TagLine, ValidationError>(r->Err_0))),
            },
            custom ==> (r is Ok ==> (r matches Ok(KnownTagLine::Custom(a)) && !a.is_dirty()
                && a.original_input() == tag.original_input@)),
            custom && Custom::obeys_custom_tag_spec() ==> match Custom::read(tag) {
                Ok(c) => r matches Ok(KnownTagLine::Custom(a)) && a.custom() == c,
                Err(e) => r == Err::<Self, ValidationError>(e),
            },
    {
        if custom {
            Ok(KnownTagLine::Custom(CustomTagAccess::try_from(tag)?))
        } else {
            match TagLine::try_from(tag) {
                Ok(t) => Ok(KnownTagLine::Hls(t)),
                Err(e) => Err(e),
            }
        }
    }
}

impl<'a, Custom: WritableCustomTag<'a>> KnownTagLine<'a, Custom> {
    /// Consumes the tag and provides the line it writes.
    pub fn into_inner(self) -> (r: TagInner)
        ensures
            self matches KnownTagLine::Hls(t) ==> r.view() == t.output(),
            self matches KnownTagLine::Custom(a) ==> (!a.is_dirty() ==> r.view()
                == a.original_input()),
    {
        match self {
            KnownTagLine::Hls(t) => t.into_inner(),
            KnownTagLine::Custom(a) => a.into_inner(),
        }
    }
}

} // verus!
