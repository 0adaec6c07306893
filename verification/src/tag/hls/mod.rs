//! The tags that the HLS specification defines.

use vstd::prelude::*;

use vstd::string::StringSliceAdditionalSpecFns;
use vstd::utf8::*;

use crate::error::{
    DecimalResolutionParseError, ParseTagValueError, ValidationError, ValidationErrorValueKind,
};
use crate::tag::unknown::{self, plain_tag_name};
use crate::tag::value::{
    attribute_list_spec, attribute_list_text, attribute_text, attribute_value_text,
    writable_attribute_entry, lemma_attribute_list_text_push, lookup_attribute, AttributeList,
    AttributeListView, AttributeValueView, decimal_resolution_spec, decimal_resolution_text,
    DecimalResolution, first_kind_mark, is_kind_mark, lemma_value_kind_at, lemma_value_kind_unmarked, value_kind,
    value_kind_of_text, value_kind_spec,
};
use crate::utils::{dec, parse_u64_spec, push_bytes, push_str, push_u64, str_eq};

pub use crate::tag::known::TagInner;
use crate::tag::known::IntoInnerTag;

pub mod version;
pub mod program_date_time;
pub mod daterange;
pub mod part;
pub mod start;
pub mod map;
pub mod content_steering;
pub mod skip;
pub mod rendition_report;
pub mod preload_hint;
pub mod session_data;
pub mod session_key;
pub mod key;
pub mod stream_inf;
pub mod i_frame_stream_inf;
pub mod part_inf;
pub mod inf;
pub mod server_control;
pub mod media;
pub mod define;
pub mod enumerated_string;
pub mod byterange;
pub mod playlist_type;
pub mod m3u;
pub mod gap;
pub mod i_frames_only;
pub mod endlist;
pub mod independent_segments;
pub mod discontinuity;
pub mod targetduration;
pub mod media_sequence;
pub mod discontinuity_sequence;
pub mod bitrate;

verus! {

/// The bytes of the value of a tag (after the first `:`), if it has one.
pub open spec fn value_bytes(tag: unknown::Tag) -> Option<Seq<u8>> {
    match tag.value {
        Some(v) => Some(v.0@),
        None => None,
    }
}

/// The result of reading the value of a tag as a decimal integer: a value of another kind than
/// unparsed is refused with its kind.
pub open spec fn integer_value_spec(value: Option<Seq<u8>>) -> Result<u64, ValidationError> {
    match value {
        Some(b) if value_kind_of_text(b) == ValidationErrorValueKind::Unparsed => match parse_u64_spec(b) {
            Ok(n) => Ok(n),
            Err(e) => Err(
                ValidationError::ErrorExtractingTagValue(ParseTagValueError::DecimalInteger(e)),
            ),
        },
        _ => Err(ValidationError::UnexpectedValueType(value_kind_spec(value))),
    }
}

/// Reads the value of `tag` as a decimal integer.
pub(crate) fn integer_value(tag: &unknown::Tag) -> (r: Result<u64, ValidationError>)
    ensures
        r == integer_value_spec(value_bytes(*tag)),
{
    let kind = tag_value_kind(tag);
    if !matches!(kind, ValidationErrorValueKind::Unparsed) {
        return Err(ValidationError::UnexpectedValueType(kind));
    }
    match tag.value {
        None => Err(ValidationError::ErrorExtractingTagValue(ParseTagValueError::UnexpectedEmpty)),
        Some(v) => match v.try_as_decimal_integer() {
            Ok(n) => Ok(n),
            Err(e) => Err(
                ValidationError::ErrorExtractingTagValue(ParseTagValueError::DecimalInteger(e)),
            ),
        },
    }
}

/// The start of the line of a tag: `#EXT` followed by the tag's name.
pub open spec fn line_start(n: TagName) -> Seq<u8> {
    "#EXT".spec_bytes() + encode_utf8(tag_name_text(n))
}

/// The line of a tag whose value is a decimal integer (`#EXT<name>:<n>`).
pub open spec fn integer_line(n: TagName, v: u64) -> Seq<u8> {
    line_start(n) + seq![58u8] + dec(v as nat)
}

/// Starts the line of a tag: `#EXT` followed by the tag's name.
pub(crate) fn start_line(n: TagName) -> (r: Vec<u8>)
    ensures
        r@ == line_start(n),
{
    let mut line: Vec<u8> = Vec::new();
    push_str(&mut line, "#EXT");
    push_str(&mut line, n.as_str());
    line
}

/// The line of a tag whose value is a decimal integer (`#EXT<name>:<n>`).
pub(crate) fn integer_tag_line(n: TagName, v: u64) -> (r: Vec<u8>)
    ensures
        r@ == integer_line(n, v),
{
    let mut line = start_line(n);
    line.push(58u8);
    push_u64(&mut line, v);
    line
}

/// The result of reading the value of a tag as an attribute list. A parsed tag line holds its
/// value as raw text (or nothing), so a tag that needs an attribute list refuses an absent value as
/// unexpectedly empty, and a value of another shape by the error of reading it as an attribute list.
pub open spec fn attribute_list_value_spec(value: Option<Seq<u8>>) -> Result<
    AttributeListView,
    ValidationError,
> {
    match value {
        None => Err(ValidationError::ErrorExtractingTagValue(ParseTagValueError::UnexpectedEmpty)),
        Some(b) => match attribute_list_spec(b) {
            Ok(l) => Ok(l),
            Err(e) => Err(
                ValidationError::ErrorExtractingTagValue(ParseTagValueError::AttributeList(e)),
            ),
        },
    }
}

/// The result of reading the value of a tag that must be an attribute list, checking its kind
/// first: a value of another kind is refused with that kind, and an attribute list is read as
/// [`attribute_list_value_spec`] reads it.
pub open spec fn typed_attribute_list_spec(value: Option<Seq<u8>>) -> Result<
    AttributeListView,
    ValidationError,
> {
    match value_kind_spec(value) {
        ValidationErrorValueKind::AttributeList => attribute_list_value_spec(value),
        k => Err(ValidationError::UnexpectedValueType(k)),
    }
}

/// The kind of the value of `tag`.
pub(crate) fn tag_value_kind(tag: &unknown::Tag) -> (r: ValidationErrorValueKind)
    ensures
        r == value_kind_spec(value_bytes(*tag)),
{
    value_kind(tag.value)
}

/// Reads the value of `tag`, which must be of the attribute list kind, as an attribute list.
pub(crate) fn typed_attribute_list_of<'a>(tag: &unknown::Tag<'a>) -> (r: Result<
    AttributeList<'a>,
    ValidationError,
>)
    ensures
        match typed_attribute_list_spec(value_bytes(*tag)) {
            Ok(l) => r matches Ok(list) && list.view() == l,
            Err(e) => r == Err::<AttributeList<'a>, ValidationError>(e),
        },
{
    let kind = tag_value_kind(tag);
    match kind {
        ValidationErrorValueKind::AttributeList => attribute_list_of(tag),
        _ => Err(ValidationError::UnexpectedValueType(kind)),
    }
}

/// Reads the value of `tag` as an attribute list.
pub(crate) fn attribute_list_of<'a>(tag: &unknown::Tag<'a>) -> (r: Result<
    AttributeList<'a>,
    ValidationError,
>)
    ensures
        match attribute_list_value_spec(value_bytes(*tag)) {
            Ok(l) => r matches Ok(list) && list.view() == l,
            Err(e) => r == Err::<AttributeList<'a>, ValidationError>(e),
        },
{
    match tag.value {
        None => Err(ValidationError::ErrorExtractingTagValue(ParseTagValueError::UnexpectedEmpty)),
        Some(v) => match v.try_as_attribute_list() {
            Ok(l) => Ok(l),
            Err(e) => Err(
                ValidationError::ErrorExtractingTagValue(ParseTagValueError::AttributeList(e)),
            ),
        },
    }
}

/// The text of the quoted-string attribute `name` of `list`, if it has one.
pub open spec fn quoted_attr(list: AttributeListView, name: Seq<char>) -> Option<Seq<char>> {
    match lookup_attribute(list, name) {
        Some(AttributeValueView::Quoted(q)) => Some(q),
        _ => None,
    }
}

/// The bytes of the unquoted attribute `name` of `list`, if it has one.
pub open spec fn unquoted_attr(list: AttributeListView, name: Seq<char>) -> Option<Seq<u8>> {
    match lookup_attribute(list, name) {
        Some(AttributeValueView::Unquoted(u)) => Some(u),
        _ => None,
    }
}

/// The decimal integer that the unquoted attribute `name` of `list` holds, if it holds one.
pub open spec fn integer_attr(list: AttributeListView, name: Seq<char>) -> Option<u64> {
    match unquoted_attr(list, name) {
        Some(u) => match parse_u64_spec(u) {
            Ok(n) => Some(n),
            Err(_) => None,
        },
        None => None,
    }
}

/// Whether the unquoted attribute `name` of `list` is `YES`.
pub open spec fn yes_attr(list: AttributeListView, name: Seq<char>) -> bool {
    unquoted_attr(list, name) == Some("YES".spec_bytes())
}

/// The text of the quoted-string attribute `name` of `list`.
pub(crate) fn get_quoted<'a>(list: &AttributeList<'a>, name: &str) -> (r: Option<&'a str>)
    ensures
        match quoted_attr(list.view(), name@) {
            Some(q) => r matches Some(s) && s@ == q,
            None => r is None,
        },
{
    match list.get(name) {
        Some(v) => v.quoted(),
        None => None,
    }
}

/// The bytes of the unquoted attribute `name` of `list`.
pub(crate) fn get_unquoted<'a>(list: &AttributeList<'a>, name: &str) -> (r: Option<&'a [u8]>)
    ensures
        match unquoted_attr(list.view(), name@) {
            Some(u) => r matches Some(b) && b@ == u,
            None => r is None,
        },
{
    match list.get(name) {
        Some(v) => match v.unquoted() {
            Some(u) => Some(u.0),
            None => None,
        },
        None => None,
    }
}

/// The decimal integer that the unquoted attribute `name` of `list` holds.
pub(crate) fn get_integer(list: &AttributeList, name: &str) -> (r: Option<u64>)
    ensures
        r == integer_attr(list.view(), name@),
{
    match get_unquoted(list, name) {
        Some(b) => match crate::utils::parse_u64(b) {
            Ok(n) => Some(n),
            Err(_) => None,
        },
        None => None,
    }
}

/// Whether the unquoted attribute `name` of `list` is `YES`.
pub(crate) fn get_yes(list: &AttributeList, name: &str) -> (r: bool)
    ensures
        r == yes_attr(list.view(), name@),
{
    match get_unquoted(list, name) {
        Some(b) => crate::utils::bytes_eq(b, "YES".as_bytes()),
        None => false,
    }
}

/// A quoted-string attribute as written: `<name>="<value>"`.
pub open spec fn quoted_attribute(name: Seq<char>, value: Seq<char>) -> Seq<u8> {
    encode_utf8(name) + seq![61u8, 34u8] + encode_utf8(value) + seq![34u8]
}

/// An unquoted attribute as written: `<name>=<value>`.
pub open spec fn unquoted_attribute(name: Seq<char>, value: Seq<u8>) -> Seq<u8> {
    encode_utf8(name) + seq![61u8] + value
}

/// Appends `<name>="<value>"` to `line`.
pub(crate) fn push_quoted_attribute(line: &mut Vec<u8>, name: &str, value: &str)
    ensures
        final(line)@ == old(line)@ + quoted_attribute(name@, value@),
{
    push_str(line, name);
    line.push(61u8);
    line.push(34u8);
    push_str(line, value);
    line.push(34u8);
    proof {
        assert(final(line)@ =~= old(line)@ + quoted_attribute(name@, value@));
    }
}

/// Appends `<name>=<value>` to `line`.
pub(crate) fn push_unquoted_attribute(line: &mut Vec<u8>, name: &str, value: &[u8])
    ensures
        final(line)@ == old(line)@ + unquoted_attribute(name@, value@),
{
    push_str(line, name);
    line.push(61u8);
    push_bytes(line, value);
    proof {
        assert(final(line)@ =~= old(line)@ + unquoted_attribute(name@, value@));
    }
}

/// Appends `<name>=<n>` to `line`.
pub(crate) fn push_integer_attribute(line: &mut Vec<u8>, name: &str, n: u64)
    ensures
        final(line)@ == old(line)@ + unquoted_attribute(name@, dec(n as nat)),
{
    push_str(line, name);
    line.push(61u8);
    push_u64(line, n);
    proof {
        assert(final(line)@ =~= old(line)@ + unquoted_attribute(name@, dec(n as nat)));
    }
}

/// An optional quoted-string attribute as written after the attributes before it: `,<name>="<v>"`
/// when there is a value, nothing otherwise.
pub open spec fn comma_quoted(name: Seq<char>, value: Option<Seq<char>>) -> Seq<u8> {
    match value {
        Some(v) => seq![44u8] + quoted_attribute(name, v),
        None => Seq::empty(),
    }
}

/// An optional unquoted attribute as written after the attributes before it: `,<name>=<v>` when
/// there is a value, nothing otherwise.
pub open spec fn comma_unquoted(name: Seq<char>, value: Option<Seq<u8>>) -> Seq<u8> {
    match value {
        Some(v) => seq![44u8] + unquoted_attribute(name, v),
        None => Seq::empty(),
    }
}

/// An optional decimal integer attribute as written after the attributes before it: `,<name>=<n>`
/// when there is a value, nothing otherwise.
pub open spec fn comma_integer(name: Seq<char>, value: Option<u64>) -> Seq<u8> {
    match value {
        Some(n) => seq![44u8] + unquoted_attribute(name, dec(n as nat)),
        None => Seq::empty(),
    }
}

/// A flag attribute as written after the attributes before it: `,<name>=YES` when set, nothing
/// otherwise.
pub open spec fn comma_yes(name: Seq<char>, set: bool) -> Seq<u8> {
    if set {
        seq![44u8] + unquoted_attribute(name, "YES".spec_bytes())
    } else {
        Seq::empty()
    }
}

/// The text of an optional string.
pub open spec fn opt_text(s: Option<&str>) -> Option<Seq<char>> {
    match s {
        Some(t) => Some(t@),
        None => None,
    }
}

/// Whether two optional texts are equal.
pub(crate) fn opt_str_eq(a: Option<&str>, b: Option<&str>) -> (r: bool)
    ensures
        r == (opt_text(a) == opt_text(b)),
{
    match (a, b) {
        (Some(x), Some(y)) => str_eq(x, y),
        (None, None) => true,
        _ => false,
    }
}

/// The text of an optional owned string.
pub open spec fn opt_string(s: Option<String>) -> Option<Seq<char>> {
    match s {
        Some(t) => Some(t@),
        None => None,
    }
}

/// Whether two optional owned strings are equal.
pub(crate) fn opt_string_eq(a: &Option<String>, b: &Option<String>) -> (r: bool)
    ensures
        r == (opt_string(*a) == opt_string(*b)),
{
    match (a, b) {
        (Some(x), Some(y)) => str_eq(x.as_str(), y.as_str()),
        (None, None) => true,
        _ => false,
    }
}

/// Appends `,<name>="<v>"` to `line` when there is a value.
pub(crate) fn push_comma_quoted(line: &mut Vec<u8>, name: &str, value: &Option<String>)
    ensures
        final(line)@ == old(line)@ + comma_quoted(name@, opt_string(*value)),
{
    match value {
        Some(v) => {
            line.push(44u8);
            push_quoted_attribute(line, name, v.as_str());
            proof {
                assert(final(line)@ =~= old(line)@ + comma_quoted(name@, opt_string(*value)));
            }
        },
        None => {
            proof {
                assert(final(line)@ =~= old(line)@ + comma_quoted(name@, opt_string(*value)));
            }
        },
    }
}

/// Appends `,<name>=<n>` to `line` when there is a value.
pub(crate) fn push_comma_integer(line: &mut Vec<u8>, name: &str, value: Option<u64>)
    ensures
        final(line)@ == old(line)@ + comma_integer(name@, value),
{
    match value {
        Some(n) => {
            line.push(44u8);
            push_integer_attribute(line, name, n);
            proof {
                assert(final(line)@ =~= old(line)@ + comma_integer(name@, value));
            }
        },
        None => {
            proof {
                assert(final(line)@ =~= old(line)@ + comma_integer(name@, value));
            }
        },
    }
}

/// The decimal resolution that the unquoted attribute `name` of `list` holds, if its text is one.
pub open spec fn resolution_attr(list: AttributeListView, name: Seq<char>) -> Option<DecimalResolution> {
    match utf8_attr(list, name) {
        Some(t) => match decimal_resolution_spec(encode_utf8(t)) {
            Ok(r) => Some(r),
            Err(_) => None,
        },
        None => None,
    }
}

/// The decimal resolution that the unquoted attribute `name` of `list` holds.
pub(crate) fn get_resolution(list: &AttributeList, name: &str) -> (r: Option<DecimalResolution>)
    ensures
        r == resolution_attr(list.view(), name@),
{
    match get_unquoted_str(list, name) {
        Some(s) => match DecimalResolution::try_from_str(s) {
            Ok(r) => Some(r),
            Err(_) => None,
        },
        None => None,
    }
}

/// The written text of an optional decimal resolution.
pub open spec fn opt_resolution_text(r: Option<DecimalResolution>) -> Option<Seq<u8>> {
    match r {
        Some(x) => Some(encode_utf8(decimal_resolution_text(x))),
        None => None,
    }
}

/// Appends `,<name>=<width>x<height>` to `line` when there is a resolution.
pub(crate) fn push_comma_resolution(line: &mut Vec<u8>, name: &str, value: Option<DecimalResolution>)
    ensures
        final(line)@ == old(line)@ + comma_unquoted(name@, opt_resolution_text(value)),
{
    match value {
        Some(r) => {
            let text = r.to_string();
            line.push(44u8);
            push_unquoted_attribute(line, name, text.as_str().as_bytes());
            proof {
                assert(final(line)@ =~= old(line)@ + comma_unquoted(name@, opt_resolution_text(value)));
            }
        },
        None => {
            proof {
                assert(final(line)@ =~= old(line)@ + comma_unquoted(name@, opt_resolution_text(value)));
            }
        },
    }
}

/// Appends `,<name>=YES` to `line` when `set`.
pub(crate) fn push_comma_yes(line: &mut Vec<u8>, name: &str, set: bool)
    ensures
        final(line)@ == old(line)@ + comma_yes(name@, set),
{
    if set {
        line.push(44u8);
        push_unquoted_attribute(line, name, "YES".as_bytes());
        proof {
            assert(final(line)@ =~= old(line)@ + comma_yes(name@, set));
        }
    } else {
        proof {
            assert(final(line)@ =~= old(line)@ + comma_yes(name@, set));
        }
    }
}

/// Copies an optional string.
pub(crate) fn copy_opt(s: Option<&str>) -> (r: Option<String>)
    ensures
        opt_string(r) == opt_text(s),
{
    match s {
        Some(t) => Some(crate::utils::string_from(t)),
        None => None,
    }
}

/// The text of the unquoted attribute `name` of `list`, if it has one and it is valid UTF-8.
pub open spec fn utf8_attr(list: AttributeListView, name: Seq<char>) -> Option<Seq<char>> {
    match unquoted_attr(list, name) {
        Some(u) => if valid_utf8(u) {
            Some(decode_utf8(u))
        } else {
            None
        },
        None => None,
    }
}

/// The text of the unquoted attribute `name` of `list`, when it is valid UTF-8.
pub(crate) fn get_unquoted_str<'a>(list: &AttributeList<'a>, name: &str) -> (r: Option<&'a str>)
    ensures
        opt_text(r) == utf8_attr(list.view(), name@),
{
    match get_unquoted(list, name) {
        Some(b) => match crate::utils::str_from_utf8(b) {
            Ok(s) => {
                proof {
                    encode_utf8_decode_utf8(s@);
                }
                Some(s)
            },
            Err(_) => None,
        },
        None => None,
    }
}

/// The encoding of an optional text.
pub open spec fn opt_encode(s: Option<Seq<char>>) -> Option<Seq<u8>> {
    match s {
        Some(t) => Some(encode_utf8(t)),
        None => None,
    }
}

/// An optional text, without the value `t`.
pub open spec fn drop_text(s: Option<Seq<char>>, t: Seq<char>) -> Option<Seq<char>> {
    if s == Some(t) {
        None
    } else {
        s
    }
}

/// An optional number, without the value `n`.
pub open spec fn drop_integer(s: Option<u64>, n: u64) -> Option<u64> {
    if s == Some(n) {
        None
    } else {
        s
    }
}

/// Appends `,<name>=<v>` to `line` when there is a value.
pub(crate) fn push_comma_unquoted_str(line: &mut Vec<u8>, name: &str, value: &Option<String>)
    ensures
        final(line)@ == old(line)@ + comma_unquoted(name@, opt_encode(opt_string(*value))),
{
    match value {
        Some(v) => {
            line.push(44u8);
            push_unquoted_attribute(line, name, v.as_str().as_bytes());
            proof {
                assert(final(line)@ =~= old(line)@ + comma_unquoted(
                    name@,
                    opt_encode(opt_string(*value)),
                ));
            }
        },
        None => {
            proof {
                assert(final(line)@ =~= old(line)@ + comma_unquoted(
                    name@,
                    opt_encode(opt_string(*value)),
                ));
            }
        },
    }
}

/// An optional string without the text `t`.
pub(crate) fn without_text(s: &Option<String>, t: &str) -> (r: Option<String>)
    ensures
        opt_string(r) == drop_text(opt_string(*s), t@),
{
    match s {
        Some(v) => if str_eq(v.as_str(), t) {
            None
        } else {
            Some(crate::utils::string_from(v.as_str()))
        },
        None => None,
    }
}

/// The names of the tags that the HLS specification defines.
#[derive(Debug, PartialEq, Eq, Structural, Clone, Copy, Hash)]
pub enum TagName {
    /// `#EXTM3U`
    M3u,
    /// `#EXT-X-VERSION`
    Version,
    /// `#EXT-X-INDEPENDENT-SEGMENTS`
    IndependentSegments,
    /// `#EXT-X-START`
    Start,
    /// `#EXT-X-DEFINE`
    Define,
    /// `#EXT-X-TARGETDURATION`
    Targetduration,
    /// `#EXT-X-MEDIA-SEQUENCE`
    MediaSequence,
    /// `#EXT-X-DISCONTINUITY-SEQUENCE`
    DiscontinuitySequence,
    /// `#EXT-X-ENDLIST`
    Endlist,
    /// `#EXT-X-PLAYLIST-TYPE`
    PlaylistType,
    /// `#EXT-X-I-FRAMES-ONLY`
    IFramesOnly,
    /// `#EXT-X-PART-INF`
    PartInf,
    /// `#EXT-X-SERVER-CONTROL`
    ServerControl,
    /// `#EXTINF`
    Inf,
    /// `#EXT-X-BYTERANGE`
    Byterange,
    /// `#EXT-X-DISCONTINUITY`
    Discontinuity,
    /// `#EXT-X-KEY`
    Key,
    /// `#EXT-X-MAP`
    XMap,
    /// `#EXT-X-PROGRAM-DATE-TIME`
    ProgramDateTime,
    /// `#EXT-X-GAP`
    Gap,
    /// `#EXT-X-BITRATE`
    Bitrate,
    /// `#EXT-X-PART`
    Part,
    /// `#EXT-X-DATERANGE`
    Daterange,
    /// `#EXT-X-SKIP`
    Skip,
    /// `#EXT-X-PRELOAD-HINT`
    PreloadHint,
    /// `#EXT-X-RENDITION-REPORT`
    RenditionReport,
    /// `#EXT-X-MEDIA`
    Media,
    /// `#EXT-X-STREAM-INF`
    StreamInf,
    /// `#EXT-X-I-FRAME-STREAM-INF`
    IFrameStreamInf,
    /// `#EXT-X-SESSION-DATA`
    SessionData,
    /// `#EXT-X-SESSION-KEY`
    SessionKey,
    /// `#EXT-X-CONTENT-STEERING`
    ContentSteering,
}

/// The kinds of tag that the HLS specification groups its tags into.
#[derive(Debug, PartialEq, Eq, Structural, Clone, Copy)]
pub enum TagType {
    /// Basic tags, valid in both media and multivariant playlists.
    Basic,
    /// Tags that may appear in either a media or a multivariant playlist.
    MediaOrMultivariantPlaylist,
    /// Tags that describe a media playlist as a whole.
    MediaPlaylist,
    /// Tags that describe a media segment.
    MediaSegment,
    /// Tags that carry metadata in a media playlist.
    MediaMetadata,
    /// Tags that appear in a multivariant playlist.
    MultivariantPlaylist,
}

/// The text that names a tag (what follows `#EXT` on the tag line).
pub open spec fn tag_name_text(n: TagName) -> Seq<char> {
    match n {
        TagName::M3u => "M3U"@,
        TagName::Version => "-X-VERSION"@,
        TagName::IndependentSegments => "-X-INDEPENDENT-SEGMENTS"@,
        TagName::Start => "-X-START"@,
        TagName::Define => "-X-DEFINE"@,
        TagName::Targetduration => "-X-TARGETDURATION"@,
        TagName::MediaSequence => "-X-MEDIA-SEQUENCE"@,
        TagName::DiscontinuitySequence => "-X-DISCONTINUITY-SEQUENCE"@,
        TagName::Endlist => "-X-ENDLIST"@,
        TagName::PlaylistType => "-X-PLAYLIST-TYPE"@,
        TagName::IFramesOnly => "-X-I-FRAMES-ONLY"@,
        TagName::PartInf => "-X-PART-INF"@,
        TagName::ServerControl => "-X-SERVER-CONTROL"@,
        TagName::Inf => "INF"@,
        TagName::Byterange => "-X-BYTERANGE"@,
        TagName::Discontinuity => "-X-DISCONTINUITY"@,
        TagName::Key => "-X-KEY"@,
        TagName::XMap => "-X-MAP"@,
        TagName::ProgramDateTime => "-X-PROGRAM-DATE-TIME"@,
        TagName::Gap => "-X-GAP"@,
        TagName::Bitrate => "-X-BITRATE"@,
        TagName::Part => "-X-PART"@,
        TagName::Daterange => "-X-DATERANGE"@,
        TagName::Skip => "-X-SKIP"@,
        TagName::PreloadHint => "-X-PRELOAD-HINT"@,
        TagName::RenditionReport => "-X-RENDITION-REPORT"@,
        TagName::Media => "-X-MEDIA"@,
        TagName::StreamInf => "-X-STREAM-INF"@,
        TagName::IFrameStreamInf => "-X-I-FRAME-STREAM-INF"@,
        TagName::SessionData => "-X-SESSION-DATA"@,
        TagName::SessionKey => "-X-SESSION-KEY"@,
        TagName::ContentSteering => "-X-CONTENT-STEERING"@,
    }
}

/// The tag named by `s`, if `s` names one of the tags of the HLS specification.
pub open spec fn tag_name_of(s: Seq<char>) -> Option<TagName> {
    if s == "M3U"@ {
        Some(TagName::M3u)
    } else if s == "-X-VERSION"@ {
        Some(TagName::Version)
    } else if s == "-X-INDEPENDENT-SEGMENTS"@ {
        Some(TagName::IndependentSegments)
    } else if s == "-X-START"@ {
        Some(TagName::Start)
    } else if s == "-X-DEFINE"@ {
        Some(TagName::Define)
    } else if s == "-X-TARGETDURATION"@ {
        Some(TagName::Targetduration)
    } else if s == "-X-MEDIA-SEQUENCE"@ {
        Some(TagName::MediaSequence)
    } else if s == "-X-DISCONTINUITY-SEQUENCE"@ {
        Some(TagName::DiscontinuitySequence)
    } else if s == "-X-ENDLIST"@ {
        Some(TagName::Endlist)
    } else if s == "-X-PLAYLIST-TYPE"@ {
        Some(TagName::PlaylistType)
    } else if s == "-X-I-FRAMES-ONLY"@ {
        Some(TagName::IFramesOnly)
    } else if s == "-X-PART-INF"@ {
        Some(TagName::PartInf)
    } else if s == "-X-SERVER-CONTROL"@ {
        Some(TagName::ServerControl)
    } else if s == "INF"@ {
        Some(TagName::Inf)
    } else if s == "-X-BYTERANGE"@ {
        Some(TagName::Byterange)
    } else if s == "-X-DISCONTINUITY"@ {
        Some(TagName::Discontinuity)
    } else if s == "-X-KEY"@ {
        Some(TagName::Key)
    } else if s == "-X-MAP"@ {
        Some(TagName::XMap)
    } else if s == "-X-PROGRAM-DATE-TIME"@ {
        Some(TagName::ProgramDateTime)
    } else if s == "-X-GAP"@ {
        Some(TagName::Gap)
    } else if s == "-X-BITRATE"@ {
        Some(TagName::Bitrate)
    } else if s == "-X-PART"@ {
        Some(TagName::Part)
    } else if s == "-X-DATERANGE"@ {
        Some(TagName::Daterange)
    } else if s == "-X-SKIP"@ {
        Some(TagName::Skip)
    } else if s == "-X-PRELOAD-HINT"@ {
        Some(TagName::PreloadHint)
    } else if s == "-X-RENDITION-REPORT"@ {
        Some(TagName::RenditionReport)
    } else if s == "-X-MEDIA"@ {
        Some(TagName::Media)
    } else if s == "-X-STREAM-INF"@ {
        Some(TagName::StreamInf)
    } else if s == "-X-I-FRAME-STREAM-INF"@ {
        Some(TagName::IFrameStreamInf)
    } else if s == "-X-SESSION-DATA"@ {
        Some(TagName::SessionData)
    } else if s == "-X-SESSION-KEY"@ {
        Some(TagName::SessionKey)
    } else if s == "-X-CONTENT-STEERING"@ {
        Some(TagName::ContentSteering)
    } else {
        None
    }
}

/// The kind of each tag.
pub open spec fn tag_type_of(n: TagName) -> TagType {
    match n {
        TagName::M3u => TagType::Basic,
        TagName::Version => TagType::Basic,
        TagName::IndependentSegments => TagType::MediaOrMultivariantPlaylist,
        TagName::Start => TagType::MediaOrMultivariantPlaylist,
        TagName::Define => TagType::MediaOrMultivariantPlaylist,
        TagName::Targetduration => TagType::MediaPlaylist,
        TagName::MediaSequence => TagType::MediaPlaylist,
        TagName::DiscontinuitySequence => TagType::MediaPlaylist,
        TagName::Endlist => TagType::MediaPlaylist,
        TagName::PlaylistType => TagType::MediaPlaylist,
        TagName::IFramesOnly => TagType::MediaPlaylist,
        TagName::PartInf => TagType::MediaPlaylist,
        TagName::ServerControl => TagType::MediaPlaylist,
        TagName::Inf => TagType::MediaSegment,
        TagName::Byterange => TagType::MediaSegment,
        TagName::Discontinuity => TagType::MediaSegment,
        TagName::Key => TagType::MediaSegment,
        TagName::XMap => TagType::MediaSegment,
        TagName::ProgramDateTime => TagType::MediaSegment,
        TagName::Gap => TagType::MediaSegment,
        TagName::Bitrate => TagType::MediaSegment,
        TagName::Part => TagType::MediaSegment,
        TagName::Daterange => TagType::MediaMetadata,
        TagName::Skip => TagType::MediaMetadata,
        TagName::PreloadHint => TagType::MediaMetadata,
        TagName::RenditionReport => TagType::MediaMetadata,
        TagName::Media => TagType::MultivariantPlaylist,
        TagName::StreamInf => TagType::MultivariantPlaylist,
        TagName::IFrameStreamInf => TagType::MultivariantPlaylist,
        TagName::SessionData => TagType::MultivariantPlaylist,
        TagName::SessionKey => TagType::MultivariantPlaylist,
        TagName::ContentSteering => TagType::MultivariantPlaylist,
    }
}

/// The text that names each tag is the one that the HLS specification gives it.
pub proof fn lemma_tag_name_texts()
    ensures
        tag_name_text(TagName::M3u) == "M3U"@,
        tag_name_text(TagName::Version) == "-X-VERSION"@,
        tag_name_text(TagName::IndependentSegments) == "-X-INDEPENDENT-SEGMENTS"@,
        tag_name_text(TagName::Start) == "-X-START"@,
        tag_name_text(TagName::Define) == "-X-DEFINE"@,
        tag_name_text(TagName::Targetduration) == "-X-TARGETDURATION"@,
        tag_name_text(TagName::MediaSequence) == "-X-MEDIA-SEQUENCE"@,
        tag_name_text(TagName::DiscontinuitySequence) == "-X-DISCONTINUITY-SEQUENCE"@,
        tag_name_text(TagName::Endlist) == "-X-ENDLIST"@,
        tag_name_text(TagName::PlaylistType) == "-X-PLAYLIST-TYPE"@,
        tag_name_text(TagName::IFramesOnly) == "-X-I-FRAMES-ONLY"@,
        tag_name_text(TagName::PartInf) == "-X-PART-INF"@,
        tag_name_text(TagName::ServerControl) == "-X-SERVER-CONTROL"@,
        tag_name_text(TagName::Inf) == "INF"@,
        tag_name_text(TagName::Byterange) == "-X-BYTERANGE"@,
        tag_name_text(TagName::Discontinuity) == "-X-DISCONTINUITY"@,
        tag_name_text(TagName::Key) == "-X-KEY"@,
        tag_name_text(TagName::XMap) == "-X-MAP"@,
        tag_name_text(TagName::ProgramDateTime) == "-X-PROGRAM-DATE-TIME"@,
        tag_name_text(TagName::Gap) == "-X-GAP"@,
        tag_name_text(TagName::Bitrate) == "-X-BITRATE"@,
        tag_name_text(TagName::Part) == "-X-PART"@,
        tag_name_text(TagName::Daterange) == "-X-DATERANGE"@,
        tag_name_text(TagName::Skip) == "-X-SKIP"@,
        tag_name_text(TagName::PreloadHint) == "-X-PRELOAD-HINT"@,
        tag_name_text(TagName::RenditionReport) == "-X-RENDITION-REPORT"@,
        tag_name_text(TagName::Media) == "-X-MEDIA"@,
        tag_name_text(TagName::StreamInf) == "-X-STREAM-INF"@,
        tag_name_text(TagName::IFrameStreamInf) == "-X-I-FRAME-STREAM-INF"@,
        tag_name_text(TagName::SessionData) == "-X-SESSION-DATA"@,
        tag_name_text(TagName::SessionKey) == "-X-SESSION-KEY"@,
        tag_name_text(TagName::ContentSteering) == "-X-CONTENT-STEERING"@,
{
}

/// The tags of each group of the HLS specification: basic tags, media or multivariant playlist
/// tags, media playlist tags, media segment tags, media metadata tags and multivariant playlist
/// tags.
pub proof fn lemma_tag_groups()
    ensures
        forall|n: TagName| (#[trigger] tag_type_of(n) == TagType::Basic) <==> (n == TagName::M3u || n == TagName::Version),
        forall|n: TagName| (#[trigger] tag_type_of(n) == TagType::MediaOrMultivariantPlaylist) <==> (n == TagName::IndependentSegments || n == TagName::Start || n == TagName::Define),
        forall|n: TagName| (#[trigger] tag_type_of(n) == TagType::MediaPlaylist) <==> (n == TagName::Targetduration || n == TagName::MediaSequence || n == TagName::DiscontinuitySequence || n == TagName::Endlist || n == TagName::PlaylistType || n == TagName::IFramesOnly || n == TagName::PartInf || n == TagName::ServerControl),
        forall|n: TagName| (#[trigger] tag_type_of(n) == TagType::MediaSegment) <==> (n == TagName::Inf || n == TagName::Byterange || n == TagName::Discontinuity || n == TagName::Key || n == TagName::XMap || n == TagName::ProgramDateTime || n == TagName::Gap || n == TagName::Bitrate || n == TagName::Part),
        forall|n: TagName| (#[trigger] tag_type_of(n) == TagType::MediaMetadata) <==> (n == TagName::Daterange || n == TagName::Skip || n == TagName::PreloadHint || n == TagName::RenditionReport),
        forall|n: TagName| (#[trigger] tag_type_of(n) == TagType::MultivariantPlaylist) <==> (n == TagName::Media || n == TagName::StreamInf || n == TagName::IFrameStreamInf || n == TagName::SessionData || n == TagName::SessionKey || n == TagName::ContentSteering),
{
}

impl TagName {
    /// Finds the tag that `value` names (the text after `#EXT` on the tag line).
    pub fn try_from(value: &str) -> (r: Result<TagName, ValidationError>)
        ensures
            match tag_name_of(value@) {
                Some(n) => r == Ok::<TagName, ValidationError>(n),
                None => r == Err::<TagName, ValidationError>(ValidationError::UnexpectedTagName),
            },
    {
        if str_eq(value, "M3U") {
            return Ok(TagName::M3u);
        }
        if str_eq(value, "-X-VERSION") {
            return Ok(TagName::Version);
        }
        if str_eq(value, "-X-INDEPENDENT-SEGMENTS") {
            return Ok(TagName::IndependentSegments);
        }
        if str_eq(value, "-X-START") {
            return Ok(TagName::Start);
        }
        if str_eq(value, "-X-DEFINE") {
            return Ok(TagName::Define);
        }
        if str_eq(value, "-X-TARGETDURATION") {
            return Ok(TagName::Targetduration);
        }
        if str_eq(value, "-X-MEDIA-SEQUENCE") {
            return Ok(TagName::MediaSequence);
        }
        if str_eq(value, "-X-DISCONTINUITY-SEQUENCE") {
            return Ok(TagName::DiscontinuitySequence);
        }
        if str_eq(value, "-X-ENDLIST") {
            return Ok(TagName::Endlist);
        }
        if str_eq(value, "-X-PLAYLIST-TYPE") {
            return Ok(TagName::PlaylistType);
        }
        if str_eq(value, "-X-I-FRAMES-ONLY") {
            return Ok(TagName::IFramesOnly);
        }
        if str_eq(value, "-X-PART-INF") {
            return Ok(TagName::PartInf);
        }
        if str_eq(value, "-X-SERVER-CONTROL") {
            return Ok(TagName::ServerControl);
        }
        if str_eq(value, "INF") {
            return Ok(TagName::Inf);
        }
        if str_eq(value, "-X-BYTERANGE") {
            return Ok(TagName::Byterange);
        }
        if str_eq(value, "-X-DISCONTINUITY") {
            return Ok(TagName::Discontinuity);
        }
        if str_eq(value, "-X-KEY") {
            return Ok(TagName::Key);
        }
        if str_eq(value, "-X-MAP") {
            return Ok(TagName::XMap);
        }
        if str_eq(value, "-X-PROGRAM-DATE-TIME") {
            return Ok(TagName::ProgramDateTime);
        }
        if str_eq(value, "-X-GAP") {
            return Ok(TagName::Gap);
        }
        if str_eq(value, "-X-BITRATE") {
            return Ok(TagName::Bitrate);
        }
        if str_eq(value, "-X-PART") {
            return Ok(TagName::Part);
        }
        if str_eq(value, "-X-DATERANGE") {
            return Ok(TagName::Daterange);
        }
        if str_eq(value, "-X-SKIP") {
            return Ok(TagName::Skip);
        }
        if str_eq(value, "-X-PRELOAD-HINT") {
            return Ok(TagName::PreloadHint);
        }
        if str_eq(value, "-X-RENDITION-REPORT") {
            return Ok(TagName::RenditionReport);
        }
        if str_eq(value, "-X-MEDIA") {
            return Ok(TagName::Media);
        }
        if str_eq(value, "-X-STREAM-INF") {
            return Ok(TagName::StreamInf);
        }
        if str_eq(value, "-X-I-FRAME-STREAM-INF") {
            return Ok(TagName::IFrameStreamInf);
        }
        if str_eq(value, "-X-SESSION-DATA") {
            return Ok(TagName::SessionData);
        }
        if str_eq(value, "-X-SESSION-KEY") {
            return Ok(TagName::SessionKey);
        }
        if str_eq(value, "-X-CONTENT-STEERING") {
            return Ok(TagName::ContentSteering);
        }
        Err(ValidationError::UnexpectedTagName)
    }

    /// The text that names the tag (what follows `#EXT` on the tag line).
    pub fn as_str(&self) -> (r: &'static str)
        ensures
            r@ == tag_name_text(*self),
    {
        match self {
            TagName::M3u => "M3U",
            TagName::Version => "-X-VERSION",
            TagName::IndependentSegments => "-X-INDEPENDENT-SEGMENTS",
            TagName::Start => "-X-START",
            TagName::Define => "-X-DEFINE",
            TagName::Targetduration => "-X-TARGETDURATION",
            TagName::MediaSequence => "-X-MEDIA-SEQUENCE",
            TagName::DiscontinuitySequence => "-X-DISCONTINUITY-SEQUENCE",
            TagName::Endlist => "-X-ENDLIST",
            TagName::PlaylistType => "-X-PLAYLIST-TYPE",
            TagName::IFramesOnly => "-X-I-FRAMES-ONLY",
            TagName::PartInf => "-X-PART-INF",
            TagName::ServerControl => "-X-SERVER-CONTROL",
            TagName::Inf => "INF",
            TagName::Byterange => "-X-BYTERANGE",
            TagName::Discontinuity => "-X-DISCONTINUITY",
            TagName::Key => "-X-KEY",
            TagName::XMap => "-X-MAP",
            TagName::ProgramDateTime => "-X-PROGRAM-DATE-TIME",
            TagName::Gap => "-X-GAP",
            TagName::Bitrate => "-X-BITRATE",
            TagName::Part => "-X-PART",
            TagName::Daterange => "-X-DATERANGE",
            TagName::Skip => "-X-SKIP",
            TagName::PreloadHint => "-X-PRELOAD-HINT",
            TagName::RenditionReport => "-X-RENDITION-REPORT",
            TagName::Media => "-X-MEDIA",
            TagName::StreamInf => "-X-STREAM-INF",
            TagName::IFrameStreamInf => "-X-I-FRAME-STREAM-INF",
            TagName::SessionData => "-X-SESSION-DATA",
            TagName::SessionKey => "-X-SESSION-KEY",
            TagName::ContentSteering => "-X-CONTENT-STEERING",
        }
    }

    /// The kind of the tag.
    pub fn tag_type(&self) -> (r: TagType)
        ensures
            r == tag_type_of(*self),
    {
        match self {
            TagName::M3u => TagType::Basic,
            TagName::Version => TagType::Basic,
            TagName::IndependentSegments => TagType::MediaOrMultivariantPlaylist,
            TagName::Start => TagType::MediaOrMultivariantPlaylist,
            TagName::Define => TagType::MediaOrMultivariantPlaylist,
            TagName::Targetduration => TagType::MediaPlaylist,
            TagName::MediaSequence => TagType::MediaPlaylist,
            TagName::DiscontinuitySequence => TagType::MediaPlaylist,
            TagName::Endlist => TagType::MediaPlaylist,
            TagName::PlaylistType => TagType::MediaPlaylist,
            TagName::IFramesOnly => TagType::MediaPlaylist,
            TagName::PartInf => TagType::MediaPlaylist,
            TagName::ServerControl => TagType::MediaPlaylist,
            TagName::Inf => TagType::MediaSegment,
            TagName::Byterange => TagType::MediaSegment,
            TagName::Discontinuity => TagType::MediaSegment,
            TagName::Key => TagType::MediaSegment,
            TagName::XMap => TagType::MediaSegment,
            TagName::ProgramDateTime => TagType::MediaSegment,
            TagName::Gap => TagType::MediaSegment,
            TagName::Bitrate => TagType::MediaSegment,
            TagName::Part => TagType::MediaSegment,
            TagName::Daterange => TagType::MediaMetadata,
            TagName::Skip => TagType::MediaMetadata,
            TagName::PreloadHint => TagType::MediaMetadata,
            TagName::RenditionReport => TagType::MediaMetadata,
            TagName::Media => TagType::MultivariantPlaylist,
            TagName::StreamInf => TagType::MultivariantPlaylist,
            TagName::IFrameStreamInf => TagType::MultivariantPlaylist,
            TagName::SessionData => TagType::MultivariantPlaylist,
            TagName::SessionKey => TagType::MultivariantPlaylist,
            TagName::ContentSteering => TagType::MultivariantPlaylist,
        }
    }
}

/// Reading back the name of any tag gives that tag.
pub proof fn lemma_tag_name_round_trip(n: TagName)
    ensures
        tag_name_of(tag_name_text(n)) == Some(n),
{
    match n {
        TagName::M3u => {
            reveal_strlit("M3U");
        },
        TagName::Version => {
            reveal_strlit("-X-VERSION");
            reveal_strlit("M3U");
            assert("M3U"@.len() != "-X-VERSION"@.len());
        },
        TagName::IndependentSegments => {
            reveal_strlit("-X-INDEPENDENT-SEGMENTS");
            reveal_strlit("M3U");
            assert("M3U"@.len() != "-X-INDEPENDENT-SEGMENTS"@.len());
            reveal_strlit("-X-VERSION");
            assert("-X-VERSION"@.len() != "-X-INDEPENDENT-SEGMENTS"@.len());
        },
        TagName::Start => {
            reveal_strlit("-X-START");
            reveal_strlit("M3U");
            assert("M3U"@.len() != "-X-START"@.len());
            reveal_strlit("-X-VERSION");
            assert("-X-VERSION"@.len() != "-X-START"@.len());
            reveal_strlit("-X-INDEPENDENT-SEGMENTS");
            assert("-X-INDEPENDENT-SEGMENTS"@.len() != "-X-START"@.len());
        },
        TagName::Define => {
            reveal_strlit("-X-DEFINE");
            reveal_strlit("M3U");
            assert("M3U"@.len() != "-X-DEFINE"@.len());
            reveal_strlit("-X-VERSION");
            assert("-X-VERSION"@.len() != "-X-DEFINE"@.len());
            reveal_strlit("-X-INDEPENDENT-SEGMENTS");
            assert("-X-INDEPENDENT-SEGMENTS"@.len() != "-X-DEFINE"@.len());
            reveal_strlit("-X-START");
            assert("-X-START"@.len() != "-X-DEFINE"@.len());
        },
        TagName::Targetduration => {
            reveal_strlit("-X-TARGETDURATION");
            reveal_strlit("M3U");
            assert("M3U"@.len() != "-X-TARGETDURATION"@.len());
            reveal_strlit("-X-VERSION");
            assert("-X-VERSION"@.len() != "-X-TARGETDURATION"@.len());
            reveal_strlit("-X-INDEPENDENT-SEGMENTS");
            assert("-X-INDEPENDENT-SEGMENTS"@.len() != "-X-TARGETDURATION"@.len());
            reveal_strlit("-X-START");
            assert("-X-START"@.len() != "-X-TARGETDURATION"@.len());
            reveal_strlit("-X-DEFINE");
            assert("-X-DEFINE"@.len() != "-X-TARGETDURATION"@.len());
        },
        TagName::MediaSequence => {
            reveal_strlit("-X-MEDIA-SEQUENCE");
            reveal_strlit("M3U");
            assert("M3U"@.len() != "-X-MEDIA-SEQUENCE"@.len());
            reveal_strlit("-X-VERSION");
            assert("-X-VERSION"@.len() != "-X-MEDIA-SEQUENCE"@.len());
            reveal_strlit("-X-INDEPENDENT-SEGMENTS");
            assert("-X-INDEPENDENT-SEGMENTS"@.len() != "-X-MEDIA-SEQUENCE"@.len());
            reveal_strlit("-X-START");
            assert("-X-START"@.len() != "-X-MEDIA-SEQUENCE"@.len());
            reveal_strlit("-X-DEFINE");
            assert("-X-DEFINE"@.len() != "-X-MEDIA-SEQUENCE"@.len());
            reveal_strlit("-X-TARGETDURATION");
            assert("-X-TARGETDURATION"@[3] != "-X-MEDIA-SEQUENCE"@[3]);
        },
        TagName::DiscontinuitySequence => {
            reveal_strlit("-X-DISCONTINUITY-SEQUENCE");
            reveal_strlit("M3U");
            assert("M3U"@.len() != "-X-DISCONTINUITY-SEQUENCE"@.len());
            reveal_strlit("-X-VERSION");
            assert("-X-VERSION"@.len() != "-X-DISCONTINUITY-SEQUENCE"@.len());
            reveal_strlit("-X-INDEPENDENT-SEGMENTS");
            assert("-X-INDEPENDENT-SEGMENTS"@.len() != "-X-DISCONTINUITY-SEQUENCE"@.len());
            reveal_strlit("-X-START");
            assert("-X-START"@.len() != "-X-DISCONTINUITY-SEQUENCE"@.len());
            reveal_strlit("-X-DEFINE");
            assert("-X-DEFINE"@.len() != "-X-DISCONTINUITY-SEQUENCE"@.len());
            reveal_strlit("-X-TARGETDURATION");
            assert("-X-TARGETDURATION"@.len() != "-X-DISCONTINUITY-SEQUENCE"@.len());
            reveal_strlit("-X-MEDIA-SEQUENCE");
            assert("-X-MEDIA-SEQUENCE"@.len() != "-X-DISCONTINUITY-SEQUENCE"@.len());
        },
        TagName::Endlist => {
            reveal_strlit("-X-ENDLIST");
            reveal_strlit("M3U");
            assert("M3U"@.len() != "-X-ENDLIST"@.len());
            reveal_strlit("-X-VERSION");
            assert("-X-VERSION"@[3] != "-X-ENDLIST"@[3]);
            reveal_strlit("-X-INDEPENDENT-SEGMENTS");
            assert("-X-INDEPENDENT-SEGMENTS"@.len() != "-X-ENDLIST"@.len());
            reveal_strlit("-X-START");
            assert("-X-START"@.len() != "-X-ENDLIST"@.len());
            reveal_strlit("-X-DEFINE");
            assert("-X-DEFINE"@.len() != "-X-ENDLIST"@.len());
            reveal_strlit("-X-TARGETDURATION");
            assert("-X-TARGETDURATION"@.len() != "-X-ENDLIST"@.len());
            reveal_strlit("-X-MEDIA-SEQUENCE");
            assert("-X-MEDIA-SEQUENCE"@.len() != "-X-ENDLIST"@.len());
            reveal_strlit("-X-DISCONTINUITY-SEQUENCE");
            assert("-X-DISCONTINUITY-SEQUENCE"@.len() != "-X-ENDLIST"@.len());
        },
        TagName::PlaylistType => {
            reveal_strlit("-X-PLAYLIST-TYPE");
            reveal_strlit("M3U");
            assert("M3U"@.len() != "-X-PLAYLIST-TYPE"@.len());
            reveal_strlit("-X-VERSION");
            assert("-X-VERSION"@.len() != "-X-PLAYLIST-TYPE"@.len());
            reveal_strlit("-X-INDEPENDENT-SEGMENTS");
            assert("-X-INDEPENDENT-SEGMENTS"@.len() != "-X-PLAYLIST-TYPE"@.len());
            reveal_strlit("-X-START");
            assert("-X-START"@.len() != "-X-PLAYLIST-TYPE"@.len());
            reveal_strlit("-X-DEFINE");
            assert("-X-DEFINE"@.len() != "-X-PLAYLIST-TYPE"@.len());
            reveal_strlit("-X-TARGETDURATION");
            assert("-X-TARGETDURATION"@.len() != "-X-PLAYLIST-TYPE"@.len());
            reveal_strlit("-X-MEDIA-SEQUENCE");
            assert("-X-MEDIA-SEQUENCE"@.len() != "-X-PLAYLIST-TYPE"@.len());
            reveal_strlit("-X-DISCONTINUITY-SEQUENCE");
            assert("-X-DISCONTINUITY-SEQUENCE"@.len() != "-X-PLAYLIST-TYPE"@.len());
            reveal_strlit("-X-ENDLIST");
            assert("-X-ENDLIST"@.len() != "-X-PLAYLIST-TYPE"@.len());
        },
        TagName::IFramesOnly => {
            reveal_strlit("-X-I-FRAMES-ONLY");
            reveal_strlit("M3U");
            assert("M3U"@.len() != "-X-I-FRAMES-ONLY"@.len());
            reveal_strlit("-X-VERSION");
            assert("-X-VERSION"@.len() != "-X-I-FRAMES-ONLY"@.len());
            reveal_strlit("-X-INDEPENDENT-SEGMENTS");
            assert("-X-INDEPENDENT-SEGMENTS"@.len() != "-X-I-FRAMES-ONLY"@.len());
            reveal_strlit("-X-START");
            assert("-X-START"@.len() != "-X-I-FRAMES-ONLY"@.len());
            reveal_strlit("-X-DEFINE");
            assert("-X-DEFINE"@.len() != "-X-I-FRAMES-ONLY"@.len());
            reveal_strlit("-X-TARGETDURATION");
            assert("-X-TARGETDURATION"@.len() != "-X-I-FRAMES-ONLY"@.len());
            reveal_strlit("-X-MEDIA-SEQUENCE");
            assert("-X-MEDIA-SEQUENCE"@.len() != "-X-I-FRAMES-ONLY"@.len());
            reveal_strlit("-X-DISCONTINUITY-SEQUENCE");
            assert("-X-DISCONTINUITY-SEQUENCE"@.len() != "-X-I-FRAMES-ONLY"@.len());
            reveal_strlit("-X-ENDLIST");
            assert("-X-ENDLIST"@.len() != "-X-I-FRAMES-ONLY"@.len());
            reveal_strlit("-X-PLAYLIST-TYPE");
            assert("-X-PLAYLIST-TYPE"@[3] != "-X-I-FRAMES-ONLY"@[3]);
        },
        TagName::PartInf => {
            reveal_strlit("-X-PART-INF");
            reveal_strlit("M3U");
            assert("M3U"@.len() != "-X-PART-INF"@.len());
            reveal_strlit("-X-VERSION");
            assert("-X-VERSION"@.len() != "-X-PART-INF"@.len());
            reveal_strlit("-X-INDEPENDENT-SEGMENTS");
            assert("-X-INDEPENDENT-SEGMENTS"@.len() != "-X-PART-INF"@.len());
            reveal_strlit("-X-START");
            assert("-X-START"@.len() != "-X-PART-INF"@.len());
            reveal_strlit("-X-DEFINE");
            assert("-X-DEFINE"@.len() != "-X-PART-INF"@.len());
            reveal_strlit("-X-TARGETDURATION");
            assert("-X-TARGETDURATION"@.len() != "-X-PART-INF"@.len());
            reveal_strlit("-X-MEDIA-SEQUENCE");
            assert("-X-MEDIA-SEQUENCE"@.len() != "-X-PART-INF"@.len());
            reveal_strlit("-X-DISCONTINUITY-SEQUENCE");
            assert("-X-DISCONTINUITY-SEQUENCE"@.len() != "-X-PART-INF"@.len());
            reveal_strlit("-X-ENDLIST");
            assert("-X-ENDLIST"@.len() != "-X-PART-INF"@.len());
            reveal_strlit("-X-PLAYLIST-TYPE");
            assert("-X-PLAYLIST-TYPE"@.len() != "-X-PART-INF"@.len());
            reveal_strlit("-X-I-FRAMES-ONLY");
            assert("-X-I-FRAMES-ONLY"@.len() != "-X-PART-INF"@.len());
        },
        TagName::ServerControl => {
            reveal_strlit("-X-SERVER-CONTROL");
            reveal_strlit("M3U");
            assert("M3U"@.len() != "-X-SERVER-CONTROL"@.len());
            reveal_strlit("-X-VERSION");
            assert("-X-VERSION"@.len() != "-X-SERVER-CONTROL"@.len());
            reveal_strlit("-X-INDEPENDENT-SEGMENTS");
            assert("-X-INDEPENDENT-SEGMENTS"@.len() != "-X-SERVER-CONTROL"@.len());
            reveal_strlit("-X-START");
            assert("-X-START"@.len() != "-X-SERVER-CONTROL"@.len());
            reveal_strlit("-X-DEFINE");
            assert("-X-DEFINE"@.len() != "-X-SERVER-CONTROL"@.len());
            reveal_strlit("-X-TARGETDURATION");
            assert("-X-TARGETDURATION"@[3] != "-X-SERVER-CONTROL"@[3]);
            reveal_strlit("-X-MEDIA-SEQUENCE");
            assert("-X-MEDIA-SEQUENCE"@[3] != "-X-SERVER-CONTROL"@[3]);
            reveal_strlit("-X-DISCONTINUITY-SEQUENCE");
            assert("-X-DISCONTINUITY-SEQUENCE"@.len() != "-X-SERVER-CONTROL"@.len());
            reveal_strlit("-X-ENDLIST");
            assert("-X-ENDLIST"@.len() != "-X-SERVER-CONTROL"@.len());
            reveal_strlit("-X-PLAYLIST-TYPE");
            assert("-X-PLAYLIST-TYPE"@.len() != "-X-SERVER-CONTROL"@.len());
            reveal_strlit("-X-I-FRAMES-ONLY");
            assert("-X-I-FRAMES-ONLY"@.len() != "-X-SERVER-CONTROL"@.len());
            reveal_strlit("-X-PART-INF");
            assert("-X-PART-INF"@.len() != "-X-SERVER-CONTROL"@.len());
        },
        TagName::Inf => {
            reveal_strlit("INF");
            reveal_strlit("M3U");
            assert("M3U"@[0] != "INF"@[0]);
            reveal_strlit("-X-VERSION");
            assert("-X-VERSION"@.len() != "INF"@.len());
            reveal_strlit("-X-INDEPENDENT-SEGMENTS");
            assert("-X-INDEPENDENT-SEGMENTS"@.len() != "INF"@.len());
            reveal_strlit("-X-START");
            assert("-X-START"@.len() != "INF"@.len());
            reveal_strlit("-X-DEFINE");
            assert("-X-DEFINE"@.len() != "INF"@.len());
            reveal_strlit("-X-TARGETDURATION");
            assert("-X-TARGETDURATION"@.len() != "INF"@.len());
            reveal_strlit("-X-MEDIA-SEQUENCE");
            assert("-X-MEDIA-SEQUENCE"@.len() != "INF"@.len());
            reveal_strlit("-X-DISCONTINUITY-SEQUENCE");
            assert("-X-DISCONTINUITY-SEQUENCE"@.len() != "INF"@.len());
            reveal_strlit("-X-ENDLIST");
            assert("-X-ENDLIST"@.len() != "INF"@.len());
            reveal_strlit("-X-PLAYLIST-TYPE");
            assert("-X-PLAYLIST-TYPE"@.len() != "INF"@.len());
            reveal_strlit("-X-I-FRAMES-ONLY");
            assert("-X-I-FRAMES-ONLY"@.len() != "INF"@.len());
            reveal_strlit("-X-PART-INF");
            assert("-X-PART-INF"@.len() != "INF"@.len());
            reveal_strlit("-X-SERVER-CONTROL");
            assert("-X-SERVER-CONTROL"@.len() != "INF"@.len());
        },
        TagName::Byterange => {
            reveal_strlit("-X-BYTERANGE");
            reveal_strlit("M3U");
            assert("M3U"@.len() != "-X-BYTERANGE"@.len());
            reveal_strlit("-X-VERSION");
            assert("-X-VERSION"@.len() != "-X-BYTERANGE"@.len());
            reveal_strlit("-X-INDEPENDENT-SEGMENTS");
            assert("-X-INDEPENDENT-SEGMENTS"@.len() != "-X-BYTERANGE"@.len());
            reveal_strlit("-X-START");
            assert("-X-START"@.len() != "-X-BYTERANGE"@.len());
            reveal_strlit("-X-DEFINE");
            assert("-X-DEFINE"@.len() != "-X-BYTERANGE"@.len());
            reveal_strlit("-X-TARGETDURATION");
            assert("-X-TARGETDURATION"@.len() != "-X-BYTERANGE"@.len());
            reveal_strlit("-X-MEDIA-SEQUENCE");
            assert("-X-MEDIA-SEQUENCE"@.len() != "-X-BYTERANGE"@.len());
            reveal_strlit("-X-DISCONTINUITY-SEQUENCE");
            assert("-X-DISCONTINUITY-SEQUENCE"@.len() != "-X-BYTERANGE"@.len());
            reveal_strlit("-X-ENDLIST");
            assert("-X-ENDLIST"@.len() != "-X-BYTERANGE"@.len());
            reveal_strlit("-X-PLAYLIST-TYPE");
            assert("-X-PLAYLIST-TYPE"@.len() != "-X-BYTERANGE"@.len());
            reveal_strlit("-X-I-FRAMES-ONLY");
            assert("-X-I-FRAMES-ONLY"@.len() != "-X-BYTERANGE"@.len());
            reveal_strlit("-X-PART-INF");
            assert("-X-PART-INF"@.len() != "-X-BYTERANGE"@.len());
            reveal_strlit("-X-SERVER-CONTROL");
            assert("-X-SERVER-CONTROL"@.len() != "-X-BYTERANGE"@.len());
            reveal_strlit("INF");
            assert("INF"@.len() != "-X-BYTERANGE"@.len());
        },
        TagName::Discontinuity => {
            reveal_strlit("-X-DISCONTINUITY");
            reveal_strlit("M3U");
            assert("M3U"@.len() != "-X-DISCONTINUITY"@.len());
            reveal_strlit("-X-VERSION");
            assert("-X-VERSION"@.len() != "-X-DISCONTINUITY"@.len());
            reveal_strlit("-X-INDEPENDENT-SEGMENTS");
            assert("-X-INDEPENDENT-SEGMENTS"@.len() != "-X-DISCONTINUITY"@.len());
            reveal_strlit("-X-START");
            assert("-X-START"@.len() != "-X-DISCONTINUITY"@.len());
            reveal_strlit("-X-DEFINE");
            assert("-X-DEFINE"@.len() != "-X-DISCONTINUITY"@.len());
            reveal_strlit("-X-TARGETDURATION");
            assert("-X-TARGETDURATION"@.len() != "-X-DISCONTINUITY"@.len());
            reveal_strlit("-X-MEDIA-SEQUENCE");
            assert("-X-MEDIA-SEQUENCE"@.len() != "-X-DISCONTINUITY"@.len());
            reveal_strlit("-X-DISCONTINUITY-SEQUENCE");
            assert("-X-DISCONTINUITY-SEQUENCE"@.len() != "-X-DISCONTINUITY"@.len());
            reveal_strlit("-X-ENDLIST");
            assert("-X-ENDLIST"@.len() != "-X-DISCONTINUITY"@.len());
            reveal_strlit("-X-PLAYLIST-TYPE");
            assert("-X-PLAYLIST-TYPE"@[3] != "-X-DISCONTINUITY"@[3]);
            reveal_strlit("-X-I-FRAMES-ONLY");
            assert("-X-I-FRAMES-ONLY"@[3] != "-X-DISCONTINUITY"@[3]);
            reveal_strlit("-X-PART-INF");
            assert("-X-PART-INF"@.len() != "-X-DISCONTINUITY"@.len());
            reveal_strlit("-X-SERVER-CONTROL");
            assert("-X-SERVER-CONTROL"@.len() != "-X-DISCONTINUITY"@.len());
            reveal_strlit("INF");
            assert("INF"@.len() != "-X-DISCONTINUITY"@.len());
            reveal_strlit("-X-BYTERANGE");
            assert("-X-BYTERANGE"@.len() != "-X-DISCONTINUITY"@.len());
        },
        TagName::Key => {
            reveal_strlit("-X-KEY");
            reveal_strlit("M3U");
            assert("M3U"@.len() != "-X-KEY"@.len());
            reveal_strlit("-X-VERSION");
            assert("-X-VERSION"@.len() != "-X-KEY"@.len());
            reveal_strlit("-X-INDEPENDENT-SEGMENTS");
            assert("-X-INDEPENDENT-SEGMENTS"@.len() != "-X-KEY"@.len());
            reveal_strlit("-X-START");
            assert("-X-START"@.len() != "-X-KEY"@.len());
            reveal_strlit("-X-DEFINE");
            assert("-X-DEFINE"@.len() != "-X-KEY"@.len());
            reveal_strlit("-X-TARGETDURATION");
            assert("-X-TARGETDURATION"@.len() != "-X-KEY"@.len());
            reveal_strlit("-X-MEDIA-SEQUENCE");
            assert("-X-MEDIA-SEQUENCE"@.len() != "-X-KEY"@.len());
            reveal_strlit("-X-DISCONTINUITY-SEQUENCE");
            assert("-X-DISCONTINUITY-SEQUENCE"@.len() != "-X-KEY"@.len());
            reveal_strlit("-X-ENDLIST");
            assert("-X-ENDLIST"@.len() != "-X-KEY"@.len());
            reveal_strlit("-X-PLAYLIST-TYPE");
            assert("-X-PLAYLIST-TYPE"@.len() != "-X-KEY"@.len());
            reveal_strlit("-X-I-FRAMES-ONLY");
            assert("-X-I-FRAMES-ONLY"@.len() != "-X-KEY"@.len());
            reveal_strlit("-X-PART-INF");
            assert("-X-PART-INF"@.len() != "-X-KEY"@.len());
            reveal_strlit("-X-SERVER-CONTROL");
            assert("-X-SERVER-CONTROL"@.len() != "-X-KEY"@.len());
            reveal_strlit("INF");
            assert("INF"@.len() != "-X-KEY"@.len());
            reveal_strlit("-X-BYTERANGE");
            assert("-X-BYTERANGE"@.len() != "-X-KEY"@.len());
            reveal_strlit("-X-DISCONTINUITY");
            assert("-X-DISCONTINUITY"@.len() != "-X-KEY"@.len());
        },
        TagName::XMap => {
            reveal_strlit("-X-MAP");
            reveal_strlit("M3U");
            assert("M3U"@.len() != "-X-MAP"@.len());
            reveal_strlit("-X-VERSION");
            assert("-X-VERSION"@.len() != "-X-MAP"@.len());
            reveal_strlit("-X-INDEPENDENT-SEGMENTS");
            assert("-X-INDEPENDENT-SEGMENTS"@.len() != "-X-MAP"@.len());
            reveal_strlit("-X-START");
            assert("-X-START"@.len() != "-X-MAP"@.len());
            reveal_strlit("-X-DEFINE");
            assert("-X-DEFINE"@.len() != "-X-MAP"@.len());
            reveal_strlit("-X-TARGETDURATION");
            assert("-X-TARGETDURATION"@.len() != "-X-MAP"@.len());
            reveal_strlit("-X-MEDIA-SEQUENCE");
            assert("-X-MEDIA-SEQUENCE"@.len() != "-X-MAP"@.len());
            reveal_strlit("-X-DISCONTINUITY-SEQUENCE");
            assert("-X-DISCONTINUITY-SEQUENCE"@.len() != "-X-MAP"@.len());
            reveal_strlit("-X-ENDLIST");
            assert("-X-ENDLIST"@.len() != "-X-MAP"@.len());
            reveal_strlit("-X-PLAYLIST-TYPE");
            assert("-X-PLAYLIST-TYPE"@.len() != "-X-MAP"@.len());
            reveal_strlit("-X-I-FRAMES-ONLY");
            assert("-X-I-FRAMES-ONLY"@.len() != "-X-MAP"@.len());
            reveal_strlit("-X-PART-INF");
            assert("-X-PART-INF"@.len() != "-X-MAP"@.len());
            reveal_strlit("-X-SERVER-CONTROL");
            assert("-X-SERVER-CONTROL"@.len() != "-X-MAP"@.len());
            reveal_strlit("INF");
            assert("INF"@.len() != "-X-MAP"@.len());
            reveal_strlit("-X-BYTERANGE");
            assert("-X-BYTERANGE"@.len() != "-X-MAP"@.len());
            reveal_strlit("-X-DISCONTINUITY");
            assert("-X-DISCONTINUITY"@.len() != "-X-MAP"@.len());
            reveal_strlit("-X-KEY");
            assert("-X-KEY"@[3] != "-X-MAP"@[3]);
        },
        TagName::ProgramDateTime => {
            reveal_strlit("-X-PROGRAM-DATE-TIME");
            reveal_strlit("M3U");
            assert("M3U"@.len() != "-X-PROGRAM-DATE-TIME"@.len());
            reveal_strlit("-X-VERSION");
            assert("-X-VERSION"@.len() != "-X-PROGRAM-DATE-TIME"@.len());
            reveal_strlit("-X-INDEPENDENT-SEGMENTS");
            assert("-X-INDEPENDENT-SEGMENTS"@.len() != "-X-PROGRAM-DATE-TIME"@.len());
            reveal_strlit("-X-START");
            assert("-X-START"@.len() != "-X-PROGRAM-DATE-TIME"@.len());
            reveal_strlit("-X-DEFINE");
            assert("-X-DEFINE"@.len() != "-X-PROGRAM-DATE-TIME"@.len());
            reveal_strlit("-X-TARGETDURATION");
            assert("-X-TARGETDURATION"@.len() != "-X-PROGRAM-DATE-TIME"@.len());
            reveal_strlit("-X-MEDIA-SEQUENCE");
            assert("-X-MEDIA-SEQUENCE"@.len() != "-X-PROGRAM-DATE-TIME"@.len());
            reveal_strlit("-X-DISCONTINUITY-SEQUENCE");
            assert("-X-DISCONTINUITY-SEQUENCE"@.len() != "-X-PROGRAM-DATE-TIME"@.len());
            reveal_strlit("-X-ENDLIST");
            assert("-X-ENDLIST"@.len() != "-X-PROGRAM-DATE-TIME"@.len());
            reveal_strlit("-X-PLAYLIST-TYPE");
            assert("-X-PLAYLIST-TYPE"@.len() != "-X-PROGRAM-DATE-TIME"@.len());
            reveal_strlit("-X-I-FRAMES-ONLY");
            assert("-X-I-FRAMES-ONLY"@.len() != "-X-PROGRAM-DATE-TIME"@.len());
            reveal_strlit("-X-PART-INF");
            assert("-X-PART-INF"@.len() != "-X-PROGRAM-DATE-TIME"@.len());
            reveal_strlit("-X-SERVER-CONTROL");
            assert("-X-SERVER-CONTROL"@.len() != "-X-PROGRAM-DATE-TIME"@.len());
            reveal_strlit("INF");
            assert("INF"@.len() != "-X-PROGRAM-DATE-TIME"@.len());
            reveal_strlit("-X-BYTERANGE");
            assert("-X-BYTERANGE"@.len() != "-X-PROGRAM-DATE-TIME"@.len());
            reveal_strlit("-X-DISCONTINUITY");
            assert("-X-DISCONTINUITY"@.len() != "-X-PROGRAM-DATE-TIME"@.len());
            reveal_strlit("-X-KEY");
            assert("-X-KEY"@.len() != "-X-PROGRAM-DATE-TIME"@.len());
            reveal_strlit("-X-MAP");
            assert("-X-MAP"@.len() != "-X-PROGRAM-DATE-TIME"@.len());
        },
        TagName::Gap => {
            reveal_strlit("-X-GAP");
            reveal_strlit("M3U");
            assert("M3U"@.len() != "-X-GAP"@.len());
            reveal_strlit("-X-VERSION");
            assert("-X-VERSION"@.len() != "-X-GAP"@.len());
            reveal_strlit("-X-INDEPENDENT-SEGMENTS");
            assert("-X-INDEPENDENT-SEGMENTS"@.len() != "-X-GAP"@.len());
            reveal_strlit("-X-START");
            assert("-X-START"@.len() != "-X-GAP"@.len());
            reveal_strlit("-X-DEFINE");
            assert("-X-DEFINE"@.len() != "-X-GAP"@.len());
            reveal_strlit("-X-TARGETDURATION");
            assert("-X-TARGETDURATION"@.len() != "-X-GAP"@.len());
            reveal_strlit("-X-MEDIA-SEQUENCE");
            assert("-X-MEDIA-SEQUENCE"@.len() != "-X-GAP"@.len());
            reveal_strlit("-X-DISCONTINUITY-SEQUENCE");
            assert("-X-DISCONTINUITY-SEQUENCE"@.len() != "-X-GAP"@.len());
            reveal_strlit("-X-ENDLIST");
            assert("-X-ENDLIST"@.len() != "-X-GAP"@.len());
            reveal_strlit("-X-PLAYLIST-TYPE");
            assert("-X-PLAYLIST-TYPE"@.len() != "-X-GAP"@.len());
            reveal_strlit("-X-I-FRAMES-ONLY");
            assert("-X-I-FRAMES-ONLY"@.len() != "-X-GAP"@.len());
            reveal_strlit("-X-PART-INF");
            assert("-X-PART-INF"@.len() != "-X-GAP"@.len());
            reveal_strlit("-X-SERVER-CONTROL");
            assert("-X-SERVER-CONTROL"@.len() != "-X-GAP"@.len());
            reveal_strlit("INF");
            assert("INF"@.len() != "-X-GAP"@.len());
            reveal_strlit("-X-BYTERANGE");
            assert("-X-BYTERANGE"@.len() != "-X-GAP"@.len());
            reveal_strlit("-X-DISCONTINUITY");
            assert("-X-DISCONTINUITY"@.len() != "-X-GAP"@.len());
            reveal_strlit("-X-KEY");
            assert("-X-KEY"@[3] != "-X-GAP"@[3]);
            reveal_strlit("-X-MAP");
            assert("-X-MAP"@[3] != "-X-GAP"@[3]);
            reveal_strlit("-X-PROGRAM-DATE-TIME");
            assert("-X-PROGRAM-DATE-TIME"@.len() != "-X-GAP"@.len());
        },
        TagName::Bitrate => {
            reveal_strlit("-X-BITRATE");
            reveal_strlit("M3U");
            assert("M3U"@.len() != "-X-BITRATE"@.len());
            reveal_strlit("-X-VERSION");
            assert("-X-VERSION"@[3] != "-X-BITRATE"@[3]);
            reveal_strlit("-X-INDEPENDENT-SEGMENTS");
            assert("-X-INDEPENDENT-SEGMENTS"@.len() != "-X-BITRATE"@.len());
            reveal_strlit("-X-START");
            assert("-X-START"@.len() != "-X-BITRATE"@.len());
            reveal_strlit("-X-DEFINE");
            assert("-X-DEFINE"@.len() != "-X-BITRATE"@.len());
            reveal_strlit("-X-TARGETDURATION");
            assert("-X-TARGETDURATION"@.len() != "-X-BITRATE"@.len());
            reveal_strlit("-X-MEDIA-SEQUENCE");
            assert("-X-MEDIA-SEQUENCE"@.len() != "-X-BITRATE"@.len());
            reveal_strlit("-X-DISCONTINUITY-SEQUENCE");
            assert("-X-DISCONTINUITY-SEQUENCE"@.len() != "-X-BITRATE"@.len());
            reveal_strlit("-X-ENDLIST");
            assert("-X-ENDLIST"@[3] != "-X-BITRATE"@[3]);
            reveal_strlit("-X-PLAYLIST-TYPE");
            assert("-X-PLAYLIST-TYPE"@.len() != "-X-BITRATE"@.len());
            reveal_strlit("-X-I-FRAMES-ONLY");
            assert("-X-I-FRAMES-ONLY"@.len() != "-X-BITRATE"@.len());
            reveal_strlit("-X-PART-INF");
            assert("-X-PART-INF"@.len() != "-X-BITRATE"@.len());
            reveal_strlit("-X-SERVER-CONTROL");
            assert("-X-SERVER-CONTROL"@.len() != "-X-BITRATE"@.len());
            reveal_strlit("INF");
            assert("INF"@.len() != "-X-BITRATE"@.len());
            reveal_strlit("-X-BYTERANGE");
            assert("-X-BYTERANGE"@.len() != "-X-BITRATE"@.len());
            reveal_strlit("-X-DISCONTINUITY");
            assert("-X-DISCONTINUITY"@.len() != "-X-BITRATE"@.len());
            reveal_strlit("-X-KEY");
            assert("-X-KEY"@.len() != "-X-BITRATE"@.len());
            reveal_strlit("-X-MAP");
            assert("-X-MAP"@.len() != "-X-BITRATE"@.len());
            reveal_strlit("-X-PROGRAM-DATE-TIME");
            assert("-X-PROGRAM-DATE-TIME"@.len() != "-X-BITRATE"@.len());
            reveal_strlit("-X-GAP");
            assert("-X-GAP"@.len() != "-X-BITRATE"@.len());
        },
        TagName::Part => {
            reveal_strlit("-X-PART");
            reveal_strlit("M3U");
            assert("M3U"@.len() != "-X-PART"@.len());
            reveal_strlit("-X-VERSION");
            assert("-X-VERSION"@.len() != "-X-PART"@.len());
            reveal_strlit("-X-INDEPENDENT-SEGMENTS");
            assert("-X-INDEPENDENT-SEGMENTS"@.len() != "-X-PART"@.len());
            reveal_strlit("-X-START");
            assert("-X-START"@.len() != "-X-PART"@.len());
            reveal_strlit("-X-DEFINE");
            assert("-X-DEFINE"@.len() != "-X-PART"@.len());
            reveal_strlit("-X-TARGETDURATION");
            assert("-X-TARGETDURATION"@.len() != "-X-PART"@.len());
            reveal_strlit("-X-MEDIA-SEQUENCE");
            assert("-X-MEDIA-SEQUENCE"@.len() != "-X-PART"@.len());
            reveal_strlit("-X-DISCONTINUITY-SEQUENCE");
            assert("-X-DISCONTINUITY-SEQUENCE"@.len() != "-X-PART"@.len());
            reveal_strlit("-X-ENDLIST");
            assert("-X-ENDLIST"@.len() != "-X-PART"@.len());
            reveal_strlit("-X-PLAYLIST-TYPE");
            assert("-X-PLAYLIST-TYPE"@.len() != "-X-PART"@.len());
            reveal_strlit("-X-I-FRAMES-ONLY");
            assert("-X-I-FRAMES-ONLY"@.len() != "-X-PART"@.len());
            reveal_strlit("-X-PART-INF");
            assert("-X-PART-INF"@.len() != "-X-PART"@.len());
            reveal_strlit("-X-SERVER-CONTROL");
            assert("-X-SERVER-CONTROL"@.len() != "-X-PART"@.len());
            reveal_strlit("INF");
            assert("INF"@.len() != "-X-PART"@.len());
            reveal_strlit("-X-BYTERANGE");
            assert("-X-BYTERANGE"@.len() != "-X-PART"@.len());
            reveal_strlit("-X-DISCONTINUITY");
            assert("-X-DISCONTINUITY"@.len() != "-X-PART"@.len());
            reveal_strlit("-X-KEY");
            assert("-X-KEY"@.len() != "-X-PART"@.len());
            reveal_strlit("-X-MAP");
            assert("-X-MAP"@.len() != "-X-PART"@.len());
            reveal_strlit("-X-PROGRAM-DATE-TIME");
            assert("-X-PROGRAM-DATE-TIME"@.len() != "-X-PART"@.len());
            reveal_strlit("-X-GAP");
            assert("-X-GAP"@.len() != "-X-PART"@.len());
            reveal_strlit("-X-BITRATE");
            assert("-X-BITRATE"@.len() != "-X-PART"@.len());
        },
        TagName::Daterange => {
            reveal_strlit("-X-DATERANGE");
            reveal_strlit("M3U");
            assert("M3U"@.len() != "-X-DATERANGE"@.len());
            reveal_strlit("-X-VERSION");
            assert("-X-VERSION"@.len() != "-X-DATERANGE"@.len());
            reveal_strlit("-X-INDEPENDENT-SEGMENTS");
            assert("-X-INDEPENDENT-SEGMENTS"@.len() != "-X-DATERANGE"@.len());
            reveal_strlit("-X-START");
            assert("-X-START"@.len() != "-X-DATERANGE"@.len());
            reveal_strlit("-X-DEFINE");
            assert("-X-DEFINE"@.len() != "-X-DATERANGE"@.len());
            reveal_strlit("-X-TARGETDURATION");
            assert("-X-TARGETDURATION"@.len() != "-X-DATERANGE"@.len());
            reveal_strlit("-X-MEDIA-SEQUENCE");
            assert("-X-MEDIA-SEQUENCE"@.len() != "-X-DATERANGE"@.len());
            reveal_strlit("-X-DISCONTINUITY-SEQUENCE");
            assert("-X-DISCONTINUITY-SEQUENCE"@.len() != "-X-DATERANGE"@.len());
            reveal_strlit("-X-ENDLIST");
            assert("-X-ENDLIST"@.len() != "-X-DATERANGE"@.len());
            reveal_strlit("-X-PLAYLIST-TYPE");
            assert("-X-PLAYLIST-TYPE"@.len() != "-X-DATERANGE"@.len());
            reveal_strlit("-X-I-FRAMES-ONLY");
            assert("-X-I-FRAMES-ONLY"@.len() != "-X-DATERANGE"@.len());
            reveal_strlit("-X-PART-INF");
            assert("-X-PART-INF"@.len() != "-X-DATERANGE"@.len());
            reveal_strlit("-X-SERVER-CONTROL");
            assert("-X-SERVER-CONTROL"@.len() != "-X-DATERANGE"@.len());
            reveal_strlit("INF");
            assert("INF"@.len() != "-X-DATERANGE"@.len());
            reveal_strlit("-X-BYTERANGE");
            assert("-X-BYTERANGE"@[3] != "-X-DATERANGE"@[3]);
            reveal_strlit("-X-DISCONTINUITY");
            assert("-X-DISCONTINUITY"@.len() != "-X-DATERANGE"@.len());
            reveal_strlit("-X-KEY");
            assert("-X-KEY"@.len() != "-X-DATERANGE"@.len());
            reveal_strlit("-X-MAP");
            assert("-X-MAP"@.len() != "-X-DATERANGE"@.len());
            reveal_strlit("-X-PROGRAM-DATE-TIME");
            assert("-X-PROGRAM-DATE-TIME"@.len() != "-X-DATERANGE"@.len());
            reveal_strlit("-X-GAP");
            assert("-X-GAP"@.len() != "-X-DATERANGE"@.len());
            reveal_strlit("-X-BITRATE");
            assert("-X-BITRATE"@.len() != "-X-DATERANGE"@.len());
            reveal_strlit("-X-PART");
            assert("-X-PART"@.len() != "-X-DATERANGE"@.len());
        },
        TagName::Skip => {
            reveal_strlit("-X-SKIP");
            reveal_strlit("M3U");
            assert("M3U"@.len() != "-X-SKIP"@.len());
            reveal_strlit("-X-VERSION");
            assert("-X-VERSION"@.len() != "-X-SKIP"@.len());
            reveal_strlit("-X-INDEPENDENT-SEGMENTS");
            assert("-X-INDEPENDENT-SEGMENTS"@.len() != "-X-SKIP"@.len());
            reveal_strlit("-X-START");
            assert("-X-START"@.len() != "-X-SKIP"@.len());
            reveal_strlit("-X-DEFINE");
            assert("-X-DEFINE"@.len() != "-X-SKIP"@.len());
            reveal_strlit("-X-TARGETDURATION");
            assert("-X-TARGETDURATION"@.len() != "-X-SKIP"@.len());
            reveal_strlit("-X-MEDIA-SEQUENCE");
            assert("-X-MEDIA-SEQUENCE"@.len() != "-X-SKIP"@.len());
            reveal_strlit("-X-DISCONTINUITY-SEQUENCE");
            assert("-X-DISCONTINUITY-SEQUENCE"@.len() != "-X-SKIP"@.len());
            reveal_strlit("-X-ENDLIST");
            assert("-X-ENDLIST"@.len() != "-X-SKIP"@.len());
            reveal_strlit("-X-PLAYLIST-TYPE");
            assert("-X-PLAYLIST-TYPE"@.len() != "-X-SKIP"@.len());
            reveal_strlit("-X-I-FRAMES-ONLY");
            assert("-X-I-FRAMES-ONLY"@.len() != "-X-SKIP"@.len());
            reveal_strlit("-X-PART-INF");
            assert("-X-PART-INF"@.len() != "-X-SKIP"@.len());
            reveal_strlit("-X-SERVER-CONTROL");
            assert("-X-SERVER-CONTROL"@.len() != "-X-SKIP"@.len());
            reveal_strlit("INF");
            assert("INF"@.len() != "-X-SKIP"@.len());
            reveal_strlit("-X-BYTERANGE");
            assert("-X-BYTERANGE"@.len() != "-X-SKIP"@.len());
            reveal_strlit("-X-DISCONTINUITY");
            assert("-X-DISCONTINUITY"@.len() != "-X-SKIP"@.len());
            reveal_strlit("-X-KEY");
            assert("-X-KEY"@.len() != "-X-SKIP"@.len());
            reveal_strlit("-X-MAP");
            assert("-X-MAP"@.len() != "-X-SKIP"@.len());
            reveal_strlit("-X-PROGRAM-DATE-TIME");
            assert("-X-PROGRAM-DATE-TIME"@.len() != "-X-SKIP"@.len());
            reveal_strlit("-X-GAP");
            assert("-X-GAP"@.len() != "-X-SKIP"@.len());
            reveal_strlit("-X-BITRATE");
            assert("-X-BITRATE"@.len() != "-X-SKIP"@.len());
            reveal_strlit("-X-PART");
            assert("-X-PART"@[3] != "-X-SKIP"@[3]);
            reveal_strlit("-X-DATERANGE");
            assert("-X-DATERANGE"@.len() != "-X-SKIP"@.len());
        },
        TagName::PreloadHint => {
            reveal_strlit("-X-PRELOAD-HINT");
            reveal_strlit("M3U");
            assert("M3U"@.len() != "-X-PRELOAD-HINT"@.len());
            reveal_strlit("-X-VERSION");
            assert("-X-VERSION"@.len() != "-X-PRELOAD-HINT"@.len());
            reveal_strlit("-X-INDEPENDENT-SEGMENTS");
            assert("-X-INDEPENDENT-SEGMENTS"@.len() != "-X-PRELOAD-HINT"@.len());
            reveal_strlit("-X-START");
            assert("-X-START"@.len() != "-X-PRELOAD-HINT"@.len());
            reveal_strlit("-X-DEFINE");
            assert("-X-DEFINE"@.len() != "-X-PRELOAD-HINT"@.len());
            reveal_strlit("-X-TARGETDURATION");
            assert("-X-TARGETDURATION"@.len() != "-X-PRELOAD-HINT"@.len());
            reveal_strlit("-X-MEDIA-SEQUENCE");
            assert("-X-MEDIA-SEQUENCE"@.len() != "-X-PRELOAD-HINT"@.len());
            reveal_strlit("-X-DISCONTINUITY-SEQUENCE");
            assert("-X-DISCONTINUITY-SEQUENCE"@.len() != "-X-PRELOAD-HINT"@.len());
            reveal_strlit("-X-ENDLIST");
            assert("-X-ENDLIST"@.len() != "-X-PRELOAD-HINT"@.len());
            reveal_strlit("-X-PLAYLIST-TYPE");
            assert("-X-PLAYLIST-TYPE"@.len() != "-X-PRELOAD-HINT"@.len());
            reveal_strlit("-X-I-FRAMES-ONLY");
            assert("-X-I-FRAMES-ONLY"@.len() != "-X-PRELOAD-HINT"@.len());
            reveal_strlit("-X-PART-INF");
            assert("-X-PART-INF"@.len() != "-X-PRELOAD-HINT"@.len());
            reveal_strlit("-X-SERVER-CONTROL");
            assert("-X-SERVER-CONTROL"@.len() != "-X-PRELOAD-HINT"@.len());
            reveal_strlit("INF");
            assert("INF"@.len() != "-X-PRELOAD-HINT"@.len());
            reveal_strlit("-X-BYTERANGE");
            assert("-X-BYTERANGE"@.len() != "-X-PRELOAD-HINT"@.len());
            reveal_strlit("-X-DISCONTINUITY");
            assert("-X-DISCONTINUITY"@.len() != "-X-PRELOAD-HINT"@.len());
            reveal_strlit("-X-KEY");
            assert("-X-KEY"@.len() != "-X-PRELOAD-HINT"@.len());
            reveal_strlit("-X-MAP");
            assert("-X-MAP"@.len() != "-X-PRELOAD-HINT"@.len());
            reveal_strlit("-X-PROGRAM-DATE-TIME");
            assert("-X-PROGRAM-DATE-TIME"@.len() != "-X-PRELOAD-HINT"@.len());
            reveal_strlit("-X-GAP");
            assert("-X-GAP"@.len() != "-X-PRELOAD-HINT"@.len());
            reveal_strlit("-X-BITRATE");
            assert("-X-BITRATE"@.len() != "-X-PRELOAD-HINT"@.len());
            reveal_strlit("-X-PART");
            assert("-X-PART"@.len() != "-X-PRELOAD-HINT"@.len());
            reveal_strlit("-X-DATERANGE");
            assert("-X-DATERANGE"@.len() != "-X-PRELOAD-HINT"@.len());
            reveal_strlit("-X-SKIP");
            assert("-X-SKIP"@.len() != "-X-PRELOAD-HINT"@.len());
        },
        TagName::RenditionReport => {
            reveal_strlit("-X-RENDITION-REPORT");
            reveal_strlit("M3U");
            assert("M3U"@.len() != "-X-RENDITION-REPORT"@.len());
            reveal_strlit("-X-VERSION");
            assert("-X-VERSION"@.len() != "-X-RENDITION-REPORT"@.len());
            reveal_strlit("-X-INDEPENDENT-SEGMENTS");
            assert("-X-INDEPENDENT-SEGMENTS"@.len() != "-X-RENDITION-REPORT"@.len());
            reveal_strlit("-X-START");
            assert("-X-START"@.len() != "-X-RENDITION-REPORT"@.len());
            reveal_strlit("-X-DEFINE");
            assert("-X-DEFINE"@.len() != "-X-RENDITION-REPORT"@.len());
            reveal_strlit("-X-TARGETDURATION");
            assert("-X-TARGETDURATION"@.len() != "-X-RENDITION-REPORT"@.len());
            reveal_strlit("-X-MEDIA-SEQUENCE");
            assert("-X-MEDIA-SEQUENCE"@.len() != "-X-RENDITION-REPORT"@.len());
            reveal_strlit("-X-DISCONTINUITY-SEQUENCE");
            assert("-X-DISCONTINUITY-SEQUENCE"@.len() != "-X-RENDITION-REPORT"@.len());
            reveal_strlit("-X-ENDLIST");
            assert("-X-ENDLIST"@.len() != "-X-RENDITION-REPORT"@.len());
            reveal_strlit("-X-PLAYLIST-TYPE");
            assert("-X-PLAYLIST-TYPE"@.len() != "-X-RENDITION-REPORT"@.len());
            reveal_strlit("-X-I-FRAMES-ONLY");
            assert("-X-I-FRAMES-ONLY"@.len() != "-X-RENDITION-REPORT"@.len());
            reveal_strlit("-X-PART-INF");
            assert("-X-PART-INF"@.len() != "-X-RENDITION-REPORT"@.len());
            reveal_strlit("-X-SERVER-CONTROL");
            assert("-X-SERVER-CONTROL"@.len() != "-X-RENDITION-REPORT"@.len());
            reveal_strlit("INF");
            assert("INF"@.len() != "-X-RENDITION-REPORT"@.len());
            reveal_strlit("-X-BYTERANGE");
            assert("-X-BYTERANGE"@.len() != "-X-RENDITION-REPORT"@.len());
            reveal_strlit("-X-DISCONTINUITY");
            assert("-X-DISCONTINUITY"@.len() != "-X-RENDITION-REPORT"@.len());
            reveal_strlit("-X-KEY");
            assert("-X-KEY"@.len() != "-X-RENDITION-REPORT"@.len());
            reveal_strlit("-X-MAP");
            assert("-X-MAP"@.len() != "-X-RENDITION-REPORT"@.len());
            reveal_strlit("-X-PROGRAM-DATE-TIME");
            assert("-X-PROGRAM-DATE-TIME"@.len() != "-X-RENDITION-REPORT"@.len());
            reveal_strlit("-X-GAP");
            assert("-X-GAP"@.len() != "-X-RENDITION-REPORT"@.len());
            reveal_strlit("-X-BITRATE");
            assert("-X-BITRATE"@.len() != "-X-RENDITION-REPORT"@.len());
            reveal_strlit("-X-PART");
            assert("-X-PART"@.len() != "-X-RENDITION-REPORT"@.len());
            reveal_strlit("-X-DATERANGE");
            assert("-X-DATERANGE"@.len() != "-X-RENDITION-REPORT"@.len());
            reveal_strlit("-X-SKIP");
            assert("-X-SKIP"@.len() != "-X-RENDITION-REPORT"@.len());
            reveal_strlit("-X-PRELOAD-HINT");
            assert("-X-PRELOAD-HINT"@.len() != "-X-RENDITION-REPORT"@.len());
        },
        TagName::Media => {
            reveal_strlit("-X-MEDIA");
            reveal_strlit("M3U");
            assert("M3U"@.len() != "-X-MEDIA"@.len());
            reveal_strlit("-X-VERSION");
            assert("-X-VERSION"@.len() != "-X-MEDIA"@.len());
            reveal_strlit("-X-INDEPENDENT-SEGMENTS");
            assert("-X-INDEPENDENT-SEGMENTS"@.len() != "-X-MEDIA"@.len());
            reveal_strlit("-X-START");
            assert("-X-START"@[3] != "-X-MEDIA"@[3]);
            reveal_strlit("-X-DEFINE");
            assert("-X-DEFINE"@.len() != "-X-MEDIA"@.len());
            reveal_strlit("-X-TARGETDURATION");
            assert("-X-TARGETDURATION"@.len() != "-X-MEDIA"@.len());
            reveal_strlit("-X-MEDIA-SEQUENCE");
            assert("-X-MEDIA-SEQUENCE"@.len() != "-X-MEDIA"@.len());
            reveal_strlit("-X-DISCONTINUITY-SEQUENCE");
            assert("-X-DISCONTINUITY-SEQUENCE"@.len() != "-X-MEDIA"@.len());
            reveal_strlit("-X-ENDLIST");
            assert("-X-ENDLIST"@.len() != "-X-MEDIA"@.len());
            reveal_strlit("-X-PLAYLIST-TYPE");
            assert("-X-PLAYLIST-TYPE"@.len() != "-X-MEDIA"@.len());
            reveal_strlit("-X-I-FRAMES-ONLY");
            assert("-X-I-FRAMES-ONLY"@.len() != "-X-MEDIA"@.len());
            reveal_strlit("-X-PART-INF");
            assert("-X-PART-INF"@.len() != "-X-MEDIA"@.len());
            reveal_strlit("-X-SERVER-CONTROL");
            assert("-X-SERVER-CONTROL"@.len() != "-X-MEDIA"@.len());
            reveal_strlit("INF");
            assert("INF"@.len() != "-X-MEDIA"@.len());
            reveal_strlit("-X-BYTERANGE");
            assert("-X-BYTERANGE"@.len() != "-X-MEDIA"@.len());
            reveal_strlit("-X-DISCONTINUITY");
            assert("-X-DISCONTINUITY"@.len() != "-X-MEDIA"@.len());
            reveal_strlit("-X-KEY");
            assert("-X-KEY"@.len() != "-X-MEDIA"@.len());
            reveal_strlit("-X-MAP");
            assert("-X-MAP"@.len() != "-X-MEDIA"@.len());
            reveal_strlit("-X-PROGRAM-DATE-TIME");
            assert("-X-PROGRAM-DATE-TIME"@.len() != "-X-MEDIA"@.len());
            reveal_strlit("-X-GAP");
            assert("-X-GAP"@.len() != "-X-MEDIA"@.len());
            reveal_strlit("-X-BITRATE");
            assert("-X-BITRATE"@.len() != "-X-MEDIA"@.len());
            reveal_strlit("-X-PART");
            assert("-X-PART"@.len() != "-X-MEDIA"@.len());
            reveal_strlit("-X-DATERANGE");
            assert("-X-DATERANGE"@.len() != "-X-MEDIA"@.len());
            reveal_strlit("-X-SKIP");
            assert("-X-SKIP"@.len() != "-X-MEDIA"@.len());
            reveal_strlit("-X-PRELOAD-HINT");
            assert("-X-PRELOAD-HINT"@.len() != "-X-MEDIA"@.len());
            reveal_strlit("-X-RENDITION-REPORT");
            assert("-X-RENDITION-REPORT"@.len() != "-X-MEDIA"@.len());
        },
        TagName::StreamInf => {
            reveal_strlit("-X-STREAM-INF");
            reveal_strlit("M3U");
            assert("M3U"@.len() != "-X-STREAM-INF"@.len());
            reveal_strlit("-X-VERSION");
            assert("-X-VERSION"@.len() != "-X-STREAM-INF"@.len());
            reveal_strlit("-X-INDEPENDENT-SEGMENTS");
            assert("-X-INDEPENDENT-SEGMENTS"@.len() != "-X-STREAM-INF"@.len());
            reveal_strlit("-X-START");
            assert("-X-START"@.len() != "-X-STREAM-INF"@.len());
            reveal_strlit("-X-DEFINE");
            assert("-X-DEFINE"@.len() != "-X-STREAM-INF"@.len());
            reveal_strlit("-X-TARGETDURATION");
            assert("-X-TARGETDURATION"@.len() != "-X-STREAM-INF"@.len());
            reveal_strlit("-X-MEDIA-SEQUENCE");
            assert("-X-MEDIA-SEQUENCE"@.len() != "-X-STREAM-INF"@.len());
            reveal_strlit("-X-DISCONTINUITY-SEQUENCE");
            assert("-X-DISCONTINUITY-SEQUENCE"@.len() != "-X-STREAM-INF"@.len());
            reveal_strlit("-X-ENDLIST");
            assert("-X-ENDLIST"@.len() != "-X-STREAM-INF"@.len());
            reveal_strlit("-X-PLAYLIST-TYPE");
            assert("-X-PLAYLIST-TYPE"@.len() != "-X-STREAM-INF"@.len());
            reveal_strlit("-X-I-FRAMES-ONLY");
            assert("-X-I-FRAMES-ONLY"@.len() != "-X-STREAM-INF"@.len());
            reveal_strlit("-X-PART-INF");
            assert("-X-PART-INF"@.len() != "-X-STREAM-INF"@.len());
            reveal_strlit("-X-SERVER-CONTROL");
            assert("-X-SERVER-CONTROL"@.len() != "-X-STREAM-INF"@.len());
            reveal_strlit("INF");
            assert("INF"@.len() != "-X-STREAM-INF"@.len());
            reveal_strlit("-X-BYTERANGE");
            assert("-X-BYTERANGE"@.len() != "-X-STREAM-INF"@.len());
            reveal_strlit("-X-DISCONTINUITY");
            assert("-X-DISCONTINUITY"@.len() != "-X-STREAM-INF"@.len());
            reveal_strlit("-X-KEY");
            assert("-X-KEY"@.len() != "-X-STREAM-INF"@.len());
            reveal_strlit("-X-MAP");
            assert("-X-MAP"@.len() != "-X-STREAM-INF"@.len());
            reveal_strlit("-X-PROGRAM-DATE-TIME");
            assert("-X-PROGRAM-DATE-TIME"@.len() != "-X-STREAM-INF"@.len());
            reveal_strlit("-X-GAP");
            assert("-X-GAP"@.len() != "-X-STREAM-INF"@.len());
            reveal_strlit("-X-BITRATE");
            assert("-X-BITRATE"@.len() != "-X-STREAM-INF"@.len());
            reveal_strlit("-X-PART");
            assert("-X-PART"@.len() != "-X-STREAM-INF"@.len());
            reveal_strlit("-X-DATERANGE");
            assert("-X-DATERANGE"@.len() != "-X-STREAM-INF"@.len());
            reveal_strlit("-X-SKIP");
            assert("-X-SKIP"@.len() != "-X-STREAM-INF"@.len());
            reveal_strlit("-X-PRELOAD-HINT");
            assert("-X-PRELOAD-HINT"@.len() != "-X-STREAM-INF"@.len());
            reveal_strlit("-X-RENDITION-REPORT");
            assert("-X-RENDITION-REPORT"@.len() != "-X-STREAM-INF"@.len());
            reveal_strlit("-X-MEDIA");
            assert("-X-MEDIA"@.len() != "-X-STREAM-INF"@.len());
        },
        TagName::IFrameStreamInf => {
            reveal_strlit("-X-I-FRAME-STREAM-INF");
            reveal_strlit("M3U");
            assert("M3U"@.len() != "-X-I-FRAME-STREAM-INF"@.len());
            reveal_strlit("-X-VERSION");
            assert("-X-VERSION"@.len() != "-X-I-FRAME-STREAM-INF"@.len());
            reveal_strlit("-X-INDEPENDENT-SEGMENTS");
            assert("-X-INDEPENDENT-SEGMENTS"@.len() != "-X-I-FRAME-STREAM-INF"@.len());
            reveal_strlit("-X-START");
            assert("-X-START"@.len() != "-X-I-FRAME-STREAM-INF"@.len());
            reveal_strlit("-X-DEFINE");
            assert("-X-DEFINE"@.len() != "-X-I-FRAME-STREAM-INF"@.len());
            reveal_strlit("-X-TARGETDURATION");
            assert("-X-TARGETDURATION"@.len() != "-X-I-FRAME-STREAM-INF"@.len());
            reveal_strlit("-X-MEDIA-SEQUENCE");
            assert("-X-MEDIA-SEQUENCE"@.len() != "-X-I-FRAME-STREAM-INF"@.len());
            reveal_strlit("-X-DISCONTINUITY-SEQUENCE");
            assert("-X-DISCONTINUITY-SEQUENCE"@.len() != "-X-I-FRAME-STREAM-INF"@.len());
            reveal_strlit("-X-ENDLIST");
            assert("-X-ENDLIST"@.len() != "-X-I-FRAME-STREAM-INF"@.len());
            reveal_strlit("-X-PLAYLIST-TYPE");
            assert("-X-PLAYLIST-TYPE"@.len() != "-X-I-FRAME-STREAM-INF"@.len());
            reveal_strlit("-X-I-FRAMES-ONLY");
            assert("-X-I-FRAMES-ONLY"@.len() != "-X-I-FRAME-STREAM-INF"@.len());
            reveal_strlit("-X-PART-INF");
            assert("-X-PART-INF"@.len() != "-X-I-FRAME-STREAM-INF"@.len());
            reveal_strlit("-X-SERVER-CONTROL");
            assert("-X-SERVER-CONTROL"@.len() != "-X-I-FRAME-STREAM-INF"@.len());
            reveal_strlit("INF");
            assert("INF"@.len() != "-X-I-FRAME-STREAM-INF"@.len());
            reveal_strlit("-X-BYTERANGE");
            assert("-X-BYTERANGE"@.len() != "-X-I-FRAME-STREAM-INF"@.len());
            reveal_strlit("-X-DISCONTINUITY");
            assert("-X-DISCONTINUITY"@.len() != "-X-I-FRAME-STREAM-INF"@.len());
            reveal_strlit("-X-KEY");
            assert("-X-KEY"@.len() != "-X-I-FRAME-STREAM-INF"@.len());
            reveal_strlit("-X-MAP");
            assert("-X-MAP"@.len() != "-X-I-FRAME-STREAM-INF"@.len());
            reveal_strlit("-X-PROGRAM-DATE-TIME");
            assert("-X-PROGRAM-DATE-TIME"@.len() != "-X-I-FRAME-STREAM-INF"@.len());
            reveal_strlit("-X-GAP");
            assert("-X-GAP"@.len() != "-X-I-FRAME-STREAM-INF"@.len());
            reveal_strlit("-X-BITRATE");
            assert("-X-BITRATE"@.len() != "-X-I-FRAME-STREAM-INF"@.len());
            reveal_strlit("-X-PART");
            assert("-X-PART"@.len() != "-X-I-FRAME-STREAM-INF"@.len());
            reveal_strlit("-X-DATERANGE");
            assert("-X-DATERANGE"@.len() != "-X-I-FRAME-STREAM-INF"@.len());
            reveal_strlit("-X-SKIP");
            assert("-X-SKIP"@.len() != "-X-I-FRAME-STREAM-INF"@.len());
            reveal_strlit("-X-PRELOAD-HINT");
            assert("-X-PRELOAD-HINT"@.len() != "-X-I-FRAME-STREAM-INF"@.len());
            reveal_strlit("-X-RENDITION-REPORT");
            assert("-X-RENDITION-REPORT"@.len() != "-X-I-FRAME-STREAM-INF"@.len());
            reveal_strlit("-X-MEDIA");
            assert("-X-MEDIA"@.len() != "-X-I-FRAME-STREAM-INF"@.len());
            reveal_strlit("-X-STREAM-INF");
            assert("-X-STREAM-INF"@.len() != "-X-I-FRAME-STREAM-INF"@.len());
        },
        TagName::SessionData => {
            reveal_strlit("-X-SESSION-DATA");
            reveal_strlit("M3U");
            assert("M3U"@.len() != "-X-SESSION-DATA"@.len());
            reveal_strlit("-X-VERSION");
            assert("-X-VERSION"@.len() != "-X-SESSION-DATA"@.len());
            reveal_strlit("-X-INDEPENDENT-SEGMENTS");
            assert("-X-INDEPENDENT-SEGMENTS"@.len() != "-X-SESSION-DATA"@.len());
            reveal_strlit("-X-START");
            assert("-X-START"@.len() != "-X-SESSION-DATA"@.len());
            reveal_strlit("-X-DEFINE");
            assert("-X-DEFINE"@.len() != "-X-SESSION-DATA"@.len());
            reveal_strlit("-X-TARGETDURATION");
            assert("-X-TARGETDURATION"@.len() != "-X-SESSION-DATA"@.len());
            reveal_strlit("-X-MEDIA-SEQUENCE");
            assert("-X-MEDIA-SEQUENCE"@.len() != "-X-SESSION-DATA"@.len());
            reveal_strlit("-X-DISCONTINUITY-SEQUENCE");
            assert("-X-DISCONTINUITY-SEQUENCE"@.len() != "-X-SESSION-DATA"@.len());
            reveal_strlit("-X-ENDLIST");
            assert("-X-ENDLIST"@.len() != "-X-SESSION-DATA"@.len());
            reveal_strlit("-X-PLAYLIST-TYPE");
            assert("-X-PLAYLIST-TYPE"@.len() != "-X-SESSION-DATA"@.len());
            reveal_strlit("-X-I-FRAMES-ONLY");
            assert("-X-I-FRAMES-ONLY"@.len() != "-X-SESSION-DATA"@.len());
            reveal_strlit("-X-PART-INF");
            assert("-X-PART-INF"@.len() != "-X-SESSION-DATA"@.len());
            reveal_strlit("-X-SERVER-CONTROL");
            assert("-X-SERVER-CONTROL"@.len() != "-X-SESSION-DATA"@.len());
            reveal_strlit("INF");
            assert("INF"@.len() != "-X-SESSION-DATA"@.len());
            reveal_strlit("-X-BYTERANGE");
            assert("-X-BYTERANGE"@.len() != "-X-SESSION-DATA"@.len());
            reveal_strlit("-X-DISCONTINUITY");
            assert("-X-DISCONTINUITY"@.len() != "-X-SESSION-DATA"@.len());
            reveal_strlit("-X-KEY");
            assert("-X-KEY"@.len() != "-X-SESSION-DATA"@.len());
            reveal_strlit("-X-MAP");
            assert("-X-MAP"@.len() != "-X-SESSION-DATA"@.len());
            reveal_strlit("-X-PROGRAM-DATE-TIME");
            assert("-X-PROGRAM-DATE-TIME"@.len() != "-X-SESSION-DATA"@.len());
            reveal_strlit("-X-GAP");
            assert("-X-GAP"@.len() != "-X-SESSION-DATA"@.len());
            reveal_strlit("-X-BITRATE");
            assert("-X-BITRATE"@.len() != "-X-SESSION-DATA"@.len());
            reveal_strlit("-X-PART");
            assert("-X-PART"@.len() != "-X-SESSION-DATA"@.len());
            reveal_strlit("-X-DATERANGE");
            assert("-X-DATERANGE"@.len() != "-X-SESSION-DATA"@.len());
            reveal_strlit("-X-SKIP");
            assert("-X-SKIP"@.len() != "-X-SESSION-DATA"@.len());
            reveal_strlit("-X-PRELOAD-HINT");
            assert("-X-PRELOAD-HINT"@[3] != "-X-SESSION-DATA"@[3]);
            reveal_strlit("-X-RENDITION-REPORT");
            assert("-X-RENDITION-REPORT"@.len() != "-X-SESSION-DATA"@.len());
            reveal_strlit("-X-MEDIA");
            assert("-X-MEDIA"@.len() != "-X-SESSION-DATA"@.len());
            reveal_strlit("-X-STREAM-INF");
            assert("-X-STREAM-INF"@.len() != "-X-SESSION-DATA"@.len());
            reveal_strlit("-X-I-FRAME-STREAM-INF");
            assert("-X-I-FRAME-STREAM-INF"@.len() != "-X-SESSION-DATA"@.len());
        },
        TagName::SessionKey => {
            reveal_strlit("-X-SESSION-KEY");
            reveal_strlit("M3U");
            assert("M3U"@.len() != "-X-SESSION-KEY"@.len());
            reveal_strlit("-X-VERSION");
            assert("-X-VERSION"@.len() != "-X-SESSION-KEY"@.len());
            reveal_strlit("-X-INDEPENDENT-SEGMENTS");
            assert("-X-INDEPENDENT-SEGMENTS"@.len() != "-X-SESSION-KEY"@.len());
            reveal_strlit("-X-START");
            assert("-X-START"@.len() != "-X-SESSION-KEY"@.len());
            reveal_strlit("-X-DEFINE");
            assert("-X-DEFINE"@.len() != "-X-SESSION-KEY"@.len());
            reveal_strlit("-X-TARGETDURATION");
            assert("-X-TARGETDURATION"@.len() != "-X-SESSION-KEY"@.len());
            reveal_strlit("-X-MEDIA-SEQUENCE");
            assert("-X-MEDIA-SEQUENCE"@.len() != "-X-SESSION-KEY"@.len());
            reveal_strlit("-X-DISCONTINUITY-SEQUENCE");
            assert("-X-DISCONTINUITY-SEQUENCE"@.len() != "-X-SESSION-KEY"@.len());
            reveal_strlit("-X-ENDLIST");
            assert("-X-ENDLIST"@.len() != "-X-SESSION-KEY"@.len());
            reveal_strlit("-X-PLAYLIST-TYPE");
            assert("-X-PLAYLIST-TYPE"@.len() != "-X-SESSION-KEY"@.len());
            reveal_strlit("-X-I-FRAMES-ONLY");
            assert("-X-I-FRAMES-ONLY"@.len() != "-X-SESSION-KEY"@.len());
            reveal_strlit("-X-PART-INF");
            assert("-X-PART-INF"@.len() != "-X-SESSION-KEY"@.len());
            reveal_strlit("-X-SERVER-CONTROL");
            assert("-X-SERVER-CONTROL"@.len() != "-X-SESSION-KEY"@.len());
            reveal_strlit("INF");
            assert("INF"@.len() != "-X-SESSION-KEY"@.len());
            reveal_strlit("-X-BYTERANGE");
            assert("-X-BYTERANGE"@.len() != "-X-SESSION-KEY"@.len());
            reveal_strlit("-X-DISCONTINUITY");
            assert("-X-DISCONTINUITY"@.len() != "-X-SESSION-KEY"@.len());
            reveal_strlit("-X-KEY");
            assert("-X-KEY"@.len() != "-X-SESSION-KEY"@.len());
            reveal_strlit("-X-MAP");
            assert("-X-MAP"@.len() != "-X-SESSION-KEY"@.len());
            reveal_strlit("-X-PROGRAM-DATE-TIME");
            assert("-X-PROGRAM-DATE-TIME"@.len() != "-X-SESSION-KEY"@.len());
            reveal_strlit("-X-GAP");
            assert("-X-GAP"@.len() != "-X-SESSION-KEY"@.len());
            reveal_strlit("-X-BITRATE");
            assert("-X-BITRATE"@.len() != "-X-SESSION-KEY"@.len());
            reveal_strlit("-X-PART");
            assert("-X-PART"@.len() != "-X-SESSION-KEY"@.len());
            reveal_strlit("-X-DATERANGE");
            assert("-X-DATERANGE"@.len() != "-X-SESSION-KEY"@.len());
            reveal_strlit("-X-SKIP");
            assert("-X-SKIP"@.len() != "-X-SESSION-KEY"@.len());
            reveal_strlit("-X-PRELOAD-HINT");
            assert("-X-PRELOAD-HINT"@.len() != "-X-SESSION-KEY"@.len());
            reveal_strlit("-X-RENDITION-REPORT");
            assert("-X-RENDITION-REPORT"@.len() != "-X-SESSION-KEY"@.len());
            reveal_strlit("-X-MEDIA");
            assert("-X-MEDIA"@.len() != "-X-SESSION-KEY"@.len());
            reveal_strlit("-X-STREAM-INF");
            assert("-X-STREAM-INF"@.len() != "-X-SESSION-KEY"@.len());
            reveal_strlit("-X-I-FRAME-STREAM-INF");
            assert("-X-I-FRAME-STREAM-INF"@.len() != "-X-SESSION-KEY"@.len());
            reveal_strlit("-X-SESSION-DATA");
            assert("-X-SESSION-DATA"@.len() != "-X-SESSION-KEY"@.len());
        },
        TagName::ContentSteering => {
            reveal_strlit("-X-CONTENT-STEERING");
            reveal_strlit("M3U");
            assert("M3U"@.len() != "-X-CONTENT-STEERING"@.len());
            reveal_strlit("-X-VERSION");
            assert("-X-VERSION"@.len() != "-X-CONTENT-STEERING"@.len());
            reveal_strlit("-X-INDEPENDENT-SEGMENTS");
            assert("-X-INDEPENDENT-SEGMENTS"@.len() != "-X-CONTENT-STEERING"@.len());
            reveal_strlit("-X-START");
            assert("-X-START"@.len() != "-X-CONTENT-STEERING"@.len());
            reveal_strlit("-X-DEFINE");
            assert("-X-DEFINE"@.len() != "-X-CONTENT-STEERING"@.len());
            reveal_strlit("-X-TARGETDURATION");
            assert("-X-TARGETDURATION"@.len() != "-X-CONTENT-STEERING"@.len());
            reveal_strlit("-X-MEDIA-SEQUENCE");
            assert("-X-MEDIA-SEQUENCE"@.len() != "-X-CONTENT-STEERING"@.len());
            reveal_strlit("-X-DISCONTINUITY-SEQUENCE");
            assert("-X-DISCONTINUITY-SEQUENCE"@.len() != "-X-CONTENT-STEERING"@.len());
            reveal_strlit("-X-ENDLIST");
            assert("-X-ENDLIST"@.len() != "-X-CONTENT-STEERING"@.len());
            reveal_strlit("-X-PLAYLIST-TYPE");
            assert("-X-PLAYLIST-TYPE"@.len() != "-X-CONTENT-STEERING"@.len());
            reveal_strlit("-X-I-FRAMES-ONLY");
            assert("-X-I-FRAMES-ONLY"@.len() != "-X-CONTENT-STEERING"@.len());
            reveal_strlit("-X-PART-INF");
            assert("-X-PART-INF"@.len() != "-X-CONTENT-STEERING"@.len());
            reveal_strlit("-X-SERVER-CONTROL");
            assert("-X-SERVER-CONTROL"@.len() != "-X-CONTENT-STEERING"@.len());
            reveal_strlit("INF");
            assert("INF"@.len() != "-X-CONTENT-STEERING"@.len());
            reveal_strlit("-X-BYTERANGE");
            assert("-X-BYTERANGE"@.len() != "-X-CONTENT-STEERING"@.len());
            reveal_strlit("-X-DISCONTINUITY");
            assert("-X-DISCONTINUITY"@.len() != "-X-CONTENT-STEERING"@.len());
            reveal_strlit("-X-KEY");
            assert("-X-KEY"@.len() != "-X-CONTENT-STEERING"@.len());
            reveal_strlit("-X-MAP");
            assert("-X-MAP"@.len() != "-X-CONTENT-STEERING"@.len());
            reveal_strlit("-X-PROGRAM-DATE-TIME");
            assert("-X-PROGRAM-DATE-TIME"@.len() != "-X-CONTENT-STEERING"@.len());
            reveal_strlit("-X-GAP");
            assert("-X-GAP"@.len() != "-X-CONTENT-STEERING"@.len());
            reveal_strlit("-X-BITRATE");
            assert("-X-BITRATE"@.len() != "-X-CONTENT-STEERING"@.len());
            reveal_strlit("-X-PART");
            assert("-X-PART"@.len() != "-X-CONTENT-STEERING"@.len());
            reveal_strlit("-X-DATERANGE");
            assert("-X-DATERANGE"@.len() != "-X-CONTENT-STEERING"@.len());
            reveal_strlit("-X-SKIP");
            assert("-X-SKIP"@.len() != "-X-CONTENT-STEERING"@.len());
            reveal_strlit("-X-PRELOAD-HINT");
            assert("-X-PRELOAD-HINT"@.len() != "-X-CONTENT-STEERING"@.len());
            reveal_strlit("-X-RENDITION-REPORT");
            assert("-X-RENDITION-REPORT"@[3] != "-X-CONTENT-STEERING"@[3]);
            reveal_strlit("-X-MEDIA");
            assert("-X-MEDIA"@.len() != "-X-CONTENT-STEERING"@.len());
            reveal_strlit("-X-STREAM-INF");
            assert("-X-STREAM-INF"@.len() != "-X-CONTENT-STEERING"@.len());
            reveal_strlit("-X-I-FRAME-STREAM-INF");
            assert("-X-I-FRAME-STREAM-INF"@.len() != "-X-CONTENT-STEERING"@.len());
            reveal_strlit("-X-SESSION-DATA");
            assert("-X-SESSION-DATA"@.len() != "-X-CONTENT-STEERING"@.len());
            reveal_strlit("-X-SESSION-KEY");
            assert("-X-SESSION-KEY"@.len() != "-X-CONTENT-STEERING"@.len());
        },
    }
}

/// Whether every character is an upper-case ASCII letter, a decimal digit or `-`, and there is
/// at least one.
pub open spec fn name_chars(c: Seq<char>) -> bool {
    &&& c.len() > 0
    &&& forall|i: int|
        0 <= i < c.len() ==> ('A' <= #[trigger] c[i] <= 'Z' || '0' <= c[i] <= '9' || c[i] == '-')
}

proof fn lemma_name_chars_plain(c: Seq<char>)
    requires
        name_chars(c),
    ensures
        plain_tag_name(encode_utf8(c)),
{
    assert(is_ascii_chars(c));
    is_ascii_chars_encode_utf8(c);
    let b = encode_utf8(c);
    assert(b[0] == c[0] as u8);
    assert forall|i: int| 0 <= i < b.len() implies b[i] != 58u8 && b[i] != 10u8 by {
        assert(b[i] == c[i] as u8);
    }
}

/// The name of every tag can stand in a line as written: it is not empty and holds no `:`, no
/// line feed and no carriage return at its start.
pub proof fn lemma_tag_name_plain(n: TagName)
    ensures
        plain_tag_name(encode_utf8(tag_name_text(n))),
{
    match n {
        TagName::M3u => {
            reveal_strlit("M3U");
            lemma_name_chars_plain("M3U"@);
        },
        TagName::Version => {
            reveal_strlit("-X-VERSION");
            lemma_name_chars_plain("-X-VERSION"@);
        },
        TagName::IndependentSegments => {
            reveal_strlit("-X-INDEPENDENT-SEGMENTS");
            lemma_name_chars_plain("-X-INDEPENDENT-SEGMENTS"@);
        },
        TagName::Start => {
            reveal_strlit("-X-START");
            lemma_name_chars_plain("-X-START"@);
        },
        TagName::Define => {
            reveal_strlit("-X-DEFINE");
            lemma_name_chars_plain("-X-DEFINE"@);
        },
        TagName::Targetduration => {
            reveal_strlit("-X-TARGETDURATION");
            lemma_name_chars_plain("-X-TARGETDURATION"@);
        },
        TagName::MediaSequence => {
            reveal_strlit("-X-MEDIA-SEQUENCE");
            lemma_name_chars_plain("-X-MEDIA-SEQUENCE"@);
        },
        TagName::DiscontinuitySequence => {
            reveal_strlit("-X-DISCONTINUITY-SEQUENCE");
            lemma_name_chars_plain("-X-DISCONTINUITY-SEQUENCE"@);
        },
        TagName::Endlist => {
            reveal_strlit("-X-ENDLIST");
            lemma_name_chars_plain("-X-ENDLIST"@);
        },
        TagName::PlaylistType => {
            reveal_strlit("-X-PLAYLIST-TYPE");
            lemma_name_chars_plain("-X-PLAYLIST-TYPE"@);
        },
        TagName::IFramesOnly => {
            reveal_strlit("-X-I-FRAMES-ONLY");
            lemma_name_chars_plain("-X-I-FRAMES-ONLY"@);
        },
        TagName::PartInf => {
            reveal_strlit("-X-PART-INF");
            lemma_name_chars_plain("-X-PART-INF"@);
        },
        TagName::ServerControl => {
            reveal_strlit("-X-SERVER-CONTROL");
            lemma_name_chars_plain("-X-SERVER-CONTROL"@);
        },
        TagName::Inf => {
            reveal_strlit("INF");
            lemma_name_chars_plain("INF"@);
        },
        TagName::Byterange => {
            reveal_strlit("-X-BYTERANGE");
            lemma_name_chars_plain("-X-BYTERANGE"@);
        },
        TagName::Discontinuity => {
            reveal_strlit("-X-DISCONTINUITY");
            lemma_name_chars_plain("-X-DISCONTINUITY"@);
        },
        TagName::Key => {
            reveal_strlit("-X-KEY");
            lemma_name_chars_plain("-X-KEY"@);
        },
        TagName::XMap => {
            reveal_strlit("-X-MAP");
            lemma_name_chars_plain("-X-MAP"@);
        },
        TagName::ProgramDateTime => {
            reveal_strlit("-X-PROGRAM-DATE-TIME");
            lemma_name_chars_plain("-X-PROGRAM-DATE-TIME"@);
        },
        TagName::Gap => {
            reveal_strlit("-X-GAP");
            lemma_name_chars_plain("-X-GAP"@);
        },
        TagName::Bitrate => {
            reveal_strlit("-X-BITRATE");
            lemma_name_chars_plain("-X-BITRATE"@);
        },
        TagName::Part => {
            reveal_strlit("-X-PART");
            lemma_name_chars_plain("-X-PART"@);
        },
        TagName::Daterange => {
            reveal_strlit("-X-DATERANGE");
            lemma_name_chars_plain("-X-DATERANGE"@);
        },
        TagName::Skip => {
            reveal_strlit("-X-SKIP");
            lemma_name_chars_plain("-X-SKIP"@);
        },
        TagName::PreloadHint => {
            reveal_strlit("-X-PRELOAD-HINT");
            lemma_name_chars_plain("-X-PRELOAD-HINT"@);
        },
        TagName::RenditionReport => {
            reveal_strlit("-X-RENDITION-REPORT");
            lemma_name_chars_plain("-X-RENDITION-REPORT"@);
        },
        TagName::Media => {
            reveal_strlit("-X-MEDIA");
            lemma_name_chars_plain("-X-MEDIA"@);
        },
        TagName::StreamInf => {
            reveal_strlit("-X-STREAM-INF");
            lemma_name_chars_plain("-X-STREAM-INF"@);
        },
        TagName::IFrameStreamInf => {
            reveal_strlit("-X-I-FRAME-STREAM-INF");
            lemma_name_chars_plain("-X-I-FRAME-STREAM-INF"@);
        },
        TagName::SessionData => {
            reveal_strlit("-X-SESSION-DATA");
            lemma_name_chars_plain("-X-SESSION-DATA"@);
        },
        TagName::SessionKey => {
            reveal_strlit("-X-SESSION-KEY");
            lemma_name_chars_plain("-X-SESSION-KEY"@);
        },
        TagName::ContentSteering => {
            reveal_strlit("-X-CONTENT-STEERING");
            lemma_name_chars_plain("-X-CONTENT-STEERING"@);
        },
    }
}

/// A line that starts with the start of a tag's line starts with `#EXT`, and what follows `#EXT`
/// in it is the tag's name and then the rest.
pub proof fn lemma_line_after_ext(n: TagName, rest: Seq<u8>)
    ensures
        unknown::starts_with_ext(line_start(n) + rest),
        (line_start(n) + rest).subrange(4, (line_start(n) + rest).len() as int) == encode_utf8(
            tag_name_text(n),
        ) + rest,
{
    reveal_strlit("#EXT");
    vstd::string::is_ascii_spec_bytes("#EXT");
    let ext = "#EXT".spec_bytes();
    assert(ext.len() == 4);
    let line = line_start(n) + rest;
    assert(line.subrange(0, 4) =~= ext);
    assert(line.subrange(4, line.len() as int) =~= encode_utf8(tag_name_text(n)) + rest);
}

/// The start of the line of a tag holds no line feed.
pub proof fn lemma_line_start_free_of_line_feed(n: TagName)
    ensures
        unknown::no_line_feed(line_start(n)),
{
    reveal_strlit("#EXT");
    vstd::string::is_ascii_spec_bytes("#EXT");
    let ext = "#EXT".spec_bytes();
    assert(ext.len() == 4);
    lemma_tag_name_plain(n);
    let nb = encode_utf8(tag_name_text(n));
    let l = line_start(n);
    assert forall|i: int| 0 <= i < l.len() implies l[i] != 10u8 by {
        if i < 4 {
            assert(l[i] == ext[i]);
        } else {
            assert(l[i] == nb[i - 4]);
        }
    }
}

/// A quoted attribute whose name and value hold no line feed holds none.
pub proof fn lemma_quoted_attribute_free_of_line_feed(name: Seq<char>, v: Seq<char>)
    requires
        unknown::no_line_feed(encode_utf8(name)),
        unknown::no_line_feed(encode_utf8(v)),
    ensures
        unknown::no_line_feed(quoted_attribute(name, v)),
{
    let a = encode_utf8(name) + seq![61u8, 34u8];
    lemma_no_line_feed_concat(encode_utf8(name), seq![61u8, 34u8]);
    lemma_no_line_feed_concat(a, encode_utf8(v));
    lemma_no_line_feed_concat(a + encode_utf8(v), seq![34u8]);
}

/// Writing and then reading a tag with a decimal integer value gives it back: the line
/// `#EXT<name>:<v>` reads as the tag's name with the value `v`, whose bytes read as `v`.
pub proof fn lemma_integer_tag_reads_back(n: TagName, v: u64)
    ensures
        unknown::starts_with_ext(integer_line(n, v)),
        unknown::tag_after_ext_spec(
            integer_line(n, v).subrange(4, integer_line(n, v).len() as int),
        ) == Ok::<(Seq<u8>, Option<Seq<u8>>, Option<Seq<u8>>), crate::error::UnknownTagSyntaxError>(
            (encode_utf8(tag_name_text(n)), Some(dec(v as nat)), None),
        ),
        integer_value_spec(Some(dec(v as nat))) == Ok::<u64, ValidationError>(v),
{
    let rest = seq![58u8] + dec(v as nat);
    lemma_line_after_ext(n, rest);
    assert(integer_line(n, v) =~= line_start(n) + rest);
    assert(encode_utf8(tag_name_text(n)) + rest =~= encode_utf8(tag_name_text(n)) + seq![58u8]
        + dec(v as nat));
    lemma_tag_name_plain(n);
    crate::utils::lemma_dec_digits(v as nat);
    assert(unknown::no_line_feed(dec(v as nat))) by {
        assert forall|i: int| 0 <= i < dec(v as nat).len() implies dec(v as nat)[i] != 10u8 by {
            assert(crate::utils::is_digit(dec(v as nat)[i]));
        }
    }
    unknown::lemma_read_written_tag(encode_utf8(tag_name_text(n)), dec(v as nat));
    crate::utils::lemma_parse_u64_of_dec(v);
    assert forall|j: int| 0 <= j < dec(v as nat).len() implies !is_kind_mark(
        #[trigger] dec(v as nat)[j],
    ) by {
        assert(crate::utils::is_digit(dec(v as nat)[j]));
    }
    lemma_value_kind_unmarked(dec(v as nat));
}

/// Writing and then reading a tag without a value gives it back: the line `#EXT<name>` reads as
/// the tag's name with no value.
pub proof fn lemma_flag_tag_reads_back(n: TagName)
    ensures
        unknown::starts_with_ext(line_start(n)),
        unknown::tag_after_ext_spec(line_start(n).subrange(4, line_start(n).len() as int)) == Ok::<
            (Seq<u8>, Option<Seq<u8>>, Option<Seq<u8>>),
            crate::error::UnknownTagSyntaxError,
        >((encode_utf8(tag_name_text(n)), None, None)),
{
    lemma_line_after_ext(n, Seq::empty());
    assert(line_start(n) + Seq::<u8>::empty() =~= line_start(n));
    assert(encode_utf8(tag_name_text(n)) + Seq::<u8>::empty() =~= encode_utf8(tag_name_text(n)));
    lemma_tag_name_plain(n);
    unknown::lemma_read_written_flag_tag(encode_utf8(tag_name_text(n)));
}

/// Whether every byte is an upper-case ASCII letter, a decimal digit or `-`.
pub open spec fn name_bytes(b: Seq<u8>) -> bool {
    forall|i: int|
        0 <= i < b.len() ==> (65 <= #[trigger] b[i] <= 90 || 48 <= b[i] <= 57 || b[i] == 45)
}

/// The bytes of a name made of upper-case letters, digits and `-` are those characters.
pub proof fn lemma_name_chars_bytes(c: Seq<char>)
    requires
        name_chars(c),
    ensures
        encode_utf8(c).len() == c.len(),
        name_bytes(encode_utf8(c)),
{
    assert(is_ascii_chars(c));
    is_ascii_chars_encode_utf8(c);
    let b = encode_utf8(c);
    assert forall|i: int| 0 <= i < b.len() implies (65 <= #[trigger] b[i] <= 90 || 48 <= b[i] <= 57
        || b[i] == 45) by {
        assert(b[i] == c[i] as u8);
    }
}

/// Whether a quoted attribute value can be written so that it reads back within its line: it
/// holds no `"` and no line feed.
pub open spec fn quoted_value_ok(v: Seq<char>) -> bool {
    &&& !encode_utf8(v).contains(34u8)
    &&& unknown::no_line_feed(encode_utf8(v))
}

/// The attributes with an optional quoted attribute added when there is a value.
pub open spec fn push_quoted_opt(
    l: AttributeListView,
    name: Seq<char>,
    v: Option<Seq<char>>,
) -> AttributeListView {
    match v {
        Some(x) => l.push((name, AttributeValueView::Quoted(x))),
        None => l,
    }
}

/// The attributes with an optional decimal integer attribute added when there is a value.
pub open spec fn push_integer_opt(l: AttributeListView, name: Seq<char>, v: Option<u64>) -> AttributeListView {
    match v {
        Some(n) => l.push((name, AttributeValueView::Unquoted(dec(n as nat)))),
        None => l,
    }
}

/// Writing an optional quoted attribute after others writes a comma and the attribute.
pub proof fn lemma_push_quoted_opt_text(l: AttributeListView, name: Seq<char>, v: Option<Seq<char>>)
    requires
        l.len() > 0,
    ensures
        attribute_list_text(push_quoted_opt(l, name, v)) == attribute_list_text(l) + comma_quoted(
            name,
            v,
        ),
{
    match v {
        Some(x) => {
            lemma_attribute_list_text_push(l, (name, AttributeValueView::Quoted(x)));
            assert(attribute_text((name, AttributeValueView::Quoted(x))) =~= quoted_attribute(name, x));
            assert(attribute_list_text(l) + seq![44u8] + quoted_attribute(name, x) =~= attribute_list_text(l)
                + comma_quoted(name, v));
        },
        None => {
            assert(attribute_list_text(l) + comma_quoted(name, v) =~= attribute_list_text(l));
        },
    }
}

/// Writing an optional decimal integer attribute after others writes a comma and the attribute.
pub proof fn lemma_push_integer_opt_text(l: AttributeListView, name: Seq<char>, v: Option<u64>)
    requires
        l.len() > 0,
    ensures
        attribute_list_text(push_integer_opt(l, name, v)) == attribute_list_text(l) + comma_integer(
            name,
            v,
        ),
{
    match v {
        Some(n) => {
            let e = (name, AttributeValueView::Unquoted(dec(n as nat)));
            lemma_attribute_list_text_push(l, e);
            assert(attribute_text(e) =~= unquoted_attribute(name, dec(n as nat)));
            assert(attribute_list_text(l) + seq![44u8] + unquoted_attribute(name, dec(n as nat))
                =~= attribute_list_text(l) + comma_integer(name, v));
        },
        None => {
            assert(attribute_list_text(l) + comma_integer(name, v) =~= attribute_list_text(l));
        },
    }
}

/// Whether the name and the value of an attribute hold no line feed.
pub open spec fn entry_free_of_line_feed(e: (Seq<char>, AttributeValueView)) -> bool {
    &&& unknown::no_line_feed(encode_utf8(e.0))
    &&& match e.1 {
        AttributeValueView::Quoted(q) => unknown::no_line_feed(encode_utf8(q)),
        AttributeValueView::Unquoted(u) => unknown::no_line_feed(u),
    }
}

pub proof fn lemma_no_line_feed_concat(a: Seq<u8>, b: Seq<u8>)
    requires
        unknown::no_line_feed(a),
        unknown::no_line_feed(b),
    ensures
        unknown::no_line_feed(a + b),
{
    assert forall|i: int| 0 <= i < (a + b).len() implies (a + b)[i] != 10u8 by {
        if i < a.len() {
            assert((a + b)[i] == a[i]);
        } else {
            assert((a + b)[i] == b[i - a.len()]);
        }
    }
}

/// A written attribute list holds no line feed when none of its names and values does.
pub proof fn lemma_attribute_list_text_free_of_line_feed(l: AttributeListView)
    requires
        forall|i: int| 0 <= i < l.len() ==> entry_free_of_line_feed(#[trigger] l[i]),
    ensures
        unknown::no_line_feed(attribute_list_text(l)),
    decreases l.len(),
{
    if l.len() > 0 {
        let e = l[0];
        assert(entry_free_of_line_feed(l[0]));
        let v = attribute_value_text(e.1);
        assert(unknown::no_line_feed(v)) by {
            match e.1 {
                AttributeValueView::Quoted(q) => {
                    lemma_no_line_feed_concat(seq![34u8], encode_utf8(q));
                    lemma_no_line_feed_concat(seq![34u8] + encode_utf8(q), seq![34u8]);
                },
                AttributeValueView::Unquoted(u) => {},
            }
        }
        lemma_no_line_feed_concat(encode_utf8(e.0), seq![61u8]);
        lemma_no_line_feed_concat(encode_utf8(e.0) + seq![61u8], v);
        if l.len() > 1 {
            let rest = l.drop_first();
            assert forall|i: int| 0 <= i < rest.len() implies entry_free_of_line_feed(
                #[trigger] rest[i],
            ) by {
                assert(rest[i] == l[i + 1]);
            }
            lemma_attribute_list_text_free_of_line_feed(rest);
            lemma_no_line_feed_concat(attribute_text(e), seq![44u8]);
            lemma_no_line_feed_concat(attribute_text(e) + seq![44u8], attribute_list_text(rest));
        }
    }
}

/// Whether an unquoted attribute value can be written so that it reads back within its line: it
/// is not empty, does not start with `"`, and holds no `,` and no line feed.
pub open spec fn unquoted_value_ok(u: Seq<u8>) -> bool {
    &&& u.len() > 0
    &&& u[0] != 34u8
    &&& !u.contains(44u8)
    &&& unknown::no_line_feed(u)
}

/// Whether every attribute of a list can be written so that it reads back, with no line feed.
pub open spec fn entries_ok(l: AttributeListView) -> bool {
    forall|i: int|
        0 <= i < l.len() ==> writable_attribute_entry(#[trigger] l[i]) && entry_free_of_line_feed(
            l[i],
        ) && name_bytes(encode_utf8(l[i].0))
}

/// A list of attributes that can be written is written as a value of the attribute list kind:
/// the first byte of it that tells the kind is the `=` after the first name.
pub proof fn lemma_attribute_list_text_kind(l: AttributeListView)
    requires
        l.len() > 0,
        entries_ok(l),
    ensures
        value_kind_of_text(attribute_list_text(l)) == ValidationErrorValueKind::AttributeList,
{
    let nb = encode_utf8(l[0].0);
    let t = attribute_list_text(l);
    assert(name_bytes(nb));
    let v = attribute_value_text(l[0].1);
    if l.len() == 1 {
        assert(t =~= nb + seq![61u8] + v);
    } else {
        assert(t =~= nb + seq![61u8] + (v + seq![44u8] + attribute_list_text(l.drop_first())));
    }
    let i = nb.len() as int;
    assert(t[i] == 61u8);
    assert forall|j: int| 0 <= j < i implies !is_kind_mark(#[trigger] t[j]) by {
        assert(t[j] == nb[j]);
    }
    assert(first_kind_mark(t, i));
    lemma_value_kind_at(t, i);
}

/// Whether an attribute with the name `name` and the value `v` can be written so that it reads
/// back, with no line feed: a name of upper-case letters, digits and `-`, and a value as
/// [`quoted_value_ok`] or [`unquoted_value_ok`] require.
pub open spec fn entry_ok(name: Seq<char>, v: AttributeValueView) -> bool {
    &&& name_chars(name)
    &&& match v {
        AttributeValueView::Quoted(q) => quoted_value_ok(q),
        AttributeValueView::Unquoted(u) => unquoted_value_ok(u),
    }
}

/// An attribute that [`entry_ok`] accepts can be written so that it reads back.
pub proof fn lemma_entry_ok(name: Seq<char>, v: AttributeValueView)
    requires
        entry_ok(name, v),
    ensures
        writable_attribute_entry((name, v)),
        entry_free_of_line_feed((name, v)),
        name_bytes(encode_utf8(name)),
{
    lemma_name_chars_bytes(name);
    let nb = encode_utf8(name);
    assert(!nb.contains(61u8)) by {
        if nb.contains(61u8) {
            let j = choose|j: int| 0 <= j < nb.len() && nb[j] == 61u8;
            assert(name_bytes(nb));
        }
    }
    assert(unknown::no_line_feed(nb)) by {
        assert forall|i: int| 0 <= i < nb.len() implies nb[i] != 10u8 by {
            assert(name_bytes(nb));
        }
    }
}

/// A single attribute that [`entry_ok`] accepts makes a list of attributes that can be written.
pub proof fn lemma_entries_ok_one(name: Seq<char>, v: AttributeValueView)
    requires
        entry_ok(name, v),
    ensures
        entries_ok(seq![(name, v)]),
{
    lemma_entry_ok(name, v);
    assert forall|i: int| 0 <= i < seq![(name, v)].len() implies writable_attribute_entry(
        #[trigger] seq![(name, v)][i],
    ) && entry_free_of_line_feed(seq![(name, v)][i]) && name_bytes(
        encode_utf8(seq![(name, v)][i].0),
    ) by {
        assert(seq![(name, v)][i] == (name, v));
    }
}

/// Adding an attribute that [`entry_ok`] accepts keeps a list of attributes writable.
pub proof fn lemma_entries_ok_push(l: AttributeListView, name: Seq<char>, v: AttributeValueView)
    requires
        entries_ok(l),
        entry_ok(name, v),
    ensures
        entries_ok(l.push((name, v))),
{
    lemma_entry_ok(name, v);
    let p = l.push((name, v));
    assert forall|i: int| 0 <= i < p.len() implies writable_attribute_entry(#[trigger] p[i])
        && entry_free_of_line_feed(p[i]) && name_bytes(encode_utf8(p[i].0)) by {
        if i < l.len() {
            assert(p[i] == l[i]);
        }
    }
}

/// A decimal integer can be written as an unquoted value.
pub proof fn lemma_dec_unquoted_ok(n: u64)
    ensures
        unquoted_value_ok(dec(n as nat)),
{
    crate::utils::lemma_dec_digits(n as nat);
    let d = dec(n as nat);
    assert(crate::utils::is_digit(d[0]));
    assert(!d.contains(44u8)) by {
        if d.contains(44u8) {
            let j = choose|j: int| 0 <= j < d.len() && d[j] == 44u8;
            assert(crate::utils::is_digit(d[j]));
        }
    }
    assert forall|i: int| 0 <= i < d.len() implies d[i] != 10u8 by {
        assert(crate::utils::is_digit(d[i]));
    }
}

/// The attributes with an optional unquoted attribute added when there is a value.
pub open spec fn push_unquoted_opt(
    l: AttributeListView,
    name: Seq<char>,
    v: Option<Seq<u8>>,
) -> AttributeListView {
    match v {
        Some(u) => l.push((name, AttributeValueView::Unquoted(u))),
        None => l,
    }
}

/// Writing an optional unquoted attribute after others writes a comma and the attribute.
pub proof fn lemma_push_unquoted_opt_text(l: AttributeListView, name: Seq<char>, v: Option<Seq<u8>>)
    requires
        l.len() > 0,
    ensures
        attribute_list_text(push_unquoted_opt(l, name, v)) == attribute_list_text(l)
            + comma_unquoted(name, v),
{
    match v {
        Some(u) => {
            let e = (name, AttributeValueView::Unquoted(u));
            lemma_attribute_list_text_push(l, e);
            assert(attribute_text(e) =~= unquoted_attribute(name, u));
            assert(attribute_list_text(l) + seq![44u8] + unquoted_attribute(name, u)
                =~= attribute_list_text(l) + comma_unquoted(name, v));
        },
        None => {
            assert(attribute_list_text(l) + comma_unquoted(name, v) =~= attribute_list_text(l));
        },
    }
}

/// Adding an attribute changes what is found under its name only.
pub proof fn lemma_lookup_push(l: AttributeListView, e: (Seq<char>, AttributeValueView), name: Seq<char>)
    ensures
        lookup_attribute(l.push(e), name) == if e.0 == name {
            Some(e.1)
        } else {
            lookup_attribute(l, name)
        },
{
    assert(l.push(e).drop_last() =~= l);
}

/// Looking an attribute up after an optional quoted attribute was added finds that attribute
/// when it was added under the name looked for, and otherwise what was there before.
pub proof fn lemma_lookup_push_quoted_opt(
    l: AttributeListView,
    n: Seq<char>,
    v: Option<Seq<char>>,
    name: Seq<char>,
)
    ensures
        lookup_attribute(push_quoted_opt(l, n, v), name) == if n == name && v is Some {
            Some(AttributeValueView::Quoted(v->0))
        } else {
            lookup_attribute(l, name)
        },
{
    if let Some(x) = v {
        lemma_lookup_push(l, (n, AttributeValueView::Quoted(x)), name);
    }
}

/// The attributes as written each after a comma (the list as written, with a comma in front).
pub open spec fn comma_list_text(l: AttributeListView) -> Seq<u8>
    decreases l.len(),
{
    if l.len() == 0 {
        Seq::empty()
    } else {
        comma_list_text(l.drop_last()) + seq![44u8] + attribute_text(l.last())
    }
}

/// A list that is not empty is written as its attributes each after a comma, without the first
/// comma.
pub proof fn lemma_comma_list_text(l: AttributeListView)
    requires
        l.len() > 0,
    ensures
        comma_list_text(l).len() > 0,
        attribute_list_text(l) == comma_list_text(l).drop_first(),
    decreases l.len(),
{
    let init = l.drop_last();
    let x = l.last();
    assert(init.push(x) =~= l);
    if init.len() == 0 {
        assert(l =~= seq![x]);
        assert(comma_list_text(init) =~= Seq::<u8>::empty());
        assert(comma_list_text(l).drop_first() =~= attribute_text(x));
    } else {
        lemma_comma_list_text(init);
        lemma_attribute_list_text_push(init, x);
        assert(comma_list_text(l).drop_first() =~= comma_list_text(init).drop_first() + seq![44u8]
            + attribute_text(x));
    }
}

/// Writing an attribute after others each after a comma adds a comma and the attribute.
pub proof fn lemma_comma_list_text_push(l: AttributeListView, x: (Seq<char>, AttributeValueView))
    ensures
        comma_list_text(l.push(x)) == comma_list_text(l) + seq![44u8] + attribute_text(x),
{
    assert(l.push(x).drop_last() =~= l);
}

/// Adding two pieces one after the other is adding them together.
pub proof fn lemma_concat_step(a: Seq<u8>, b: Seq<u8>, c: Seq<u8>)
    ensures
        a + (b + c) == (a + b) + c,
{
    assert(a + (b + c) =~= (a + b) + c);
}

/// Looking an attribute up after an optional unquoted attribute was added finds that attribute
/// when it was added under the name looked for, and otherwise what was there before.
pub proof fn lemma_lookup_push_unquoted_opt(
    l: AttributeListView,
    n: Seq<char>,
    v: Option<Seq<u8>>,
    name: Seq<char>,
)
    ensures
        lookup_attribute(push_unquoted_opt(l, n, v), name) == if n == name && v is Some {
            Some(AttributeValueView::Unquoted(v->0))
        } else {
            lookup_attribute(l, name)
        },
{
    if let Some(x) = v {
        lemma_lookup_push(l, (n, AttributeValueView::Unquoted(x)), name);
    }
}

/// Looking an attribute up after an optional integer attribute was added finds that attribute
/// when it was added under the name looked for, and otherwise what was there before.
pub proof fn lemma_lookup_push_integer_opt(l: AttributeListView, n: Seq<char>, v: Option<u64>, name: Seq<char>)
    ensures
        lookup_attribute(push_integer_opt(l, n, v), name) == if n == name && v is Some {
            Some(AttributeValueView::Unquoted(dec((v->0) as nat)))
        } else {
            lookup_attribute(l, name)
        },
{
    if let Some(x) = v {
        lemma_lookup_push(l, (n, AttributeValueView::Unquoted(dec(x as nat))), name);
    }
}

/// Looking an attribute up after a flag attribute was added finds `YES` when the flag was set
/// under the name looked for, and otherwise what was there before.
pub proof fn lemma_lookup_push_yes(l: AttributeListView, n: Seq<char>, set: bool, name: Seq<char>)
    ensures
        lookup_attribute(push_yes(l, n, set), name) == if n == name && set {
            Some(AttributeValueView::Unquoted("YES".spec_bytes()))
        } else {
            lookup_attribute(l, name)
        },
{
    if set {
        lemma_lookup_push(l, (n, AttributeValueView::Unquoted("YES".spec_bytes())), name);
    }
}

/// Digits, `x` and digits can be written unquoted so that they read back.
proof fn lemma_digits_x_digits_ok(w: Seq<u8>, h: Seq<u8>)
    requires
        w.len() > 0,
        crate::utils::all_digits(w),
        crate::utils::all_digits(h),
    ensures
        unquoted_value_ok(w + seq![120u8] + h),
{
    let s = w + seq![120u8] + h;
    assert forall|j: int| 0 <= j < s.len() implies crate::utils::is_digit(#[trigger] s[j]) || s[j]
        == 120u8 by {
        if j < w.len() {
            assert(s[j] == w[j]);
        } else if j > w.len() {
            assert(s[j] == h[j - w.len() - 1]);
        }
    }
    assert(s[0] == w[0]);
    assert(!s.contains(44u8));
}

/// The text of a decimal resolution can be written unquoted so that it reads back.
pub proof fn lemma_resolution_value_ok(r: DecimalResolution)
    ensures
        unquoted_value_ok(encode_utf8(decimal_resolution_text(r))),
        valid_utf8(encode_utf8(decimal_resolution_text(r))),
        decode_utf8(encode_utf8(decimal_resolution_text(r))) == decimal_resolution_text(r),
        decimal_resolution_spec(encode_utf8(decimal_resolution_text(r))) == Ok::<
            DecimalResolution,
            DecimalResolutionParseError,
        >(r),
{
    crate::tag::value::lemma_decimal_resolution_round_trip(r);
    encode_utf8_valid_utf8(decimal_resolution_text(r));
    encode_utf8_decode_utf8(decimal_resolution_text(r));
    crate::utils::lemma_dec_digits(r.width as nat);
    crate::utils::lemma_dec_digits(r.height as nat);
    lemma_digits_x_digits_ok(dec(r.width as nat), dec(r.height as nat));
}

/// The attributes with a flag attribute (`<name>=YES`) added when it is set.
pub open spec fn push_yes(l: AttributeListView, name: Seq<char>, set: bool) -> AttributeListView {
    if set {
        l.push((name, AttributeValueView::Unquoted("YES".spec_bytes())))
    } else {
        l
    }
}

/// Writing a flag attribute after others writes a comma and the attribute when it is set.
pub proof fn lemma_push_yes_text(l: AttributeListView, name: Seq<char>, set: bool)
    requires
        l.len() > 0,
    ensures
        attribute_list_text(push_yes(l, name, set)) == attribute_list_text(l) + comma_yes(name, set),
{
    if set {
        let e = (name, AttributeValueView::Unquoted("YES".spec_bytes()));
        lemma_attribute_list_text_push(l, e);
        assert(attribute_text(e) =~= unquoted_attribute(name, "YES".spec_bytes()));
        assert(attribute_list_text(l) + seq![44u8] + unquoted_attribute(name, "YES".spec_bytes())
            =~= attribute_list_text(l) + comma_yes(name, set));
    } else {
        assert(attribute_list_text(l) + comma_yes(name, set) =~= attribute_list_text(l));
    }
}

/// `YES` can be written as an unquoted value.
pub proof fn lemma_yes_unquoted_ok()
    ensures
        unquoted_value_ok("YES".spec_bytes()),
{
    reveal_strlit("YES");
    vstd::string::is_ascii_spec_bytes("YES");
    let y = "YES".spec_bytes();
    assert(y[0] == 89u8);
    assert forall|i: int| 0 <= i < y.len() implies y[i] != 44u8 && y[i] != 10u8 by {
        assert(y[i] == "YES"@[i] as u8);
    }
    assert(!y.contains(44u8));
}

/// A copy of the bytes `b`.
fn line_copy(b: &[u8]) -> (r: Vec<u8>)
    ensures
        r@ == b@,
{
    let mut r: Vec<u8> = Vec::new();
    push_bytes(&mut r, b);
    r
}

/// A tag of the HLS specification of any kind, read from a tag line. The kinds with decimal
/// floating point values hold them as the text that writes them, together with the line that the
/// tag was read from.
pub enum TagLine {
    /// A tag of the `M3u` kind.
    M3u(m3u::M3u),
    /// A tag of the `Version` kind.
    Version(version::Version),
    /// A tag of the `IndependentSegments` kind.
    IndependentSegments(independent_segments::IndependentSegments),
    /// A tag of the `Start` kind.
    Start(start::StartLine, Vec<u8>),
    /// A tag of the `Define` kind.
    Define(define::Define),
    /// A tag of the `Targetduration` kind.
    Targetduration(targetduration::Targetduration),
    /// A tag of the `MediaSequence` kind.
    MediaSequence(media_sequence::MediaSequence),
    /// A tag of the `DiscontinuitySequence` kind.
    DiscontinuitySequence(discontinuity_sequence::DiscontinuitySequence),
    /// A tag of the `Endlist` kind.
    Endlist(endlist::Endlist),
    /// A tag of the `PlaylistType` kind.
    PlaylistType(playlist_type::PlaylistType),
    /// A tag of the `IFramesOnly` kind.
    IFramesOnly(i_frames_only::IFramesOnly),
    /// A tag of the `PartInf` kind.
    PartInf(part_inf::PartInfLine, Vec<u8>),
    /// A tag of the `ServerControl` kind.
    ServerControl(server_control::ServerControlLine, Vec<u8>),
    /// A tag of the `Inf` kind.
    Inf(inf::InfLine, Vec<u8>),
    /// A tag of the `Byterange` kind.
    Byterange(byterange::Byterange),
    /// A tag of the `Discontinuity` kind.
    Discontinuity(discontinuity::Discontinuity),
    /// A tag of the `Key` kind.
    Key(key::Key),
    /// A tag of the `XMap` kind.
    XMap(map::XMap),
    /// A tag of the `ProgramDateTime` kind.
    ProgramDateTime(program_date_time::ProgramDateTime),
    /// A tag of the `Gap` kind.
    Gap(gap::Gap),
    /// A tag of the `Bitrate` kind.
    Bitrate(bitrate::Bitrate),
    /// A tag of the `Part` kind.
    Part(part::PartLine, Vec<u8>),
    /// A tag of the `Daterange` kind.
    Daterange(daterange::DaterangeLine, Vec<u8>),
    /// A tag of the `Skip` kind.
    Skip(skip::Skip),
    /// A tag of the `PreloadHint` kind.
    PreloadHint(preload_hint::PreloadHint),
    /// A tag of the `RenditionReport` kind.
    RenditionReport(rendition_report::RenditionReport),
    /// A tag of the `Media` kind.
    Media(media::Media),
    /// A tag of the `StreamInf` kind.
    StreamInf(stream_inf::StreamInfLine, Vec<u8>),
    /// A tag of the `IFrameStreamInf` kind.
    IFrameStreamInf(i_frame_stream_inf::IFrameStreamInfLine, Vec<u8>),
    /// A tag of the `SessionData` kind.
    SessionData(session_data::SessionData),
    /// A tag of the `SessionKey` kind.
    SessionKey(session_key::SessionKey),
    /// A tag of the `ContentSteering` kind.
    ContentSteering(content_steering::ContentSteering),
}

/// What reading a parsed tag line whose name is that of the kind `n` gives: each kind as its own
/// reading gives it.
pub open spec fn tag_line_read(n: TagName, tag: unknown::Tag, r: Result<TagLine, ValidationError>) -> bool {
    match n {
        TagName::M3u => if tag.value is Some {
            r == Err::<TagLine, ValidationError>(
                ValidationError::ErrorExtractingTagValue(ParseTagValueError::NotEmpty),
            )
        } else {
            r == Ok::<TagLine, ValidationError>(TagLine::M3u(m3u::M3u))
        },
        TagName::Version => match integer_value_spec(value_bytes(tag)) {
            Ok(x) => r matches Ok(TagLine::Version(t)) && t.view() == x && t.output() == tag.original_input@,
            Err(e) => r == Err::<TagLine, ValidationError>(e),
        },
        TagName::IndependentSegments => r == Ok::<TagLine, ValidationError>(TagLine::IndependentSegments(independent_segments::IndependentSegments)),
        TagName::Start => match start::start_value_spec(value_bytes(tag)) {
            Ok(x) => r matches Ok(TagLine::Start(l, o)) && l.view() == x && o@ == tag.original_input@,
            Err(e) => r == Err::<TagLine, ValidationError>(e),
        },
        TagName::Define => match define::define_value_spec(value_bytes(tag)) {
            Ok(x) => r matches Ok(TagLine::Define(t)) && t.view() == x && t.output() == tag.original_input@,
            Err(e) => r == Err::<TagLine, ValidationError>(e),
        },
        TagName::Targetduration => match integer_value_spec(value_bytes(tag)) {
            Ok(x) => r matches Ok(TagLine::Targetduration(t)) && t.view() == x && t.output() == tag.original_input@,
            Err(e) => r == Err::<TagLine, ValidationError>(e),
        },
        TagName::MediaSequence => match integer_value_spec(value_bytes(tag)) {
            Ok(x) => r matches Ok(TagLine::MediaSequence(t)) && t.view() == x && t.output() == tag.original_input@,
            Err(e) => r == Err::<TagLine, ValidationError>(e),
        },
        TagName::DiscontinuitySequence => match integer_value_spec(value_bytes(tag)) {
            Ok(x) => r matches Ok(TagLine::DiscontinuitySequence(t)) && t.view() == x && t.output() == tag.original_input@,
            Err(e) => r == Err::<TagLine, ValidationError>(e),
        },
        TagName::Endlist => r == Ok::<TagLine, ValidationError>(TagLine::Endlist(endlist::Endlist)),
        TagName::PlaylistType => match playlist_type::playlist_type_value_spec(value_bytes(tag)) {
            Ok(x) => r matches Ok(TagLine::PlaylistType(t)) && t.view() == x,
            Err(e) => r == Err::<TagLine, ValidationError>(e),
        },
        TagName::IFramesOnly => if tag.value is Some {
            r == Err::<TagLine, ValidationError>(
                ValidationError::ErrorExtractingTagValue(ParseTagValueError::NotEmpty),
            )
        } else {
            r == Ok::<TagLine, ValidationError>(TagLine::IFramesOnly(i_frames_only::IFramesOnly))
        },
        TagName::PartInf => match part_inf::part_inf_value_spec(value_bytes(tag)) {
            Ok(x) => r matches Ok(TagLine::PartInf(l, o)) && l.view() == x && o@ == tag.original_input@,
            Err(e) => r == Err::<TagLine, ValidationError>(e),
        },
        TagName::ServerControl => match server_control::server_control_value_spec(value_bytes(tag)) {
            Ok(x) => r matches Ok(TagLine::ServerControl(l, o)) && l.view() == x && o@ == tag.original_input@,
            Err(e) => r == Err::<TagLine, ValidationError>(e),
        },
        TagName::Inf => match inf::inf_value_spec(value_bytes(tag)) {
            Ok(x) => r matches Ok(TagLine::Inf(l, o)) && l.view() == x && o@ == tag.original_input@,
            Err(e) => r == Err::<TagLine, ValidationError>(e),
        },
        TagName::Byterange => match byterange::byterange_value_spec(value_bytes(tag)) {
            Ok(x) => r matches Ok(TagLine::Byterange(t)) && t.view() == x && t.output() == tag.original_input@,
            Err(e) => r == Err::<TagLine, ValidationError>(e),
        },
        TagName::Discontinuity => r == Ok::<TagLine, ValidationError>(TagLine::Discontinuity(discontinuity::Discontinuity)),
        TagName::Key => match key::key_value_spec(value_bytes(tag)) {
            Ok(x) => r matches Ok(TagLine::Key(t)) && t.view() == x && t.output() == tag.original_input@,
            Err(e) => r == Err::<TagLine, ValidationError>(e),
        },
        TagName::XMap => match map::map_value_spec(value_bytes(tag)) {
            Ok(x) => r matches Ok(TagLine::XMap(t)) && t.view() == x && t.output() == tag.original_input@,
            Err(e) => r == Err::<TagLine, ValidationError>(e),
        },
        TagName::ProgramDateTime => match program_date_time::date_time_value_spec(value_bytes(tag)) {
            Ok(x) => r matches Ok(TagLine::ProgramDateTime(t)) && t.view() == x && t.output() == tag.original_input@,
            Err(e) => r == Err::<TagLine, ValidationError>(e),
        },
        TagName::Gap => if tag.value is Some {
            r == Err::<TagLine, ValidationError>(
                ValidationError::ErrorExtractingTagValue(ParseTagValueError::NotEmpty),
            )
        } else {
            r == Ok::<TagLine, ValidationError>(TagLine::Gap(gap::Gap))
        },
        TagName::Bitrate => match integer_value_spec(value_bytes(tag)) {
            Ok(x) => r matches Ok(TagLine::Bitrate(t)) && t.view() == x && t.output() == tag.original_input@,
            Err(e) => r == Err::<TagLine, ValidationError>(e),
        },
        TagName::Part => match part::part_value_spec(value_bytes(tag)) {
            Ok(x) => r matches Ok(TagLine::Part(l, o)) && l.view() == x && o@ == tag.original_input@,
            Err(e) => r == Err::<TagLine, ValidationError>(e),
        },
        TagName::Daterange => match daterange::daterange_value_spec(value_bytes(tag)) {
            Ok(x) => r matches Ok(TagLine::Daterange(l, o)) && l.view() == x && o@ == tag.original_input@,
            Err(e) => r == Err::<TagLine, ValidationError>(e),
        },
        TagName::Skip => match skip::skip_value_spec(value_bytes(tag)) {
            Ok(x) => r matches Ok(TagLine::Skip(t)) && t.view() == x && t.output() == tag.original_input@,
            Err(e) => r == Err::<TagLine, ValidationError>(e),
        },
        TagName::PreloadHint => match preload_hint::preload_hint_value_spec(value_bytes(tag)) {
            Ok(x) => r matches Ok(TagLine::PreloadHint(t)) && t.view() == x && t.output() == tag.original_input@,
            Err(e) => r == Err::<TagLine, ValidationError>(e),
        },
        TagName::RenditionReport => match rendition_report::rendition_report_value_spec(value_bytes(tag)) {
            Ok(x) => r matches Ok(TagLine::RenditionReport(t)) && t.view() == x && t.output() == tag.original_input@,
            Err(e) => r == Err::<TagLine, ValidationError>(e),
        },
        TagName::Media => match media::media_value_spec(value_bytes(tag)) {
            Ok(x) => r matches Ok(TagLine::Media(t)) && t.view() == x && t.output() == tag.original_input@,
            Err(e) => r == Err::<TagLine, ValidationError>(e),
        },
        TagName::StreamInf => match stream_inf::stream_inf_value_spec(value_bytes(tag)) {
            Ok(x) => r matches Ok(TagLine::StreamInf(l, o)) && l.view() == x && o@ == tag.original_input@,
            Err(e) => r == Err::<TagLine, ValidationError>(e),
        },
        TagName::IFrameStreamInf => match i_frame_stream_inf::i_frame_stream_inf_value_spec(value_bytes(tag)) {
            Ok(x) => r matches Ok(TagLine::IFrameStreamInf(l, o)) && l.view() == x && o@ == tag.original_input@,
            Err(e) => r == Err::<TagLine, ValidationError>(e),
        },
        TagName::SessionData => match session_data::session_data_value_spec(value_bytes(tag)) {
            Ok(x) => r matches Ok(TagLine::SessionData(t)) && t.view() == x && t.output() == tag.original_input@,
            Err(e) => r == Err::<TagLine, ValidationError>(e),
        },
        TagName::SessionKey => match session_key::session_key_value_spec(value_bytes(tag)) {
            Ok(x) => r matches Ok(TagLine::SessionKey(t)) && t.view() == x && t.output() == tag.original_input@,
            Err(e) => r == Err::<TagLine, ValidationError>(e),
        },
        TagName::ContentSteering => match content_steering::content_steering_value_spec(value_bytes(tag)) {
            Ok(x) => r matches Ok(TagLine::ContentSteering(t)) && t.view() == x && t.output() == tag.original_input@,
            Err(e) => r == Err::<TagLine, ValidationError>(e),
        },
    }
}

impl TagLine {
    /// The kind of the tag, named as its line names it.
    pub open spec fn name_spec(self) -> TagName {
        match self {
            TagLine::M3u(_) => TagName::M3u,
            TagLine::Version(_) => TagName::Version,
            TagLine::IndependentSegments(_) => TagName::IndependentSegments,
            TagLine::Start(..) => TagName::Start,
            TagLine::Define(_) => TagName::Define,
            TagLine::Targetduration(_) => TagName::Targetduration,
            TagLine::MediaSequence(_) => TagName::MediaSequence,
            TagLine::DiscontinuitySequence(_) => TagName::DiscontinuitySequence,
            TagLine::Endlist(_) => TagName::Endlist,
            TagLine::PlaylistType(_) => TagName::PlaylistType,
            TagLine::IFramesOnly(_) => TagName::IFramesOnly,
            TagLine::PartInf(..) => TagName::PartInf,
            TagLine::ServerControl(..) => TagName::ServerControl,
            TagLine::Inf(..) => TagName::Inf,
            TagLine::Byterange(_) => TagName::Byterange,
            TagLine::Discontinuity(_) => TagName::Discontinuity,
            TagLine::Key(_) => TagName::Key,
            TagLine::XMap(_) => TagName::XMap,
            TagLine::ProgramDateTime(_) => TagName::ProgramDateTime,
            TagLine::Gap(_) => TagName::Gap,
            TagLine::Bitrate(_) => TagName::Bitrate,
            TagLine::Part(..) => TagName::Part,
            TagLine::Daterange(..) => TagName::Daterange,
            TagLine::Skip(_) => TagName::Skip,
            TagLine::PreloadHint(_) => TagName::PreloadHint,
            TagLine::RenditionReport(_) => TagName::RenditionReport,
            TagLine::Media(_) => TagName::Media,
            TagLine::StreamInf(..) => TagName::StreamInf,
            TagLine::IFrameStreamInf(..) => TagName::IFrameStreamInf,
            TagLine::SessionData(_) => TagName::SessionData,
            TagLine::SessionKey(_) => TagName::SessionKey,
            TagLine::ContentSteering(_) => TagName::ContentSteering,
        }
    }

    /// The line that the tag writes: that of the kind's own tag, and for a kind that holds its
    /// decimal floating point values as text, the line that it was read from.
    pub open spec fn output(self) -> Seq<u8> {
        match self {
            TagLine::M3u(t) => line_start(TagName::M3u),
            TagLine::Version(t) => t.output(),
            TagLine::IndependentSegments(t) => line_start(TagName::IndependentSegments),
            TagLine::Start(_, o) => o@,
            TagLine::Define(t) => t.output(),
            TagLine::Targetduration(t) => t.output(),
            TagLine::MediaSequence(t) => t.output(),
            TagLine::DiscontinuitySequence(t) => t.output(),
            TagLine::Endlist(t) => line_start(TagName::Endlist),
            TagLine::PlaylistType(t) => playlist_type::playlist_type_line(t.view()),
            TagLine::IFramesOnly(t) => line_start(TagName::IFramesOnly),
            TagLine::PartInf(_, o) => o@,
            TagLine::ServerControl(_, o) => o@,
            TagLine::Inf(_, o) => o@,
            TagLine::Byterange(t) => t.output(),
            TagLine::Discontinuity(t) => line_start(TagName::Discontinuity),
            TagLine::Key(t) => t.output(),
            TagLine::XMap(t) => t.output(),
            TagLine::ProgramDateTime(t) => t.output(),
            TagLine::Gap(t) => line_start(TagName::Gap),
            TagLine::Bitrate(t) => t.output(),
            TagLine::Part(_, o) => o@,
            TagLine::Daterange(_, o) => o@,
            TagLine::Skip(t) => t.output(),
            TagLine::PreloadHint(t) => t.output(),
            TagLine::RenditionReport(t) => t.output(),
            TagLine::Media(t) => t.output(),
            TagLine::StreamInf(_, o) => o@,
            TagLine::IFrameStreamInf(_, o) => o@,
            TagLine::SessionData(t) => t.output(),
            TagLine::SessionKey(t) => t.output(),
            TagLine::ContentSteering(t) => t.output(),
        }
    }

    /// Reads a parsed tag line as the kind of tag that its name gives, as that kind reads it.
    pub fn try_from(tag: unknown::Tag) -> (r: Result<TagLine, ValidationError>)
        ensures
            match tag_name_of(tag.name@) {
                None => r == Err::<TagLine, ValidationError>(ValidationError::UnexpectedTagName),
                Some(n) => (r matches Ok(t) ==> t.name_spec() == n) && tag_line_read(n, tag, r),
            },
    {
        let name = TagName::try_from(tag.name)?;
        match name {
            TagName::M3u => Ok(TagLine::M3u(m3u::M3u::try_from(tag)?)),
            TagName::Version => Ok(TagLine::Version(version::Version::try_from(tag)?)),
            TagName::IndependentSegments => Ok(TagLine::IndependentSegments(independent_segments::IndependentSegments::try_from(tag)?)),
            TagName::Start => Ok(TagLine::Start(start::StartLine::try_from(&tag)?, line_copy(tag.original_input))),
            TagName::Define => Ok(TagLine::Define(define::Define::try_from(tag)?)),
            TagName::Targetduration => Ok(TagLine::Targetduration(targetduration::Targetduration::try_from(tag)?)),
            TagName::MediaSequence => Ok(TagLine::MediaSequence(media_sequence::MediaSequence::try_from(tag)?)),
            TagName::DiscontinuitySequence => Ok(TagLine::DiscontinuitySequence(discontinuity_sequence::DiscontinuitySequence::try_from(tag)?)),
            TagName::Endlist => Ok(TagLine::Endlist(endlist::Endlist::try_from(tag)?)),
            TagName::PlaylistType => Ok(TagLine::PlaylistType(playlist_type::PlaylistType::try_from(tag)?)),
            TagName::IFramesOnly => Ok(TagLine::IFramesOnly(i_frames_only::IFramesOnly::try_from(tag)?)),
            TagName::PartInf => Ok(TagLine::PartInf(part_inf::PartInfLine::try_from(&tag)?, line_copy(tag.original_input))),
            TagName::ServerControl => Ok(TagLine::ServerControl(server_control::ServerControlLine::try_from(&tag)?, line_copy(tag.original_input))),
            TagName::Inf => Ok(TagLine::Inf(inf::InfLine::try_from(&tag)?, line_copy(tag.original_input))),
            TagName::Byterange => Ok(TagLine::Byterange(byterange::Byterange::try_from(tag)?)),
            TagName::Discontinuity => Ok(TagLine::Discontinuity(discontinuity::Discontinuity::try_from(tag)?)),
            TagName::Key => Ok(TagLine::Key(key::Key::try_from(tag)?)),
            TagName::XMap => Ok(TagLine::XMap(map::XMap::try_from(tag)?)),
            TagName::ProgramDateTime => Ok(TagLine::ProgramDateTime(program_date_time::ProgramDateTime::try_from(tag)?)),
            TagName::Gap => Ok(TagLine::Gap(gap::Gap::try_from(tag)?)),
            TagName::Bitrate => Ok(TagLine::Bitrate(bitrate::Bitrate::try_from(tag)?)),
            TagName::Part => Ok(TagLine::Part(part::PartLine::try_from(&tag)?, line_copy(tag.original_input))),
            TagName::Daterange => Ok(TagLine::Daterange(daterange::DaterangeLine::try_from(&tag)?, line_copy(tag.original_input))),
            TagName::Skip => Ok(TagLine::Skip(skip::Skip::try_from(tag)?)),
            TagName::PreloadHint => Ok(TagLine::PreloadHint(preload_hint::PreloadHint::try_from(tag)?)),
            TagName::RenditionReport => Ok(TagLine::RenditionReport(rendition_report::RenditionReport::try_from(tag)?)),
            TagName::Media => Ok(TagLine::Media(media::Media::try_from(tag)?)),
            TagName::StreamInf => Ok(TagLine::StreamInf(stream_inf::StreamInfLine::try_from(&tag)?, line_copy(tag.original_input))),
            TagName::IFrameStreamInf => Ok(TagLine::IFrameStreamInf(i_frame_stream_inf::IFrameStreamInfLine::try_from(&tag)?, line_copy(tag.original_input))),
            TagName::SessionData => Ok(TagLine::SessionData(session_data::SessionData::try_from(tag)?)),
            TagName::SessionKey => Ok(TagLine::SessionKey(session_key::SessionKey::try_from(tag)?)),
            TagName::ContentSteering => Ok(TagLine::ContentSteering(content_steering::ContentSteering::try_from(tag)?)),
        }
    }

    /// The kind of the tag.
    pub fn name(&self) -> (r: TagName)
        ensures
            r == self.name_spec(),
    {
        match self {
            TagLine::M3u(_) => TagName::M3u,
            TagLine::Version(_) => TagName::Version,
            TagLine::IndependentSegments(_) => TagName::IndependentSegments,
            TagLine::Start(..) => TagName::Start,
            TagLine::Define(_) => TagName::Define,
            TagLine::Targetduration(_) => TagName::Targetduration,
            TagLine::MediaSequence(_) => TagName::MediaSequence,
            TagLine::DiscontinuitySequence(_) => TagName::DiscontinuitySequence,
            TagLine::Endlist(_) => TagName::Endlist,
            TagLine::PlaylistType(_) => TagName::PlaylistType,
            TagLine::IFramesOnly(_) => TagName::IFramesOnly,
            TagLine::PartInf(..) => TagName::PartInf,
            TagLine::ServerControl(..) => TagName::ServerControl,
            TagLine::Inf(..) => TagName::Inf,
            TagLine::Byterange(_) => TagName::Byterange,
            TagLine::Discontinuity(_) => TagName::Discontinuity,
            TagLine::Key(_) => TagName::Key,
            TagLine::XMap(_) => TagName::XMap,
            TagLine::ProgramDateTime(_) => TagName::ProgramDateTime,
            TagLine::Gap(_) => TagName::Gap,
            TagLine::Bitrate(_) => TagName::Bitrate,
            TagLine::Part(..) => TagName::Part,
            TagLine::Daterange(..) => TagName::Daterange,
            TagLine::Skip(_) => TagName::Skip,
            TagLine::PreloadHint(_) => TagName::PreloadHint,
            TagLine::RenditionReport(_) => TagName::RenditionReport,
            TagLine::Media(_) => TagName::Media,
            TagLine::StreamInf(..) => TagName::StreamInf,
            TagLine::IFrameStreamInf(..) => TagName::IFrameStreamInf,
            TagLine::SessionData(_) => TagName::SessionData,
            TagLine::SessionKey(_) => TagName::SessionKey,
            TagLine::ContentSteering(_) => TagName::ContentSteering,
        }
    }

    /// Consumes the tag and provides the line it writes: for a kind that keeps the line it was read
    /// from, that line until the tag is changed; for a kind held as values, the line of its values.
    pub fn into_inner(self) -> (r: TagInner)
        ensures
            r.view() == self.output(),
    {
        match self {
            TagLine::M3u(t) => t.into_inner(),
            TagLine::Version(t) => t.into_inner(),
            TagLine::IndependentSegments(t) => t.into_inner(),
            TagLine::Start(_, o) => TagInner::from_line(o),
            TagLine::Define(t) => t.into_inner(),
            TagLine::Targetduration(t) => t.into_inner(),
            TagLine::MediaSequence(t) => t.into_inner(),
            TagLine::DiscontinuitySequence(t) => t.into_inner(),
            TagLine::Endlist(t) => t.into_inner(),
            TagLine::PlaylistType(t) => t.into_inner(),
            TagLine::IFramesOnly(t) => t.into_inner(),
            TagLine::PartInf(_, o) => TagInner::from_line(o),
            TagLine::ServerControl(_, o) => TagInner::from_line(o),
            TagLine::Inf(_, o) => TagInner::from_line(o),
            TagLine::Byterange(t) => t.into_inner(),
            TagLine::Discontinuity(t) => t.into_inner(),
            TagLine::Key(t) => t.into_inner(),
            TagLine::XMap(t) => t.into_inner(),
            TagLine::ProgramDateTime(t) => t.into_inner(),
            TagLine::Gap(t) => t.into_inner(),
            TagLine::Bitrate(t) => t.into_inner(),
            TagLine::Part(_, o) => TagInner::from_line(o),
            TagLine::Daterange(_, o) => TagInner::from_line(o),
            TagLine::Skip(t) => t.into_inner(),
            TagLine::PreloadHint(t) => t.into_inner(),
            TagLine::RenditionReport(t) => t.into_inner(),
            TagLine::Media(t) => t.into_inner(),
            TagLine::StreamInf(_, o) => TagInner::from_line(o),
            TagLine::IFrameStreamInf(_, o) => TagInner::from_line(o),
            TagLine::SessionData(t) => t.into_inner(),
            TagLine::SessionKey(t) => t.into_inner(),
            TagLine::ContentSteering(t) => t.into_inner(),
        }
    }
}


} // verus!
