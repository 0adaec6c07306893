//! The `#EXT-X-PLAYLIST-TYPE` tag.

use vstd::prelude::*;
use vstd::string::StringSliceAdditionalSpecFns;
use vstd::utf8::*;

use crate::error::{
    ValidationErrorValueKind, ParseTagValueError, UnknownTagSyntaxError, ValidationError};
use crate::tag::hls::{
    tag_value_kind,
    lemma_line_after_ext, lemma_tag_name_plain, line_start, start_line, tag_name_text,
    value_bytes, TagName,
};
use crate::tag::known::{IntoInnerTag, TagInner};
use crate::tag::unknown;
use crate::tag::value::{playlist_type_spec, HlsPlaylistType};
use crate::utils::push_str;

use crate::tag::value::{value_kind_of_text, value_kind_spec};

verus! {

/// Corresponds to the `#EXT-X-PLAYLIST-TYPE` tag.
///
/// <https://datatracker.ietf.org/doc/html/draft-pantos-hls-rfc8216bis-17#section-4.4.3.5>
#[derive(Debug, PartialEq, Eq, Structural, Clone, Copy)]
pub struct PlaylistType {
    playlist_type: HlsPlaylistType,
}

/// The result of reading the value of a tag as a playlist type.
pub open spec fn playlist_type_value_spec(value: Option<Seq<u8>>) -> Result<
    HlsPlaylistType,
    ValidationError,
> {
    match value {
        Some(b) if value_kind_of_text(b) == ValidationErrorValueKind::Unparsed => match playlist_type_spec(b) {
            Ok(t) => Ok(t),
            Err(e) => Err(
                ValidationError::ErrorExtractingTagValue(ParseTagValueError::PlaylistType(e)),
            ),
        },
        _ => Err(ValidationError::UnexpectedValueType(value_kind_spec(value))),
    }
}

/// The line of the tag: `#EXT-X-PLAYLIST-TYPE:EVENT` or `#EXT-X-PLAYLIST-TYPE:VOD`.
pub open spec fn playlist_type_line(t: HlsPlaylistType) -> Seq<u8> {
    line_start(TagName::PlaylistType) + seq![58u8] + match t {
        HlsPlaylistType::Event => "EVENT".spec_bytes(),
        HlsPlaylistType::Vod => "VOD".spec_bytes(),
    }
}

impl PlaylistType {
    /// The playlist type that the tag carries.
    pub closed spec fn view(&self) -> HlsPlaylistType {
        self.playlist_type
    }

    /// Reads the tag from a parsed tag line, whose value must be `EVENT` or `VOD`.
    pub fn try_from(tag: unknown::Tag) -> (r: Result<PlaylistType, ValidationError>)
        ensures
            match playlist_type_value_spec(value_bytes(tag)) {
                Ok(v) => r matches Ok(t) && t.view() == v,
                Err(e) => r == Err::<PlaylistType, ValidationError>(e),
            },
    {
        let kind = tag_value_kind(&tag);
        if !matches!(kind, ValidationErrorValueKind::Unparsed) {
            return Err(ValidationError::UnexpectedValueType(kind));
        }
        match tag.value {
            None => Err(ValidationError::ErrorExtractingTagValue(ParseTagValueError::UnexpectedEmpty)),
            Some(v) => match v.try_as_hls_playlist_type() {
                Ok(playlist_type) => Ok(PlaylistType { playlist_type }),
                Err(e) => Err(
                    ValidationError::ErrorExtractingTagValue(ParseTagValueError::PlaylistType(e)),
                ),
            },
        }
    }

    /// Constructs a new tag.
    pub fn new(playlist_type: HlsPlaylistType) -> (r: PlaylistType)
        ensures
            r.view() == playlist_type,
    {
        PlaylistType { playlist_type }
    }

    /// The playlist type.
    pub fn playlist_type(&self) -> (r: HlsPlaylistType)
        ensures
            r == self.view(),
    {
        self.playlist_type
    }

    /// Sets the playlist type.
    pub fn set_playlist_type(&mut self, playlist_type: HlsPlaylistType)
        ensures
            final(self).view() == playlist_type,
    {
        self.playlist_type = playlist_type;
    }
}

impl IntoInnerTag for PlaylistType {
    fn into_inner(self) -> (r: TagInner)
        ensures
            r.view() == playlist_type_line(self.view()),
    {
        let mut line = start_line(TagName::PlaylistType);
        line.push(58u8);
        match self.playlist_type {
            HlsPlaylistType::Event => push_str(&mut line, "EVENT"),
            HlsPlaylistType::Vod => push_str(&mut line, "VOD"),
        }
        TagInner::from_line(line)
    }
}

/// The text of a playlist type as written.
pub open spec fn playlist_type_text(t: HlsPlaylistType) -> Seq<u8> {
    match t {
        HlsPlaylistType::Event => "EVENT".spec_bytes(),
        HlsPlaylistType::Vod => "VOD".spec_bytes(),
    }
}

/// Writing and then reading a playlist type gives it back: the line of a playlist type reads as
/// the tag's name with the type's text as its value, and that value reads as the type.
pub proof fn lemma_playlist_type_reads_back(t: HlsPlaylistType)
    ensures
        playlist_type_line(t) == line_start(TagName::PlaylistType) + seq![58u8] + playlist_type_text(t),
        unknown::starts_with_ext(playlist_type_line(t)),
        unknown::tag_after_ext_spec(
            playlist_type_line(t).subrange(4, playlist_type_line(t).len() as int),
        ) == Ok::<(Seq<u8>, Option<Seq<u8>>, Option<Seq<u8>>), UnknownTagSyntaxError>(
            (encode_utf8(tag_name_text(TagName::PlaylistType)), Some(playlist_type_text(t)), None),
        ),
        playlist_type_value_spec(Some(playlist_type_text(t))) == Ok::<HlsPlaylistType, ValidationError>(t),
{
    reveal_strlit("EVENT");
    reveal_strlit("VOD");
    vstd::string::is_ascii_spec_bytes("EVENT");
    vstd::string::is_ascii_spec_bytes("VOD");
    let text = playlist_type_text(t);
    let rest = seq![58u8] + text;
    lemma_line_after_ext(TagName::PlaylistType, rest);
    assert(playlist_type_line(t) =~= line_start(TagName::PlaylistType) + rest);
    assert(encode_utf8(tag_name_text(TagName::PlaylistType)) + rest =~= encode_utf8(
        tag_name_text(TagName::PlaylistType),
    ) + seq![58u8] + text);
    lemma_tag_name_plain(TagName::PlaylistType);
    assert(unknown::no_line_feed(text)) by {
        assert forall|i: int| 0 <= i < text.len() implies text[i] != 10u8 by {
            match t {
                HlsPlaylistType::Event => assert(text[i] == "EVENT"@[i] as u8),
                HlsPlaylistType::Vod => assert(text[i] == "VOD"@[i] as u8),
            }
        }
    }
    unknown::lemma_read_written_tag(encode_utf8(tag_name_text(TagName::PlaylistType)), text);
    assert("EVENT".spec_bytes().len() != "VOD".spec_bytes().len());
}

/// `EVENT` and `VOD` read as the event and the video-on-demand playlist types, and those types
/// write those texts.
pub proof fn lemma_playlist_type_texts()
    ensures
        playlist_type_spec("EVENT".spec_bytes()) == Ok::<HlsPlaylistType, crate::error::ParsePlaylistTypeError>(
            HlsPlaylistType::Event,
        ),
        playlist_type_spec("VOD".spec_bytes()) == Ok::<HlsPlaylistType, crate::error::ParsePlaylistTypeError>(
            HlsPlaylistType::Vod,
        ),
        playlist_type_line(HlsPlaylistType::Event) == line_start(TagName::PlaylistType) + seq![58u8]
            + "EVENT".spec_bytes(),
        playlist_type_line(HlsPlaylistType::Vod) == line_start(TagName::PlaylistType) + seq![58u8]
            + "VOD".spec_bytes(),
{
    reveal_strlit("EVENT");
    reveal_strlit("VOD");
    vstd::string::is_ascii_spec_bytes("EVENT");
    vstd::string::is_ascii_spec_bytes("VOD");
    assert("EVENT".spec_bytes().len() != "VOD".spec_bytes().len());
}

} // verus!
