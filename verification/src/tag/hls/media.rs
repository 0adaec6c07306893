//! The `#EXT-X-MEDIA` tag and the values of its attributes.

use vstd::prelude::*;
use vstd::string::StrSliceExecFns;
use vstd::string::StringExecFns;
use vstd::string::StringSliceAdditionalSpecFns;
use vstd::utf8::*;

use vstd::slice::slice_subrange;

use core::marker::PhantomData;

use crate::error::{UnknownTagSyntaxError, UnrecognizedEnumerationError, ValidationError};
use crate::tag::hls::enumerated_string::{
    reads_as_text, split_pieces, slices_view, AsStaticCow, EnumeratedString,
    EnumeratedStringList, EnumeratedValue,
};
use crate::tag::hls::{
    lemma_lookup_push_quoted_opt, lemma_lookup_push_integer_opt, lemma_lookup_push_yes,
    attribute_list_of, attribute_list_value_spec, comma_integer, comma_quoted, comma_yes,
    copy_opt, opt_string_eq, get_integer, get_quoted, get_unquoted, get_yes, integer_attr,
    line_start, opt_string, opt_text, push_comma_integer, push_comma_quoted, push_comma_yes,
    push_quoted_attribute, push_unquoted_attribute, quoted_attr, quoted_attribute, start_line,
    unquoted_attr, unquoted_attribute, value_bytes, yes_attr, TagName, entries_ok,
    lemma_attribute_list_text_free_of_line_feed, lemma_dec_unquoted_ok, lemma_entries_ok_one,
    lemma_entries_ok_push, lemma_line_after_ext, lemma_lookup_push, lemma_push_integer_opt_text,
    lemma_push_quoted_opt_text, lemma_push_unquoted_opt_text, lemma_tag_name_plain,
    push_integer_opt, push_quoted_opt, push_unquoted_opt, quoted_value_ok, tag_name_text,
    unquoted_value_ok, opt_encode, utf8_attr, push_yes, lemma_push_yes_text,
    lemma_yes_unquoted_ok,
};
use crate::tag::known::TagInner;
use crate::tag::unknown;
use crate::tag::value::{
    AttributeListView, attribute_list_text, lemma_attribute_list_reads_back,
    lemma_attribute_list_text_push, attribute_text, AttributeValueView,
};
use crate::utils::{
    dec, dec_chars, lemma_dec_ascii, lemma_dec_digits, lemma_parse_uint_of_dec,
    lemma_split_nonempty, lemma_split_valid_utf8, parse_uint, parse_uint_spec, push_bytes,
    push_str, push_u64, split_spec, str_eq, str_from_utf8, string_from, trim, trim_spec,
    u64_to_string, lemma_split_line_without_line_feed, split_line_spec, lemma_split_none, lemma_split_append, is_digit, trim_start_spec, trim_end_spec,
};

verus! {

/// Corresponds to the `#EXT-X-MEDIA:TYPE` attribute.
#[derive(Debug, Clone, Copy, PartialEq, Eq, Structural)]
pub enum MediaType {
    /// Specifies an audio rendition.
    Audio,
    /// Specifies a video rendition.
    Video,
    /// Specifies a subtitles rendition.
    Subtitles,
    /// Closed-caption media, carried in the media segments of every video rendition.
    ClosedCaptions,
}

impl AsStaticCow for MediaType {
    open spec fn obeys_text_spec() -> bool {
        true
    }

    open spec fn text(&self) -> Seq<char> {
        match self {
            MediaType::Audio => "AUDIO"@,
            MediaType::Video => "VIDEO"@,
            MediaType::Subtitles => "SUBTITLES"@,
            MediaType::ClosedCaptions => "CLOSED-CAPTIONS"@,
        }
    }

    fn as_cow(&self) -> (r: String)
        ensures
            r@ == self.text(),
    {
        match self {
            MediaType::Audio => string_from("AUDIO"),
            MediaType::Video => string_from("VIDEO"),
            MediaType::Subtitles => string_from("SUBTITLES"),
            MediaType::ClosedCaptions => string_from("CLOSED-CAPTIONS"),
        }
    }
}

impl EnumeratedValue for MediaType {
    open spec fn from_text(s: Seq<char>) -> Option<Self> {
        if s == "AUDIO"@ {
            Some(MediaType::Audio)
        } else if s == "VIDEO"@ {
            Some(MediaType::Video)
        } else if s == "SUBTITLES"@ {
            Some(MediaType::Subtitles)
        } else if s == "CLOSED-CAPTIONS"@ {
            Some(MediaType::ClosedCaptions)
        } else {
            None
        }
    }

    fn try_from_str(value: &str) -> (r: Result<Self, UnrecognizedEnumerationError<'_>>)
        ensures
            match Self::from_text(value@) {
                Some(t) => r == Ok::<Self, UnrecognizedEnumerationError<'_>>(t),
                None => r matches Err(e) && e.value == value,
            },
    {
        if str_eq(value, "AUDIO") {
            return Ok(MediaType::Audio);
        }
        if str_eq(value, "VIDEO") {
            return Ok(MediaType::Video);
        }
        if str_eq(value, "SUBTITLES") {
            return Ok(MediaType::Subtitles);
        }
        if str_eq(value, "CLOSED-CAPTIONS") {
            return Ok(MediaType::ClosedCaptions);
        }
        Err(UnrecognizedEnumerationError::new(value))
    }
}

/// Reading back the text of any [`MediaType`] gives that value.
pub proof fn lemma_media_type_round_trip(v: MediaType)
    ensures
        MediaType::from_text(v.text()) == Some(v),
{
    match v {
        MediaType::Audio => {
            reveal_strlit("AUDIO");
        },
        MediaType::Video => {
            reveal_strlit("VIDEO");
            reveal_strlit("AUDIO");
            assert("AUDIO"@[0] != "VIDEO"@[0]);
        },
        MediaType::Subtitles => {
            reveal_strlit("SUBTITLES");
            reveal_strlit("AUDIO");
            assert("AUDIO"@.len() != "SUBTITLES"@.len());
            reveal_strlit("VIDEO");
            assert("VIDEO"@.len() != "SUBTITLES"@.len());
        },
        MediaType::ClosedCaptions => {
            reveal_strlit("CLOSED-CAPTIONS");
            reveal_strlit("AUDIO");
            assert("AUDIO"@.len() != "CLOSED-CAPTIONS"@.len());
            reveal_strlit("VIDEO");
            assert("VIDEO"@.len() != "CLOSED-CAPTIONS"@.len());
            reveal_strlit("SUBTITLES");
            assert("SUBTITLES"@.len() != "CLOSED-CAPTIONS"@.len());
        },
    }
}


/// Corresponds to the `#EXT-X-MEDIA:INSTREAM-ID` attribute when it is describing a Line 21 Data
/// Services (CEA608) channel.
#[derive(Debug, Clone, Copy, PartialEq, Eq, Structural)]
pub enum Cea608InstreamId {
    /// CC1 as per CEA-608 specification.
    Cc1,
    /// CC2 as per CEA-608 specification.
    Cc2,
    /// CC3 as per CEA-608 specification.
    Cc3,
    /// CC4 as per CEA-608 specification.
    Cc4,
}

/// Corresponds to the `#EXT-X-MEDIA:INSTREAM-ID` attribute.
#[derive(Debug, Clone, Copy, PartialEq, Eq, Structural)]
pub enum InstreamId {
    /// The value identifies a Line 21 Data Services (CEA608) channel.
    Cea608(Cea608InstreamId),
    /// The value identifies a Digital Television Closed Captioning (CEA708) service block number.
    Cea708(u8),
}

impl AsStaticCow for InstreamId {
    open spec fn obeys_text_spec() -> bool {
        true
    }

    open spec fn text(&self) -> Seq<char> {
        match self {
            InstreamId::Cea608(Cea608InstreamId::Cc1) => "CC1"@,
            InstreamId::Cea608(Cea608InstreamId::Cc2) => "CC2"@,
            InstreamId::Cea608(Cea608InstreamId::Cc3) => "CC3"@,
            InstreamId::Cea608(Cea608InstreamId::Cc4) => "CC4"@,
            InstreamId::Cea708(n) => "SERVICE"@ + dec_chars(*n as nat),
        }
    }

    fn as_cow(&self) -> (r: String)
        ensures
            r@ == self.text(),
    {
        match self {
            InstreamId::Cea608(Cea608InstreamId::Cc1) => string_from("CC1"),
            InstreamId::Cea608(Cea608InstreamId::Cc2) => string_from("CC2"),
            InstreamId::Cea608(Cea608InstreamId::Cc3) => string_from("CC3"),
            InstreamId::Cea608(Cea608InstreamId::Cc4) => string_from("CC4"),
            InstreamId::Cea708(n) => {
                let mut s = string_from("SERVICE");
                let d = u64_to_string(*n as u64);
                s.append(d.as_str());
                s
            },
        }
    }
}

impl EnumeratedValue for InstreamId {
    open spec fn from_text(s: Seq<char>) -> Option<Self> {
        if s == "CC1"@ {
            Some(InstreamId::Cea608(Cea608InstreamId::Cc1))
        } else if s == "CC2"@ {
            Some(InstreamId::Cea608(Cea608InstreamId::Cc2))
        } else if s == "CC3"@ {
            Some(InstreamId::Cea608(Cea608InstreamId::Cc3))
        } else if s == "CC4"@ {
            Some(InstreamId::Cea608(Cea608InstreamId::Cc4))
        } else if s.len() >= 7 && s.subrange(0, 7) == "SERVICE"@ {
            match parse_uint_spec(encode_utf8(s.subrange(7, s.len() as int)), 255) {
                Some(n) => Some(InstreamId::Cea708(n as u8)),
                None => None,
            }
        } else {
            None
        }
    }

    fn try_from_str(value: &str) -> (r: Result<Self, UnrecognizedEnumerationError<'_>>)
        ensures
            match Self::from_text(value@) {
                Some(t) => r == Ok::<Self, UnrecognizedEnumerationError<'_>>(t),
                None => r matches Err(e) && e.value == value,
            },
    {
        if str_eq(value, "CC1") {
            return Ok(InstreamId::Cea608(Cea608InstreamId::Cc1));
        }
        if str_eq(value, "CC2") {
            return Ok(InstreamId::Cea608(Cea608InstreamId::Cc2));
        }
        if str_eq(value, "CC3") {
            return Ok(InstreamId::Cea608(Cea608InstreamId::Cc3));
        }
        if str_eq(value, "CC4") {
            return Ok(InstreamId::Cea608(Cea608InstreamId::Cc4));
        }
        let len = value.unicode_len();
        if len >= 7 && str_eq(value.substring_char(0, 7), "SERVICE") {
            let rest = value.substring_char(7, len);
            if let Some(n) = parse_uint(rest.as_bytes(), 255) {
                return Ok(InstreamId::Cea708(n as u8));
            }
        }
        Err(UnrecognizedEnumerationError::new(value))
    }
}

/// Reading back the text of any [`InstreamId`] gives that value.
pub proof fn lemma_instream_id_round_trip(v: InstreamId)
    ensures
        InstreamId::from_text(v.text()) == Some(v),
{
    reveal_strlit("CC1");
    reveal_strlit("CC2");
    reveal_strlit("CC3");
    reveal_strlit("CC4");
    reveal_strlit("SERVICE");
    match v {
        InstreamId::Cea608(Cea608InstreamId::Cc1) => {},
        InstreamId::Cea608(Cea608InstreamId::Cc2) => {
            assert("CC1"@[2] != "CC2"@[2]);
        },
        InstreamId::Cea608(Cea608InstreamId::Cc3) => {
            assert("CC1"@[2] != "CC3"@[2]);
            assert("CC2"@[2] != "CC3"@[2]);
        },
        InstreamId::Cea608(Cea608InstreamId::Cc4) => {
            assert("CC1"@[2] != "CC4"@[2]);
            assert("CC2"@[2] != "CC4"@[2]);
            assert("CC3"@[2] != "CC4"@[2]);
        },
        InstreamId::Cea708(n) => {
            let s = v.text();
            lemma_dec_digits(n as nat);
            lemma_dec_ascii(n as nat);
            lemma_parse_uint_of_dec(n as nat, 255);
            assert(s.len() > 7);
            assert(s.len() != "CC1"@.len());
            assert(s.len() != "CC2"@.len());
            assert(s.len() != "CC3"@.len());
            assert(s.len() != "CC4"@.len());
            assert(s.subrange(0, 7) =~= "SERVICE"@);
            assert(s.subrange(7, s.len() as int) =~= dec_chars(n as nat));
        },
    }
}

/// Corresponds to the "supplementary indications of special channel usage" parameter in the
/// `#EXT-X-MEDIA:CHANNELS` attribute.
#[derive(Debug, Clone, Copy, PartialEq, Eq, Structural)]
pub enum ChannelSpecialUsageIdentifier {
    /// The audio is binaural (either recorded or synthesized).
    Binaural,
    /// The audio is pre-processed content that should not be dynamically spatialized.
    Immersive,
    /// The audio is a downmix derivative of some other audio.
    Downmix,
    /// The audio is prepared for routing to a specific speaker location; the value counts the
    /// channels prepared for specific routing (`BED-4`).
    Bed(u32),
    /// The audio represents degrees of freedom (`DOF-3` or `DOF-6`).
    DegreesOfFreedom(u32),
}

impl AsStaticCow for ChannelSpecialUsageIdentifier {
    open spec fn obeys_text_spec() -> bool {
        true
    }

    open spec fn text(&self) -> Seq<char> {
        match self {
            ChannelSpecialUsageIdentifier::Binaural => "BINAURAL"@,
            ChannelSpecialUsageIdentifier::Immersive => "IMMERSIVE"@,
            ChannelSpecialUsageIdentifier::Downmix => "DOWNMIX"@,
            ChannelSpecialUsageIdentifier::Bed(n) => "BED-"@ + dec_chars(*n as nat),
            ChannelSpecialUsageIdentifier::DegreesOfFreedom(n) => "DOF-"@ + dec_chars(*n as nat),
        }
    }

    fn as_cow(&self) -> (r: String)
        ensures
            r@ == self.text(),
    {
        match self {
            ChannelSpecialUsageIdentifier::Binaural => string_from("BINAURAL"),
            ChannelSpecialUsageIdentifier::Immersive => string_from("IMMERSIVE"),
            ChannelSpecialUsageIdentifier::Downmix => string_from("DOWNMIX"),
            ChannelSpecialUsageIdentifier::Bed(n) => {
                let mut s = string_from("BED-");
                let d = u64_to_string(*n as u64);
                s.append(d.as_str());
                s
            },
            ChannelSpecialUsageIdentifier::DegreesOfFreedom(n) => {
                let mut s = string_from("DOF-");
                let d = u64_to_string(*n as u64);
                s.append(d.as_str());
                s
            },
        }
    }
}

impl EnumeratedValue for ChannelSpecialUsageIdentifier {
    open spec fn from_text(s: Seq<char>) -> Option<Self> {
        if s == "BINAURAL"@ {
            Some(ChannelSpecialUsageIdentifier::Binaural)
        } else if s == "IMMERSIVE"@ {
            Some(ChannelSpecialUsageIdentifier::Immersive)
        } else if s == "DOWNMIX"@ {
            Some(ChannelSpecialUsageIdentifier::Downmix)
        } else if s.len() >= 4 && s.subrange(0, 4) == "BED-"@ {
            match parse_uint_spec(encode_utf8(s.subrange(4, s.len() as int)), u32::MAX as nat) {
                Some(n) => Some(ChannelSpecialUsageIdentifier::Bed(n as u32)),
                None => None,
            }
        } else if s.len() >= 4 && s.subrange(0, 4) == "DOF-"@ {
            match parse_uint_spec(encode_utf8(s.subrange(4, s.len() as int)), u32::MAX as nat) {
                Some(n) => Some(ChannelSpecialUsageIdentifier::DegreesOfFreedom(n as u32)),
                None => None,
            }
        } else {
            None
        }
    }

    fn try_from_str(value: &str) -> (r: Result<Self, UnrecognizedEnumerationError<'_>>)
        ensures
            match Self::from_text(value@) {
                Some(t) => r == Ok::<Self, UnrecognizedEnumerationError<'_>>(t),
                None => r matches Err(e) && e.value == value,
            },
    {
        if str_eq(value, "BINAURAL") {
            return Ok(ChannelSpecialUsageIdentifier::Binaural);
        }
        if str_eq(value, "IMMERSIVE") {
            return Ok(ChannelSpecialUsageIdentifier::Immersive);
        }
        if str_eq(value, "DOWNMIX") {
            return Ok(ChannelSpecialUsageIdentifier::Downmix);
        }
        let len = value.unicode_len();
        if len >= 4 {
            let prefix = value.substring_char(0, 4);
            if str_eq(prefix, "BED-") {
                let rest = value.substring_char(4, len);
                return match parse_uint(rest.as_bytes(), 4294967295) {
                    Some(n) => Ok(ChannelSpecialUsageIdentifier::Bed(n as u32)),
                    None => Err(UnrecognizedEnumerationError::new(value)),
                };
            }
            if str_eq(prefix, "DOF-") {
                let rest = value.substring_char(4, len);
                return match parse_uint(rest.as_bytes(), 4294967295) {
                    Some(n) => Ok(ChannelSpecialUsageIdentifier::DegreesOfFreedom(n as u32)),
                    None => Err(UnrecognizedEnumerationError::new(value)),
                };
            }
        }
        Err(UnrecognizedEnumerationError::new(value))
    }
}

/// Reading back the text of any [`ChannelSpecialUsageIdentifier`] gives that value.
pub proof fn lemma_channel_special_usage_identifier_round_trip(v: ChannelSpecialUsageIdentifier)
    ensures
        ChannelSpecialUsageIdentifier::from_text(v.text()) == Some(v),
{
    reveal_strlit("BINAURAL");
    reveal_strlit("IMMERSIVE");
    reveal_strlit("DOWNMIX");
    reveal_strlit("BED-");
    reveal_strlit("DOF-");
    match v {
        ChannelSpecialUsageIdentifier::Binaural => {},
        ChannelSpecialUsageIdentifier::Immersive => {
            assert("BINAURAL"@.len() != "IMMERSIVE"@.len());
        },
        ChannelSpecialUsageIdentifier::Downmix => {
            assert("BINAURAL"@.len() != "DOWNMIX"@.len());
            assert("IMMERSIVE"@.len() != "DOWNMIX"@.len());
        },
        ChannelSpecialUsageIdentifier::Bed(n) => {
            let s = v.text();
            lemma_dec_digits(n as nat);
            lemma_dec_ascii(n as nat);
            lemma_parse_uint_of_dec(n as nat, u32::MAX as nat);
            assert(s[1] != "BINAURAL"@[1]);
            assert(s[0] != "IMMERSIVE"@[0]);
            assert(s[0] != "DOWNMIX"@[0]);
            assert(s.subrange(0, 4) =~= "BED-"@);
            assert(s.subrange(4, s.len() as int) =~= dec_chars(n as nat));
        },
        ChannelSpecialUsageIdentifier::DegreesOfFreedom(n) => {
            let s = v.text();
            lemma_dec_digits(n as nat);
            lemma_dec_ascii(n as nat);
            lemma_parse_uint_of_dec(n as nat, u32::MAX as nat);
            assert(s[0] != "BINAURAL"@[0]);
            assert(s[0] != "IMMERSIVE"@[0]);
            assert(s[2] != "DOWNMIX"@[2]);
            assert(s.subrange(0, 4) =~= "DOF-"@);
            assert(s.subrange(0, 4)[0] != "BED-"@[0]);
            assert(s.subrange(4, s.len() as int) =~= dec_chars(n as nat));
        },
    }
}

/// Corresponds to the "presence of spatial audio of some kind" parameter in the
/// `#EXT-X-MEDIA:CHANNELS` attribute.
#[derive(Debug, Clone, Copy, PartialEq, Eq, Structural)]
pub enum AudioCodingIdentifier {
    /// Joint object coding: up to 15 full range channels or objects, plus LFE, carried within a
    /// Dolby Digital Plus bitstream.
    JointObjectCoding,
    /// The order of ambisonics (`3OA` is third order ambisonics).
    OrderOfAmbisonics(u32),
}

impl AsStaticCow for AudioCodingIdentifier {
    open spec fn obeys_text_spec() -> bool {
        true
    }

    open spec fn text(&self) -> Seq<char> {
        match self {
            AudioCodingIdentifier::JointObjectCoding => "JOC"@,
            AudioCodingIdentifier::OrderOfAmbisonics(n) => dec_chars(*n as nat) + "OA"@,
        }
    }

    fn as_cow(&self) -> (r: String)
        ensures
            r@ == self.text(),
    {
        match self {
            AudioCodingIdentifier::JointObjectCoding => string_from("JOC"),
            AudioCodingIdentifier::OrderOfAmbisonics(n) => {
                let mut s = u64_to_string(*n as u64);
                let oa = string_from("OA");
                s.append(oa.as_str());
                s
            },
        }
    }
}

impl EnumeratedValue for AudioCodingIdentifier {
    open spec fn from_text(s: Seq<char>) -> Option<Self> {
        if s == "JOC"@ {
            Some(AudioCodingIdentifier::JointObjectCoding)
        } else if s.len() >= 2 && s.subrange(s.len() - 2, s.len() as int) == "OA"@ {
            match parse_uint_spec(encode_utf8(s.subrange(0, s.len() - 2)), u32::MAX as nat) {
                Some(n) => Some(AudioCodingIdentifier::OrderOfAmbisonics(n as u32)),
                None => None,
            }
        } else {
            None
        }
    }

    fn try_from_str(value: &str) -> (r: Result<Self, UnrecognizedEnumerationError<'_>>)
        ensures
            match Self::from_text(value@) {
                Some(t) => r == Ok::<Self, UnrecognizedEnumerationError<'_>>(t),
                None => r matches Err(e) && e.value == value,
            },
    {
        if str_eq(value, "JOC") {
            return Ok(AudioCodingIdentifier::JointObjectCoding);
        }
        let len = value.unicode_len();
        if len >= 2 && str_eq(value.substring_char(len - 2, len), "OA") {
            let count = value.substring_char(0, len - 2);
            if let Some(n) = parse_uint(count.as_bytes(), 4294967295) {
                return Ok(AudioCodingIdentifier::OrderOfAmbisonics(n as u32));
            }
        }
        Err(UnrecognizedEnumerationError::new(value))
    }
}

/// Reading back the text of any [`AudioCodingIdentifier`] gives that value.
pub proof fn lemma_audio_coding_identifier_round_trip(v: AudioCodingIdentifier)
    ensures
        AudioCodingIdentifier::from_text(v.text()) == Some(v),
{
    reveal_strlit("JOC");
    reveal_strlit("OA");
    match v {
        AudioCodingIdentifier::JointObjectCoding => {},
        AudioCodingIdentifier::OrderOfAmbisonics(n) => {
            let s = v.text();
            let d = dec_chars(n as nat);
            lemma_dec_digits(n as nat);
            lemma_dec_ascii(n as nat);
            lemma_parse_uint_of_dec(n as nat, u32::MAX as nat);
            assert(crate::utils::is_digit(dec(n as nat)[0]));
            assert(s[0] == d[0]);
            assert(s[0] != "JOC"@[0]);
            assert(s.subrange(s.len() - 2, s.len() as int) =~= "OA"@);
            assert(s.subrange(0, s.len() - 2) =~= d);
        },
    }
}

/// Corresponds to the values of the `#EXT-X-MEDIA:CHARACTERISTICS` attribute that the HLS
/// specification calls out.
#[derive(Debug, Clone, Copy, PartialEq, Eq, Structural)]
pub enum MediaCharacteristicTag {
    /// Legible content that transcribes spoken dialog.
    TranscribesSpokenDialog,
    /// Legible content that describes music and sound effects.
    DescribesMusicAndSound,
    /// Subtitles edited for ease of reading.
    EasyToRead,
    /// Audible content that describes the visual portion of the presentation.
    DescribesVideo,
    /// The rendition was authored or translated programmatically.
    MachineGenerated,
}

impl AsStaticCow for MediaCharacteristicTag {
    open spec fn obeys_text_spec() -> bool {
        true
    }

    open spec fn text(&self) -> Seq<char> {
        match self {
            MediaCharacteristicTag::TranscribesSpokenDialog => "public.accessibility.transcribes-spoken-dialog"@,
            MediaCharacteristicTag::DescribesMusicAndSound => "public.accessibility.describes-music-and-sound"@,
            MediaCharacteristicTag::EasyToRead => "public.easy-to-read"@,
            MediaCharacteristicTag::DescribesVideo => "public.accessibility.describes-video"@,
            MediaCharacteristicTag::MachineGenerated => "public.machine-generated"@,
        }
    }

    fn as_cow(&self) -> (r: String)
        ensures
            r@ == self.text(),
    {
        match self {
            MediaCharacteristicTag::TranscribesSpokenDialog => string_from("public.accessibility.transcribes-spoken-dialog"),
            MediaCharacteristicTag::DescribesMusicAndSound => string_from("public.accessibility.describes-music-and-sound"),
            MediaCharacteristicTag::EasyToRead => string_from("public.easy-to-read"),
            MediaCharacteristicTag::DescribesVideo => string_from("public.accessibility.describes-video"),
            MediaCharacteristicTag::MachineGenerated => string_from("public.machine-generated"),
        }
    }
}

impl EnumeratedValue for MediaCharacteristicTag {
    open spec fn from_text(s: Seq<char>) -> Option<Self> {
        if s == "public.accessibility.transcribes-spoken-dialog"@ {
            Some(MediaCharacteristicTag::TranscribesSpokenDialog)
        } else if s == "public.accessibility.describes-music-and-sound"@ {
            Some(MediaCharacteristicTag::DescribesMusicAndSound)
        } else if s == "public.easy-to-read"@ {
            Some(MediaCharacteristicTag::EasyToRead)
        } else if s == "public.accessibility.describes-video"@ {
            Some(MediaCharacteristicTag::DescribesVideo)
        } else if s == "public.machine-generated"@ {
            Some(MediaCharacteristicTag::MachineGenerated)
        } else {
            None
        }
    }

    fn try_from_str(value: &str) -> (r: Result<Self, UnrecognizedEnumerationError<'_>>)
        ensures
            match Self::from_text(value@) {
                Some(t) => r == Ok::<Self, UnrecognizedEnumerationError<'_>>(t),
                None => r matches Err(e) && e.value == value,
            },
    {
        if str_eq(value, "public.accessibility.transcribes-spoken-dialog") {
            return Ok(MediaCharacteristicTag::TranscribesSpokenDialog);
        }
        if str_eq(value, "public.accessibility.describes-music-and-sound") {
            return Ok(MediaCharacteristicTag::DescribesMusicAndSound);
        }
        if str_eq(value, "public.easy-to-read") {
            return Ok(MediaCharacteristicTag::EasyToRead);
        }
        if str_eq(value, "public.accessibility.describes-video") {
            return Ok(MediaCharacteristicTag::DescribesVideo);
        }
        if str_eq(value, "public.machine-generated") {
            return Ok(MediaCharacteristicTag::MachineGenerated);
        }
        Err(UnrecognizedEnumerationError::new(value))
    }
}

/// Reading back the text of any [`MediaCharacteristicTag`] gives that value.
pub proof fn lemma_media_characteristic_tag_round_trip(v: MediaCharacteristicTag)
    ensures
        MediaCharacteristicTag::from_text(v.text()) == Some(v),
{
    match v {
        MediaCharacteristicTag::TranscribesSpokenDialog => {
            reveal_strlit("public.accessibility.transcribes-spoken-dialog");
        },
        MediaCharacteristicTag::DescribesMusicAndSound => {
            reveal_strlit("public.accessibility.describes-music-and-sound");
            reveal_strlit("public.accessibility.transcribes-spoken-dialog");
            assert("public.accessibility.transcribes-spoken-dialog"@[21] != "public.accessibility.describes-music-and-sound"@[21]);
        },
        MediaCharacteristicTag::EasyToRead => {
            reveal_strlit("public.easy-to-read");
            reveal_strlit("public.accessibility.transcribes-spoken-dialog");
            assert("public.accessibility.transcribes-spoken-dialog"@.len() != "public.easy-to-read"@.len());
            reveal_strlit("public.accessibility.describes-music-and-sound");
            assert("public.accessibility.describes-music-and-sound"@.len() != "public.easy-to-read"@.len());
        },
        MediaCharacteristicTag::DescribesVideo => {
            reveal_strlit("public.accessibility.describes-video");
            reveal_strlit("public.accessibility.transcribes-spoken-dialog");
            assert("public.accessibility.transcribes-spoken-dialog"@.len() != "public.accessibility.describes-video"@.len());
            reveal_strlit("public.accessibility.describes-music-and-sound");
            assert("public.accessibility.describes-music-and-sound"@.len() != "public.accessibility.describes-video"@.len());
            reveal_strlit("public.easy-to-read");
            assert("public.easy-to-read"@.len() != "public.accessibility.describes-video"@.len());
        },
        MediaCharacteristicTag::MachineGenerated => {
            reveal_strlit("public.machine-generated");
            reveal_strlit("public.accessibility.transcribes-spoken-dialog");
            assert("public.accessibility.transcribes-spoken-dialog"@.len() != "public.machine-generated"@.len());
            reveal_strlit("public.accessibility.describes-music-and-sound");
            assert("public.accessibility.describes-music-and-sound"@.len() != "public.machine-generated"@.len());
            reveal_strlit("public.easy-to-read");
            assert("public.easy-to-read"@.len() != "public.machine-generated"@.len());
            reveal_strlit("public.accessibility.describes-video");
            assert("public.accessibility.describes-video"@.len() != "public.machine-generated"@.len());
        },
    }
}


/// The count of a `CHANNELS` value with text bytes `b`: its first `/`-separated parameter, read
/// as a `u32`.
pub open spec fn channels_count_spec(b: Seq<u8>) -> Option<u32> {
    match parse_uint_spec(split_spec(b, 47u8)[0], u32::MAX as nat) {
        Some(n) => Some(n as u32),
        None => None,
    }
}

/// The text bytes of a `CHANNELS` value built from a count and the texts of the spatial audio and
/// special usage lists: `<count>`, `<count>/<spatial>`, `<count>/-/<special>` or
/// `<count>/<spatial>/<special>`.
pub open spec fn channels_text(count: u32, spatial: Seq<u8>, special: Seq<u8>) -> Seq<u8> {
    let c = dec(count as nat);
    if spatial.len() == 0 && special.len() == 0 {
        c
    } else if spatial.len() == 0 {
        c + seq![47u8, 45u8, 47u8] + special
    } else if special.len() == 0 {
        c + seq![47u8] + spatial
    } else {
        c + seq![47u8] + spatial + seq![47u8] + special
    }
}

/// The text bytes of the list that parameter `k` of a `CHANNELS` value with text bytes `b` holds:
/// the parameter without surrounding white space, where an absent parameter or `-` is an empty
/// list.
pub open spec fn channels_param(b: Seq<u8>, k: int) -> Seq<u8> {
    let p = split_spec(b, 47u8);
    if p.len() <= k {
        Seq::empty()
    } else {
        let t = trim_spec(decode_utf8(p[k]));
        if t == "-"@ {
            Seq::empty()
        } else {
            encode_utf8(t)
        }
    }
}

/// A `CHANNELS` attribute value that has at least a valid count.
///
/// The value is a slash separated list of parameters: the count of audio channels, an indicator
/// of spatial audio of some kind, and supplementary indication of special channel usage.
#[derive(Debug)]
pub struct ValidChannels {
    count: u32,
    inner: Vec<u8>,
}

impl ValidChannels {
    #[verifier::type_invariant]
    spec fn inner_is_text(self) -> bool {
        valid_utf8(self.inner@)
    }

    /// The count and the bytes of the text of the value.
    pub closed spec fn view(&self) -> (u32, Seq<u8>) {
        (self.count, self.inner@)
    }

    /// Constructs a new value from the count and the two lists.
    pub fn new(
        count: u32,
        spatial_audio: EnumeratedStringList<AudioCodingIdentifier>,
        special_usage: EnumeratedStringList<ChannelSpecialUsageIdentifier>,
    ) -> (r: Self)
        ensures
            r.view() == (count, channels_text(count, spatial_audio.view(), special_usage.view())),
    {
        let spatial = spatial_audio.as_ref();
        let special = special_usage.as_ref();
        let mut inner: Vec<u8> = Vec::new();
        push_u64(&mut inner, count as u64);
        let spatial_empty = spatial.as_bytes().len() == 0;
        let special_empty = special.as_bytes().len() == 0;
        if spatial_empty && !special_empty {
            inner.push(47u8);
            inner.push(45u8);
            inner.push(47u8);
            push_str(&mut inner, special);
        } else if !spatial_empty {
            inner.push(47u8);
            push_str(&mut inner, spatial);
            if !special_empty {
                inner.push(47u8);
                push_str(&mut inner, special);
            }
        }
        proof {
            lemma_dec_ascii(count as nat);
            encode_utf8_valid_utf8(spatial@);
            encode_utf8_valid_utf8(special@);
            let slash = seq![47u8];
            let dash = seq![47u8, 45u8, 47u8];
            assert(valid_utf8(slash)) by {
                reveal_with_fuel(valid_utf8, 2);
                assert(pop_first_scalar(slash) =~= Seq::<u8>::empty());
            }
            assert(valid_utf8(dash)) by {
                reveal_with_fuel(valid_utf8, 4);
                assert(pop_first_scalar(dash) =~= seq![45u8, 47u8]);
                assert(pop_first_scalar(seq![45u8, 47u8]) =~= seq![47u8]);
                assert(pop_first_scalar(seq![47u8]) =~= Seq::<u8>::empty());
            }
            let c = dec(count as nat);
            let a = spatial.spec_bytes();
            let b = special.spec_bytes();
            if a.len() == 0 && b.len() == 0 {
                assert(inner@ =~= c);
            } else if a.len() == 0 {
                assert(inner@ =~= c + dash + b);
                valid_utf8_concat(c, dash);
                valid_utf8_concat(c + dash, b);
            } else if b.len() == 0 {
                assert(inner@ =~= c + slash + a);
                valid_utf8_concat(c, slash);
                valid_utf8_concat(c + slash, a);
            } else {
                assert(inner@ =~= c + slash + a + slash + b);
                valid_utf8_concat(c, slash);
                valid_utf8_concat(c + slash, a);
                valid_utf8_concat(c + slash + a, slash);
                valid_utf8_concat(c + slash + a + slash, b);
            }
        }
        ValidChannels { count, inner }
    }

    /// Reads a `CHANNELS` value, whose first parameter must be a count.
    pub fn try_from(value: &str) -> (r: Result<Self, UnrecognizedEnumerationError<'_>>)
        ensures
            match channels_count_spec(value.spec_bytes()) {
                Some(n) => r matches Ok(c) && c.view() == (n, value.spec_bytes()),
                None => r matches Err(e) && e.value == value,
            },
    {
        let bytes = value.as_bytes();
        let pieces = split_pieces(bytes, 47u8);
        proof {
            assert(pieces@[0]@ == slices_view(pieces@)[0]);
        }
        match parse_uint(pieces[0], 4294967295) {
            Some(n) => {
                let mut inner: Vec<u8> = Vec::new();
                push_bytes(&mut inner, bytes);
                proof {
                    encode_utf8_valid_utf8(value@);
                }
                Ok(ValidChannels { count: n as u32, inner })
            },
            None => Err(UnrecognizedEnumerationError::new(value)),
        }
    }

    /// The count of audio channels: the maximum number of independent, simultaneous audio channels
    /// present in any media segment of the rendition.
    pub fn count(&self) -> (r: u32)
        ensures
            r == self.view().0,
    {
        self.count
    }

    /// The text of the value.
    pub fn as_ref(&self) -> (r: &str)
        ensures
            r.spec_bytes() == self.view().1,
    {
        proof {
            use_type_invariant(self);
        }
        match str_from_utf8(self.inner.as_slice()) {
            Ok(s) => s,
            Err(_) => {
                proof {
                    assert(false);
                }
                ""
            },
        }
    }

    /// The list that parameter `k` holds.
    fn param<T>(&self, k: usize) -> (r: EnumeratedStringList<T>)
        ensures
            r.view() == channels_param(self.view().1, k as int),
    {
        proof {
            use_type_invariant(self);
            lemma_split_valid_utf8(self.inner@, 47u8);
        }
        let pieces = split_pieces(self.inner.as_slice(), 47u8);
        if pieces.len() <= k {
            proof {
                reveal_strlit("");
            }
            return EnumeratedStringList::from_str("");
        }
        let piece = pieces[k];
        assert(piece@ == split_spec(self.inner@, 47u8)[k as int]);
        match str_from_utf8(piece) {
            Ok(s) => {
                proof {
                    encode_utf8_decode_utf8(s@);
                }
                let t = trim(s);
                if str_eq(t, "-") {
                    proof {
                        reveal_strlit("");
                    }
                    EnumeratedStringList::from_str("")
                } else {
                    EnumeratedStringList::from_str(t)
                }
            },
            Err(_) => {
                proof {
                    assert(false);
                }
                EnumeratedStringList::from_str("")
            },
        }
    }

    /// The spatial audio parameter: audio coding identifiers that signal spatial audio of some
    /// kind (an empty list when the parameter is absent or `-`).
    pub fn spatial_audio(&self) -> (r: EnumeratedStringList<AudioCodingIdentifier>)
        ensures
            r.view() == channels_param(self.view().1, 1),
    {
        self.param(1)
    }

    /// The special usage parameter: supplementary indications of special channel usage (an empty
    /// list when the parameter is absent or `-`).
    pub fn special_usage(&self) -> (r: EnumeratedStringList<ChannelSpecialUsageIdentifier>)
        ensures
            r.view() == channels_param(self.view().1, 2),
    {
        self.param(2)
    }

    /// The parameters after the first three, which the HLS specification does not define yet.
    pub fn unknown_parameters(&self) -> (r: Vec<&str>)
        ensures
            r@.len() == if split_spec(self.view().1, 47u8).len() > 3 {
                split_spec(self.view().1, 47u8).len() - 3
            } else {
                0
            },
            forall|k: int|
                0 <= k < r@.len() ==> (#[trigger] r@[k]).spec_bytes() == split_spec(
                    self.view().1,
                    47u8,
                )[k + 3],
    {
        proof {
            use_type_invariant(self);
            lemma_split_valid_utf8(self.inner@, 47u8);
        }
        let pieces = split_pieces(self.inner.as_slice(), 47u8);
        let mut out: Vec<&str> = Vec::new();
        let mut k: usize = 3;
        while k < pieces.len()
            invariant
                3 <= k,
                slices_view(pieces@) == split_spec(self.inner@, 47u8),
                forall|i: int| 0 <= i < pieces@.len() ==> valid_utf8(#[trigger] split_spec(self.inner@, 47u8)[i]),
                out@.len() == if k > 3 { k - 3 } else { 0 },
                k <= pieces@.len() || (k == 3 && pieces@.len() <= 3),
                forall|i: int| 0 <= i < out@.len() ==> (#[trigger] out@[i]).spec_bytes() == split_spec(self.inner@, 47u8)[i + 3],
            decreases pieces@.len() - k,
        {
            let piece = pieces[k];
            assert(piece@ == split_spec(self.inner@, 47u8)[k as int]);
            match str_from_utf8(piece) {
                Ok(s) => out.push(s),
                Err(_) => {
                    proof {
                        assert(false);
                    }
                },
            }
            k += 1;
        }
        out
    }
}

/// A value built by `new` gives back, as its spatial audio and special usage parameters, the two
/// lists that it was built from, when neither list's text holds `/`, starts or ends with white
/// space, or is `-`.
pub proof fn lemma_channels_params_read_back(count: u32, spatial: Seq<u8>, special: Seq<u8>)
    requires
        valid_utf8(spatial),
        valid_utf8(special),
        !spatial.contains(47u8),
        !special.contains(47u8),
        trim_spec(decode_utf8(spatial)) == decode_utf8(spatial),
        trim_spec(decode_utf8(special)) == decode_utf8(special),
        decode_utf8(spatial) != "-"@,
        decode_utf8(special) != "-"@,
    ensures
        channels_param(channels_text(count, spatial, special), 1) == spatial,
        channels_param(channels_text(count, spatial, special), 2) == special,
{
    let c = dec(count as nat);
    lemma_dec_digits(count as nat);
    assert(!c.contains(47u8)) by {
        if c.contains(47u8) {
            let j = choose|j: int| 0 <= j < c.len() && c[j] == 47u8;
            assert(is_digit(c[j]));
        }
    }
    assert forall|j: int| 0 <= j < c.len() implies c[j] != 47u8 by {
        assert(is_digit(c[j]));
    }
    lemma_split_none(c, 47u8);
    decode_utf8_encode_utf8(spatial);
    decode_utf8_encode_utf8(special);
    let dash = seq![45u8];
    assert(decode_utf8(dash) == seq!['-']) by {
        encode_utf8_decode_utf8(seq!['-']);
        reveal_with_fuel(encode_utf8, 2);
        assert(('-' as u32) == 45);
        assert(((45u32 & 0x7F) as u8) == 45u8) by (bit_vector);
        assert(seq!['-'].drop_first() =~= Seq::<char>::empty());
        assert(encode_utf8(seq!['-']) =~= dash);
    }
    assert(trim_spec(seq!['-']) == seq!['-']) by {
        reveal_with_fuel(trim_start_spec, 2);
        reveal_with_fuel(trim_end_spec, 2);
    }
    assert("-"@ == seq!['-']) by {
        reveal_strlit("-");
    }
    let slash = seq![47u8];
    if spatial.len() == 0 && special.len() == 0 {
        assert(channels_text(count, spatial, special) == c);
    } else if spatial.len() == 0 {
        assert(!dash.contains(47u8)) by {
            if dash.contains(47u8) {
                let j = choose|j: int| 0 <= j < dash.len() && dash[j] == 47u8;
            }
        }
        lemma_split_append(c, dash, 47u8);
        lemma_split_append(c + slash + dash, special, 47u8);
        assert(channels_text(count, spatial, special) =~= c + slash + dash + slash + special);
        assert(split_spec(c + slash + dash + slash + special, 47u8) =~= seq![c, dash, special]);
        assert(decode_utf8(spatial) =~= Seq::<char>::empty());
    } else if special.len() == 0 {
        lemma_split_append(c, spatial, 47u8);
        assert(split_spec(c + slash + spatial, 47u8) =~= seq![c, spatial]);
        assert(decode_utf8(special) =~= Seq::<char>::empty());
    } else {
        lemma_split_append(c, spatial, 47u8);
        lemma_split_append(c + slash + spatial, special, 47u8);
        assert(split_spec(c + slash + spatial + slash + special, 47u8) =~= seq![c, spatial, special]);
    }
}

/// Corresponds to the `#EXT-X-MEDIA:CHANNELS` attribute value.
#[derive(Debug)]
pub enum Channels<'a> {
    /// The value contained at least a valid channels count.
    Valid(ValidChannels),
    /// The value was malformed and unrecognized. The original data is still provided.
    Invalid(&'a str),
}

impl<'a> Channels<'a> {
    /// Reads a `CHANNELS` value: valid when its first parameter is a count.
    pub fn from_str(value: &'a str) -> (r: Self)
        ensures
            match channels_count_spec(value.spec_bytes()) {
                Some(n) => r matches Channels::Valid(c) && c.view() == (n, value.spec_bytes()),
                None => r == Channels::Invalid(value),
            },
    {
        match ValidChannels::try_from(value) {
            Ok(valid) => Channels::Valid(valid),
            Err(e) => Channels::Invalid(e.value),
        }
    }

    /// The valid value, if the value is valid.
    pub fn valid(&self) -> (r: Option<&ValidChannels>)
        ensures
            match self {
                Channels::Valid(c) => r == Some(c),
                Channels::Invalid(_) => r is None,
            },
    {
        match self {
            Channels::Valid(valid_channels) => Some(valid_channels),
            Channels::Invalid(_) => None,
        }
    }

    /// The text of the value.
    pub fn as_ref(&self) -> (r: &str)
        ensures
            match self {
                Channels::Valid(c) => r.spec_bytes() == c.view().1,
                Channels::Invalid(s) => r == *s,
            },
    {
        match self {
            Channels::Valid(valid_channels) => valid_channels.as_ref(),
            Channels::Invalid(s) => s,
        }
    }
}

/// A convenience accessor on `Option<Channels>` for the valid case.
pub trait GetValid {
    /// The valid value, if there is a value and it is valid.
    fn valid(self) -> Option<ValidChannels>;
}

impl<'a> GetValid for Option<Channels<'a>> {
    fn valid(self) -> (r: Option<ValidChannels>)
        ensures
            match self {
                Some(Channels::Valid(c)) => r == Some(c),
                _ => r is None,
            },
    {
        match self {
            Some(Channels::Valid(channels)) => Some(channels),
            _ => None,
        }
    }
}


/// The attributes of an `#EXT-X-MEDIA` tag.
pub struct MediaAttributes {
    /// The value of the `TYPE` attribute.
    pub media_type: Seq<char>,
    /// The value of the `NAME` attribute.
    pub name: Seq<char>,
    /// The value of the `GROUP-ID` attribute.
    pub group_id: Seq<char>,
    /// The value of the `URI` attribute.
    pub uri: Option<Seq<char>>,
    /// The value of the `LANGUAGE` attribute.
    pub language: Option<Seq<char>>,
    /// The value of the `ASSOC-LANGUAGE` attribute.
    pub assoc_language: Option<Seq<char>>,
    /// The value of the `STABLE-RENDITION-ID` attribute.
    pub stable_rendition_id: Option<Seq<char>>,
    /// The value of the `DEFAULT` attribute.
    pub default: bool,
    /// The value of the `AUTOSELECT` attribute.
    pub autoselect: bool,
    /// The value of the `FORCED` attribute.
    pub forced: bool,
    /// The value of the `INSTREAM-ID` attribute.
    pub instream_id: Option<Seq<char>>,
    /// The value of the `BIT-DEPTH` attribute.
    pub bit_depth: Option<u64>,
    /// The value of the `SAMPLE-RATE` attribute.
    pub sample_rate: Option<u64>,
    /// The value of the `CHARACTERISTICS` attribute.
    pub characteristics: Option<Seq<char>>,
    /// The value of the `CHANNELS` attribute.
    pub channels: Option<Seq<char>>,
}

/// The line of an `#EXT-X-MEDIA` tag with the attributes `m`: `TYPE`, `NAME` and `GROUP-ID`
/// first, then each optional attribute that is present, in a fixed order.
pub open spec fn media_line(m: MediaAttributes) -> Seq<u8> {
    media_line_head(m) + media_line_texts(m) + media_line_flags(m) + media_line_rest(m)
}

/// The start of the line of an `#EXT-X-MEDIA` tag:
/// `#EXT-X-MEDIA:TYPE=<t>,NAME="<n>",GROUP-ID="<g>"`.
pub open spec fn media_line_head(m: MediaAttributes) -> Seq<u8> {
    line_start(TagName::Media) + seq![58u8] + unquoted_attribute("TYPE"@, encode_utf8(m.media_type))
        + seq![44u8] + quoted_attribute("NAME"@, m.name) + seq![44u8] + quoted_attribute(
        "GROUP-ID"@,
        m.group_id,
    )
}

/// The `URI`, `LANGUAGE`, `ASSOC-LANGUAGE` and `STABLE-RENDITION-ID` attributes, where present.
pub open spec fn media_line_texts(m: MediaAttributes) -> Seq<u8> {
    comma_quoted("URI"@, m.uri) + comma_quoted("LANGUAGE"@, m.language) + comma_quoted(
        "ASSOC-LANGUAGE"@,
        m.assoc_language,
    ) + comma_quoted("STABLE-RENDITION-ID"@, m.stable_rendition_id)
}

/// The line of a tag whose `LANGUAGE` attribute is `l` holds `,LANGUAGE="<l>"`, right after the
/// `TYPE`, `NAME`, `GROUP-ID` and `URI` attributes; when the line holds no line feed,
/// [`TagInner::value`] gives it whole.
pub proof fn lemma_media_line_holds_language(m: MediaAttributes, l: Seq<char>)
    requires
        m.language == Some(l),
    ensures
        unknown::no_line_feed(media_line(m)) ==> split_line_spec(media_line(m)).0 == media_line(m),
        ({
            let before = media_line_head(m) + comma_quoted("URI"@, m.uri);
            let at = seq![44u8] + quoted_attribute("LANGUAGE"@, l);
            media_line(m).subrange(before.len() as int, (before.len() + at.len()) as int) == at
        }),
{
    let h = media_line_head(m);
    let u = comma_quoted("URI"@, m.uri);
    let at = comma_quoted("LANGUAGE"@, m.language);
    let a = comma_quoted("ASSOC-LANGUAGE"@, m.assoc_language);
    let s = comma_quoted("STABLE-RENDITION-ID"@, m.stable_rendition_id);
    assert(at == seq![44u8] + quoted_attribute("LANGUAGE"@, l));
    lemma_middle_of_concat(h, u, at, a, s, media_line_flags(m), media_line_rest(m));
    if unknown::no_line_feed(media_line(m)) {
        lemma_split_line_without_line_feed(media_line(m));
    }
}

/// In `h + (u + x + a + s) + f + r`, the bytes after `h + u` are `x`.
proof fn lemma_middle_of_concat(
    h: Seq<u8>,
    u: Seq<u8>,
    x: Seq<u8>,
    a: Seq<u8>,
    s: Seq<u8>,
    f: Seq<u8>,
    r: Seq<u8>,
)
    ensures
        (h + (u + x + a + s) + f + r).subrange(
            (h + u).len() as int,
            ((h + u).len() + x.len()) as int,
        ) == x,
{
    assert((h + (u + x + a + s) + f + r).subrange(
        (h + u).len() as int,
        ((h + u).len() + x.len()) as int,
    ) =~= x);
}

/// The `DEFAULT`, `AUTOSELECT` and `FORCED` attributes, where set.
pub open spec fn media_line_flags(m: MediaAttributes) -> Seq<u8> {
    comma_yes("DEFAULT"@, m.default) + comma_yes("AUTOSELECT"@, m.autoselect) + comma_yes(
        "FORCED"@,
        m.forced,
    )
}

/// The `INSTREAM-ID`, `BIT-DEPTH`, `SAMPLE-RATE`, `CHARACTERISTICS` and `CHANNELS` attributes,
/// where present.
pub open spec fn media_line_rest(m: MediaAttributes) -> Seq<u8> {
    comma_quoted("INSTREAM-ID"@, m.instream_id) + comma_integer("BIT-DEPTH"@, m.bit_depth)
        + comma_integer("SAMPLE-RATE"@, m.sample_rate) + comma_quoted(
        "CHARACTERISTICS"@,
        m.characteristics,
    ) + comma_quoted("CHANNELS"@, m.channels)
}

/// The attributes that an attribute list gives an `#EXT-X-MEDIA` tag: `TYPE` (unquoted), then
/// `GROUP-ID` and `NAME` (quoted) are required; an optional attribute of the wrong kind is taken
/// as absent, and a flag is set only when its value is `YES`.
pub open spec fn media_spec(list: AttributeListView) -> Result<MediaAttributes, ValidationError> {
    match unquoted_attr(list, "TYPE"@) {
        Some(t) if valid_utf8(t) => match quoted_attr(list, "GROUP-ID"@) {
            Some(group_id) => match quoted_attr(list, "NAME"@) {
                Some(name) => Ok(
                    MediaAttributes {
                        media_type: decode_utf8(t),
                        name,
                        group_id,
                        uri: quoted_attr(list, "URI"@),
                        language: quoted_attr(list, "LANGUAGE"@),
                        assoc_language: quoted_attr(list, "ASSOC-LANGUAGE"@),
                        stable_rendition_id: quoted_attr(list, "STABLE-RENDITION-ID"@),
                        default: yes_attr(list, "DEFAULT"@),
                        autoselect: yes_attr(list, "AUTOSELECT"@),
                        forced: yes_attr(list, "FORCED"@),
                        instream_id: quoted_attr(list, "INSTREAM-ID"@),
                        bit_depth: integer_attr(list, "BIT-DEPTH"@),
                        sample_rate: integer_attr(list, "SAMPLE-RATE"@),
                        characteristics: quoted_attr(list, "CHARACTERISTICS"@),
                        channels: quoted_attr(list, "CHANNELS"@),
                    },
                ),
                None => Err(ValidationError::MissingRequiredAttribute("NAME")),
            },
            None => Err(ValidationError::MissingRequiredAttribute("GROUP-ID")),
        },
        _ => Err(ValidationError::MissingRequiredAttribute("TYPE")),
    }
}

/// The attributes that a tag value gives an `#EXT-X-MEDIA` tag.
pub open spec fn media_value_spec(value: Option<Seq<u8>>) -> Result<MediaAttributes, ValidationError> {
    match attribute_list_value_spec(value) {
        Ok(list) => media_spec(list),
        Err(e) => Err(e),
    }
}

/// The attributes of a media tag, as the tag and its builder hold them.
#[derive(Debug)]
struct MediaAttributeList {
    media_type: String,
    name: String,
    group_id: String,
    uri: Option<String>,
    language: Option<String>,
    assoc_language: Option<String>,
    stable_rendition_id: Option<String>,
    default: bool,
    autoselect: bool,
    forced: bool,
    instream_id: Option<String>,
    bit_depth: Option<u64>,
    sample_rate: Option<u64>,
    characteristics: Option<String>,
    channels: Option<String>,
}

impl MediaAttributeList {
    /// The attributes.
    closed spec fn view(&self) -> MediaAttributes {
        MediaAttributes {
            media_type: self.media_type@,
            name: self.name@,
            group_id: self.group_id@,
            uri: opt_string(self.uri),
            language: opt_string(self.language),
            assoc_language: opt_string(self.assoc_language),
            stable_rendition_id: opt_string(self.stable_rendition_id),
            default: self.default,
            autoselect: self.autoselect,
            forced: self.forced,
            instream_id: opt_string(self.instream_id),
            bit_depth: self.bit_depth,
            sample_rate: self.sample_rate,
            characteristics: opt_string(self.characteristics),
            channels: opt_string(self.channels),
        }
    }
}

fn push_media_line_head(line: &mut Vec<u8>, a: &MediaAttributeList)
    ensures
        final(line)@ == old(line)@ + media_line_head(a.view()),
{
    push_str(line, "#EXT");
    push_str(line, TagName::Media.as_str());
    line.push(58u8);
    push_unquoted_attribute(line, "TYPE", a.media_type.as_str().as_bytes());
    line.push(44u8);
    push_quoted_attribute(line, "NAME", a.name.as_str());
    line.push(44u8);
    push_quoted_attribute(line, "GROUP-ID", a.group_id.as_str());
    proof {
        assert(final(line)@ =~= old(line)@ + media_line_head(a.view()));
    }
}

fn push_media_line_texts(line: &mut Vec<u8>, a: &MediaAttributeList)
    ensures
        final(line)@ == old(line)@ + media_line_texts(a.view()),
{
    push_comma_quoted(line, "URI", &a.uri);
    push_comma_quoted(line, "LANGUAGE", &a.language);
    push_comma_quoted(line, "ASSOC-LANGUAGE", &a.assoc_language);
    push_comma_quoted(line, "STABLE-RENDITION-ID", &a.stable_rendition_id);
    proof {
        assert(final(line)@ =~= old(line)@ + media_line_texts(a.view()));
    }
}

fn push_media_line_flags(line: &mut Vec<u8>, a: &MediaAttributeList)
    ensures
        final(line)@ == old(line)@ + media_line_flags(a.view()),
{
    push_comma_yes(line, "DEFAULT", a.default);
    push_comma_yes(line, "AUTOSELECT", a.autoselect);
    push_comma_yes(line, "FORCED", a.forced);
    proof {
        assert(final(line)@ =~= old(line)@ + media_line_flags(a.view()));
    }
}

fn push_media_line_rest(line: &mut Vec<u8>, a: &MediaAttributeList)
    ensures
        final(line)@ == old(line)@ + media_line_rest(a.view()),
{
    push_comma_quoted(line, "INSTREAM-ID", &a.instream_id);
    push_comma_integer(line, "BIT-DEPTH", a.bit_depth);
    push_comma_integer(line, "SAMPLE-RATE", a.sample_rate);
    push_comma_quoted(line, "CHARACTERISTICS", &a.characteristics);
    push_comma_quoted(line, "CHANNELS", &a.channels);
    proof {
        assert(final(line)@ =~= old(line)@ + media_line_rest(a.view()));
    }
}

/// The line of a media tag with the attributes `a`.
fn calculate_line(a: &MediaAttributeList) -> (r: Vec<u8>)
    ensures
        r@ == media_line(a.view()),
{
    let mut line: Vec<u8> = Vec::new();
    push_media_line_head(&mut line, a);
    push_media_line_texts(&mut line, a);
    push_media_line_flags(&mut line, a);
    push_media_line_rest(&mut line, a);
    proof {
        assert(line@ =~= media_line(a.view()));
    }
    line
}

/// Placeholder struct for [`MediaBuilder`] indicating that `media_type` needs to be set.
#[derive(Debug, Clone, Copy)]
pub struct MediaTypeNeedsToBeSet;

/// Placeholder struct for [`MediaBuilder`] indicating that `name` needs to be set.
#[derive(Debug, Clone, Copy)]
pub struct MediaNameNeedsToBeSet;

/// Placeholder struct for [`MediaBuilder`] indicating that `group_id` needs to be set.
#[derive(Debug, Clone, Copy)]
pub struct MediaGroupIdNeedsToBeSet;

/// Placeholder struct for [`MediaBuilder`] indicating that `media_type` has been set.
#[derive(Debug, Clone, Copy)]
pub struct MediaTypeHasBeenSet;

/// Placeholder struct for [`MediaBuilder`] indicating that `name` has been set.
#[derive(Debug, Clone, Copy)]
pub struct MediaNameHasBeenSet;

/// Placeholder struct for [`MediaBuilder`] indicating that `group_id` has been set.
#[derive(Debug, Clone, Copy)]
pub struct MediaGroupIdHasBeenSet;

/// A builder for convenience in constructing a [`Media`]; `finish` is only available once the
/// media type, the name and the group id have been set.
#[derive(Debug)]
pub struct MediaBuilder<TypeStatus, NameStatus, GroupIdStatus> {
    attribute_list: MediaAttributeList,
    type_status: PhantomData<TypeStatus>,
    name_status: PhantomData<NameStatus>,
    group_id_status: PhantomData<GroupIdStatus>,
}

/// The attributes of a new builder: empty required attributes, no optional attributes, and no
/// flag set.
pub open spec fn empty_media_attributes() -> MediaAttributes {
    MediaAttributes {
        media_type: Seq::empty(),
        name: Seq::empty(),
        group_id: Seq::empty(),
        uri: None,
        language: None,
        assoc_language: None,
        stable_rendition_id: None,
        default: false,
        autoselect: false,
        forced: false,
        instream_id: None,
        bit_depth: None,
        sample_rate: None,
        characteristics: None,
        channels: None,
    }
}

impl MediaBuilder<MediaTypeNeedsToBeSet, MediaNameNeedsToBeSet, MediaGroupIdNeedsToBeSet> {
    /// Creates a new builder.
    pub fn new() -> (r: Self)
        ensures
            r.view() == empty_media_attributes(),
    {
        MediaBuilder {
            attribute_list: MediaAttributeList {
                media_type: String::new(),
                name: String::new(),
                group_id: String::new(),
                uri: None,
                language: None,
                assoc_language: None,
                stable_rendition_id: None,
                default: false,
                autoselect: false,
                forced: false,
                instream_id: None,
                bit_depth: None,
                sample_rate: None,
                characteristics: None,
                channels: None,
            },
            type_status: PhantomData,
            name_status: PhantomData,
            group_id_status: PhantomData,
        }
    }
}

impl MediaBuilder<MediaTypeHasBeenSet, MediaNameHasBeenSet, MediaGroupIdHasBeenSet> {
    /// Finishes building and constructs the `Media`.
    pub fn finish(self) -> (r: Media)
        ensures
            r.view() == self.view(),
            r.output() == media_line(self.view()),
    {
        Media::new(self.attribute_list)
    }
}

impl<TypeStatus, NameStatus, GroupIdStatus> MediaBuilder<TypeStatus, NameStatus, GroupIdStatus> {
    /// The attributes built so far.
    pub closed spec fn view(&self) -> MediaAttributes {
        self.attribute_list.view()
    }

    /// Sets the `TYPE` attribute.
    pub fn with_media_type(self, media_type: &str) -> (r: MediaBuilder<MediaTypeHasBeenSet, NameStatus, GroupIdStatus>)
        ensures
            r.view() == (MediaAttributes { media_type: media_type@, ..self.view() }),
    {
        let mut attribute_list = self.attribute_list;
        attribute_list.media_type = string_from(media_type);
        MediaBuilder {
            attribute_list,
            type_status: PhantomData,
            name_status: PhantomData,
            group_id_status: PhantomData,
        }
    }

    /// Sets the `NAME` attribute.
    pub fn with_name(self, name: &str) -> (r: MediaBuilder<TypeStatus, MediaNameHasBeenSet, GroupIdStatus>)
        ensures
            r.view() == (MediaAttributes { name: name@, ..self.view() }),
    {
        let mut attribute_list = self.attribute_list;
        attribute_list.name = string_from(name);
        MediaBuilder {
            attribute_list,
            type_status: PhantomData,
            name_status: PhantomData,
            group_id_status: PhantomData,
        }
    }

    /// Sets the `GROUP-ID` attribute.
    pub fn with_group_id(self, group_id: &str) -> (r: MediaBuilder<TypeStatus, NameStatus, MediaGroupIdHasBeenSet>)
        ensures
            r.view() == (MediaAttributes { group_id: group_id@, ..self.view() }),
    {
        let mut attribute_list = self.attribute_list;
        attribute_list.group_id = string_from(group_id);
        MediaBuilder {
            attribute_list,
            type_status: PhantomData,
            name_status: PhantomData,
            group_id_status: PhantomData,
        }
    }

    /// Sets the `URI` attribute.
    pub fn with_uri(self, uri: &str) -> (r: Self)
        ensures
            r.view() == (MediaAttributes { uri: Some(uri@), ..self.view() }),
    {
        let mut s = self;
        s.attribute_list.uri = Some(string_from(uri));
        s
    }

    /// Sets the `LANGUAGE` attribute.
    pub fn with_language(self, language: &str) -> (r: Self)
        ensures
            r.view() == (MediaAttributes { language: Some(language@), ..self.view() }),
    {
        let mut s = self;
        s.attribute_list.language = Some(string_from(language));
        s
    }

    /// Sets the `ASSOC-LANGUAGE` attribute.
    pub fn with_assoc_language(self, assoc_language: &str) -> (r: Self)
        ensures
            r.view() == (MediaAttributes { assoc_language: Some(assoc_language@), ..self.view() }),
    {
        let mut s = self;
        s.attribute_list.assoc_language = Some(string_from(assoc_language));
        s
    }

    /// Sets the `STABLE-RENDITION-ID` attribute.
    pub fn with_stable_rendition_id(self, stable_rendition_id: &str) -> (r: Self)
        ensures
            r.view() == (MediaAttributes { stable_rendition_id: Some(stable_rendition_id@), ..self.view() }),
    {
        let mut s = self;
        s.attribute_list.stable_rendition_id = Some(string_from(stable_rendition_id));
        s
    }

    /// Sets the `DEFAULT` attribute (to `YES`).
    pub fn with_default(self) -> (r: Self)
        ensures
            r.view() == (MediaAttributes { default: true, ..self.view() }),
    {
        let mut s = self;
        s.attribute_list.default = true;
        s
    }

    /// Sets the `AUTOSELECT` attribute (to `YES`).
    pub fn with_autoselect(self) -> (r: Self)
        ensures
            r.view() == (MediaAttributes { autoselect: true, ..self.view() }),
    {
        let mut s = self;
        s.attribute_list.autoselect = true;
        s
    }

    /// Sets the `FORCED` attribute (to `YES`).
    pub fn with_forced(self) -> (r: Self)
        ensures
            r.view() == (MediaAttributes { forced: true, ..self.view() }),
    {
        let mut s = self;
        s.attribute_list.forced = true;
        s
    }

    /// Sets the `INSTREAM-ID` attribute.
    pub fn with_instream_id(self, instream_id: &str) -> (r: Self)
        ensures
            r.view() == (MediaAttributes { instream_id: Some(instream_id@), ..self.view() }),
    {
        let mut s = self;
        s.attribute_list.instream_id = Some(string_from(instream_id));
        s
    }

    /// Sets the `BIT-DEPTH` attribute.
    pub fn with_bit_depth(self, bit_depth: u64) -> (r: Self)
        ensures
            r.view() == (MediaAttributes { bit_depth: Some(bit_depth), ..self.view() }),
    {
        let mut s = self;
        s.attribute_list.bit_depth = Some(bit_depth);
        s
    }

    /// Sets the `SAMPLE-RATE` attribute.
    pub fn with_sample_rate(self, sample_rate: u64) -> (r: Self)
        ensures
            r.view() == (MediaAttributes { sample_rate: Some(sample_rate), ..self.view() }),
    {
        let mut s = self;
        s.attribute_list.sample_rate = Some(sample_rate);
        s
    }

    /// Sets the `CHARACTERISTICS` attribute.
    pub fn with_characteristics(self, characteristics: &str) -> (r: Self)
        ensures
            r.view() == (MediaAttributes { characteristics: Some(characteristics@), ..self.view() }),
    {
        let mut s = self;
        s.attribute_list.characteristics = Some(string_from(characteristics));
        s
    }

    /// Sets the `CHANNELS` attribute.
    pub fn with_channels(self, channels: &str) -> (r: Self)
        ensures
            r.view() == (MediaAttributes { channels: Some(channels@), ..self.view() }),
    {
        let mut s = self;
        s.attribute_list.channels = Some(string_from(channels));
        s
    }

}

/// Corresponds to the `#EXT-X-MEDIA` tag.
///
/// <https://datatracker.ietf.org/doc/html/draft-pantos-hls-rfc8216bis-17#section-4.4.6.1>
#[derive(Debug)]
pub struct Media {
    attribute_list: MediaAttributeList,
    output_line: Vec<u8>,
    output_line_is_dirty: bool,
}

impl Media {
    /// The attributes of the tag.
    pub closed spec fn view(&self) -> MediaAttributes {
        self.attribute_list.view()
    }

    /// The line that the tag writes: the parsed line until the tag is changed, then the line
    /// calculated from its attributes.
    pub closed spec fn output(&self) -> Seq<u8> {
        if self.output_line_is_dirty {
            media_line(self.attribute_list.view())
        } else {
            self.output_line@
        }
    }

    /// Constructs a new tag with the attributes `attribute_list`.
    fn new(attribute_list: MediaAttributeList) -> (r: Media)
        ensures
            r.view() == attribute_list.view(),
            r.output() == media_line(attribute_list.view()),
    {
        let output_line = calculate_line(&attribute_list);
        Media { attribute_list, output_line, output_line_is_dirty: false }
    }

    /// Starts a builder for producing a `Media`.
    pub fn builder() -> (r: MediaBuilder<
        MediaTypeNeedsToBeSet,
        MediaNameNeedsToBeSet,
        MediaGroupIdNeedsToBeSet,
    >)
        ensures
            r.view() == empty_media_attributes(),
    {
        MediaBuilder::new()
    }

    /// Reads the tag from a parsed tag line, whose value must be an attribute list with `TYPE`,
    /// `GROUP-ID` and `NAME`.
    pub fn try_from(tag: unknown::Tag) -> (r: Result<Media, ValidationError>)
        ensures
            match media_value_spec(value_bytes(tag)) {
                Ok(m) => r matches Ok(t) && t.view() == m && t.output() == tag.original_input@,
                Err(e) => r == Err::<Media, ValidationError>(e),
            },
    {
        let list = attribute_list_of(&tag)?;
        let media_type = match get_unquoted(&list, "TYPE") {
            Some(b) => match str_from_utf8(b) {
                Ok(s) => s,
                Err(_) => return Err(ValidationError::MissingRequiredAttribute("TYPE")),
            },
            None => return Err(ValidationError::MissingRequiredAttribute("TYPE")),
        };
        proof {
            encode_utf8_decode_utf8(media_type@);
        }
        let group_id = match get_quoted(&list, "GROUP-ID") {
            Some(g) => g,
            None => return Err(ValidationError::MissingRequiredAttribute("GROUP-ID")),
        };
        let name = match get_quoted(&list, "NAME") {
            Some(n) => n,
            None => return Err(ValidationError::MissingRequiredAttribute("NAME")),
        };
        let attribute_list = MediaAttributeList {
            media_type: string_from(media_type),
            name: string_from(name),
            group_id: string_from(group_id),
            uri: copy_opt(get_quoted(&list, "URI")),
            language: copy_opt(get_quoted(&list, "LANGUAGE")),
            assoc_language: copy_opt(get_quoted(&list, "ASSOC-LANGUAGE")),
            stable_rendition_id: copy_opt(get_quoted(&list, "STABLE-RENDITION-ID")),
            default: get_yes(&list, "DEFAULT"),
            autoselect: get_yes(&list, "AUTOSELECT"),
            forced: get_yes(&list, "FORCED"),
            instream_id: copy_opt(get_quoted(&list, "INSTREAM-ID")),
            bit_depth: get_integer(&list, "BIT-DEPTH"),
            sample_rate: get_integer(&list, "SAMPLE-RATE"),
            characteristics: copy_opt(get_quoted(&list, "CHARACTERISTICS")),
            channels: copy_opt(get_quoted(&list, "CHANNELS")),
        };
        let mut output_line: Vec<u8> = Vec::new();
        crate::utils::push_bytes(&mut output_line, tag.original_input);
        Ok(Media { attribute_list, output_line, output_line_is_dirty: false })
    }

    /// Consumes the tag and provides the line it writes.
    pub fn into_inner(self) -> (r: TagInner)
        ensures
            r.view() == self.output(),
    {
        if self.output_line_is_dirty {
            TagInner::from_line(calculate_line(&self.attribute_list))
        } else {
            TagInner::from_line(self.output_line)
        }
    }

    /// Corresponds to the `TYPE` attribute.
    pub fn media_type(&self) -> (r: EnumeratedString<'_, MediaType>)
        ensures
            reads_as_text(r, self.view().media_type),
    {
        EnumeratedString::from_str(self.attribute_list.media_type.as_str())
    }

    /// Corresponds to the `NAME` attribute.
    pub fn name(&self) -> (r: &str)
        ensures
            r@ == self.view().name,
    {
        self.attribute_list.name.as_str()
    }

    /// Corresponds to the `GROUP-ID` attribute.
    pub fn group_id(&self) -> (r: &str)
        ensures
            r@ == self.view().group_id,
    {
        self.attribute_list.group_id.as_str()
    }

    /// Corresponds to the `URI` attribute.
    pub fn uri(&self) -> (r: Option<&str>)
        ensures
            opt_text(r) == self.view().uri,
    {
        match &self.attribute_list.uri {
            Some(s) => Some(s.as_str()),
            None => None,
        }
    }

    /// Corresponds to the `LANGUAGE` attribute.
    pub fn language(&self) -> (r: Option<&str>)
        ensures
            opt_text(r) == self.view().language,
    {
        match &self.attribute_list.language {
            Some(s) => Some(s.as_str()),
            None => None,
        }
    }

    /// Corresponds to the `ASSOC-LANGUAGE` attribute.
    pub fn assoc_language(&self) -> (r: Option<&str>)
        ensures
            opt_text(r) == self.view().assoc_language,
    {
        match &self.attribute_list.assoc_language {
            Some(s) => Some(s.as_str()),
            None => None,
        }
    }

    /// Corresponds to the `STABLE-RENDITION-ID` attribute.
    pub fn stable_rendition_id(&self) -> (r: Option<&str>)
        ensures
            opt_text(r) == self.view().stable_rendition_id,
    {
        match &self.attribute_list.stable_rendition_id {
            Some(s) => Some(s.as_str()),
            None => None,
        }
    }

    /// Corresponds to the `DEFAULT` attribute.
    pub fn default(&self) -> (r: bool)
        ensures
            r == self.view().default,
    {
        self.attribute_list.default
    }

    /// Corresponds to the `AUTOSELECT` attribute.
    pub fn autoselect(&self) -> (r: bool)
        ensures
            r == self.view().autoselect,
    {
        self.attribute_list.autoselect
    }

    /// Corresponds to the `FORCED` attribute.
    pub fn forced(&self) -> (r: bool)
        ensures
            r == self.view().forced,
    {
        self.attribute_list.forced
    }

    /// Corresponds to the `BIT-DEPTH` attribute.
    pub fn bit_depth(&self) -> (r: Option<u64>)
        ensures
            r == self.view().bit_depth,
    {
        self.attribute_list.bit_depth
    }

    /// Corresponds to the `SAMPLE-RATE` attribute.
    pub fn sample_rate(&self) -> (r: Option<u64>)
        ensures
            r == self.view().sample_rate,
    {
        self.attribute_list.sample_rate
    }

    /// Corresponds to the `INSTREAM-ID` attribute.
    pub fn instream_id(&self) -> (r: Option<EnumeratedString<'_, InstreamId>>)
        ensures
            match self.view().instream_id {
                Some(t) => r matches Some(e) && reads_as_text(e, t),
                None => r is None,
            },
    {
        match &self.attribute_list.instream_id {
            Some(s) => Some(EnumeratedString::from_str(s.as_str())),
            None => None,
        }
    }

    /// Corresponds to the `CHARACTERISTICS` attribute.
    pub fn characteristics(&self) -> (r: Option<EnumeratedStringList<MediaCharacteristicTag>>)
        ensures
            match self.view().characteristics {
                Some(c) => r matches Some(l) && l.view() == encode_utf8(c),
                None => r is None,
            },
    {
        match &self.attribute_list.characteristics {
            Some(s) => Some(EnumeratedStringList::from_str(s.as_str())),
            None => None,
        }
    }

    /// Corresponds to the `CHANNELS` attribute.
    pub fn channels(&self) -> (r: Option<Channels<'_>>)
        ensures
            match self.view().channels {
                Some(c) => r matches Some(ch) && match channels_count_spec(encode_utf8(c)) {
                    Some(n) => ch matches Channels::Valid(v) && v.view() == (n, encode_utf8(c)),
                    None => ch matches Channels::Invalid(s) && s@ == c,
                },
                None => r is None,
            },
    {
        match &self.attribute_list.channels {
            Some(s) => Some(Channels::from_str(s.as_str())),
            None => None,
        }
    }

    /// Sets the `TYPE` attribute.
    pub fn set_media_type(&mut self, media_type: &str)
        ensures
            final(self).view() == (MediaAttributes { media_type: media_type@, ..old(self).view() }),
            final(self).output() == media_line(final(self).view()),
    {
        self.attribute_list.media_type = string_from(media_type);
        self.output_line_is_dirty = true;
    }

    /// Sets the `NAME` attribute.
    pub fn set_name(&mut self, name: &str)
        ensures
            final(self).view() == (MediaAttributes { name: name@, ..old(self).view() }),
            final(self).output() == media_line(final(self).view()),
    {
        self.attribute_list.name = string_from(name);
        self.output_line_is_dirty = true;
    }

    /// Sets the `GROUP-ID` attribute.
    pub fn set_group_id(&mut self, group_id: &str)
        ensures
            final(self).view() == (MediaAttributes { group_id: group_id@, ..old(self).view() }),
            final(self).output() == media_line(final(self).view()),
    {
        self.attribute_list.group_id = string_from(group_id);
        self.output_line_is_dirty = true;
    }

    /// Sets the `URI` attribute.
    pub fn set_uri(&mut self, uri: &str)
        ensures
            final(self).view() == (MediaAttributes { uri: Some(uri@), ..old(self).view() }),
            final(self).output() == media_line(final(self).view()),
    {
        self.attribute_list.uri = Some(string_from(uri));
        self.output_line_is_dirty = true;
    }

    /// Removes the `URI` attribute.
    pub fn unset_uri(&mut self)
        ensures
            final(self).view() == (MediaAttributes { uri: None, ..old(self).view() }),
            final(self).output() == media_line(final(self).view()),
    {
        self.attribute_list.uri = None;
        self.output_line_is_dirty = true;
    }

    /// Sets the `LANGUAGE` attribute.
    pub fn set_language(&mut self, language: &str)
        ensures
            final(self).view() == (MediaAttributes { language: Some(language@), ..old(self).view() }),
            final(self).output() == media_line(final(self).view()),
    {
        self.attribute_list.language = Some(string_from(language));
        self.output_line_is_dirty = true;
    }

    /// Removes the `LANGUAGE` attribute.
    pub fn unset_language(&mut self)
        ensures
            final(self).view() == (MediaAttributes { language: None, ..old(self).view() }),
            final(self).output() == media_line(final(self).view()),
    {
        self.attribute_list.language = None;
        self.output_line_is_dirty = true;
    }

    /// Sets the `ASSOC-LANGUAGE` attribute.
    pub fn set_assoc_language(&mut self, assoc_language: &str)
        ensures
            final(self).view() == (MediaAttributes { assoc_language: Some(assoc_language@), ..old(self).view() }),
            final(self).output() == media_line(final(self).view()),
    {
        self.attribute_list.assoc_language = Some(string_from(assoc_language));
        self.output_line_is_dirty = true;
    }

    /// Removes the `ASSOC-LANGUAGE` attribute.
    pub fn unset_assoc_language(&mut self)
        ensures
            final(self).view() == (MediaAttributes { assoc_language: None, ..old(self).view() }),
            final(self).output() == media_line(final(self).view()),
    {
        self.attribute_list.assoc_language = None;
        self.output_line_is_dirty = true;
    }

    /// Sets the `STABLE-RENDITION-ID` attribute.
    pub fn set_stable_rendition_id(&mut self, stable_rendition_id: &str)
        ensures
            final(self).view() == (MediaAttributes { stable_rendition_id: Some(stable_rendition_id@), ..old(self).view() }),
            final(self).output() == media_line(final(self).view()),
    {
        self.attribute_list.stable_rendition_id = Some(string_from(stable_rendition_id));
        self.output_line_is_dirty = true;
    }

    /// Removes the `STABLE-RENDITION-ID` attribute.
    pub fn unset_stable_rendition_id(&mut self)
        ensures
            final(self).view() == (MediaAttributes { stable_rendition_id: None, ..old(self).view() }),
            final(self).output() == media_line(final(self).view()),
    {
        self.attribute_list.stable_rendition_id = None;
        self.output_line_is_dirty = true;
    }

    /// Sets the `DEFAULT` attribute.
    pub fn set_default(&mut self, default: bool)
        ensures
            final(self).view() == (MediaAttributes { default, ..old(self).view() }),
            final(self).output() == media_line(final(self).view()),
    {
        self.attribute_list.default = default;
        self.output_line_is_dirty = true;
    }

    /// Sets the `AUTOSELECT` attribute.
    pub fn set_autoselect(&mut self, autoselect: bool)
        ensures
            final(self).view() == (MediaAttributes { autoselect, ..old(self).view() }),
            final(self).output() == media_line(final(self).view()),
    {
        self.attribute_list.autoselect = autoselect;
        self.output_line_is_dirty = true;
    }

    /// Sets the `FORCED` attribute.
    pub fn set_forced(&mut self, forced: bool)
        ensures
            final(self).view() == (MediaAttributes { forced, ..old(self).view() }),
            final(self).output() == media_line(final(self).view()),
    {
        self.attribute_list.forced = forced;
        self.output_line_is_dirty = true;
    }

    /// Sets the `INSTREAM-ID` attribute.
    pub fn set_instream_id(&mut self, instream_id: &str)
        ensures
            final(self).view() == (MediaAttributes { instream_id: Some(instream_id@), ..old(self).view() }),
            final(self).output() == media_line(final(self).view()),
    {
        self.attribute_list.instream_id = Some(string_from(instream_id));
        self.output_line_is_dirty = true;
    }

    /// Removes the `INSTREAM-ID` attribute.
    pub fn unset_instream_id(&mut self)
        ensures
            final(self).view() == (MediaAttributes { instream_id: None, ..old(self).view() }),
            final(self).output() == media_line(final(self).view()),
    {
        self.attribute_list.instream_id = None;
        self.output_line_is_dirty = true;
    }

    /// Sets the `BIT-DEPTH` attribute.
    pub fn set_bit_depth(&mut self, bit_depth: u64)
        ensures
            final(self).view() == (MediaAttributes { bit_depth: Some(bit_depth), ..old(self).view() }),
            final(self).output() == media_line(final(self).view()),
    {
        self.attribute_list.bit_depth = Some(bit_depth);
        self.output_line_is_dirty = true;
    }

    /// Removes the `BIT-DEPTH` attribute.
    pub fn unset_bit_depth(&mut self)
        ensures
            final(self).view() == (MediaAttributes { bit_depth: None, ..old(self).view() }),
            final(self).output() == media_line(final(self).view()),
    {
        self.attribute_list.bit_depth = None;
        self.output_line_is_dirty = true;
    }

    /// Sets the `SAMPLE-RATE` attribute.
    pub fn set_sample_rate(&mut self, sample_rate: u64)
        ensures
            final(self).view() == (MediaAttributes { sample_rate: Some(sample_rate), ..old(self).view() }),
            final(self).output() == media_line(final(self).view()),
    {
        self.attribute_list.sample_rate = Some(sample_rate);
        self.output_line_is_dirty = true;
    }

    /// Removes the `SAMPLE-RATE` attribute.
    pub fn unset_sample_rate(&mut self)
        ensures
            final(self).view() == (MediaAttributes { sample_rate: None, ..old(self).view() }),
            final(self).output() == media_line(final(self).view()),
    {
        self.attribute_list.sample_rate = None;
        self.output_line_is_dirty = true;
    }

    /// Sets the `CHARACTERISTICS` attribute.
    pub fn set_characteristics(&mut self, characteristics: &str)
        ensures
            final(self).view() == (MediaAttributes { characteristics: Some(characteristics@), ..old(self).view() }),
            final(self).output() == media_line(final(self).view()),
    {
        self.attribute_list.characteristics = Some(string_from(characteristics));
        self.output_line_is_dirty = true;
    }

    /// Removes the `CHARACTERISTICS` attribute.
    pub fn unset_characteristics(&mut self)
        ensures
            final(self).view() == (MediaAttributes { characteristics: None, ..old(self).view() }),
            final(self).output() == media_line(final(self).view()),
    {
        self.attribute_list.characteristics = None;
        self.output_line_is_dirty = true;
    }

    /// Sets the `CHANNELS` attribute.
    pub fn set_channels(&mut self, channels: &str)
        ensures
            final(self).view() == (MediaAttributes { channels: Some(channels@), ..old(self).view() }),
            final(self).output() == media_line(final(self).view()),
    {
        self.attribute_list.channels = Some(string_from(channels));
        self.output_line_is_dirty = true;
    }

    /// Removes the `CHANNELS` attribute.
    pub fn unset_channels(&mut self)
        ensures
            final(self).view() == (MediaAttributes { channels: None, ..old(self).view() }),
            final(self).output() == media_line(final(self).view()),
    {
        self.attribute_list.channels = None;
        self.output_line_is_dirty = true;
    }

}

/// Whether two optional integers are equal.
fn opt_u64_eq(a: Option<u64>, b: Option<u64>) -> (r: bool)
    ensures
        r == (a == b),
{
    match (a, b) {
        (Some(x), Some(y)) => x == y,
        (None, None) => true,
        _ => false,
    }
}

impl PartialEq for Media {
    fn eq(&self, other: &Self) -> (r: bool) {
        let a = &self.attribute_list;
        let b = &other.attribute_list;
        crate::utils::str_eq(a.media_type.as_str(), b.media_type.as_str())
            && crate::utils::str_eq(a.name.as_str(), b.name.as_str())
            && crate::utils::str_eq(a.group_id.as_str(), b.group_id.as_str())
            && opt_string_eq(&a.uri, &b.uri)
            && opt_string_eq(&a.language, &b.language)
            && opt_string_eq(&a.assoc_language, &b.assoc_language)
            && opt_string_eq(&a.stable_rendition_id, &b.stable_rendition_id)
            && a.default == b.default && a.autoselect == b.autoselect && a.forced == b.forced
            && opt_string_eq(&a.instream_id, &b.instream_id)
            && opt_u64_eq(a.bit_depth, b.bit_depth)
            && opt_u64_eq(a.sample_rate, b.sample_rate)
            && opt_string_eq(&a.characteristics, &b.characteristics)
            && opt_string_eq(&a.channels, &b.channels)
    }
}

impl vstd::std_specs::cmp::PartialEqSpecImpl for Media {
    open spec fn obeys_eq_spec() -> bool {
        true
    }

    open spec fn eq_spec(&self, other: &Self) -> bool {
        self.view() == other.view()
    }
}

/// The `TYPE`, `NAME` and `GROUP-ID` attributes of a media tag, in the order in which its line
/// writes them.
pub open spec fn media_entries_head(m: MediaAttributes) -> AttributeListView {
    let l = seq![("TYPE"@, AttributeValueView::Unquoted(encode_utf8(m.media_type)))];
    let l = l.push(("NAME"@, AttributeValueView::Quoted(m.name)));
    l.push(("GROUP-ID"@, AttributeValueView::Quoted(m.group_id)))
}

/// The attributes up to `STABLE-RENDITION-ID`, in the order in which the line of a media tag
/// writes them.
pub open spec fn media_entries_texts(m: MediaAttributes) -> AttributeListView {
    let l = push_quoted_opt(media_entries_head(m), "URI"@, m.uri);
    let l = push_quoted_opt(l, "LANGUAGE"@, m.language);
    let l = push_quoted_opt(l, "ASSOC-LANGUAGE"@, m.assoc_language);
    push_quoted_opt(l, "STABLE-RENDITION-ID"@, m.stable_rendition_id)
}

/// The attributes up to `FORCED`, in the order in which the line of a media tag writes them.
pub open spec fn media_entries_flags(m: MediaAttributes) -> AttributeListView {
    let l = push_yes(media_entries_texts(m), "DEFAULT"@, m.default);
    let l = push_yes(l, "AUTOSELECT"@, m.autoselect);
    push_yes(l, "FORCED"@, m.forced)
}

/// The attributes of a media tag in the order in which its line writes them.
pub open spec fn media_entries(m: MediaAttributes) -> AttributeListView {
    let l = push_quoted_opt(media_entries_flags(m), "INSTREAM-ID"@, m.instream_id);
    let l = push_integer_opt(l, "BIT-DEPTH"@, m.bit_depth);
    let l = push_integer_opt(l, "SAMPLE-RATE"@, m.sample_rate);
    let l = push_quoted_opt(l, "CHARACTERISTICS"@, m.characteristics);
    push_quoted_opt(l, "CHANNELS"@, m.channels)
}

proof fn lemma_media_head_text(m: MediaAttributes)
    ensures
        line_start(TagName::Media) + seq![58u8] + attribute_list_text(media_entries_head(m)) == media_line_head(m),
{
    let l0 = seq![("TYPE"@, AttributeValueView::Unquoted(encode_utf8(m.media_type)))];
    let l1 = l0.push(("NAME"@, AttributeValueView::Quoted(m.name)));
    assert(attribute_list_text(l0) =~= unquoted_attribute("TYPE"@, encode_utf8(m.media_type)));
    lemma_attribute_list_text_push(l0, ("NAME"@, AttributeValueView::Quoted(m.name)));
    assert(attribute_text(("NAME"@, AttributeValueView::Quoted(m.name))) =~= quoted_attribute("NAME"@, m.name));
    lemma_attribute_list_text_push(l1, ("GROUP-ID"@, AttributeValueView::Quoted(m.group_id)));
    assert(attribute_text(("GROUP-ID"@, AttributeValueView::Quoted(m.group_id))) =~= quoted_attribute("GROUP-ID"@, m.group_id));
    assert(line_start(TagName::Media) + seq![58u8] + attribute_list_text(media_entries_head(m)) =~= media_line_head(m));
}

proof fn lemma_media_texts_text(m: MediaAttributes)
    ensures
        attribute_list_text(media_entries_texts(m)) == attribute_list_text(media_entries_head(m)) + media_line_texts(m),
{
    let p0 = push_quoted_opt(media_entries_head(m), "URI"@, m.uri);
    let p1 = push_quoted_opt(p0, "LANGUAGE"@, m.language);
    let p2 = push_quoted_opt(p1, "ASSOC-LANGUAGE"@, m.assoc_language);
    let p3 = push_quoted_opt(p2, "STABLE-RENDITION-ID"@, m.stable_rendition_id);
    lemma_push_quoted_opt_text(media_entries_head(m), "URI"@, m.uri);
    lemma_push_quoted_opt_text(p0, "LANGUAGE"@, m.language);
    lemma_push_quoted_opt_text(p1, "ASSOC-LANGUAGE"@, m.assoc_language);
    lemma_push_quoted_opt_text(p2, "STABLE-RENDITION-ID"@, m.stable_rendition_id);
    assert(attribute_list_text(media_entries_texts(m)) =~= attribute_list_text(media_entries_head(m)) + media_line_texts(m));
}

proof fn lemma_media_flags_text(m: MediaAttributes)
    ensures
        attribute_list_text(media_entries_flags(m)) == attribute_list_text(media_entries_texts(m)) + media_line_flags(m),
{
    let p0 = push_yes(media_entries_texts(m), "DEFAULT"@, m.default);
    let p1 = push_yes(p0, "AUTOSELECT"@, m.autoselect);
    let p2 = push_yes(p1, "FORCED"@, m.forced);
    lemma_push_yes_text(media_entries_texts(m), "DEFAULT"@, m.default);
    lemma_push_yes_text(p0, "AUTOSELECT"@, m.autoselect);
    lemma_push_yes_text(p1, "FORCED"@, m.forced);
    assert(attribute_list_text(media_entries_flags(m)) =~= attribute_list_text(media_entries_texts(m)) + media_line_flags(m));
}

#[verifier::spinoff_prover]
proof fn lemma_media_rest_text(m: MediaAttributes)
    ensures
        attribute_list_text(media_entries(m)) == attribute_list_text(media_entries_flags(m)) + media_line_rest(m),
{
    let p0 = push_quoted_opt(media_entries_flags(m), "INSTREAM-ID"@, m.instream_id);
    let p1 = push_integer_opt(p0, "BIT-DEPTH"@, m.bit_depth);
    let p2 = push_integer_opt(p1, "SAMPLE-RATE"@, m.sample_rate);
    let p3 = push_quoted_opt(p2, "CHARACTERISTICS"@, m.characteristics);
    let p4 = push_quoted_opt(p3, "CHANNELS"@, m.channels);
    assert(p4 == media_entries(m));
    lemma_push_quoted_opt_text(media_entries_flags(m), "INSTREAM-ID"@, m.instream_id);
    lemma_push_integer_opt_text(p0, "BIT-DEPTH"@, m.bit_depth);
    lemma_push_integer_opt_text(p1, "SAMPLE-RATE"@, m.sample_rate);
    lemma_push_quoted_opt_text(p2, "CHARACTERISTICS"@, m.characteristics);
    lemma_push_quoted_opt_text(p3, "CHANNELS"@, m.channels);
    lemma_concat_steps(
        attribute_list_text(media_entries_flags(m)),
        attribute_list_text(p0),
        attribute_list_text(p1),
        attribute_list_text(p2),
        attribute_list_text(p3),
        attribute_list_text(p4),
        comma_quoted("INSTREAM-ID"@, m.instream_id),
        comma_integer("BIT-DEPTH"@, m.bit_depth),
        comma_integer("SAMPLE-RATE"@, m.sample_rate),
        comma_quoted("CHARACTERISTICS"@, m.characteristics),
        comma_quoted("CHANNELS"@, m.channels),
    );
}

/// Five pieces added one after another are added as one.
proof fn lemma_concat_steps(
    t0: Seq<u8>,
    t1: Seq<u8>,
    t2: Seq<u8>,
    t3: Seq<u8>,
    t4: Seq<u8>,
    t5: Seq<u8>,
    a: Seq<u8>,
    b: Seq<u8>,
    c: Seq<u8>,
    d: Seq<u8>,
    e: Seq<u8>,
)
    requires
        t1 == t0 + a,
        t2 == t1 + b,
        t3 == t2 + c,
        t4 == t3 + d,
        t5 == t4 + e,
    ensures
        t5 == t0 + (a + b + c + d + e),
{
    assert(t5 =~= t0 + (a + b + c + d + e));
}

proof fn lemma_media_line_text(m: MediaAttributes)
    ensures
        media_line(m) == line_start(TagName::Media) + seq![58u8] + attribute_list_text(
            media_entries(m),
        ),
{
    let pre = line_start(TagName::Media) + seq![58u8];
    let h = attribute_list_text(media_entries_head(m));
    let t = media_line_texts(m);
    let f = media_line_flags(m);
    let r = media_line_rest(m);
    lemma_media_head_text(m);
    lemma_media_texts_text(m);
    lemma_media_flags_text(m);
    lemma_media_rest_text(m);
    assert(attribute_list_text(media_entries(m)) == h + t + f + r);
    lemma_concat_after(pre, h, t, f, r);
}

/// Putting bytes in front of four pieces is putting them in front of the first piece.
proof fn lemma_concat_after(pre: Seq<u8>, h: Seq<u8>, t: Seq<u8>, f: Seq<u8>, r: Seq<u8>)
    ensures
        pre + (h + t + f + r) == (pre + h) + t + f + r,
{
    assert(pre + (h + t + f + r) =~= (pre + h) + t + f + r);
}

proof fn lemma_media_entries_ok(m: MediaAttributes)
    requires
        unquoted_value_ok(encode_utf8(m.media_type)),
        quoted_value_ok(m.name),
        quoted_value_ok(m.group_id),
        m.uri matches Some(v) ==> quoted_value_ok(v),
        m.language matches Some(v) ==> quoted_value_ok(v),
        m.assoc_language matches Some(v) ==> quoted_value_ok(v),
        m.stable_rendition_id matches Some(v) ==> quoted_value_ok(v),
        m.instream_id matches Some(v) ==> quoted_value_ok(v),
        m.characteristics matches Some(v) ==> quoted_value_ok(v),
        m.channels matches Some(v) ==> quoted_value_ok(v),
    ensures
        entries_ok(media_entries(m)),
{
    reveal_strlit("TYPE");
    reveal_strlit("NAME");
    reveal_strlit("GROUP-ID");
    reveal_strlit("URI");
    reveal_strlit("LANGUAGE");
    reveal_strlit("ASSOC-LANGUAGE");
    reveal_strlit("STABLE-RENDITION-ID");
    reveal_strlit("DEFAULT");
    reveal_strlit("AUTOSELECT");
    reveal_strlit("FORCED");
    reveal_strlit("INSTREAM-ID");
    reveal_strlit("BIT-DEPTH");
    reveal_strlit("SAMPLE-RATE");
    reveal_strlit("CHARACTERISTICS");
    reveal_strlit("CHANNELS");
    let l0 = seq![("TYPE"@, AttributeValueView::Unquoted(encode_utf8(m.media_type)))];
    let l1 = l0.push(("NAME"@, AttributeValueView::Quoted(m.name)));
    let l2 = l1.push(("GROUP-ID"@, AttributeValueView::Quoted(m.group_id)));
    let l3 = push_quoted_opt(l2, "URI"@, m.uri);
    let l4 = push_quoted_opt(l3, "LANGUAGE"@, m.language);
    let l5 = push_quoted_opt(l4, "ASSOC-LANGUAGE"@, m.assoc_language);
    let l6 = push_quoted_opt(l5, "STABLE-RENDITION-ID"@, m.stable_rendition_id);
    let l7 = push_yes(l6, "DEFAULT"@, m.default);
    let l8 = push_yes(l7, "AUTOSELECT"@, m.autoselect);
    let l9 = push_yes(l8, "FORCED"@, m.forced);
    let l10 = push_quoted_opt(l9, "INSTREAM-ID"@, m.instream_id);
    let l11 = push_integer_opt(l10, "BIT-DEPTH"@, m.bit_depth);
    let l12 = push_integer_opt(l11, "SAMPLE-RATE"@, m.sample_rate);
    let l13 = push_quoted_opt(l12, "CHARACTERISTICS"@, m.characteristics);
    let l14 = push_quoted_opt(l13, "CHANNELS"@, m.channels);
    assert(l14 == media_entries(m));
    lemma_entries_ok_one("TYPE"@, AttributeValueView::Unquoted(encode_utf8(m.media_type)));
    lemma_entries_ok_push(l0, "NAME"@, AttributeValueView::Quoted(m.name));
    lemma_entries_ok_push(l1, "GROUP-ID"@, AttributeValueView::Quoted(m.group_id));
    match m.uri {
        Some(v) => {
            lemma_entries_ok_push(l2, "URI"@, AttributeValueView::Quoted(v));
        },
        None => {},
    }
    match m.language {
        Some(v) => {
            lemma_entries_ok_push(l3, "LANGUAGE"@, AttributeValueView::Quoted(v));
        },
        None => {},
    }
    match m.assoc_language {
        Some(v) => {
            lemma_entries_ok_push(l4, "ASSOC-LANGUAGE"@, AttributeValueView::Quoted(v));
        },
        None => {},
    }
    match m.stable_rendition_id {
        Some(v) => {
            lemma_entries_ok_push(l5, "STABLE-RENDITION-ID"@, AttributeValueView::Quoted(v));
        },
        None => {},
    }
    if m.default {
        lemma_yes_unquoted_ok();
        lemma_entries_ok_push(l6, "DEFAULT"@, AttributeValueView::Unquoted("YES".spec_bytes()));
    }
    if m.autoselect {
        lemma_yes_unquoted_ok();
        lemma_entries_ok_push(l7, "AUTOSELECT"@, AttributeValueView::Unquoted("YES".spec_bytes()));
    }
    if m.forced {
        lemma_yes_unquoted_ok();
        lemma_entries_ok_push(l8, "FORCED"@, AttributeValueView::Unquoted("YES".spec_bytes()));
    }
    match m.instream_id {
        Some(v) => {
            lemma_entries_ok_push(l9, "INSTREAM-ID"@, AttributeValueView::Quoted(v));
        },
        None => {},
    }
    match m.bit_depth {
        Some(v) => {
            lemma_dec_unquoted_ok(v);
            lemma_entries_ok_push(l10, "BIT-DEPTH"@, AttributeValueView::Unquoted(dec(v as nat)));
        },
        None => {},
    }
    match m.sample_rate {
        Some(v) => {
            lemma_dec_unquoted_ok(v);
            lemma_entries_ok_push(l11, "SAMPLE-RATE"@, AttributeValueView::Unquoted(dec(v as nat)));
        },
        None => {},
    }
    match m.characteristics {
        Some(v) => {
            lemma_entries_ok_push(l12, "CHARACTERISTICS"@, AttributeValueView::Quoted(v));
        },
        None => {},
    }
    match m.channels {
        Some(v) => {
            lemma_entries_ok_push(l13, "CHANNELS"@, AttributeValueView::Quoted(v));
        },
        None => {},
    }
}

#[verifier::spinoff_prover]
proof fn lemma_media_lookup_0(m: MediaAttributes)
    ensures
        utf8_attr(media_entries(m), "TYPE"@) == Some(m.media_type),
        quoted_attr(media_entries(m), "NAME"@) == Some(m.name),
        quoted_attr(media_entries(m), "GROUP-ID"@) == Some(m.group_id),
{
    reveal_strlit("TYPE");
    reveal_strlit("NAME");
    reveal_strlit("GROUP-ID");
    reveal_strlit("URI");
    reveal_strlit("LANGUAGE");
    reveal_strlit("ASSOC-LANGUAGE");
    reveal_strlit("STABLE-RENDITION-ID");
    reveal_strlit("DEFAULT");
    reveal_strlit("AUTOSELECT");
    reveal_strlit("FORCED");
    reveal_strlit("INSTREAM-ID");
    reveal_strlit("BIT-DEPTH");
    reveal_strlit("SAMPLE-RATE");
    reveal_strlit("CHARACTERISTICS");
    reveal_strlit("CHANNELS");
    assert("TYPE"@[0] != "NAME"@[0]);
    assert("TYPE"@.len() != "GROUP-ID"@.len());
    assert("TYPE"@.len() != "URI"@.len());
    assert("TYPE"@.len() != "LANGUAGE"@.len());
    assert("TYPE"@.len() != "ASSOC-LANGUAGE"@.len());
    assert("TYPE"@.len() != "STABLE-RENDITION-ID"@.len());
    assert("TYPE"@.len() != "DEFAULT"@.len());
    assert("TYPE"@.len() != "AUTOSELECT"@.len());
    assert("TYPE"@.len() != "FORCED"@.len());
    assert("TYPE"@.len() != "INSTREAM-ID"@.len());
    assert("TYPE"@.len() != "BIT-DEPTH"@.len());
    assert("TYPE"@.len() != "SAMPLE-RATE"@.len());
    assert("TYPE"@.len() != "CHARACTERISTICS"@.len());
    assert("TYPE"@.len() != "CHANNELS"@.len());
    assert("NAME"@[0] != "TYPE"@[0]);
    assert("NAME"@.len() != "GROUP-ID"@.len());
    assert("NAME"@.len() != "URI"@.len());
    assert("NAME"@.len() != "LANGUAGE"@.len());
    assert("NAME"@.len() != "ASSOC-LANGUAGE"@.len());
    assert("NAME"@.len() != "STABLE-RENDITION-ID"@.len());
    assert("NAME"@.len() != "DEFAULT"@.len());
    assert("NAME"@.len() != "AUTOSELECT"@.len());
    assert("NAME"@.len() != "FORCED"@.len());
    assert("NAME"@.len() != "INSTREAM-ID"@.len());
    assert("NAME"@.len() != "BIT-DEPTH"@.len());
    assert("NAME"@.len() != "SAMPLE-RATE"@.len());
    assert("NAME"@.len() != "CHARACTERISTICS"@.len());
    assert("NAME"@.len() != "CHANNELS"@.len());
    assert("GROUP-ID"@.len() != "TYPE"@.len());
    assert("GROUP-ID"@.len() != "NAME"@.len());
    assert("GROUP-ID"@.len() != "URI"@.len());
    assert("GROUP-ID"@[0] != "LANGUAGE"@[0]);
    assert("GROUP-ID"@.len() != "ASSOC-LANGUAGE"@.len());
    assert("GROUP-ID"@.len() != "STABLE-RENDITION-ID"@.len());
    assert("GROUP-ID"@.len() != "DEFAULT"@.len());
    assert("GROUP-ID"@.len() != "AUTOSELECT"@.len());
    assert("GROUP-ID"@.len() != "FORCED"@.len());
    assert("GROUP-ID"@.len() != "INSTREAM-ID"@.len());
    assert("GROUP-ID"@.len() != "BIT-DEPTH"@.len());
    assert("GROUP-ID"@.len() != "SAMPLE-RATE"@.len());
    assert("GROUP-ID"@.len() != "CHARACTERISTICS"@.len());
    assert("GROUP-ID"@[0] != "CHANNELS"@[0]);
    let l0 = seq![("TYPE"@, AttributeValueView::Unquoted(encode_utf8(m.media_type)))];
    let l1 = l0.push(("NAME"@, AttributeValueView::Quoted(m.name)));
    let l2 = l1.push(("GROUP-ID"@, AttributeValueView::Quoted(m.group_id)));
    let l3 = push_quoted_opt(l2, "URI"@, m.uri);
    let l4 = push_quoted_opt(l3, "LANGUAGE"@, m.language);
    let l5 = push_quoted_opt(l4, "ASSOC-LANGUAGE"@, m.assoc_language);
    let l6 = push_quoted_opt(l5, "STABLE-RENDITION-ID"@, m.stable_rendition_id);
    let l7 = push_yes(l6, "DEFAULT"@, m.default);
    let l8 = push_yes(l7, "AUTOSELECT"@, m.autoselect);
    let l9 = push_yes(l8, "FORCED"@, m.forced);
    let l10 = push_quoted_opt(l9, "INSTREAM-ID"@, m.instream_id);
    let l11 = push_integer_opt(l10, "BIT-DEPTH"@, m.bit_depth);
    let l12 = push_integer_opt(l11, "SAMPLE-RATE"@, m.sample_rate);
    let l13 = push_quoted_opt(l12, "CHARACTERISTICS"@, m.characteristics);
    let l14 = push_quoted_opt(l13, "CHANNELS"@, m.channels);
    assert(l14 == media_entries(m));
    lemma_lookup_push(Seq::empty(), ("TYPE"@, AttributeValueView::Unquoted(encode_utf8(m.media_type))), "TYPE"@);
    lemma_lookup_push(l0, ("NAME"@, AttributeValueView::Quoted(m.name)), "TYPE"@);
    lemma_lookup_push(l1, ("GROUP-ID"@, AttributeValueView::Quoted(m.group_id)), "TYPE"@);
    lemma_lookup_push_quoted_opt(l2, "URI"@, m.uri, "TYPE"@);
    lemma_lookup_push_quoted_opt(l3, "LANGUAGE"@, m.language, "TYPE"@);
    lemma_lookup_push_quoted_opt(l4, "ASSOC-LANGUAGE"@, m.assoc_language, "TYPE"@);
    lemma_lookup_push_quoted_opt(l5, "STABLE-RENDITION-ID"@, m.stable_rendition_id, "TYPE"@);
    lemma_lookup_push_yes(l6, "DEFAULT"@, m.default, "TYPE"@);
    lemma_lookup_push_yes(l7, "AUTOSELECT"@, m.autoselect, "TYPE"@);
    lemma_lookup_push_yes(l8, "FORCED"@, m.forced, "TYPE"@);
    lemma_lookup_push_quoted_opt(l9, "INSTREAM-ID"@, m.instream_id, "TYPE"@);
    lemma_lookup_push_integer_opt(l10, "BIT-DEPTH"@, m.bit_depth, "TYPE"@);
    lemma_lookup_push_integer_opt(l11, "SAMPLE-RATE"@, m.sample_rate, "TYPE"@);
    lemma_lookup_push_quoted_opt(l12, "CHARACTERISTICS"@, m.characteristics, "TYPE"@);
    lemma_lookup_push_quoted_opt(l13, "CHANNELS"@, m.channels, "TYPE"@);
    lemma_lookup_push(Seq::empty(), ("TYPE"@, AttributeValueView::Unquoted(encode_utf8(m.media_type))), "NAME"@);
    lemma_lookup_push(l0, ("NAME"@, AttributeValueView::Quoted(m.name)), "NAME"@);
    lemma_lookup_push(l1, ("GROUP-ID"@, AttributeValueView::Quoted(m.group_id)), "NAME"@);
    lemma_lookup_push_quoted_opt(l2, "URI"@, m.uri, "NAME"@);
    lemma_lookup_push_quoted_opt(l3, "LANGUAGE"@, m.language, "NAME"@);
    lemma_lookup_push_quoted_opt(l4, "ASSOC-LANGUAGE"@, m.assoc_language, "NAME"@);
    lemma_lookup_push_quoted_opt(l5, "STABLE-RENDITION-ID"@, m.stable_rendition_id, "NAME"@);
    lemma_lookup_push_yes(l6, "DEFAULT"@, m.default, "NAME"@);
    lemma_lookup_push_yes(l7, "AUTOSELECT"@, m.autoselect, "NAME"@);
    lemma_lookup_push_yes(l8, "FORCED"@, m.forced, "NAME"@);
    lemma_lookup_push_quoted_opt(l9, "INSTREAM-ID"@, m.instream_id, "NAME"@);
    lemma_lookup_push_integer_opt(l10, "BIT-DEPTH"@, m.bit_depth, "NAME"@);
    lemma_lookup_push_integer_opt(l11, "SAMPLE-RATE"@, m.sample_rate, "NAME"@);
    lemma_lookup_push_quoted_opt(l12, "CHARACTERISTICS"@, m.characteristics, "NAME"@);
    lemma_lookup_push_quoted_opt(l13, "CHANNELS"@, m.channels, "NAME"@);
    lemma_lookup_push(Seq::empty(), ("TYPE"@, AttributeValueView::Unquoted(encode_utf8(m.media_type))), "GROUP-ID"@);
    lemma_lookup_push(l0, ("NAME"@, AttributeValueView::Quoted(m.name)), "GROUP-ID"@);
    lemma_lookup_push(l1, ("GROUP-ID"@, AttributeValueView::Quoted(m.group_id)), "GROUP-ID"@);
    lemma_lookup_push_quoted_opt(l2, "URI"@, m.uri, "GROUP-ID"@);
    lemma_lookup_push_quoted_opt(l3, "LANGUAGE"@, m.language, "GROUP-ID"@);
    lemma_lookup_push_quoted_opt(l4, "ASSOC-LANGUAGE"@, m.assoc_language, "GROUP-ID"@);
    lemma_lookup_push_quoted_opt(l5, "STABLE-RENDITION-ID"@, m.stable_rendition_id, "GROUP-ID"@);
    lemma_lookup_push_yes(l6, "DEFAULT"@, m.default, "GROUP-ID"@);
    lemma_lookup_push_yes(l7, "AUTOSELECT"@, m.autoselect, "GROUP-ID"@);
    lemma_lookup_push_yes(l8, "FORCED"@, m.forced, "GROUP-ID"@);
    lemma_lookup_push_quoted_opt(l9, "INSTREAM-ID"@, m.instream_id, "GROUP-ID"@);
    lemma_lookup_push_integer_opt(l10, "BIT-DEPTH"@, m.bit_depth, "GROUP-ID"@);
    lemma_lookup_push_integer_opt(l11, "SAMPLE-RATE"@, m.sample_rate, "GROUP-ID"@);
    lemma_lookup_push_quoted_opt(l12, "CHARACTERISTICS"@, m.characteristics, "GROUP-ID"@);
    lemma_lookup_push_quoted_opt(l13, "CHANNELS"@, m.channels, "GROUP-ID"@);
    assert(Seq::<(Seq<char>, AttributeValueView)>::empty().push(("TYPE"@, AttributeValueView::Unquoted(encode_utf8(m.media_type)))) =~= l0);
    encode_utf8_valid_utf8(m.media_type);
    encode_utf8_decode_utf8(m.media_type);
    assert(utf8_attr(l14, "TYPE"@) == Some(m.media_type));
    assert(quoted_attr(l14, "NAME"@) == Some(m.name));
    assert(quoted_attr(l14, "GROUP-ID"@) == Some(m.group_id));
}

#[verifier::spinoff_prover]
proof fn lemma_media_lookup_1(m: MediaAttributes)
    ensures
        quoted_attr(media_entries(m), "URI"@) == m.uri,
        quoted_attr(media_entries(m), "LANGUAGE"@) == m.language,
        quoted_attr(media_entries(m), "ASSOC-LANGUAGE"@) == m.assoc_language,
        quoted_attr(media_entries(m), "STABLE-RENDITION-ID"@) == m.stable_rendition_id,
{
    reveal_strlit("TYPE");
    reveal_strlit("NAME");
    reveal_strlit("GROUP-ID");
    reveal_strlit("URI");
    reveal_strlit("LANGUAGE");
    reveal_strlit("ASSOC-LANGUAGE");
    reveal_strlit("STABLE-RENDITION-ID");
    reveal_strlit("DEFAULT");
    reveal_strlit("AUTOSELECT");
    reveal_strlit("FORCED");
    reveal_strlit("INSTREAM-ID");
    reveal_strlit("BIT-DEPTH");
    reveal_strlit("SAMPLE-RATE");
    reveal_strlit("CHARACTERISTICS");
    reveal_strlit("CHANNELS");
    assert("URI"@.len() != "TYPE"@.len());
    assert("URI"@.len() != "NAME"@.len());
    assert("URI"@.len() != "GROUP-ID"@.len());
    assert("URI"@.len() != "LANGUAGE"@.len());
    assert("URI"@.len() != "ASSOC-LANGUAGE"@.len());
    assert("URI"@.len() != "STABLE-RENDITION-ID"@.len());
    assert("URI"@.len() != "DEFAULT"@.len());
    assert("URI"@.len() != "AUTOSELECT"@.len());
    assert("URI"@.len() != "FORCED"@.len());
    assert("URI"@.len() != "INSTREAM-ID"@.len());
    assert("URI"@.len() != "BIT-DEPTH"@.len());
    assert("URI"@.len() != "SAMPLE-RATE"@.len());
    assert("URI"@.len() != "CHARACTERISTICS"@.len());
    assert("URI"@.len() != "CHANNELS"@.len());
    assert("LANGUAGE"@.len() != "TYPE"@.len());
    assert("LANGUAGE"@.len() != "NAME"@.len());
    assert("LANGUAGE"@[0] != "GROUP-ID"@[0]);
    assert("LANGUAGE"@.len() != "URI"@.len());
    assert("LANGUAGE"@.len() != "ASSOC-LANGUAGE"@.len());
    assert("LANGUAGE"@.len() != "STABLE-RENDITION-ID"@.len());
    assert("LANGUAGE"@.len() != "DEFAULT"@.len());
    assert("LANGUAGE"@.len() != "AUTOSELECT"@.len());
    assert("LANGUAGE"@.len() != "FORCED"@.len());
    assert("LANGUAGE"@.len() != "INSTREAM-ID"@.len());
    assert("LANGUAGE"@.len() != "BIT-DEPTH"@.len());
    assert("LANGUAGE"@.len() != "SAMPLE-RATE"@.len());
    assert("LANGUAGE"@.len() != "CHARACTERISTICS"@.len());
    assert("LANGUAGE"@[0] != "CHANNELS"@[0]);
    assert("ASSOC-LANGUAGE"@.len() != "TYPE"@.len());
    assert("ASSOC-LANGUAGE"@.len() != "NAME"@.len());
    assert("ASSOC-LANGUAGE"@.len() != "GROUP-ID"@.len());
    assert("ASSOC-LANGUAGE"@.len() != "URI"@.len());
    assert("ASSOC-LANGUAGE"@.len() != "LANGUAGE"@.len());
    assert("ASSOC-LANGUAGE"@.len() != "STABLE-RENDITION-ID"@.len());
    assert("ASSOC-LANGUAGE"@.len() != "DEFAULT"@.len());
    assert("ASSOC-LANGUAGE"@.len() != "AUTOSELECT"@.len());
    assert("ASSOC-LANGUAGE"@.len() != "FORCED"@.len());
    assert("ASSOC-LANGUAGE"@.len() != "INSTREAM-ID"@.len());
    assert("ASSOC-LANGUAGE"@.len() != "BIT-DEPTH"@.len());
    assert("ASSOC-LANGUAGE"@.len() != "SAMPLE-RATE"@.len());
    assert("ASSOC-LANGUAGE"@.len() != "CHARACTERISTICS"@.len());
    assert("ASSOC-LANGUAGE"@.len() != "CHANNELS"@.len());
    assert("STABLE-RENDITION-ID"@.len() != "TYPE"@.len());
    assert("STABLE-RENDITION-ID"@.len() != "NAME"@.len());
    assert("STABLE-RENDITION-ID"@.len() != "GROUP-ID"@.len());
    assert("STABLE-RENDITION-ID"@.len() != "URI"@.len());
    assert("STABLE-RENDITION-ID"@.len() != "LANGUAGE"@.len());
    assert("STABLE-RENDITION-ID"@.len() != "ASSOC-LANGUAGE"@.len());
    assert("STABLE-RENDITION-ID"@.len() != "DEFAULT"@.len());
    assert("STABLE-RENDITION-ID"@.len() != "AUTOSELECT"@.len());
    assert("STABLE-RENDITION-ID"@.len() != "FORCED"@.len());
    assert("STABLE-RENDITION-ID"@.len() != "INSTREAM-ID"@.len());
    assert("STABLE-RENDITION-ID"@.len() != "BIT-DEPTH"@.len());
    assert("STABLE-RENDITION-ID"@.len() != "SAMPLE-RATE"@.len());
    assert("STABLE-RENDITION-ID"@.len() != "CHARACTERISTICS"@.len());
    assert("STABLE-RENDITION-ID"@.len() != "CHANNELS"@.len());
    let l0 = seq![("TYPE"@, AttributeValueView::Unquoted(encode_utf8(m.media_type)))];
    let l1 = l0.push(("NAME"@, AttributeValueView::Quoted(m.name)));
    let l2 = l1.push(("GROUP-ID"@, AttributeValueView::Quoted(m.group_id)));
    let l3 = push_quoted_opt(l2, "URI"@, m.uri);
    let l4 = push_quoted_opt(l3, "LANGUAGE"@, m.language);
    let l5 = push_quoted_opt(l4, "ASSOC-LANGUAGE"@, m.assoc_language);
    let l6 = push_quoted_opt(l5, "STABLE-RENDITION-ID"@, m.stable_rendition_id);
    let l7 = push_yes(l6, "DEFAULT"@, m.default);
    let l8 = push_yes(l7, "AUTOSELECT"@, m.autoselect);
    let l9 = push_yes(l8, "FORCED"@, m.forced);
    let l10 = push_quoted_opt(l9, "INSTREAM-ID"@, m.instream_id);
    let l11 = push_integer_opt(l10, "BIT-DEPTH"@, m.bit_depth);
    let l12 = push_integer_opt(l11, "SAMPLE-RATE"@, m.sample_rate);
    let l13 = push_quoted_opt(l12, "CHARACTERISTICS"@, m.characteristics);
    let l14 = push_quoted_opt(l13, "CHANNELS"@, m.channels);
    assert(l14 == media_entries(m));
    lemma_lookup_push(Seq::empty(), ("TYPE"@, AttributeValueView::Unquoted(encode_utf8(m.media_type))), "URI"@);
    lemma_lookup_push(l0, ("NAME"@, AttributeValueView::Quoted(m.name)), "URI"@);
    lemma_lookup_push(l1, ("GROUP-ID"@, AttributeValueView::Quoted(m.group_id)), "URI"@);
    lemma_lookup_push_quoted_opt(l2, "URI"@, m.uri, "URI"@);
    lemma_lookup_push_quoted_opt(l3, "LANGUAGE"@, m.language, "URI"@);
    lemma_lookup_push_quoted_opt(l4, "ASSOC-LANGUAGE"@, m.assoc_language, "URI"@);
    lemma_lookup_push_quoted_opt(l5, "STABLE-RENDITION-ID"@, m.stable_rendition_id, "URI"@);
    lemma_lookup_push_yes(l6, "DEFAULT"@, m.default, "URI"@);
    lemma_lookup_push_yes(l7, "AUTOSELECT"@, m.autoselect, "URI"@);
    lemma_lookup_push_yes(l8, "FORCED"@, m.forced, "URI"@);
    lemma_lookup_push_quoted_opt(l9, "INSTREAM-ID"@, m.instream_id, "URI"@);
    lemma_lookup_push_integer_opt(l10, "BIT-DEPTH"@, m.bit_depth, "URI"@);
    lemma_lookup_push_integer_opt(l11, "SAMPLE-RATE"@, m.sample_rate, "URI"@);
    lemma_lookup_push_quoted_opt(l12, "CHARACTERISTICS"@, m.characteristics, "URI"@);
    lemma_lookup_push_quoted_opt(l13, "CHANNELS"@, m.channels, "URI"@);
    lemma_lookup_push(Seq::empty(), ("TYPE"@, AttributeValueView::Unquoted(encode_utf8(m.media_type))), "LANGUAGE"@);
    lemma_lookup_push(l0, ("NAME"@, AttributeValueView::Quoted(m.name)), "LANGUAGE"@);
    lemma_lookup_push(l1, ("GROUP-ID"@, AttributeValueView::Quoted(m.group_id)), "LANGUAGE"@);
    lemma_lookup_push_quoted_opt(l2, "URI"@, m.uri, "LANGUAGE"@);
    lemma_lookup_push_quoted_opt(l3, "LANGUAGE"@, m.language, "LANGUAGE"@);
    lemma_lookup_push_quoted_opt(l4, "ASSOC-LANGUAGE"@, m.assoc_language, "LANGUAGE"@);
    lemma_lookup_push_quoted_opt(l5, "STABLE-RENDITION-ID"@, m.stable_rendition_id, "LANGUAGE"@);
    lemma_lookup_push_yes(l6, "DEFAULT"@, m.default, "LANGUAGE"@);
    lemma_lookup_push_yes(l7, "AUTOSELECT"@, m.autoselect, "LANGUAGE"@);
    lemma_lookup_push_yes(l8, "FORCED"@, m.forced, "LANGUAGE"@);
    lemma_lookup_push_quoted_opt(l9, "INSTREAM-ID"@, m.instream_id, "LANGUAGE"@);
    lemma_lookup_push_integer_opt(l10, "BIT-DEPTH"@, m.bit_depth, "LANGUAGE"@);
    lemma_lookup_push_integer_opt(l11, "SAMPLE-RATE"@, m.sample_rate, "LANGUAGE"@);
    lemma_lookup_push_quoted_opt(l12, "CHARACTERISTICS"@, m.characteristics, "LANGUAGE"@);
    lemma_lookup_push_quoted_opt(l13, "CHANNELS"@, m.channels, "LANGUAGE"@);
    lemma_lookup_push(Seq::empty(), ("TYPE"@, AttributeValueView::Unquoted(encode_utf8(m.media_type))), "ASSOC-LANGUAGE"@);
    lemma_lookup_push(l0, ("NAME"@, AttributeValueView::Quoted(m.name)), "ASSOC-LANGUAGE"@);
    lemma_lookup_push(l1, ("GROUP-ID"@, AttributeValueView::Quoted(m.group_id)), "ASSOC-LANGUAGE"@);
    lemma_lookup_push_quoted_opt(l2, "URI"@, m.uri, "ASSOC-LANGUAGE"@);
    lemma_lookup_push_quoted_opt(l3, "LANGUAGE"@, m.language, "ASSOC-LANGUAGE"@);
    lemma_lookup_push_quoted_opt(l4, "ASSOC-LANGUAGE"@, m.assoc_language, "ASSOC-LANGUAGE"@);
    lemma_lookup_push_quoted_opt(l5, "STABLE-RENDITION-ID"@, m.stable_rendition_id, "ASSOC-LANGUAGE"@);
    lemma_lookup_push_yes(l6, "DEFAULT"@, m.default, "ASSOC-LANGUAGE"@);
    lemma_lookup_push_yes(l7, "AUTOSELECT"@, m.autoselect, "ASSOC-LANGUAGE"@);
    lemma_lookup_push_yes(l8, "FORCED"@, m.forced, "ASSOC-LANGUAGE"@);
    lemma_lookup_push_quoted_opt(l9, "INSTREAM-ID"@, m.instream_id, "ASSOC-LANGUAGE"@);
    lemma_lookup_push_integer_opt(l10, "BIT-DEPTH"@, m.bit_depth, "ASSOC-LANGUAGE"@);
    lemma_lookup_push_integer_opt(l11, "SAMPLE-RATE"@, m.sample_rate, "ASSOC-LANGUAGE"@);
    lemma_lookup_push_quoted_opt(l12, "CHARACTERISTICS"@, m.characteristics, "ASSOC-LANGUAGE"@);
    lemma_lookup_push_quoted_opt(l13, "CHANNELS"@, m.channels, "ASSOC-LANGUAGE"@);
    lemma_lookup_push(Seq::empty(), ("TYPE"@, AttributeValueView::Unquoted(encode_utf8(m.media_type))), "STABLE-RENDITION-ID"@);
    lemma_lookup_push(l0, ("NAME"@, AttributeValueView::Quoted(m.name)), "STABLE-RENDITION-ID"@);
    lemma_lookup_push(l1, ("GROUP-ID"@, AttributeValueView::Quoted(m.group_id)), "STABLE-RENDITION-ID"@);
    lemma_lookup_push_quoted_opt(l2, "URI"@, m.uri, "STABLE-RENDITION-ID"@);
    lemma_lookup_push_quoted_opt(l3, "LANGUAGE"@, m.language, "STABLE-RENDITION-ID"@);
    lemma_lookup_push_quoted_opt(l4, "ASSOC-LANGUAGE"@, m.assoc_language, "STABLE-RENDITION-ID"@);
    lemma_lookup_push_quoted_opt(l5, "STABLE-RENDITION-ID"@, m.stable_rendition_id, "STABLE-RENDITION-ID"@);
    lemma_lookup_push_yes(l6, "DEFAULT"@, m.default, "STABLE-RENDITION-ID"@);
    lemma_lookup_push_yes(l7, "AUTOSELECT"@, m.autoselect, "STABLE-RENDITION-ID"@);
    lemma_lookup_push_yes(l8, "FORCED"@, m.forced, "STABLE-RENDITION-ID"@);
    lemma_lookup_push_quoted_opt(l9, "INSTREAM-ID"@, m.instream_id, "STABLE-RENDITION-ID"@);
    lemma_lookup_push_integer_opt(l10, "BIT-DEPTH"@, m.bit_depth, "STABLE-RENDITION-ID"@);
    lemma_lookup_push_integer_opt(l11, "SAMPLE-RATE"@, m.sample_rate, "STABLE-RENDITION-ID"@);
    lemma_lookup_push_quoted_opt(l12, "CHARACTERISTICS"@, m.characteristics, "STABLE-RENDITION-ID"@);
    lemma_lookup_push_quoted_opt(l13, "CHANNELS"@, m.channels, "STABLE-RENDITION-ID"@);
    assert(Seq::<(Seq<char>, AttributeValueView)>::empty().push(("TYPE"@, AttributeValueView::Unquoted(encode_utf8(m.media_type)))) =~= l0);
    assert(quoted_attr(l14, "URI"@) == m.uri);
    assert(quoted_attr(l14, "LANGUAGE"@) == m.language);
    assert(quoted_attr(l14, "ASSOC-LANGUAGE"@) == m.assoc_language);
    assert(quoted_attr(l14, "STABLE-RENDITION-ID"@) == m.stable_rendition_id);
}

#[verifier::spinoff_prover]
proof fn lemma_media_lookup_2(m: MediaAttributes)
    ensures
        yes_attr(media_entries(m), "DEFAULT"@) == m.default,
        yes_attr(media_entries(m), "AUTOSELECT"@) == m.autoselect,
        yes_attr(media_entries(m), "FORCED"@) == m.forced,
{
    reveal_strlit("TYPE");
    reveal_strlit("NAME");
    reveal_strlit("GROUP-ID");
    reveal_strlit("URI");
    reveal_strlit("LANGUAGE");
    reveal_strlit("ASSOC-LANGUAGE");
    reveal_strlit("STABLE-RENDITION-ID");
    reveal_strlit("DEFAULT");
    reveal_strlit("AUTOSELECT");
    reveal_strlit("FORCED");
    reveal_strlit("INSTREAM-ID");
    reveal_strlit("BIT-DEPTH");
    reveal_strlit("SAMPLE-RATE");
    reveal_strlit("CHARACTERISTICS");
    reveal_strlit("CHANNELS");
    assert("DEFAULT"@.len() != "TYPE"@.len());
    assert("DEFAULT"@.len() != "NAME"@.len());
    assert("DEFAULT"@.len() != "GROUP-ID"@.len());
    assert("DEFAULT"@.len() != "URI"@.len());
    assert("DEFAULT"@.len() != "LANGUAGE"@.len());
    assert("DEFAULT"@.len() != "ASSOC-LANGUAGE"@.len());
    assert("DEFAULT"@.len() != "STABLE-RENDITION-ID"@.len());
    assert("DEFAULT"@.len() != "AUTOSELECT"@.len());
    assert("DEFAULT"@.len() != "FORCED"@.len());
    assert("DEFAULT"@.len() != "INSTREAM-ID"@.len());
    assert("DEFAULT"@.len() != "BIT-DEPTH"@.len());
    assert("DEFAULT"@.len() != "SAMPLE-RATE"@.len());
    assert("DEFAULT"@.len() != "CHARACTERISTICS"@.len());
    assert("DEFAULT"@.len() != "CHANNELS"@.len());
    assert("AUTOSELECT"@.len() != "TYPE"@.len());
    assert("AUTOSELECT"@.len() != "NAME"@.len());
    assert("AUTOSELECT"@.len() != "GROUP-ID"@.len());
    assert("AUTOSELECT"@.len() != "URI"@.len());
    assert("AUTOSELECT"@.len() != "LANGUAGE"@.len());
    assert("AUTOSELECT"@.len() != "ASSOC-LANGUAGE"@.len());
    assert("AUTOSELECT"@.len() != "STABLE-RENDITION-ID"@.len());
    assert("AUTOSELECT"@.len() != "DEFAULT"@.len());
    assert("AUTOSELECT"@.len() != "FORCED"@.len());
    assert("AUTOSELECT"@.len() != "INSTREAM-ID"@.len());
    assert("AUTOSELECT"@.len() != "BIT-DEPTH"@.len());
    assert("AUTOSELECT"@.len() != "SAMPLE-RATE"@.len());
    assert("AUTOSELECT"@.len() != "CHARACTERISTICS"@.len());
    assert("AUTOSELECT"@.len() != "CHANNELS"@.len());
    assert("FORCED"@.len() != "TYPE"@.len());
    assert("FORCED"@.len() != "NAME"@.len());
    assert("FORCED"@.len() != "GROUP-ID"@.len());
    assert("FORCED"@.len() != "URI"@.len());
    assert("FORCED"@.len() != "LANGUAGE"@.len());
    assert("FORCED"@.len() != "ASSOC-LANGUAGE"@.len());
    assert("FORCED"@.len() != "STABLE-RENDITION-ID"@.len());
    assert("FORCED"@.len() != "DEFAULT"@.len());
    assert("FORCED"@.len() != "AUTOSELECT"@.len());
    assert("FORCED"@.len() != "INSTREAM-ID"@.len());
    assert("FORCED"@.len() != "BIT-DEPTH"@.len());
    assert("FORCED"@.len() != "SAMPLE-RATE"@.len());
    assert("FORCED"@.len() != "CHARACTERISTICS"@.len());
    assert("FORCED"@.len() != "CHANNELS"@.len());
    let l0 = seq![("TYPE"@, AttributeValueView::Unquoted(encode_utf8(m.media_type)))];
    let l1 = l0.push(("NAME"@, AttributeValueView::Quoted(m.name)));
    let l2 = l1.push(("GROUP-ID"@, AttributeValueView::Quoted(m.group_id)));
    let l3 = push_quoted_opt(l2, "URI"@, m.uri);
    let l4 = push_quoted_opt(l3, "LANGUAGE"@, m.language);
    let l5 = push_quoted_opt(l4, "ASSOC-LANGUAGE"@, m.assoc_language);
    let l6 = push_quoted_opt(l5, "STABLE-RENDITION-ID"@, m.stable_rendition_id);
    let l7 = push_yes(l6, "DEFAULT"@, m.default);
    let l8 = push_yes(l7, "AUTOSELECT"@, m.autoselect);
    let l9 = push_yes(l8, "FORCED"@, m.forced);
    let l10 = push_quoted_opt(l9, "INSTREAM-ID"@, m.instream_id);
    let l11 = push_integer_opt(l10, "BIT-DEPTH"@, m.bit_depth);
    let l12 = push_integer_opt(l11, "SAMPLE-RATE"@, m.sample_rate);
    let l13 = push_quoted_opt(l12, "CHARACTERISTICS"@, m.characteristics);
    let l14 = push_quoted_opt(l13, "CHANNELS"@, m.channels);
    assert(l14 == media_entries(m));
    lemma_lookup_push(Seq::empty(), ("TYPE"@, AttributeValueView::Unquoted(encode_utf8(m.media_type))), "DEFAULT"@);
    lemma_lookup_push(l0, ("NAME"@, AttributeValueView::Quoted(m.name)), "DEFAULT"@);
    lemma_lookup_push(l1, ("GROUP-ID"@, AttributeValueView::Quoted(m.group_id)), "DEFAULT"@);
    lemma_lookup_push_quoted_opt(l2, "URI"@, m.uri, "DEFAULT"@);
    lemma_lookup_push_quoted_opt(l3, "LANGUAGE"@, m.language, "DEFAULT"@);
    lemma_lookup_push_quoted_opt(l4, "ASSOC-LANGUAGE"@, m.assoc_language, "DEFAULT"@);
    lemma_lookup_push_quoted_opt(l5, "STABLE-RENDITION-ID"@, m.stable_rendition_id, "DEFAULT"@);
    lemma_lookup_push_yes(l6, "DEFAULT"@, m.default, "DEFAULT"@);
    lemma_lookup_push_yes(l7, "AUTOSELECT"@, m.autoselect, "DEFAULT"@);
    lemma_lookup_push_yes(l8, "FORCED"@, m.forced, "DEFAULT"@);
    lemma_lookup_push_quoted_opt(l9, "INSTREAM-ID"@, m.instream_id, "DEFAULT"@);
    lemma_lookup_push_integer_opt(l10, "BIT-DEPTH"@, m.bit_depth, "DEFAULT"@);
    lemma_lookup_push_integer_opt(l11, "SAMPLE-RATE"@, m.sample_rate, "DEFAULT"@);
    lemma_lookup_push_quoted_opt(l12, "CHARACTERISTICS"@, m.characteristics, "DEFAULT"@);
    lemma_lookup_push_quoted_opt(l13, "CHANNELS"@, m.channels, "DEFAULT"@);
    lemma_lookup_push(Seq::empty(), ("TYPE"@, AttributeValueView::Unquoted(encode_utf8(m.media_type))), "AUTOSELECT"@);
    lemma_lookup_push(l0, ("NAME"@, AttributeValueView::Quoted(m.name)), "AUTOSELECT"@);
    lemma_lookup_push(l1, ("GROUP-ID"@, AttributeValueView::Quoted(m.group_id)), "AUTOSELECT"@);
    lemma_lookup_push_quoted_opt(l2, "URI"@, m.uri, "AUTOSELECT"@);
    lemma_lookup_push_quoted_opt(l3, "LANGUAGE"@, m.language, "AUTOSELECT"@);
    lemma_lookup_push_quoted_opt(l4, "ASSOC-LANGUAGE"@, m.assoc_language, "AUTOSELECT"@);
    lemma_lookup_push_quoted_opt(l5, "STABLE-RENDITION-ID"@, m.stable_rendition_id, "AUTOSELECT"@);
    lemma_lookup_push_yes(l6, "DEFAULT"@, m.default, "AUTOSELECT"@);
    lemma_lookup_push_yes(l7, "AUTOSELECT"@, m.autoselect, "AUTOSELECT"@);
    lemma_lookup_push_yes(l8, "FORCED"@, m.forced, "AUTOSELECT"@);
    lemma_lookup_push_quoted_opt(l9, "INSTREAM-ID"@, m.instream_id, "AUTOSELECT"@);
    lemma_lookup_push_integer_opt(l10, "BIT-DEPTH"@, m.bit_depth, "AUTOSELECT"@);
    lemma_lookup_push_integer_opt(l11, "SAMPLE-RATE"@, m.sample_rate, "AUTOSELECT"@);
    lemma_lookup_push_quoted_opt(l12, "CHARACTERISTICS"@, m.characteristics, "AUTOSELECT"@);
    lemma_lookup_push_quoted_opt(l13, "CHANNELS"@, m.channels, "AUTOSELECT"@);
    lemma_lookup_push(Seq::empty(), ("TYPE"@, AttributeValueView::Unquoted(encode_utf8(m.media_type))), "FORCED"@);
    lemma_lookup_push(l0, ("NAME"@, AttributeValueView::Quoted(m.name)), "FORCED"@);
    lemma_lookup_push(l1, ("GROUP-ID"@, AttributeValueView::Quoted(m.group_id)), "FORCED"@);
    lemma_lookup_push_quoted_opt(l2, "URI"@, m.uri, "FORCED"@);
    lemma_lookup_push_quoted_opt(l3, "LANGUAGE"@, m.language, "FORCED"@);
    lemma_lookup_push_quoted_opt(l4, "ASSOC-LANGUAGE"@, m.assoc_language, "FORCED"@);
    lemma_lookup_push_quoted_opt(l5, "STABLE-RENDITION-ID"@, m.stable_rendition_id, "FORCED"@);
    lemma_lookup_push_yes(l6, "DEFAULT"@, m.default, "FORCED"@);
    lemma_lookup_push_yes(l7, "AUTOSELECT"@, m.autoselect, "FORCED"@);
    lemma_lookup_push_yes(l8, "FORCED"@, m.forced, "FORCED"@);
    lemma_lookup_push_quoted_opt(l9, "INSTREAM-ID"@, m.instream_id, "FORCED"@);
    lemma_lookup_push_integer_opt(l10, "BIT-DEPTH"@, m.bit_depth, "FORCED"@);
    lemma_lookup_push_integer_opt(l11, "SAMPLE-RATE"@, m.sample_rate, "FORCED"@);
    lemma_lookup_push_quoted_opt(l12, "CHARACTERISTICS"@, m.characteristics, "FORCED"@);
    lemma_lookup_push_quoted_opt(l13, "CHANNELS"@, m.channels, "FORCED"@);
    assert(Seq::<(Seq<char>, AttributeValueView)>::empty().push(("TYPE"@, AttributeValueView::Unquoted(encode_utf8(m.media_type)))) =~= l0);
    assert(yes_attr(l14, "DEFAULT"@) == m.default);
    assert(yes_attr(l14, "AUTOSELECT"@) == m.autoselect);
    assert(yes_attr(l14, "FORCED"@) == m.forced);
}

#[verifier::spinoff_prover]
proof fn lemma_media_lookup_3(m: MediaAttributes)
    ensures
        quoted_attr(media_entries(m), "INSTREAM-ID"@) == m.instream_id,
        integer_attr(media_entries(m), "BIT-DEPTH"@) == m.bit_depth,
        integer_attr(media_entries(m), "SAMPLE-RATE"@) == m.sample_rate,
{
    reveal_strlit("TYPE");
    reveal_strlit("NAME");
    reveal_strlit("GROUP-ID");
    reveal_strlit("URI");
    reveal_strlit("LANGUAGE");
    reveal_strlit("ASSOC-LANGUAGE");
    reveal_strlit("STABLE-RENDITION-ID");
    reveal_strlit("DEFAULT");
    reveal_strlit("AUTOSELECT");
    reveal_strlit("FORCED");
    reveal_strlit("INSTREAM-ID");
    reveal_strlit("BIT-DEPTH");
    reveal_strlit("SAMPLE-RATE");
    reveal_strlit("CHARACTERISTICS");
    reveal_strlit("CHANNELS");
    assert("INSTREAM-ID"@.len() != "TYPE"@.len());
    assert("INSTREAM-ID"@.len() != "NAME"@.len());
    assert("INSTREAM-ID"@.len() != "GROUP-ID"@.len());
    assert("INSTREAM-ID"@.len() != "URI"@.len());
    assert("INSTREAM-ID"@.len() != "LANGUAGE"@.len());
    assert("INSTREAM-ID"@.len() != "ASSOC-LANGUAGE"@.len());
    assert("INSTREAM-ID"@.len() != "STABLE-RENDITION-ID"@.len());
    assert("INSTREAM-ID"@.len() != "DEFAULT"@.len());
    assert("INSTREAM-ID"@.len() != "AUTOSELECT"@.len());
    assert("INSTREAM-ID"@.len() != "FORCED"@.len());
    assert("INSTREAM-ID"@.len() != "BIT-DEPTH"@.len());
    assert("INSTREAM-ID"@[0] != "SAMPLE-RATE"@[0]);
    assert("INSTREAM-ID"@.len() != "CHARACTERISTICS"@.len());
    assert("INSTREAM-ID"@.len() != "CHANNELS"@.len());
    assert("BIT-DEPTH"@.len() != "TYPE"@.len());
    assert("BIT-DEPTH"@.len() != "NAME"@.len());
    assert("BIT-DEPTH"@.len() != "GROUP-ID"@.len());
    assert("BIT-DEPTH"@.len() != "URI"@.len());
    assert("BIT-DEPTH"@.len() != "LANGUAGE"@.len());
    assert("BIT-DEPTH"@.len() != "ASSOC-LANGUAGE"@.len());
    assert("BIT-DEPTH"@.len() != "STABLE-RENDITION-ID"@.len());
    assert("BIT-DEPTH"@.len() != "DEFAULT"@.len());
    assert("BIT-DEPTH"@.len() != "AUTOSELECT"@.len());
    assert("BIT-DEPTH"@.len() != "FORCED"@.len());
    assert("BIT-DEPTH"@.len() != "INSTREAM-ID"@.len());
    assert("BIT-DEPTH"@.len() != "SAMPLE-RATE"@.len());
    assert("BIT-DEPTH"@.len() != "CHARACTERISTICS"@.len());
    assert("BIT-DEPTH"@.len() != "CHANNELS"@.len());
    assert("SAMPLE-RATE"@.len() != "TYPE"@.len());
    assert("SAMPLE-RATE"@.len() != "NAME"@.len());
    assert("SAMPLE-RATE"@.len() != "GROUP-ID"@.len());
    assert("SAMPLE-RATE"@.len() != "URI"@.len());
    assert("SAMPLE-RATE"@.len() != "LANGUAGE"@.len());
    assert("SAMPLE-RATE"@.len() != "ASSOC-LANGUAGE"@.len());
    assert("SAMPLE-RATE"@.len() != "STABLE-RENDITION-ID"@.len());
    assert("SAMPLE-RATE"@.len() != "DEFAULT"@.len());
    assert("SAMPLE-RATE"@.len() != "AUTOSELECT"@.len());
    assert("SAMPLE-RATE"@.len() != "FORCED"@.len());
    assert("SAMPLE-RATE"@[0] != "INSTREAM-ID"@[0]);
    assert("SAMPLE-RATE"@.len() != "BIT-DEPTH"@.len());
    assert("SAMPLE-RATE"@.len() != "CHARACTERISTICS"@.len());
    assert("SAMPLE-RATE"@.len() != "CHANNELS"@.len());
    let l0 = seq![("TYPE"@, AttributeValueView::Unquoted(encode_utf8(m.media_type)))];
    let l1 = l0.push(("NAME"@, AttributeValueView::Quoted(m.name)));
    let l2 = l1.push(("GROUP-ID"@, AttributeValueView::Quoted(m.group_id)));
    let l3 = push_quoted_opt(l2, "URI"@, m.uri);
    let l4 = push_quoted_opt(l3, "LANGUAGE"@, m.language);
    let l5 = push_quoted_opt(l4, "ASSOC-LANGUAGE"@, m.assoc_language);
    let l6 = push_quoted_opt(l5, "STABLE-RENDITION-ID"@, m.stable_rendition_id);
    let l7 = push_yes(l6, "DEFAULT"@, m.default);
    let l8 = push_yes(l7, "AUTOSELECT"@, m.autoselect);
    let l9 = push_yes(l8, "FORCED"@, m.forced);
    let l10 = push_quoted_opt(l9, "INSTREAM-ID"@, m.instream_id);
    let l11 = push_integer_opt(l10, "BIT-DEPTH"@, m.bit_depth);
    let l12 = push_integer_opt(l11, "SAMPLE-RATE"@, m.sample_rate);
    let l13 = push_quoted_opt(l12, "CHARACTERISTICS"@, m.characteristics);
    let l14 = push_quoted_opt(l13, "CHANNELS"@, m.channels);
    assert(l14 == media_entries(m));
    lemma_lookup_push(Seq::empty(), ("TYPE"@, AttributeValueView::Unquoted(encode_utf8(m.media_type))), "INSTREAM-ID"@);
    lemma_lookup_push(l0, ("NAME"@, AttributeValueView::Quoted(m.name)), "INSTREAM-ID"@);
    lemma_lookup_push(l1, ("GROUP-ID"@, AttributeValueView::Quoted(m.group_id)), "INSTREAM-ID"@);
    lemma_lookup_push_quoted_opt(l2, "URI"@, m.uri, "INSTREAM-ID"@);
    lemma_lookup_push_quoted_opt(l3, "LANGUAGE"@, m.language, "INSTREAM-ID"@);
    lemma_lookup_push_quoted_opt(l4, "ASSOC-LANGUAGE"@, m.assoc_language, "INSTREAM-ID"@);
    lemma_lookup_push_quoted_opt(l5, "STABLE-RENDITION-ID"@, m.stable_rendition_id, "INSTREAM-ID"@);
    lemma_lookup_push_yes(l6, "DEFAULT"@, m.default, "INSTREAM-ID"@);
    lemma_lookup_push_yes(l7, "AUTOSELECT"@, m.autoselect, "INSTREAM-ID"@);
    lemma_lookup_push_yes(l8, "FORCED"@, m.forced, "INSTREAM-ID"@);
    lemma_lookup_push_quoted_opt(l9, "INSTREAM-ID"@, m.instream_id, "INSTREAM-ID"@);
    lemma_lookup_push_integer_opt(l10, "BIT-DEPTH"@, m.bit_depth, "INSTREAM-ID"@);
    lemma_lookup_push_integer_opt(l11, "SAMPLE-RATE"@, m.sample_rate, "INSTREAM-ID"@);
    lemma_lookup_push_quoted_opt(l12, "CHARACTERISTICS"@, m.characteristics, "INSTREAM-ID"@);
    lemma_lookup_push_quoted_opt(l13, "CHANNELS"@, m.channels, "INSTREAM-ID"@);
    lemma_lookup_push(Seq::empty(), ("TYPE"@, AttributeValueView::Unquoted(encode_utf8(m.media_type))), "BIT-DEPTH"@);
    lemma_lookup_push(l0, ("NAME"@, AttributeValueView::Quoted(m.name)), "BIT-DEPTH"@);
    lemma_lookup_push(l1, ("GROUP-ID"@, AttributeValueView::Quoted(m.group_id)), "BIT-DEPTH"@);
    lemma_lookup_push_quoted_opt(l2, "URI"@, m.uri, "BIT-DEPTH"@);
    lemma_lookup_push_quoted_opt(l3, "LANGUAGE"@, m.language, "BIT-DEPTH"@);
    lemma_lookup_push_quoted_opt(l4, "ASSOC-LANGUAGE"@, m.assoc_language, "BIT-DEPTH"@);
    lemma_lookup_push_quoted_opt(l5, "STABLE-RENDITION-ID"@, m.stable_rendition_id, "BIT-DEPTH"@);
    lemma_lookup_push_yes(l6, "DEFAULT"@, m.default, "BIT-DEPTH"@);
    lemma_lookup_push_yes(l7, "AUTOSELECT"@, m.autoselect, "BIT-DEPTH"@);
    lemma_lookup_push_yes(l8, "FORCED"@, m.forced, "BIT-DEPTH"@);
    lemma_lookup_push_quoted_opt(l9, "INSTREAM-ID"@, m.instream_id, "BIT-DEPTH"@);
    lemma_lookup_push_integer_opt(l10, "BIT-DEPTH"@, m.bit_depth, "BIT-DEPTH"@);
    lemma_lookup_push_integer_opt(l11, "SAMPLE-RATE"@, m.sample_rate, "BIT-DEPTH"@);
    lemma_lookup_push_quoted_opt(l12, "CHARACTERISTICS"@, m.characteristics, "BIT-DEPTH"@);
    lemma_lookup_push_quoted_opt(l13, "CHANNELS"@, m.channels, "BIT-DEPTH"@);
    lemma_lookup_push(Seq::empty(), ("TYPE"@, AttributeValueView::Unquoted(encode_utf8(m.media_type))), "SAMPLE-RATE"@);
    lemma_lookup_push(l0, ("NAME"@, AttributeValueView::Quoted(m.name)), "SAMPLE-RATE"@);
    lemma_lookup_push(l1, ("GROUP-ID"@, AttributeValueView::Quoted(m.group_id)), "SAMPLE-RATE"@);
    lemma_lookup_push_quoted_opt(l2, "URI"@, m.uri, "SAMPLE-RATE"@);
    lemma_lookup_push_quoted_opt(l3, "LANGUAGE"@, m.language, "SAMPLE-RATE"@);
    lemma_lookup_push_quoted_opt(l4, "ASSOC-LANGUAGE"@, m.assoc_language, "SAMPLE-RATE"@);
    lemma_lookup_push_quoted_opt(l5, "STABLE-RENDITION-ID"@, m.stable_rendition_id, "SAMPLE-RATE"@);
    lemma_lookup_push_yes(l6, "DEFAULT"@, m.default, "SAMPLE-RATE"@);
    lemma_lookup_push_yes(l7, "AUTOSELECT"@, m.autoselect, "SAMPLE-RATE"@);
    lemma_lookup_push_yes(l8, "FORCED"@, m.forced, "SAMPLE-RATE"@);
    lemma_lookup_push_quoted_opt(l9, "INSTREAM-ID"@, m.instream_id, "SAMPLE-RATE"@);
    lemma_lookup_push_integer_opt(l10, "BIT-DEPTH"@, m.bit_depth, "SAMPLE-RATE"@);
    lemma_lookup_push_integer_opt(l11, "SAMPLE-RATE"@, m.sample_rate, "SAMPLE-RATE"@);
    lemma_lookup_push_quoted_opt(l12, "CHARACTERISTICS"@, m.characteristics, "SAMPLE-RATE"@);
    lemma_lookup_push_quoted_opt(l13, "CHANNELS"@, m.channels, "SAMPLE-RATE"@);
    assert(Seq::<(Seq<char>, AttributeValueView)>::empty().push(("TYPE"@, AttributeValueView::Unquoted(encode_utf8(m.media_type)))) =~= l0);
    if let Some(v) = m.bit_depth {
        crate::utils::lemma_parse_u64_of_dec(v);
    }
    if let Some(v) = m.sample_rate {
        crate::utils::lemma_parse_u64_of_dec(v);
    }
    assert(quoted_attr(l14, "INSTREAM-ID"@) == m.instream_id);
    assert(integer_attr(l14, "BIT-DEPTH"@) == m.bit_depth);
    assert(integer_attr(l14, "SAMPLE-RATE"@) == m.sample_rate);
}

#[verifier::spinoff_prover]
proof fn lemma_media_lookup_4(m: MediaAttributes)
    ensures
        quoted_attr(media_entries(m), "CHARACTERISTICS"@) == m.characteristics,
        quoted_attr(media_entries(m), "CHANNELS"@) == m.channels,
{
    reveal_strlit("TYPE");
    reveal_strlit("NAME");
    reveal_strlit("GROUP-ID");
    reveal_strlit("URI");
    reveal_strlit("LANGUAGE");
    reveal_strlit("ASSOC-LANGUAGE");
    reveal_strlit("STABLE-RENDITION-ID");
    reveal_strlit("DEFAULT");
    reveal_strlit("AUTOSELECT");
    reveal_strlit("FORCED");
    reveal_strlit("INSTREAM-ID");
    reveal_strlit("BIT-DEPTH");
    reveal_strlit("SAMPLE-RATE");
    reveal_strlit("CHARACTERISTICS");
    reveal_strlit("CHANNELS");
    assert("CHARACTERISTICS"@.len() != "TYPE"@.len());
    assert("CHARACTERISTICS"@.len() != "NAME"@.len());
    assert("CHARACTERISTICS"@.len() != "GROUP-ID"@.len());
    assert("CHARACTERISTICS"@.len() != "URI"@.len());
    assert("CHARACTERISTICS"@.len() != "LANGUAGE"@.len());
    assert("CHARACTERISTICS"@.len() != "ASSOC-LANGUAGE"@.len());
    assert("CHARACTERISTICS"@.len() != "STABLE-RENDITION-ID"@.len());
    assert("CHARACTERISTICS"@.len() != "DEFAULT"@.len());
    assert("CHARACTERISTICS"@.len() != "AUTOSELECT"@.len());
    assert("CHARACTERISTICS"@.len() != "FORCED"@.len());
    assert("CHARACTERISTICS"@.len() != "INSTREAM-ID"@.len());
    assert("CHARACTERISTICS"@.len() != "BIT-DEPTH"@.len());
    assert("CHARACTERISTICS"@.len() != "SAMPLE-RATE"@.len());
    assert("CHARACTERISTICS"@.len() != "CHANNELS"@.len());
    assert("CHANNELS"@.len() != "TYPE"@.len());
    assert("CHANNELS"@.len() != "NAME"@.len());
    assert("CHANNELS"@[0] != "GROUP-ID"@[0]);
    assert("CHANNELS"@.len() != "URI"@.len());
    assert("CHANNELS"@[0] != "LANGUAGE"@[0]);
    assert("CHANNELS"@.len() != "ASSOC-LANGUAGE"@.len());
    assert("CHANNELS"@.len() != "STABLE-RENDITION-ID"@.len());
    assert("CHANNELS"@.len() != "DEFAULT"@.len());
    assert("CHANNELS"@.len() != "AUTOSELECT"@.len());
    assert("CHANNELS"@.len() != "FORCED"@.len());
    assert("CHANNELS"@.len() != "INSTREAM-ID"@.len());
    assert("CHANNELS"@.len() != "BIT-DEPTH"@.len());
    assert("CHANNELS"@.len() != "SAMPLE-RATE"@.len());
    assert("CHANNELS"@.len() != "CHARACTERISTICS"@.len());
    let l0 = seq![("TYPE"@, AttributeValueView::Unquoted(encode_utf8(m.media_type)))];
    let l1 = l0.push(("NAME"@, AttributeValueView::Quoted(m.name)));
    let l2 = l1.push(("GROUP-ID"@, AttributeValueView::Quoted(m.group_id)));
    let l3 = push_quoted_opt(l2, "URI"@, m.uri);
    let l4 = push_quoted_opt(l3, "LANGUAGE"@, m.language);
    let l5 = push_quoted_opt(l4, "ASSOC-LANGUAGE"@, m.assoc_language);
    let l6 = push_quoted_opt(l5, "STABLE-RENDITION-ID"@, m.stable_rendition_id);
    let l7 = push_yes(l6, "DEFAULT"@, m.default);
    let l8 = push_yes(l7, "AUTOSELECT"@, m.autoselect);
    let l9 = push_yes(l8, "FORCED"@, m.forced);
    let l10 = push_quoted_opt(l9, "INSTREAM-ID"@, m.instream_id);
    let l11 = push_integer_opt(l10, "BIT-DEPTH"@, m.bit_depth);
    let l12 = push_integer_opt(l11, "SAMPLE-RATE"@, m.sample_rate);
    let l13 = push_quoted_opt(l12, "CHARACTERISTICS"@, m.characteristics);
    let l14 = push_quoted_opt(l13, "CHANNELS"@, m.channels);
    assert(l14 == media_entries(m));
    lemma_lookup_push(Seq::empty(), ("TYPE"@, AttributeValueView::Unquoted(encode_utf8(m.media_type))), "CHARACTERISTICS"@);
    lemma_lookup_push(l0, ("NAME"@, AttributeValueView::Quoted(m.name)), "CHARACTERISTICS"@);
    lemma_lookup_push(l1, ("GROUP-ID"@, AttributeValueView::Quoted(m.group_id)), "CHARACTERISTICS"@);
    lemma_lookup_push_quoted_opt(l2, "URI"@, m.uri, "CHARACTERISTICS"@);
    lemma_lookup_push_quoted_opt(l3, "LANGUAGE"@, m.language, "CHARACTERISTICS"@);
    lemma_lookup_push_quoted_opt(l4, "ASSOC-LANGUAGE"@, m.assoc_language, "CHARACTERISTICS"@);
    lemma_lookup_push_quoted_opt(l5, "STABLE-RENDITION-ID"@, m.stable_rendition_id, "CHARACTERISTICS"@);
    lemma_lookup_push_yes(l6, "DEFAULT"@, m.default, "CHARACTERISTICS"@);
    lemma_lookup_push_yes(l7, "AUTOSELECT"@, m.autoselect, "CHARACTERISTICS"@);
    lemma_lookup_push_yes(l8, "FORCED"@, m.forced, "CHARACTERISTICS"@);
    lemma_lookup_push_quoted_opt(l9, "INSTREAM-ID"@, m.instream_id, "CHARACTERISTICS"@);
    lemma_lookup_push_integer_opt(l10, "BIT-DEPTH"@, m.bit_depth, "CHARACTERISTICS"@);
    lemma_lookup_push_integer_opt(l11, "SAMPLE-RATE"@, m.sample_rate, "CHARACTERISTICS"@);
    lemma_lookup_push_quoted_opt(l12, "CHARACTERISTICS"@, m.characteristics, "CHARACTERISTICS"@);
    lemma_lookup_push_quoted_opt(l13, "CHANNELS"@, m.channels, "CHARACTERISTICS"@);
    lemma_lookup_push(Seq::empty(), ("TYPE"@, AttributeValueView::Unquoted(encode_utf8(m.media_type))), "CHANNELS"@);
    lemma_lookup_push(l0, ("NAME"@, AttributeValueView::Quoted(m.name)), "CHANNELS"@);
    lemma_lookup_push(l1, ("GROUP-ID"@, AttributeValueView::Quoted(m.group_id)), "CHANNELS"@);
    lemma_lookup_push_quoted_opt(l2, "URI"@, m.uri, "CHANNELS"@);
    lemma_lookup_push_quoted_opt(l3, "LANGUAGE"@, m.language, "CHANNELS"@);
    lemma_lookup_push_quoted_opt(l4, "ASSOC-LANGUAGE"@, m.assoc_language, "CHANNELS"@);
    lemma_lookup_push_quoted_opt(l5, "STABLE-RENDITION-ID"@, m.stable_rendition_id, "CHANNELS"@);
    lemma_lookup_push_yes(l6, "DEFAULT"@, m.default, "CHANNELS"@);
    lemma_lookup_push_yes(l7, "AUTOSELECT"@, m.autoselect, "CHANNELS"@);
    lemma_lookup_push_yes(l8, "FORCED"@, m.forced, "CHANNELS"@);
    lemma_lookup_push_quoted_opt(l9, "INSTREAM-ID"@, m.instream_id, "CHANNELS"@);
    lemma_lookup_push_integer_opt(l10, "BIT-DEPTH"@, m.bit_depth, "CHANNELS"@);
    lemma_lookup_push_integer_opt(l11, "SAMPLE-RATE"@, m.sample_rate, "CHANNELS"@);
    lemma_lookup_push_quoted_opt(l12, "CHARACTERISTICS"@, m.characteristics, "CHANNELS"@);
    lemma_lookup_push_quoted_opt(l13, "CHANNELS"@, m.channels, "CHANNELS"@);
    assert(Seq::<(Seq<char>, AttributeValueView)>::empty().push(("TYPE"@, AttributeValueView::Unquoted(encode_utf8(m.media_type)))) =~= l0);
    assert(quoted_attr(l14, "CHARACTERISTICS"@) == m.characteristics);
    assert(quoted_attr(l14, "CHANNELS"@) == m.channels);
}

proof fn lemma_media_lookup(m: MediaAttributes)
    ensures
        media_spec(media_entries(m)) == Ok::<MediaAttributes, ValidationError>(m),
{
    lemma_media_lookup_0(m);
    lemma_media_lookup_1(m);
    lemma_media_lookup_2(m);
    lemma_media_lookup_3(m);
    lemma_media_lookup_4(m);
}

/// Writing and then reading a media tag gives it back: its line reads as its name with its
/// attributes as the value, and that value reads as the attributes, when no quoted value holds a
/// `"` or a line feed and the media type is not empty, does not start with `"`, and holds no `,`
/// and no line feed.
pub proof fn lemma_media_reads_back(m: MediaAttributes)
    requires
        unquoted_value_ok(encode_utf8(m.media_type)),
        quoted_value_ok(m.name),
        quoted_value_ok(m.group_id),
        m.uri matches Some(v) ==> quoted_value_ok(v),
        m.language matches Some(v) ==> quoted_value_ok(v),
        m.assoc_language matches Some(v) ==> quoted_value_ok(v),
        m.stable_rendition_id matches Some(v) ==> quoted_value_ok(v),
        m.instream_id matches Some(v) ==> quoted_value_ok(v),
        m.characteristics matches Some(v) ==> quoted_value_ok(v),
        m.channels matches Some(v) ==> quoted_value_ok(v),
    ensures
        media_line(m) == line_start(TagName::Media) + seq![58u8] + attribute_list_text(
            media_entries(m),
        ),
        unknown::starts_with_ext(media_line(m)),
        unknown::tag_after_ext_spec(media_line(m).subrange(4, media_line(m).len() as int))
            == Ok::<(Seq<u8>, Option<Seq<u8>>, Option<Seq<u8>>), UnknownTagSyntaxError>((
            encode_utf8(tag_name_text(TagName::Media)),
            Some(attribute_list_text(media_entries(m))),
            None,
        )),
        media_value_spec(Some(attribute_list_text(media_entries(m)))) == Ok::<
            MediaAttributes,
            ValidationError,
        >(m),
{
    let l = media_entries(m);
    let text = attribute_list_text(l);
    lemma_media_line_text(m);
    let rest = seq![58u8] + text;
    lemma_line_after_ext(TagName::Media, rest);
    assert(media_line(m) =~= line_start(TagName::Media) + rest);
    assert(encode_utf8(tag_name_text(TagName::Media)) + rest =~= encode_utf8(
        tag_name_text(TagName::Media),
    ) + seq![58u8] + text);
    lemma_tag_name_plain(TagName::Media);
    lemma_media_entries_ok(m);
    lemma_attribute_list_text_free_of_line_feed(l);
    unknown::lemma_read_written_tag(encode_utf8(tag_name_text(TagName::Media)), text);
    lemma_attribute_list_reads_back(l);
    lemma_media_lookup(m);
}

/// The text of each value of [`MediaType`] is the one that the HLS specification gives it.
pub proof fn lemma_media_type_texts()
    ensures
        MediaType::Audio.text() == "AUDIO"@,
        MediaType::Video.text() == "VIDEO"@,
        MediaType::Subtitles.text() == "SUBTITLES"@,
        MediaType::ClosedCaptions.text() == "CLOSED-CAPTIONS"@,
{
}

/// The text of each value of [`InstreamId`] is the one that the HLS specification gives it.
pub proof fn lemma_instream_id_texts()
    ensures
        InstreamId::Cea608(Cea608InstreamId::Cc1).text() == "CC1"@,
        InstreamId::Cea608(Cea608InstreamId::Cc2).text() == "CC2"@,
        InstreamId::Cea608(Cea608InstreamId::Cc3).text() == "CC3"@,
        InstreamId::Cea608(Cea608InstreamId::Cc4).text() == "CC4"@,
        forall|n: u8| #[trigger] InstreamId::Cea708(n).text() == "SERVICE"@ + dec_chars(n as nat),
{
}

/// The text of each value of [`ChannelSpecialUsageIdentifier`] is the one that the HLS specification gives it.
pub proof fn lemma_channel_special_usage_identifier_texts()
    ensures
        ChannelSpecialUsageIdentifier::Binaural.text() == "BINAURAL"@,
        ChannelSpecialUsageIdentifier::Immersive.text() == "IMMERSIVE"@,
        ChannelSpecialUsageIdentifier::Downmix.text() == "DOWNMIX"@,
        forall|n: u32| #[trigger] ChannelSpecialUsageIdentifier::Bed(n).text() == "BED-"@ + dec_chars(n as nat),
        forall|n: u32| #[trigger] ChannelSpecialUsageIdentifier::DegreesOfFreedom(n).text() == "DOF-"@ + dec_chars(n as nat),
{
}

/// The text of each value of [`AudioCodingIdentifier`] is the one that the HLS specification gives it.
pub proof fn lemma_audio_coding_identifier_texts()
    ensures
        AudioCodingIdentifier::JointObjectCoding.text() == "JOC"@,
        forall|n: u32| #[trigger] AudioCodingIdentifier::OrderOfAmbisonics(n).text() == dec_chars(n as nat) + "OA"@,
{
}

/// The text of each value of [`MediaCharacteristicTag`] is the one that the HLS specification gives it.
pub proof fn lemma_media_characteristic_tag_texts()
    ensures
        MediaCharacteristicTag::TranscribesSpokenDialog.text() == "public.accessibility.transcribes-spoken-dialog"@,
        MediaCharacteristicTag::DescribesMusicAndSound.text() == "public.accessibility.describes-music-and-sound"@,
        MediaCharacteristicTag::EasyToRead.text() == "public.easy-to-read"@,
        MediaCharacteristicTag::DescribesVideo.text() == "public.accessibility.describes-video"@,
        MediaCharacteristicTag::MachineGenerated.text() == "public.machine-generated"@,
{
}

} // verus!
