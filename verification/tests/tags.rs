use quick_m3u8::error::{ParseTagValueError, ValidationError, ValidationErrorValueKind};
use quick_m3u8::line::ParsedLineSlice;
use quick_m3u8::tag::hls::bitrate::Bitrate;
use quick_m3u8::tag::hls::byterange::Byterange;
use quick_m3u8::tag::hls::content_steering::ContentSteering;
use quick_m3u8::tag::hls::define::Define;
use quick_m3u8::tag::hls::discontinuity::Discontinuity;
use quick_m3u8::tag::hls::discontinuity_sequence::DiscontinuitySequence;
use quick_m3u8::tag::hls::endlist::Endlist;
use quick_m3u8::tag::hls::enumerated_string::{AsStaticCow, EnumeratedString};
use quick_m3u8::tag::hls::gap::Gap;
use quick_m3u8::tag::hls::i_frames_only::IFramesOnly;
use quick_m3u8::tag::hls::independent_segments::IndependentSegments;
use quick_m3u8::tag::hls::key::{Key, Method};
use quick_m3u8::tag::hls::m3u::M3u;
use quick_m3u8::tag::hls::map::{MapByterange, XMap};
use quick_m3u8::tag::hls::media::Media;
use quick_m3u8::tag::hls::media_sequence::MediaSequence;
use quick_m3u8::tag::hls::playlist_type::PlaylistType;
use quick_m3u8::tag::hls::program_date_time::ProgramDateTime;
use quick_m3u8::date::{DateTime, DateTimeTimezoneOffset};
use quick_m3u8::error::DateTimeSyntaxError;
use quick_m3u8::tag::hls::preload_hint::{PreloadHint, PreloadHintType};
use quick_m3u8::tag::hls::rendition_report::RenditionReport;
use quick_m3u8::tag::hls::session_data::{Format, SessionData};
use quick_m3u8::tag::hls::session_key::SessionKey;
use quick_m3u8::tag::hls::skip::Skip;
use quick_m3u8::tag::hls::targetduration::Targetduration;
use quick_m3u8::tag::hls::version::Version;
use quick_m3u8::tag::hls::{TagName, TagType};
use quick_m3u8::tag::known::IntoInnerTag;
use quick_m3u8::tag::unknown::{self, Tag};
use quick_m3u8::tag::value::{HlsPlaylistType, TagValue};

fn parsed(line: &str) -> Tag<'_> {
    unknown::parse(line).expect("tag line").parsed
}

#[test]
fn new_should_be_valid_as_str() {
    assert_eq!(b"#EXT-X-BITRATE:10000000", Bitrate::new(10000000).into_inner().value());
}

#[test]
fn new_with_no_offset_should_be_valid_line() {
    let tag = Byterange::new(1024, None);
    assert_eq!(b"#EXT-X-BYTERANGE:1024", tag.into_inner().value());
}

#[test]
fn new_with_offset_should_be_valid_line() {
    let tag = Byterange::new(1024, Some(512));
    assert_eq!(b"#EXT-X-BYTERANGE:1024@512", tag.into_inner().value());
}

#[test]
fn new_without_pathway_id_should_be_valid_line() {
    let tag = ContentSteering::builder("example.json").finish();
    assert_eq!(b"#EXT-X-CONTENT-STEERING:SERVER-URI=\"example.json\"", tag.into_inner().value());
}

#[test]
fn new_with_pathway_id_should_be_valid_line() {
    let tag = ContentSteering::builder("example.json").with_pathway_id("1234").finish();
    assert_eq!(
        b"#EXT-X-CONTENT-STEERING:SERVER-URI=\"example.json\",PATHWAY-ID=\"1234\"",
        tag.into_inner().value()
    );
}

#[test]
fn new_name_value_should_work() {
    assert_eq!(
        b"#EXT-X-DEFINE:NAME=\"name\",VALUE=\"value\"",
        Define::new_name("name", "value").into_inner().value()
    );
}

#[test]
fn set_name_and_value_should_work() {
    let mut define = Define::new_import("import");
    define.set_name_and_value("name", "value");
    assert_eq!(b"#EXT-X-DEFINE:NAME=\"name\",VALUE=\"value\"", define.into_inner().value());
}

#[test]
fn new_import_should_work() {
    assert_eq!(b"#EXT-X-DEFINE:IMPORT=\"import\"", Define::new_import("import").into_inner().value());
}

#[test]
fn set_import_should_work() {
    let mut define = Define::new_queryparam("queryparam");
    define.set_import("import");
    assert_eq!(b"#EXT-X-DEFINE:IMPORT=\"import\"", define.into_inner().value());
}

#[test]
fn new_queryparam_should_work() {
    assert_eq!(
        b"#EXT-X-DEFINE:QUERYPARAM=\"queryparam\"",
        Define::new_queryparam("queryparam").into_inner().value()
    );
}

#[test]
fn set_queryparam_should_work() {
    let mut define = Define::new_import("import");
    define.set_queryparam("queryparam");
    assert_eq!(b"#EXT-X-DEFINE:QUERYPARAM=\"queryparam\"", define.into_inner().value());
}

#[test]
fn as_str_should_be_valid_tag() {
    assert_eq!(
        b"#EXT-X-DISCONTINUITY-SEQUENCE:42",
        DiscontinuitySequence::new(42).into_inner().value()
    );
}

fn flag_tag<'a>(name: &'a str, value: Option<TagValue<'a>>, input: &'a [u8]) -> Tag<'a> {
    Tag { name, value, original_input: input, validation_error: None }
}

#[test]
fn gap_succeeds_if_empty() {
    assert_eq!(Ok(Gap), Gap::try_from(flag_tag("-X-GAP", None, b"#EXT-X-GAP")));
}

#[test]
fn gap_fails_if_not_empty() {
    assert_eq!(
        Err(ValidationError::ErrorExtractingTagValue(ParseTagValueError::NotEmpty)),
        Gap::try_from(flag_tag("-X-GAP", Some(TagValue(b"100")), b"#EXT-X-GAP:100"))
    );
}

#[test]
fn i_frames_only_succeeds_if_empty() {
    assert_eq!(
        Ok(IFramesOnly),
        IFramesOnly::try_from(flag_tag("-X-I-FRAMES-ONLY", None, b"#EXT-X-I-FRAMES-ONLY"))
    );
}

#[test]
fn i_frames_only_fails_if_not_empty() {
    assert_eq!(
        Err(ValidationError::ErrorExtractingTagValue(ParseTagValueError::NotEmpty)),
        IFramesOnly::try_from(flag_tag(
            "-X-I-FRAMES-ONLY",
            Some(TagValue(b"100")),
            b"#EXT-X-I-FRAMES-ONLY:100"
        ))
    );
}

#[test]
fn m3u_succeeds_if_empty() {
    assert_eq!(Ok(M3u), M3u::try_from(flag_tag("M3U", None, b"#EXTM3U")));
}

#[test]
fn m3u_fails_if_not_empty() {
    assert_eq!(
        Err(ValidationError::ErrorExtractingTagValue(ParseTagValueError::NotEmpty)),
        M3u::try_from(flag_tag("M3U", Some(TagValue(b"100")), b"#EXTM3U:100"))
    );
}

#[test]
fn key_as_str_with_no_options_should_be_valid() {
    assert_eq!(
        "#EXT-X-KEY:METHOD=SAMPLE-AES,URI=\"skd://some-key-id\",IV=0xABCD,KEYFORMAT=\"com.apple.streamingkeydelivery\",KEYFORMATVERSIONS=\"1\"".as_bytes(),
        Key::builder(&Method::SampleAes.as_cow())
            .with_uri("skd://some-key-id")
            .with_iv("0xABCD")
            .with_keyformat("com.apple.streamingkeydelivery")
            .with_keyformatversions("1")
            .finish()
            .into_inner()
            .value()
    );
}

#[test]
fn key_as_str_with_options_should_be_valid() {
    assert_eq!(
        b"#EXT-X-KEY:METHOD=NONE",
        Key::builder(&Method::Unencrypted.as_cow()).finish().into_inner().value()
    )
}

#[test]
fn as_str_no_byterange_should_be_valid() {
    assert_eq!(
        b"#EXT-X-MAP:URI=\"example.mp4\"",
        XMap::builder("example.mp4").finish().into_inner().value()
    );
}

#[test]
fn as_str_with_byterange_should_be_valid() {
    assert_eq!(
        b"#EXT-X-MAP:URI=\"example.mp4\",BYTERANGE=\"1024@512\"",
        XMap::builder("example.mp4")
            .with_byterange(MapByterange { length: 1024, offset: 512 })
            .finish()
            .into_inner()
            .value()
    );
}

#[test]
fn media_sequence_as_str_should_be_valid() {
    assert_eq!(b"#EXT-X-MEDIA-SEQUENCE:100", MediaSequence::new(100).into_inner().value());
}

#[test]
fn event_as_str_should_be_valid() {
    assert_eq!(
        b"#EXT-X-PLAYLIST-TYPE:EVENT",
        PlaylistType::new(HlsPlaylistType::Event).into_inner().value()
    );
}

#[test]
fn vod_as_str_should_be_valid() {
    assert_eq!(
        b"#EXT-X-PLAYLIST-TYPE:VOD",
        PlaylistType::new(HlsPlaylistType::Vod).into_inner().value()
    );
}

#[test]
fn preload_hint_as_str_with_no_options_should_be_valid() {
    assert_eq!(
        b"#EXT-X-PRELOAD-HINT:TYPE=PART,URI=\"part.2.mp4\"",
        PreloadHint::builder(&PreloadHintType::Part.as_cow(), "part.2.mp4")
            .finish()
            .into_inner()
            .value()
    )
}

#[test]
fn preload_hint_as_str_with_options_should_be_valid() {
    assert_eq!(
        b"#EXT-X-PRELOAD-HINT:TYPE=PART,URI=\"part.2.mp4\",BYTERANGE-START=512,BYTERANGE-LENGTH=1024",
        PreloadHint::builder(&PreloadHintType::Part.as_cow(), "part.2.mp4")
            .with_byterange_start(512)
            .with_byterange_length(1024)
            .finish()
            .into_inner()
            .value()
    )
}

#[test]
fn rendition_report_as_str_with_no_options_should_be_valid() {
    assert_eq!(
        b"#EXT-X-RENDITION-REPORT:URI=\"low.m3u8\",LAST-MSN=100",
        RenditionReport::builder().with_uri("low.m3u8").with_last_msn(100).finish().into_inner().value()
    );
}

#[test]
fn rendition_report_as_str_with_options_should_be_valid() {
    assert_eq!(
        b"#EXT-X-RENDITION-REPORT:URI=\"low.m3u8\",LAST-MSN=100,LAST-PART=2",
        RenditionReport::builder()
            .with_uri("low.m3u8")
            .with_last_msn(100)
            .with_last_part(2)
            .finish()
            .into_inner()
            .value()
    );
}

#[test]
fn session_data_as_str_with_no_options_should_be_valid() {
    assert_eq!(
        b"#EXT-X-SESSION-DATA:DATA-ID=\"1234\",VALUE=\"test\",LANGUAGE=\"en\"",
        SessionData::builder("1234").with_value("test").with_language("en").finish().into_inner().value()
    )
}

#[test]
fn session_data_as_str_with_options_should_be_valid() {
    assert_eq!(
        b"#EXT-X-SESSION-DATA:DATA-ID=\"1234\",URI=\"test.bin\",FORMAT=RAW",
        SessionData::builder("1234").with_uri("test.bin").with_format("RAW").finish().into_inner().value()
    )
}

#[test]
fn session_key_as_str_with_no_options_should_be_valid() {
    assert_eq!(
        "#EXT-X-SESSION-KEY:METHOD=SAMPLE-AES,URI=\"skd://some-key-id\",IV=0xABCD,KEYFORMAT=\"com.apple.streamingkeydelivery\",KEYFORMATVERSIONS=\"1\"".as_bytes(),
        SessionKey::builder()
            .with_method("SAMPLE-AES")
            .with_uri("skd://some-key-id")
            .with_iv("0xABCD")
            .with_keyformat("com.apple.streamingkeydelivery")
            .with_keyformatversions("1")
            .finish()
            .into_inner()
            .value()
    );
}

#[test]
fn session_key_as_str_with_options_should_be_valid() {
    assert_eq!(
        b"#EXT-X-SESSION-KEY:METHOD=SAMPLE-AES,URI=\"some-key-id\"",
        SessionKey::builder().with_method("SAMPLE-AES").with_uri("some-key-id").finish().into_inner().value()
    )
}

#[test]
fn as_str_with_no_recently_removed_dateranges_should_be_valid() {
    assert_eq!(b"#EXT-X-SKIP:SKIPPED-SEGMENTS=100", Skip::builder(100).finish().into_inner().value());
}

#[test]
fn as_str_with_recently_removed_dateranges_shuold_be_valid() {
    assert_eq!(
        b"#EXT-X-SKIP:SKIPPED-SEGMENTS=100,RECENTLY-REMOVED-DATERANGES=\"abc\t123\"",
        Skip::builder(100).with_recently_removed_dateranges("abc\t123").finish().into_inner().value()
    );
}

#[test]
fn targetduration_as_str_should_be_valid() {
    assert_eq!(b"#EXT-X-TARGETDURATION:10", Targetduration::new(10).into_inner().value());
}

#[test]
fn version_as_str_should_be_valid() {
    assert_eq!(b"#EXT-X-VERSION:10", Version::new(10).into_inner().value());
}

#[test]
fn tag_value_empty_when_remaining_none() {
    let tag = Tag { name: "-X-TEST", value: None, original_input: b"#EXT-X-TEST", validation_error: None };
    assert_eq!(None, tag.value());
    assert_eq!(b"#EXT-X-TEST", tag.as_bytes());
}

#[test]
fn tag_value_empty_when_remaining_is_empty() {
    let tag = Tag {
        name: "-X-TEST",
        value: Some(TagValue(b"")),
        original_input: b"#EXT-X-TEST:",
        validation_error: None,
    };
    assert_eq!(Some(TagValue(b"")), tag.value());
    assert_eq!(b"#EXT-X-TEST:", tag.as_bytes());
}

#[test]
fn tag_value_some_when_remaining_is_some() {
    let tag = Tag {
        name: "-X-TEST",
        value: Some(TagValue(b"42")),
        original_input: b"#EXT-X-TEST:42",
        validation_error: None,
    };
    assert_eq!(Some(TagValue(b"42")), tag.value());
    assert_eq!(b"#EXT-X-TEST:42", tag.as_bytes());
}

#[test]
fn tag_value_remaining_is_some_when_split_by_crlf() {
    let tag = Tag {
        name: "-X-TEST",
        value: Some(TagValue(b"42")),
        original_input: b"#EXT-X-TEST:42\r\n#EXT-X-NEW-TEST\r\n",
        validation_error: None,
    };
    assert_eq!(Some(TagValue(b"42")), tag.value());
    assert_eq!(b"#EXT-X-TEST:42", tag.as_bytes());
}

#[test]
fn tag_value_remaining_is_some_when_split_by_lf() {
    let tag = Tag {
        name: "-X-TEST",
        value: Some(TagValue(b"42")),
        original_input: b"#EXT-X-TEST:42\n#EXT-X-NEW-TEST\n",
        validation_error: None,
    };
    assert_eq!(Some(TagValue(b"42")), tag.value());
    assert_eq!(b"#EXT-X-TEST:42", tag.as_bytes());
}

#[test]
fn parses_tag_with_no_value() {
    assert_eq!(
        Ok(ParsedLineSlice {
            parsed: Tag { name: "-TEST-TAG", value: None, original_input: b"#EXT-TEST-TAG", validation_error: None },
            remaining: None
        }),
        unknown::parse("#EXT-TEST-TAG")
    );
    assert_eq!(
        Ok(ParsedLineSlice {
            parsed: Tag {
                name: "-TEST-TAG",
                value: None,
                original_input: b"#EXT-TEST-TAG\r\n",
                validation_error: None
            },
            remaining: Some("")
        }),
        unknown::parse("#EXT-TEST-TAG\r\n")
    );
    assert_eq!(
        Ok(ParsedLineSlice {
            parsed: Tag {
                name: "-TEST-TAG",
                value: None,
                original_input: b"#EXT-TEST-TAG\n",
                validation_error: None
            },
            remaining: Some("")
        }),
        unknown::parse("#EXT-TEST-TAG\n")
    );
}

#[test]
fn parses_tag_with_value() {
    assert_eq!(
        Ok(ParsedLineSlice {
            parsed: Tag {
                name: "-TEST-TAG",
                value: Some(TagValue(b"42")),
                original_input: b"#EXT-TEST-TAG:42",
                validation_error: None
            },
            remaining: None
        }),
        unknown::parse("#EXT-TEST-TAG:42")
    );
    assert_eq!(
        Ok(ParsedLineSlice {
            parsed: Tag {
                name: "-TEST-TAG",
                value: Some(TagValue(b"42")),
                original_input: b"#EXT-TEST-TAG:42\r\n",
                validation_error: None
            },
            remaining: Some("")
        }),
        unknown::parse("#EXT-TEST-TAG:42\r\n")
    );
    assert_eq!(
        Ok(ParsedLineSlice {
            parsed: Tag {
                name: "-TEST-TAG",
                value: Some(TagValue(b"42")),
                original_input: b"#EXT-TEST-TAG:42\n",
                validation_error: None
            },
            remaining: Some("")
        }),
        unknown::parse("#EXT-TEST-TAG:42\n")
    );
}

#[test]
fn parse_remaining_is_some_when_split_by_crlf() {
    assert_eq!(
        Ok(ParsedLineSlice {
            parsed: Tag {
                name: "-X-TEST",
                value: Some(TagValue(b"42")),
                original_input: b"#EXT-X-TEST:42\r\n#EXT-X-NEW-TEST\r\n",
                validation_error: None
            },
            remaining: Some("#EXT-X-NEW-TEST\r\n")
        }),
        unknown::parse("#EXT-X-TEST:42\r\n#EXT-X-NEW-TEST\r\n")
    );
}

#[test]
fn parse_remaining_is_some_when_split_by_lf() {
    assert_eq!(
        Ok(ParsedLineSlice {
            parsed: Tag {
                name: "-X-TEST",
                value: Some(TagValue(b"42")),
                original_input: b"#EXT-X-TEST:42\n#EXT-X-NEW-TEST\n",
                validation_error: None
            },
            remaining: Some("#EXT-X-NEW-TEST\n")
        }),
        unknown::parse("#EXT-X-TEST:42\n#EXT-X-NEW-TEST\n")
    );
}

#[test]
fn m3u() {
    assert_eq!(Ok(M3u), M3u::try_from(parsed("#EXTM3U")));
}

#[test]
fn version() {
    let tag = parsed("#EXT-X-VERSION:9");
    assert_eq!(Ok(TagName::Version), TagName::try_from(tag.name));
    assert_eq!(Ok(Version::new(9)), Version::try_from(tag));
}

#[test]
fn define() {
    let d = Define::try_from(parsed("#EXT-X-DEFINE:NAME=\"TEST\",VALUE=\"GOOD\"")).expect("define");
    assert_eq!((Some("TEST"), Some("GOOD")), (d.name(), d.value()));
    let d = Define::try_from(parsed("#EXT-X-DEFINE:IMPORT=\"TEST\"")).expect("define");
    assert_eq!(Some("TEST"), d.import());
    let d = Define::try_from(parsed("#EXT-X-DEFINE:QUERYPARAM=\"testQueryParam\"")).expect("define");
    assert_eq!(Some("testQueryParam"), d.queryparam());
    assert_eq!(
        Err(ValidationError::MissingRequiredAttribute("VALUE")),
        Define::try_from(parsed("#EXT-X-DEFINE:NAME=\"TEST\"")).map(|d| d.into_inner().value().to_vec())
    );
    assert_eq!(
        Err(ValidationError::MissingRequiredAttribute("NAME")),
        Define::try_from(parsed("#EXT-X-DEFINE:OTHER=\"TEST\"")).map(|d| d.into_inner().value().to_vec())
    );
}

#[test]
fn targetduration() {
    assert_eq!(Ok(Targetduration::new(6)), Targetduration::try_from(parsed("#EXT-X-TARGETDURATION:6")));
}

#[test]
fn media_sequence() {
    assert_eq!(Ok(MediaSequence::new(100)), MediaSequence::try_from(parsed("#EXT-X-MEDIA-SEQUENCE:100")));
}

#[test]
fn discontinuity_sequencee() {
    assert_eq!(
        Ok(DiscontinuitySequence::new(100)),
        DiscontinuitySequence::try_from(parsed("#EXT-X-DISCONTINUITY-SEQUENCE:100"))
    );
}

#[test]
fn playlist_type() {
    assert_eq!(
        Ok(PlaylistType::new(HlsPlaylistType::Event)),
        PlaylistType::try_from(parsed("#EXT-X-PLAYLIST-TYPE:EVENT"))
    );
    assert_eq!(
        Ok(PlaylistType::new(HlsPlaylistType::Vod)),
        PlaylistType::try_from(parsed("#EXT-X-PLAYLIST-TYPE:VOD"))
    );
}

#[test]
fn byterange() {
    assert_eq!(Ok(Byterange::new(100, None)), Byterange::try_from(parsed("#EXT-X-BYTERANGE:100")));
    assert_eq!(Ok(Byterange::new(100, Some(200))), Byterange::try_from(parsed("#EXT-X-BYTERANGE:100@200")));
}

#[test]
fn discontinuity() {
    assert_eq!(Ok(Discontinuity), Discontinuity::try_from(parsed("#EXT-X-DISCONTINUITY")));
}

#[test]
fn key() {
    let key = Key::try_from(parsed("#EXT-X-KEY:METHOD=SAMPLE-AES,URI=\"skd://some-key-id\",IV=0xABCD,KEYFORMAT=\"com.apple.streamingkeydelivery\",KEYFORMATVERSIONS=\"1\"")).expect("key");
    assert_eq!(EnumeratedString::Known(Method::SampleAes), key.method());
    assert_eq!(Some("skd://some-key-id"), key.uri());
    assert_eq!(Some("0xABCD"), key.iv());
    assert_eq!("com.apple.streamingkeydelivery", key.keyformat());
    assert_eq!(Some("1"), key.keyformatversions());
    let key = Key::try_from(parsed("#EXT-X-KEY:METHOD=NONE")).expect("key");
    assert_eq!(EnumeratedString::Known(Method::Unencrypted), key.method());
    assert_eq!("identity", key.keyformat());
}

#[test]
fn map() {
    let map = XMap::try_from(parsed("#EXT-X-MAP:URI=\"init.mp4\",BYTERANGE=\"1024@0\"")).expect("map");
    assert_eq!("init.mp4", map.uri());
    assert_eq!(Some(MapByterange { length: 1024, offset: 0 }), map.byterange());
    let map = XMap::try_from(parsed("#EXT-X-MAP:URI=\"init.mp4\"")).expect("map");
    assert_eq!(None, map.byterange());
}

#[test]
fn gap() {
    assert_eq!(Ok(Gap), Gap::try_from(parsed("#EXT-X-GAP")));
}

#[test]
fn bitrate() {
    assert_eq!(Ok(Bitrate::new(10000000)), Bitrate::try_from(parsed("#EXT-X-BITRATE:10000000")));
}

#[test]
fn skip() {
    let skip = Skip::try_from(parsed("#EXT-X-SKIP:SKIPPED-SEGMENTS=100")).expect("skip");
    assert_eq!(100, skip.skipped_segments());
    assert_eq!(None, skip.recently_removed_dateranges());
    let skip = Skip::try_from(parsed("#EXT-X-SKIP:SKIPPED-SEGMENTS=100,RECENTLY-REMOVED-DATERANGES=\"abc\t123\"")).expect("skip");
    assert_eq!(Some("abc\t123"), skip.recently_removed_dateranges());
}

#[test]
fn preload_hint() {
    let hint = PreloadHint::try_from(parsed("#EXT-X-PRELOAD-HINT:TYPE=PART,URI=\"part.2.mp4\"")).expect("hint");
    assert_eq!(EnumeratedString::Known(PreloadHintType::Part), hint.hint_type());
    assert_eq!("part.2.mp4", hint.uri());
    assert_eq!(0, hint.byterange_start());
    assert_eq!(None, hint.byterange_length());
    let hint = PreloadHint::try_from(parsed("#EXT-X-PRELOAD-HINT:TYPE=MAP,URI=\"init.mp4\",BYTERANGE-START=512,BYTERANGE-LENGTH=1024")).expect("hint");
    assert_eq!(EnumeratedString::Known(PreloadHintType::XMap), hint.hint_type());
    assert_eq!(512, hint.byterange_start());
    assert_eq!(Some(1024), hint.byterange_length());
}

#[test]
fn rendition_report() {
    let report = RenditionReport::try_from(parsed("#EXT-X-RENDITION-REPORT:URI=\"low.m3u8\",LAST-MSN=100,LAST-PART=2")).expect("report");
    assert_eq!(("low.m3u8", 100, Some(2)), (report.uri(), report.last_msn(), report.last_part()));
    assert!(matches!(
        RenditionReport::try_from(parsed("#EXT-X-RENDITION-REPORT:URI=\"low.m3u8\"")),
        Err(ValidationError::MissingRequiredAttribute("LAST-MSN"))
    ));
}

#[test]
fn media() {
    let media = Media::try_from(parsed("#EXT-X-MEDIA:TYPE=AUDIO,URI=\"audio.m3u8\",GROUP-ID=\"aac\",LANGUAGE=\"en\",NAME=\"English\",DEFAULT=YES,AUTOSELECT=NO,CHANNELS=\"2\"")).expect("media");
    assert_eq!("English", media.name());
    assert_eq!("aac", media.group_id());
    assert_eq!(Some("audio.m3u8"), media.uri());
    assert_eq!(Some("en"), media.language());
    assert!(media.default());
    assert!(!media.autoselect());
    assert!(!media.forced());
    assert!(matches!(
        Media::try_from(parsed("#EXT-X-MEDIA:TYPE=AUDIO,NAME=\"English\"")),
        Err(ValidationError::MissingRequiredAttribute("GROUP-ID"))
    ));
}

#[test]
fn session_data() {
    let data = SessionData::try_from(parsed("#EXT-X-SESSION-DATA:DATA-ID=\"1234\",VALUE=\"test\",LANGUAGE=\"en\"")).expect("data");
    assert_eq!("1234", data.data_id());
    assert_eq!(Some("test"), data.value());
    assert_eq!(EnumeratedString::Known(Format::Json), data.format());
    let data = SessionData::try_from(parsed("#EXT-X-SESSION-DATA:DATA-ID=\"1234\",URI=\"test.bin\",FORMAT=RAW")).expect("data");
    assert_eq!(EnumeratedString::Known(Format::Raw), data.format());
}

#[test]
fn session_key() {
    let key = SessionKey::try_from(parsed("#EXT-X-SESSION-KEY:METHOD=SAMPLE-AES,URI=\"skd://some-key-id\",IV=0xABCD")).expect("key");
    assert_eq!(EnumeratedString::Known(Method::SampleAes), key.method());
    assert_eq!("skd://some-key-id", key.uri());
    assert_eq!(Some("0xABCD"), key.iv());
}

#[test]
fn content_steering() {
    let cs = ContentSteering::try_from(parsed("#EXT-X-CONTENT-STEERING:SERVER-URI=\"steering.json\",PATHWAY-ID=\"1234\"")).expect("steering");
    assert_eq!("steering.json", cs.server_uri());
    assert_eq!(Some("1234"), cs.pathway_id());
}

#[test]
fn parsed_tag_keeps_its_line_until_changed() {
    let mut key = Key::try_from(parsed("#EXT-X-KEY:URI=\"a\",METHOD=AES-128\n#EXTINF:2")).expect("key");
    key.set_keyformat("identity");
    assert_eq!(b"#EXT-X-KEY:METHOD=AES-128,URI=\"a\"", key.into_inner().value());
    let key = Key::try_from(parsed("#EXT-X-KEY:URI=\"a\",METHOD=AES-128\n#EXTINF:2")).expect("key");
    assert_eq!(b"#EXT-X-KEY:URI=\"a\",METHOD=AES-128", key.into_inner().value());
}

#[test]
fn tag_names_round_trip_and_have_types() {
    assert_eq!(Ok(TagName::XMap), TagName::try_from("-X-MAP"));
    assert_eq!("-X-MAP", TagName::XMap.as_str());
    assert_eq!(Err(ValidationError::UnexpectedTagName), TagName::try_from("-X-NOPE"));
    assert!(matches!(TagName::Inf.tag_type(), TagType::MediaSegment));
    assert!(matches!(TagName::Media.tag_type(), TagType::MultivariantPlaylist));
}

#[test]
fn integer_tag_errors() {
    assert_eq!(
        Err(ValidationError::UnexpectedValueType(ValidationErrorValueKind::Empty)),
        Version::try_from(parsed("#EXT-X-VERSION"))
    );
    assert!(matches!(
        Version::try_from(parsed("#EXT-X-VERSION:x")),
        Err(ValidationError::ErrorExtractingTagValue(ParseTagValueError::DecimalInteger(_)))
    ));
    let mut v = Version::try_from(parsed("#EXT-X-VERSION:007")).expect("version");
    assert_eq!(7, v.version());
    assert_eq!(b"#EXT-X-VERSION:007", Version::try_from(parsed("#EXT-X-VERSION:007")).expect("v").into_inner().value());
    v.set_version(8);
    assert_eq!(b"#EXT-X-VERSION:8", v.into_inner().value());
}

fn june_fifth() -> DateTime {
    DateTime {
        date_fullyear: 2025,
        date_month: 6,
        date_mday: 5,
        time_hour: 16,
        time_minute: 46,
        time_second: 42,
        time_millisecond: 123,
        timezone_offset: DateTimeTimezoneOffset { time_hour: -5, time_minute: 0 },
    }
}

#[test]
fn program_date_time_as_str_should_be_valid() {
    let date_time = DateTime {
        date_fullyear: 2025,
        date_month: 6,
        date_mday: 16,
        time_hour: 21,
        time_minute: 52,
        time_second: 8,
        time_millisecond: 10,
        timezone_offset: DateTimeTimezoneOffset { time_hour: -5, time_minute: 0 },
    };
    assert_eq!(
        b"#EXT-X-PROGRAM-DATE-TIME:2025-06-16T21:52:08.010-05:00",
        ProgramDateTime::new(date_time).into_inner().value()
    );
}

#[test]
fn program_date_time() {
    let tag = parsed("#EXT-X-PROGRAM-DATE-TIME:2025-06-05T16:46:42.123-05:00");
    assert_eq!(Ok(TagName::ProgramDateTime), TagName::try_from(tag.name));
    let pdt = ProgramDateTime::try_from(tag).expect("program date time");
    assert_eq!(ProgramDateTime::new(june_fifth()), pdt);
    assert_eq!(june_fifth(), pdt.program_date_time());
    assert_eq!(
        b"#EXT-X-PROGRAM-DATE-TIME:2025-06-05T16:46:42.123-05:00",
        pdt.into_inner().value()
    );
}

#[test]
fn program_date_time_mutation_rewrites_line() {
    let mut pdt = ProgramDateTime::try_from(parsed("#EXT-X-PROGRAM-DATE-TIME:2025-06-05T16:46:42Z"))
        .expect("program date time");
    let mut changed = june_fifth();
    changed.timezone_offset = DateTimeTimezoneOffset { time_hour: 0, time_minute: 0 };
    changed.time_millisecond = 0;
    assert_eq!(changed, pdt.program_date_time());
    changed.date_mday = 6;
    pdt.set_program_date_time(changed);
    assert_eq!(changed, pdt.program_date_time());
    assert_eq!(b"#EXT-X-PROGRAM-DATE-TIME:2025-06-06T16:46:42.000Z", pdt.into_inner().value());
}

#[test]
fn program_date_time_errors() {
    assert_eq!(
        Err(ValidationError::UnexpectedValueType(ValidationErrorValueKind::Empty)),
        ProgramDateTime::try_from(parsed("#EXT-X-PROGRAM-DATE-TIME"))
    );
    assert_eq!(
        Err(ValidationError::ErrorExtractingTagValue(ParseTagValueError::DateTime(
            DateTimeSyntaxError::InvalidSyntax
        ))),
        ProgramDateTime::try_from(parsed("#EXT-X-PROGRAM-DATE-TIME:2025-06-05 16:46:42Z"))
    );
    assert_eq!(
        Err(ValidationError::ErrorExtractingTagValue(ParseTagValueError::DateTime(
            DateTimeSyntaxError::OutOfRange
        ))),
        ProgramDateTime::try_from(parsed("#EXT-X-PROGRAM-DATE-TIME:2025-13-05T16:46:42Z"))
    );
}

#[test]
fn date_time_value_forms() {
    let z = TagValue(b"2025-06-03T17:56:42.123Z").try_as_date_time().expect("date");
    assert_eq!((123, 0, 0), (z.time_millisecond, z.timezone_offset.time_hour, z.timezone_offset.time_minute));
    let plus = TagValue(b"2025-06-03T17:56:42.12+01:30").try_as_date_time().expect("date");
    assert_eq!((120, 1, 30), (plus.time_millisecond, plus.timezone_offset.time_hour, plus.timezone_offset.time_minute));
    let minus = TagValue(b"2025-06-03T17:56:42.1-05:00").try_as_date_time().expect("date");
    assert_eq!((100, -5), (minus.time_millisecond, minus.timezone_offset.time_hour));
    let whole = TagValue(b"2025-06-03T17:56:42Z").try_as_date_time().expect("date");
    assert_eq!((42, 0), (whole.time_second, whole.time_millisecond));
    assert_eq!(Err(DateTimeSyntaxError::InvalidSyntax), TagValue(b"2025-06-03T17:56:42.1234Z").try_as_date_time());
    assert_eq!(Err(DateTimeSyntaxError::InvalidSyntax), TagValue(b"2025-06-03T17:56:42").try_as_date_time());
    assert_eq!(Err(DateTimeSyntaxError::OutOfRange), TagValue(b"2025-06-03T24:00:00Z").try_as_date_time());
    assert_eq!(Err(DateTimeSyntaxError::OutOfRange), TagValue(b"2025-06-03T17:56:42+24:00").try_as_date_time());
}

#[test]
fn date_time_text_reads_back() {
    let d = june_fifth();
    let line = ProgramDateTime::new(d).into_inner().value().to_vec();
    let text = &line[b"#EXT-X-PROGRAM-DATE-TIME:".len()..];
    assert_eq!(Ok(d), TagValue(text).try_as_date_time());
}

#[test]
fn independent_segments() {
    assert_eq!(
        Ok(IndependentSegments),
        IndependentSegments::try_from(parsed("#EXT-X-INDEPENDENT-SEGMENTS"))
    );
}

#[test]
fn endlist() {
    assert_eq!(Ok(Endlist), Endlist::try_from(parsed("#EXT-X-ENDLIST")));
}

#[test]
fn i_frames_only() {
    assert_eq!(Ok(IFramesOnly), IFramesOnly::try_from(parsed("#EXT-X-I-FRAMES-ONLY")));
}
