use quick_m3u8::tag::hls::bitrate::Bitrate;
use quick_m3u8::tag::hls::byterange::Byterange;
use quick_m3u8::tag::hls::endlist::Endlist;
use quick_m3u8::tag::hls::playlist_type::PlaylistType;
use quick_m3u8::tag::hls::program_date_time::ProgramDateTime;
use quick_m3u8::tag::hls::version::Version;
use quick_m3u8::tag::known::IntoInnerTag;
use quick_m3u8::tag::value::HlsPlaylistType;
use quick_m3u8::date::{self, DateTime, DateTimeTimezoneOffset};
use quick_m3u8::error::DateTimeSyntaxError;
use quick_m3u8::tag::hls::content_steering::ContentSteering;
use quick_m3u8::tag::hls::daterange::is_hexadecimal_sequence;
use quick_m3u8::tag::hls::define::Define;
use quick_m3u8::tag::hls::enumerated_string::AsStaticCow;
use quick_m3u8::tag::hls::key::{Key, Method};
use quick_m3u8::tag::hls::map::{MapByterange, XMap};
use quick_m3u8::tag::hls::media::{Media, MediaType};
use quick_m3u8::tag::hls::preload_hint::{PreloadHint, PreloadHintType};
use quick_m3u8::tag::hls::rendition_report::RenditionReport;
use quick_m3u8::tag::hls::session_data::SessionData;
use quick_m3u8::tag::hls::session_key::SessionKey;
use quick_m3u8::tag::hls::skip::Skip;
use quick_m3u8::tag::unknown::{self, Tag};
use quick_m3u8::tag::value::{AttributeValue, TagValue};

fn parsed(line: &str) -> Tag<'_> {
    unknown::parse(line).expect("tag line").parsed
}

#[test]
fn key_equality_follows_the_attributes() {
    let built = Key::builder(&Method::SampleAes.as_cow())
        .with_uri("skd://some-key-id")
        .with_iv("0xABCD")
        .with_keyformat("com.apple.streamingkeydelivery")
        .with_keyformatversions("1")
        .finish();
    let read = Key::try_from(parsed(
        "#EXT-X-KEY:METHOD=SAMPLE-AES,URI=\"skd://some-key-id\",IV=0xABCD,KEYFORMAT=\"com.apple.streamingkeydelivery\",KEYFORMATVERSIONS=\"1\"",
    ))
    .expect("key");
    assert_eq!(built, read);
    assert_eq!(
        Key::builder(&Method::Unencrypted.as_cow()).finish(),
        Key::try_from(parsed("#EXT-X-KEY:METHOD=NONE")).expect("key")
    );
    assert_ne!(built, Key::builder(&Method::Unencrypted.as_cow()).finish());
    // An absent KEYFORMAT reads as `identity`.
    assert_eq!(
        Key::try_from(parsed("#EXT-X-KEY:METHOD=NONE")).expect("key"),
        Key::try_from(parsed("#EXT-X-KEY:METHOD=NONE,KEYFORMAT=\"identity\"")).expect("key")
    );
}

#[test]
fn session_key_equality_follows_the_attributes() {
    let a = SessionKey::try_from(parsed("#EXT-X-SESSION-KEY:METHOD=AES-128,URI=\"k\"")).expect("key");
    let b = SessionKey::try_from(parsed("#EXT-X-SESSION-KEY:METHOD=AES-128,URI=\"k\",KEYFORMAT=\"identity\""))
        .expect("key");
    let c = SessionKey::try_from(parsed("#EXT-X-SESSION-KEY:METHOD=AES-128,URI=\"other\"")).expect("key");
    assert_eq!(a, b);
    assert_ne!(a, c);
}

#[test]
fn map_equality_follows_the_attributes() {
    assert_eq!(
        XMap::builder("init.mp4").with_byterange(MapByterange { length: 1024, offset: 0 }).finish(),
        XMap::try_from(parsed("#EXT-X-MAP:URI=\"init.mp4\",BYTERANGE=\"1024@0\"")).expect("map")
    );
    assert_ne!(
        XMap::builder("init.mp4").finish(),
        XMap::try_from(parsed("#EXT-X-MAP:URI=\"init.mp4\",BYTERANGE=\"1024@0\"")).expect("map")
    );
}

#[test]
fn skip_equality_follows_the_attributes() {
    assert_eq!(Skip::builder(100).finish(), Skip::try_from(parsed("#EXT-X-SKIP:SKIPPED-SEGMENTS=100")).expect("skip"));
    assert_ne!(Skip::builder(101).finish(), Skip::try_from(parsed("#EXT-X-SKIP:SKIPPED-SEGMENTS=100")).expect("skip"));
}

#[test]
fn preload_hint_equality_follows_the_attributes() {
    let built = PreloadHint::builder(&PreloadHintType::Part.as_cow(), "part.2.mp4").finish();
    assert_eq!(
        built,
        PreloadHint::try_from(parsed("#EXT-X-PRELOAD-HINT:TYPE=PART,URI=\"part.2.mp4\"")).expect("hint")
    );
    // An absent BYTERANGE-START reads as 0.
    assert_eq!(
        built,
        PreloadHint::try_from(parsed("#EXT-X-PRELOAD-HINT:TYPE=PART,URI=\"part.2.mp4\",BYTERANGE-START=0"))
            .expect("hint")
    );
    assert_ne!(
        built,
        PreloadHint::try_from(parsed("#EXT-X-PRELOAD-HINT:TYPE=MAP,URI=\"part.2.mp4\"")).expect("hint")
    );
}

#[test]
fn rendition_report_equality_follows_the_attributes() {
    assert_eq!(
        RenditionReport::builder().with_uri("low.m3u8").with_last_msn(100).with_last_part(2).finish(),
        RenditionReport::try_from(parsed("#EXT-X-RENDITION-REPORT:URI=\"low.m3u8\",LAST-MSN=100,LAST-PART=2"))
            .expect("report")
    );
    assert_ne!(
        RenditionReport::builder().with_uri("low.m3u8").with_last_msn(100).finish(),
        RenditionReport::try_from(parsed("#EXT-X-RENDITION-REPORT:URI=\"low.m3u8\",LAST-MSN=100,LAST-PART=2"))
            .expect("report")
    );
}

#[test]
fn session_data_equality_follows_the_attributes() {
    let built = SessionData::builder("1234").with_value("test").finish();
    assert_eq!(
        built,
        SessionData::try_from(parsed("#EXT-X-SESSION-DATA:DATA-ID=\"1234\",VALUE=\"test\"")).expect("data")
    );
    // An absent FORMAT reads as JSON.
    assert_eq!(
        built,
        SessionData::try_from(parsed("#EXT-X-SESSION-DATA:DATA-ID=\"1234\",VALUE=\"test\",FORMAT=JSON"))
            .expect("data")
    );
    assert_ne!(
        built,
        SessionData::try_from(parsed("#EXT-X-SESSION-DATA:DATA-ID=\"1234\",VALUE=\"test\",FORMAT=RAW"))
            .expect("data")
    );
}

#[test]
fn content_steering_equality_follows_the_attributes() {
    assert_eq!(
        ContentSteering::builder("example.json").with_pathway_id("1234").finish(),
        ContentSteering::try_from(parsed(
            "#EXT-X-CONTENT-STEERING:SERVER-URI=\"example.json\",PATHWAY-ID=\"1234\""
        ))
        .expect("steering")
    );
    assert_ne!(
        ContentSteering::builder("example.json").finish(),
        ContentSteering::try_from(parsed(
            "#EXT-X-CONTENT-STEERING:SERVER-URI=\"example.json\",PATHWAY-ID=\"1234\""
        ))
        .expect("steering")
    );
}

#[test]
fn define_equality_follows_the_attributes() {
    assert_eq!(
        Define::new_name("TEST", "GOOD"),
        Define::try_from(parsed("#EXT-X-DEFINE:NAME=\"TEST\",VALUE=\"GOOD\"")).expect("define")
    );
    assert_eq!(
        Define::new_import("TEST"),
        Define::try_from(parsed("#EXT-X-DEFINE:IMPORT=\"TEST\"")).expect("define")
    );
    assert_ne!(Define::new_import("TEST"), Define::new_queryparam("TEST"));
}

#[test]
fn media_equality_follows_the_attributes() {
    let built = Media::builder()
        .with_media_type(&MediaType::ClosedCaptions.as_cow())
        .with_name("English")
        .with_group_id("cc")
        .with_instream_id("CC1")
        .finish();
    assert_eq!(
        built,
        Media::try_from(parsed(
            "#EXT-X-MEDIA:TYPE=CLOSED-CAPTIONS,NAME=\"English\",GROUP-ID=\"cc\",INSTREAM-ID=\"CC1\""
        ))
        .expect("media")
    );
    assert_ne!(
        built,
        Media::try_from(parsed(
            "#EXT-X-MEDIA:TYPE=CLOSED-CAPTIONS,NAME=\"English\",GROUP-ID=\"cc\",INSTREAM-ID=\"CC2\""
        ))
        .expect("media")
    );
}

#[test]
fn hexadecimal_sequences_are_recognised() {
    assert!(is_hexadecimal_sequence("0x1F"));
    assert!(is_hexadecimal_sequence("0XabCD09"));
    assert!(is_hexadecimal_sequence("0x"));
    assert!(!is_hexadecimal_sequence("1x1F"));
    assert!(!is_hexadecimal_sequence("0y1F"));
    assert!(!is_hexadecimal_sequence("0x1G"));
    assert!(!is_hexadecimal_sequence("0"));
    assert!(!is_hexadecimal_sequence(""));
}

#[test]
fn duration_and_title_split_at_the_first_comma() {
    assert_eq!(Ok((&b"10.5"[..], "title, with comma")), TagValue(b"10.5,title, with comma").try_as_duration_and_title());
    assert_eq!(Ok((&b"10.5"[..], "")), TagValue(b"10.5").try_as_duration_and_title());
    assert_eq!(Ok((&b"10.5"[..], "")), TagValue(b"10.5,").try_as_duration_and_title());
    assert!(TagValue(b"10.5,\xff").try_as_duration_and_title().is_err());
}

#[test]
fn dates_parse_and_print() {
    let d = DateTime {
        date_fullyear: 1970,
        date_month: 1,
        date_mday: 1,
        time_hour: 0,
        time_minute: 0,
        time_second: 0,
        time_millisecond: 0,
        timezone_offset: DateTimeTimezoneOffset { time_hour: 0, time_minute: 0 },
    };
    assert_eq!(Ok(d), date::parse("1970-01-01T00:00:00Z"));
    assert_eq!(b"1970-01-01T00:00:00.000Z".to_vec(), d.to_bytes());
    assert_eq!(Err(DateTimeSyntaxError::InvalidSyntax), date::parse("1970-01-01"));
    let offset = DateTime { timezone_offset: DateTimeTimezoneOffset { time_hour: 0, time_minute: 30 }, ..d };
    assert_eq!(b"1970-01-01T00:00:00.000+00:30".to_vec(), offset.to_bytes());
    assert_eq!(Ok(offset), date::parse("1970-01-01T00:00:00+00:30"));
}

#[test]
fn attribute_lists_give_names_and_values_in_order() {
    let list = TagValue(b"A=1,B=\"two\",A=3").try_as_attribute_list().expect("list");
    assert_eq!(3, list.len());
    assert_eq!(["A", "B", "A"], [list.name_at(0), list.name_at(1), list.name_at(2)]);
    assert_eq!(Some("two"), list.value_at(1).quoted());
    assert!(matches!(list.value_at(2), AttributeValue::Unquoted(_)));
    assert_eq!(Some(3), list.get("A").and_then(|v| v.unquoted()).and_then(|v| v.try_as_decimal_integer().ok()));
}

fn text_of(inner: quick_m3u8::tag::known::TagInner) -> String {
    String::from_utf8(inner.value().to_vec()).expect("line is UTF-8")
}

#[test]
fn written_lines_read_back() {

    let line = text_of(Version::new(u64::MAX).into_inner());
    assert_eq!(Ok(Version::new(u64::MAX)), Version::try_from(parsed(&line)));
    let line = text_of(Bitrate::new(0).into_inner());
    assert_eq!(Ok(Bitrate::new(0)), Bitrate::try_from(parsed(&line)));
    let line = text_of(Byterange::new(1024, Some(0)).into_inner());
    assert_eq!(Ok(Byterange::new(1024, Some(0))), Byterange::try_from(parsed(&line)));
    let line = text_of(Byterange::new(7, None).into_inner());
    assert_eq!(Ok(Byterange::new(7, None)), Byterange::try_from(parsed(&line)));
    let line = text_of(PlaylistType::new(HlsPlaylistType::Vod).into_inner());
    assert_eq!(Ok(PlaylistType::new(HlsPlaylistType::Vod)), PlaylistType::try_from(parsed(&line)));
    let line = text_of(Endlist.into_inner());
    assert_eq!(Ok(Endlist), Endlist::try_from(parsed(&line)));
    let d = DateTime {
        date_fullyear: 9999,
        date_month: 12,
        date_mday: 31,
        time_hour: 23,
        time_minute: 59,
        time_second: 60,
        time_millisecond: 999,
        timezone_offset: DateTimeTimezoneOffset { time_hour: -23, time_minute: 59 },
    };
    let line = text_of(ProgramDateTime::new(d).into_inner());
    assert_eq!(Ok(ProgramDateTime::new(d)), ProgramDateTime::try_from(parsed(&line)));
    let key = Key::builder(&Method::SampleAes.as_cow()).with_uri("k").with_iv("0x1").finish();
    let line = text_of(Key::builder(&Method::SampleAes.as_cow()).with_uri("k").with_iv("0x1").finish().into_inner());
    assert_eq!(Ok(key), Key::try_from(parsed(&line)));
    let media = || {
        Media::builder()
            .with_media_type(&MediaType::Audio.as_cow())
            .with_name("English")
            .with_group_id("aac")
            .with_uri("en.m3u8")
            .with_language("en")
            .with_default()
            .with_autoselect()
            .with_bit_depth(16)
            .with_sample_rate(48000)
            .with_characteristics("public.accessibility.describes-video")
            .with_channels("2")
            .finish()
    };
    let line = text_of(media().into_inner());
    assert_eq!(
        "#EXT-X-MEDIA:TYPE=AUDIO,NAME=\"English\",GROUP-ID=\"aac\",URI=\"en.m3u8\",LANGUAGE=\"en\",DEFAULT=YES,AUTOSELECT=YES,BIT-DEPTH=16,SAMPLE-RATE=48000,CHARACTERISTICS=\"public.accessibility.describes-video\",CHANNELS=\"2\"",
        line
    );
    assert_eq!(Ok(media()), Media::try_from(parsed(&line)));
}
