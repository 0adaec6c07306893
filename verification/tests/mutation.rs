use quick_m3u8::tag::hls::bitrate::Bitrate;
use quick_m3u8::tag::hls::byterange::Byterange;
use quick_m3u8::tag::hls::content_steering::ContentSteering;
use quick_m3u8::tag::hls::define::{Import, Name, Queryparam};
use quick_m3u8::tag::hls::discontinuity_sequence::DiscontinuitySequence;
use quick_m3u8::tag::hls::enumerated_string::{AsStaticCow, EnumeratedString};
use quick_m3u8::tag::hls::key::{Key, Method};
use quick_m3u8::tag::hls::map::{MapByterange, XMap};
use quick_m3u8::tag::hls::media::{Channels, InstreamId, Media, MediaType};
use quick_m3u8::tag::hls::media_sequence::MediaSequence;
use quick_m3u8::tag::hls::playlist_type::PlaylistType;
use quick_m3u8::tag::hls::preload_hint::{PreloadHint, PreloadHintType};
use quick_m3u8::tag::hls::rendition_report::RenditionReport;
use quick_m3u8::tag::hls::session_data::{Format, SessionData};
use quick_m3u8::tag::hls::session_key::SessionKey;
use quick_m3u8::tag::hls::skip::Skip;
use quick_m3u8::tag::hls::targetduration::Targetduration;
use quick_m3u8::tag::known::{IntoInnerTag, TagInner};
use quick_m3u8::tag::value::HlsPlaylistType;

fn line(inner: TagInner) -> String {
    String::from_utf8(inner.value().to_vec()).expect("tag line is UTF-8")
}

fn has(inner: TagInner, attr: &str) -> bool {
    line(inner).contains(attr)
}

#[test]
fn integer_tags_rewrite_their_value() {
    let mut t = Bitrate::new(100);
    t.set_bitrate(200);
    assert_eq!(200, t.bitrate());
    assert!(has(t.into_inner(), ":200"));

    let mut t = DiscontinuitySequence::new(42);
    t.set_discontinuity_sequence(1337);
    assert_eq!(1337, t.discontinuity_sequence());
    assert!(has(t.into_inner(), ":1337"));

    let mut t = MediaSequence::new(100);
    t.set_media_sequence(200);
    assert_eq!(200, t.media_sequence());
    assert!(has(t.into_inner(), ":200"));

    let mut t = Targetduration::new(10);
    t.set_target_duration(20);
    assert_eq!(20, t.target_duration());
    assert!(has(t.into_inner(), ":20"));

    let mut t = PlaylistType::new(HlsPlaylistType::Vod);
    t.set_playlist_type(HlsPlaylistType::Event);
    assert_eq!(HlsPlaylistType::Event, t.playlist_type());
    assert!(has(t.into_inner(), ":EVENT"));
}

#[test]
fn byterange_mutation() {
    let mut t = Byterange::new(1024, Some(512));
    t.set_length(100);
    assert_eq!(100, t.length());
    assert!(has(t.into_inner(), ":100"));
    let mut t = Byterange::new(1024, Some(512));
    t.set_offset(200);
    assert_eq!(Some(200), t.offset());
    assert!(has(t.into_inner(), "@200"));
    let mut t = Byterange::new(1024, Some(200));
    t.unset_offset();
    assert_eq!(None, t.offset());
    assert!(!has(t.into_inner(), "@200"));
}

#[test]
fn content_steering_mutation() {
    let init = || ContentSteering::builder("server-uri.json").with_pathway_id("1234").finish();
    let mut t = init();
    t.set_server_uri("other-steering.json");
    assert_eq!("other-steering.json", t.server_uri());
    assert!(has(t.into_inner(), "SERVER-URI=\"other-steering.json\""));
    let mut t = init();
    t.set_pathway_id("abcd");
    assert_eq!(Some("abcd"), t.pathway_id());
    assert!(has(t.into_inner(), "PATHWAY-ID=\"abcd\""));
    let mut t = init();
    t.unset_pathway_id();
    assert_eq!(None, t.pathway_id());
    assert!(!has(t.into_inner(), "PATHWAY-ID="));
}

#[test]
fn define_mutation() {
    let mut t = Name::new("name", "value");
    t.set_name("other_name");
    assert_eq!("other_name", t.name());
    assert!(has(t.into_inner(), "NAME=\"other_name\""));
    let mut t = Name::new("name", "value");
    t.set_value("other_value");
    assert_eq!("other_value", t.value());
    assert!(has(t.into_inner(), "VALUE=\"other_value\""));
    let mut t = Import::new("import");
    t.set_import("other_import");
    assert_eq!("other_import", t.import());
    assert!(has(t.into_inner(), "IMPORT=\"other_import\""));
    let mut t = Queryparam::new("queryparam");
    t.set_queryparam("other_query_param");
    assert_eq!("other_query_param", t.queryparam());
    assert!(has(t.into_inner(), "QUERYPARAM=\"other_query_param\""));
}

fn sample_key() -> Key {
    Key::builder(&Method::SampleAes.as_cow())
        .with_uri("skd://some-key-id")
        .with_iv("0xABCD")
        .with_keyformat("com.apple.streamingkeydelivery")
        .with_keyformatversions("1")
        .finish()
}

#[test]
fn key_mutation() {
    let mut t = sample_key();
    t.set_method("EXAMPLE");
    assert_eq!(EnumeratedString::<Method>::Unknown("EXAMPLE"), t.method());
    assert!(has(t.into_inner(), "METHOD=EXAMPLE"));
    let mut t = sample_key();
    t.set_uri("example.key");
    assert_eq!(Some("example.key"), t.uri());
    assert!(has(t.into_inner(), "URI=\"example.key\""));
    let mut t = sample_key();
    t.unset_uri();
    assert_eq!(None, t.uri());
    assert!(!has(t.into_inner(), "URI="));
    let mut t = sample_key();
    t.set_iv("0x1234");
    assert_eq!(Some("0x1234"), t.iv());
    assert!(has(t.into_inner(), "IV=0x1234"));
    let mut t = sample_key();
    t.unset_iv();
    assert_eq!(None, t.iv());
    assert!(!has(t.into_inner(), "IV="));
    let mut t = sample_key();
    t.set_keyformat("example");
    assert_eq!("example", t.keyformat());
    assert!(has(t.into_inner(), "KEYFORMAT=\"example\""));
    let mut t = sample_key();
    t.unset_keyformat();
    assert_eq!("identity", t.keyformat());
    assert!(!has(t.into_inner(), "KEYFORMAT=\"com.apple.streamingkeydelivery\""));
    let mut t = sample_key();
    t.set_keyformatversions("example");
    assert_eq!(Some("example"), t.keyformatversions());
    assert!(has(t.into_inner(), "KEYFORMATVERSIONS=\"example\""));
    let mut t = sample_key();
    t.unset_keyformatversions();
    assert_eq!(None, t.keyformatversions());
    assert!(!has(t.into_inner(), "KEYFORMATVERSIONS="));
}

fn sample_session_key() -> SessionKey {
    SessionKey::builder()
        .with_method("SAMPLE-AES")
        .with_uri("skd://some-key-id")
        .with_iv("0xABCD")
        .with_keyformat("com.apple.streamingkeydelivery")
        .with_keyformatversions("1")
        .finish()
}

#[test]
fn session_key_mutation() {
    let mut t = sample_session_key();
    t.set_method("example");
    assert_eq!(EnumeratedString::<Method>::Unknown("example"), t.method());
    assert!(has(t.into_inner(), "METHOD=example"));
    let mut t = sample_session_key();
    t.set_uri("example");
    assert_eq!("example", t.uri());
    assert!(has(t.into_inner(), "URI=\"example\""));
    let mut t = sample_session_key();
    t.set_iv("0x1234");
    assert_eq!(Some("0x1234"), t.iv());
    assert!(has(t.into_inner(), "IV=0x1234"));
    let mut t = sample_session_key();
    t.unset_iv();
    assert_eq!(None, t.iv());
    assert!(!has(t.into_inner(), "IV="));
    let mut t = sample_session_key();
    t.set_keyformat("example");
    assert_eq!("example", t.keyformat());
    assert!(has(t.into_inner(), "KEYFORMAT=\"example\""));
    let mut t = sample_session_key();
    t.unset_keyformat();
    assert_eq!("identity", t.keyformat());
    let mut t = sample_session_key();
    t.set_keyformatversions("example");
    assert_eq!(Some("example"), t.keyformatversions());
    assert!(has(t.into_inner(), "KEYFORMATVERSIONS=\"example\""));
}

#[test]
fn map_mutation() {
    let init = || XMap::builder("example.mp4").with_byterange(MapByterange { length: 1024, offset: 512 }).finish();
    let mut t = init();
    t.set_uri("init.mp4");
    assert_eq!("init.mp4", t.uri());
    assert!(has(t.into_inner(), "URI=\"init.mp4\""));
    let mut t = init();
    t.set_byterange(MapByterange { length: 100, offset: 200 });
    assert_eq!(Some(MapByterange { length: 100, offset: 200 }), t.byterange());
    assert!(has(t.into_inner(), "BYTERANGE=\"100@200\""));
    let mut t = init();
    t.unset_byterange();
    assert_eq!(None, t.byterange());
    assert!(!has(t.into_inner(), "BYTERANGE="));
}

fn sample_media() -> Media {
    Media::builder()
        .with_media_type(&MediaType::Audio.as_cow())
        .with_name("English")
        .with_group_id("stereo")
        .with_uri("audio/en/stereo.m3u8")
        .with_language("en")
        .with_assoc_language("en")
        .with_stable_rendition_id("1234")
        .with_instream_id("ID1")
        .with_bit_depth(8)
        .with_sample_rate(48000)
        .with_characteristics("public.accessibility.describes-video")
        .with_channels("2")
        .finish()
}

#[test]
fn media_mutation() {
    let mut t = sample_media();
    t.set_media_type("VIDEO");
    assert_eq!(EnumeratedString::Known(MediaType::Video), t.media_type());
    assert!(has(t.into_inner(), "TYPE=VIDEO"));
    let mut t = sample_media();
    t.set_name("Spanish");
    assert_eq!("Spanish", t.name());
    assert!(has(t.into_inner(), "NAME=\"Spanish\""));
    let mut t = sample_media();
    t.set_group_id("surround");
    assert_eq!("surround", t.group_id());
    assert!(has(t.into_inner(), "GROUP-ID=\"surround\""));
    let mut t = sample_media();
    t.set_uri("example");
    assert_eq!(Some("example"), t.uri());
    assert!(has(t.into_inner(), "URI=\"example\""));
    let mut t = sample_media();
    t.unset_uri();
    assert_eq!(None, t.uri());
    assert!(!has(t.into_inner(), "URI="));
    let mut t = sample_media();
    t.set_language("es");
    assert_eq!(Some("es"), t.language());
    assert!(has(t.into_inner(), "LANGUAGE=\"es\""));
    let mut t = sample_media();
    t.set_assoc_language("es");
    assert_eq!(Some("es"), t.assoc_language());
    assert!(has(t.into_inner(), "ASSOC-LANGUAGE=\"es\""));
    let mut t = sample_media();
    t.unset_assoc_language();
    assert_eq!(None, t.assoc_language());
    assert!(!has(t.into_inner(), "ASSOC-LANGUAGE="));
    let mut t = sample_media();
    t.set_stable_rendition_id("abcd");
    assert_eq!(Some("abcd"), t.stable_rendition_id());
    assert!(has(t.into_inner(), "STABLE-RENDITION-ID=\"abcd\""));
    let mut t = sample_media();
    t.set_default(true);
    assert!(t.default());
    assert!(has(t.into_inner(), "DEFAULT=YES"));
    let mut t = sample_media();
    t.set_autoselect(true);
    assert!(t.autoselect());
    assert!(has(t.into_inner(), "AUTOSELECT=YES"));
    let mut t = sample_media();
    t.set_forced(true);
    assert!(t.forced());
    assert!(has(t.into_inner(), "FORCED=YES"));
    let mut t = sample_media();
    t.set_instream_id("ID2");
    assert_eq!(Some(EnumeratedString::<InstreamId>::Unknown("ID2")), t.instream_id());
    assert!(has(t.into_inner(), "INSTREAM-ID=\"ID2\""));
    let mut t = sample_media();
    t.unset_instream_id();
    assert_eq!(None, t.instream_id());
    assert!(!has(t.into_inner(), "INSTREAM-ID="));
    let mut t = sample_media();
    t.set_bit_depth(10);
    assert_eq!(Some(10), t.bit_depth());
    assert!(has(t.into_inner(), "BIT-DEPTH=10"));
    let mut t = sample_media();
    t.unset_bit_depth();
    assert_eq!(None, t.bit_depth());
    assert!(!has(t.into_inner(), "BIT-DEPTH="));
    let mut t = sample_media();
    t.set_sample_rate(42);
    assert_eq!(Some(42), t.sample_rate());
    assert!(has(t.into_inner(), "SAMPLE-RATE=42"));
    let mut t = sample_media();
    t.set_characteristics("example");
    assert_eq!(Some("example"), t.characteristics().as_ref().map(|c| c.as_ref()));
    assert!(has(t.into_inner(), "CHARACTERISTICS=\"example\""));
    let mut t = sample_media();
    t.unset_characteristics();
    assert!(t.characteristics().is_none());
    assert!(!has(t.into_inner(), "CHARACTERISTICS="));
    let mut t = sample_media();
    t.set_channels("6");
    match t.channels() {
        Some(Channels::Valid(v)) => assert_eq!(6, v.count()),
        other => panic!("unexpected channels {other:?}"),
    }
    assert!(has(t.into_inner(), "CHANNELS=\"6\""));
    let mut t = sample_media();
    t.unset_channels();
    assert!(t.channels().is_none());
    assert!(!has(t.into_inner(), "CHANNELS="));
}

fn sample_preload_hint() -> PreloadHint {
    PreloadHint::builder(&PreloadHintType::XMap.as_cow(), "init.mp4")
        .with_byterange_start(512)
        .with_byterange_length(1024)
        .finish()
}

#[test]
fn preload_hint_mutation() {
    let mut t = sample_preload_hint();
    t.set_hint_type("PART");
    assert_eq!(EnumeratedString::Known(PreloadHintType::Part), t.hint_type());
    assert!(has(t.into_inner(), "TYPE=PART"));
    let mut t = sample_preload_hint();
    t.set_uri("part.2.mp4");
    assert_eq!("part.2.mp4", t.uri());
    assert!(has(t.into_inner(), "URI=\"part.2.mp4\""));
    let mut t = sample_preload_hint();
    t.set_byterange_start(100);
    assert_eq!(100, t.byterange_start());
    assert!(has(t.into_inner(), "BYTERANGE-START=100"));
    let mut t = sample_preload_hint();
    t.unset_byterange_start();
    assert_eq!(0, t.byterange_start());
    assert!(!has(t.into_inner(), "BYTERANGE-START="));
    let mut t = sample_preload_hint();
    t.set_byterange_length(200);
    assert_eq!(Some(200), t.byterange_length());
    assert!(has(t.into_inner(), "BYTERANGE-LENGTH=200"));
    let mut t = sample_preload_hint();
    t.unset_byterange_length();
    assert_eq!(None, t.byterange_length());
    assert!(!has(t.into_inner(), "BYTERANGE-LENGTH="));
}

#[test]
fn rendition_report_mutation() {
    let init = || RenditionReport::builder().with_uri("low.m3u8").with_last_msn(100).with_last_part(2).finish();
    let mut t = init();
    t.set_uri("high.m3u8");
    assert_eq!("high.m3u8", t.uri());
    assert!(has(t.into_inner(), "URI=\"high.m3u8\""));
    let mut t = init();
    t.set_last_msn(200);
    assert_eq!(200, t.last_msn());
    assert!(has(t.into_inner(), "LAST-MSN=200"));
    let mut t = init();
    t.set_last_part(3);
    assert_eq!(Some(3), t.last_part());
    assert!(has(t.into_inner(), "LAST-PART=3"));
    let mut t = init();
    t.unset_last_part();
    assert_eq!(None, t.last_part());
    assert!(!has(t.into_inner(), "LAST-PART="));
}

fn sample_session_data() -> SessionData {
    SessionData::builder("1234")
        .with_value("test")
        .with_language("en")
        .with_uri("test.bin")
        .with_format("RAW")
        .finish()
}

#[test]
fn session_data_mutation() {
    let mut t = sample_session_data();
    t.set_data_id("abcd");
    assert_eq!("abcd", t.data_id());
    assert!(has(t.into_inner(), "DATA-ID=\"abcd\""));
    let mut t = sample_session_data();
    t.set_language("es");
    assert_eq!(Some("es"), t.language());
    assert!(has(t.into_inner(), "LANGUAGE=\"es\""));
    let mut t = sample_session_data();
    t.unset_language();
    assert_eq!(None, t.language());
    assert!(!has(t.into_inner(), "LANGUAGE="));
    let mut t = sample_session_data();
    t.set_uri("example.bin");
    assert_eq!(Some("example.bin"), t.uri());
    assert!(has(t.into_inner(), "URI=\"example.bin\""));
    let mut t = sample_session_data();
    t.set_format("INVALID");
    assert_eq!(EnumeratedString::<Format>::Unknown("INVALID"), t.format());
    assert!(has(t.into_inner(), "FORMAT=INVALID"));
    let mut t = sample_session_data();
    t.unset_format();
    assert_eq!(EnumeratedString::Known(Format::Json), t.format());
    assert!(!has(t.into_inner(), "FORMAT=RAW"));
}

#[test]
fn skip_mutation() {
    let init = || Skip::builder(100).with_recently_removed_dateranges("abc\t123").finish();
    let mut t = init();
    t.set_skipped_segments(200);
    assert_eq!(200, t.skipped_segments());
    assert!(has(t.into_inner(), "SKIPPED-SEGMENTS=200"));
    let mut t = init();
    t.set_recently_removed_dateranges("efg");
    assert_eq!(Some("efg"), t.recently_removed_dateranges());
    assert!(has(t.into_inner(), "RECENTLY-REMOVED-DATERANGES=\"efg\""));
    let mut t = init();
    t.unset_recently_removed_dateranges();
    assert_eq!(None, t.recently_removed_dateranges());
    assert!(!has(t.into_inner(), "RECENTLY-REMOVED-DATERANGES="));
}
