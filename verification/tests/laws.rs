use quick_m3u8::error::AttributeListSyntaxError;
use quick_m3u8::tag::hls::key::Method;
use quick_m3u8::tag::value::TagValue;
use quick_m3u8::tag::hls::define::Name;
use quick_m3u8::tag::hls::enumerated_string::{EnumeratedString, EnumeratedStringList};
use quick_m3u8::tag::hls::media::{
    AudioCodingIdentifier, ChannelSpecialUsageIdentifier, Media, ValidChannels,
};
use quick_m3u8::tag::hls::stream_inf::{
    VideoChannelSpecifier, VideoLayout, VideoProjectionSpecifier,
};

#[test]
fn channels_parameters_read_back_what_new_was_given() {
    let cases = [("", ""), ("JOC", ""), ("", "BINAURAL"), ("JOC,3OA", "IMMERSIVE,DOWNMIX")];
    for (spatial, special) in cases {
        let c = ValidChannels::new(
            6,
            EnumeratedStringList::<AudioCodingIdentifier>::from_str(spatial),
            EnumeratedStringList::<ChannelSpecialUsageIdentifier>::from_str(special),
        );
        assert_eq!(6, c.count());
        assert_eq!(spatial, c.spatial_audio().as_ref());
        assert_eq!(special, c.special_usage().as_ref());
    }
    let c = ValidChannels::new(
        2,
        EnumeratedStringList::from_str(""),
        EnumeratedStringList::from_str("BINAURAL"),
    );
    assert_eq!("2/-/BINAURAL", c.as_ref());
}

#[test]
fn layout_reads_back_what_new_was_given() {
    let cases = [("", ""), ("CH-STEREO", ""), ("", "PROJ-360"), ("CH-STEREO,CH-MONO", "PROJ-PRIM")];
    for (channels, projection) in cases {
        let l = VideoLayout::new(
            EnumeratedStringList::<VideoChannelSpecifier>::from_str(channels),
            EnumeratedStringList::<VideoProjectionSpecifier>::from_str(projection),
        );
        assert_eq!(channels, l.channels().as_ref());
        assert_eq!(projection, l.projection().as_ref());
    }
}

#[test]
fn remove_undoes_insert() {
    let mut list = EnumeratedStringList::<VideoChannelSpecifier>::from_str("CH-STEREO,CUSTOM");
    assert!(list.insert(EnumeratedString::Known(VideoChannelSpecifier::Mono)));
    assert_eq!("CH-STEREO,CUSTOM,CH-MONO", list.as_ref());
    assert!(list.remove(EnumeratedString::Known(VideoChannelSpecifier::Mono)));
    assert_eq!("CH-STEREO,CUSTOM", list.as_ref());
    let mut empty = EnumeratedStringList::<VideoChannelSpecifier>::from_str("");
    assert!(empty.insert(EnumeratedString::Unknown("OTHER")));
    assert!(empty.remove(EnumeratedString::Unknown("OTHER")));
    assert_eq!("", empty.as_ref());
}

#[test]
fn name_line_follows_each_setter() {
    let mut n = Name::new("a", "b");
    n.set_name("c");
    n.set_value("d");
    n.set_name("e");
    assert_eq!(
        b"#EXT-X-DEFINE:NAME=\"e\",VALUE=\"d\"",
        n.into_inner().value()
    );
}

#[test]
fn set_language_writes_the_language_and_keeps_the_rest() {
    let mut media = Media::builder()
        .with_media_type("AUDIO")
        .with_name("English")
        .with_group_id("aac")
        .with_uri("en.m3u8")
        .with_default()
        .finish();
    media.set_language("en");
    assert_eq!(Some("en"), media.language());
    assert_eq!("English", media.name());
    assert_eq!("aac", media.group_id());
    assert_eq!(Some("en.m3u8"), media.uri());
    assert!(media.default());
    assert_eq!(
        b"#EXT-X-MEDIA:TYPE=AUDIO,NAME=\"English\",GROUP-ID=\"aac\",URI=\"en.m3u8\",LANGUAGE=\"en\",DEFAULT=YES",
        media.into_inner().value()
    );
}

#[test]
fn remove_undoes_insert_of_an_empty_text() {
    let mut list = EnumeratedStringList::<VideoChannelSpecifier>::from_str("CH-STEREO");
    assert!(list.insert(EnumeratedString::Unknown("")));
    assert_eq!("CH-STEREO,", list.as_ref());
    assert!(list.remove(EnumeratedString::Unknown("")));
    assert_eq!("CH-STEREO", list.as_ref());
}

#[test]
fn text_of_a_read_text_is_that_text() {
    assert_eq!("AES-128", EnumeratedString::<Method>::from_str("AES-128").as_cow());
    assert_eq!("OTHER", EnumeratedString::<Method>::from_str("OTHER").as_cow());
}

#[test]
fn attribute_lists_take_empty_names_and_empty_values_before_a_comma() {
    let list = TagValue(b"A=,B=1").try_as_attribute_list().expect("list");
    assert_eq!(2, list.len());
    assert_eq!(Some(&b""[..]), list.get("A").and_then(|v| v.unquoted()).map(|u| u.0));
    let list = TagValue(b"=1").try_as_attribute_list().expect("list");
    assert_eq!("", list.name_at(0));
    assert_eq!(
        Err(AttributeListSyntaxError::EmptyAttributeValue),
        TagValue(b"A=1,B=").try_as_attribute_list().map(|l| l.len())
    );
}

#[test]
fn attribute_lists_refuse_a_carriage_return_after_a_quoted_string() {
    assert_eq!(
        Err(AttributeListSyntaxError::UnexpectedWhitespaceAfterQuotedString),
        TagValue(b"A=\"x\"\r,B=1").try_as_attribute_list().map(|l| l.len())
    );
}
