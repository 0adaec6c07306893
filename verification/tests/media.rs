use quick_m3u8::tag::hls::enumerated_string::{
    AsStaticCow, EnumeratedString, EnumeratedStringList, EnumeratedValue, GetKnown,
};
use quick_m3u8::tag::hls::media::{
    AudioCodingIdentifier, Cea608InstreamId, ChannelSpecialUsageIdentifier, Channels, GetValid,
    InstreamId, Media, MediaCharacteristicTag, MediaType, ValidChannels,
};

fn channels_test_instances() -> [ValidChannels; 3] {
    [
        ValidChannels::new(2, EnumeratedStringList::from_str(""), EnumeratedStringList::from_str("")),
        ValidChannels::new(
            12,
            EnumeratedStringList::from_values(vec![EnumeratedString::Known(
                AudioCodingIdentifier::JointObjectCoding,
            )]),
            EnumeratedStringList::from_str(""),
        ),
        ValidChannels::new(
            16,
            EnumeratedStringList::from_values(vec![EnumeratedString::Known(
                AudioCodingIdentifier::OrderOfAmbisonics(3),
            )]),
            EnumeratedStringList::from_values(vec![
                EnumeratedString::Known(ChannelSpecialUsageIdentifier::Immersive),
                EnumeratedString::Known(ChannelSpecialUsageIdentifier::DegreesOfFreedom(6)),
            ]),
        ),
    ]
}

#[test]
fn media_as_str_with_no_options_should_be_valid() {
    assert_eq!(
        "#EXT-X-MEDIA:TYPE=CLOSED-CAPTIONS,NAME=\"English\",GROUP-ID=\"cc\",INSTREAM-ID=\"CC1\"".as_bytes(),
        Media::builder()
            .with_media_type(&MediaType::ClosedCaptions.as_cow())
            .with_name("English")
            .with_group_id("cc")
            .with_instream_id("CC1")
            .finish()
            .into_inner()
            .value()
    );
}

#[test]
fn media_as_str_with_options_should_be_valid() {
    assert_eq!(
        "#EXT-X-MEDIA:TYPE=AUDIO,NAME=\"English\",GROUP-ID=\"stereo\",URI=\"audio/en/stereo.m3u8\",LANGUAGE=\"en\",ASSOC-LANGUAGE=\"en\",STABLE-RENDITION-ID=\"1234\",DEFAULT=YES,AUTOSELECT=YES,FORCED=YES,BIT-DEPTH=8,SAMPLE-RATE=48000,CHARACTERISTICS=\"public.accessibility.describes-video\",CHANNELS=\"2\"".as_bytes(),
        Media::builder()
            .with_media_type(&MediaType::Audio.as_cow())
            .with_name("English")
            .with_group_id("stereo")
            .with_uri("audio/en/stereo.m3u8")
            .with_language("en")
            .with_assoc_language("en")
            .with_stable_rendition_id("1234")
            .with_default()
            .with_autoselect()
            .with_forced()
            .with_bit_depth(8)
            .with_sample_rate(48000)
            .with_characteristics("public.accessibility.describes-video")
            .with_channels("2")
            .finish()
            .into_inner()
            .value()
    );
}

#[test]
fn instream_id_cea_708_values_parse_and_display_as_expected() {
    let s = "SERVICE42";
    assert_eq!(Ok(InstreamId::Cea708(42)), InstreamId::try_from_str(s));
    assert_eq!(s, InstreamId::Cea708(42).as_cow());
}

#[test]
fn channel_special_usage_identifier_bed_parses_and_displays_as_expected() {
    let s = "BED-4";
    assert_eq!(
        Ok(ChannelSpecialUsageIdentifier::Bed(4)),
        ChannelSpecialUsageIdentifier::try_from_str(s)
    );
    assert_eq!(s, ChannelSpecialUsageIdentifier::Bed(4).as_cow());
}

#[test]
fn channel_special_usage_identifier_dof_parses_and_displays_as_expected() {
    let s = "DOF-3";
    assert_eq!(
        Ok(ChannelSpecialUsageIdentifier::DegreesOfFreedom(3)),
        ChannelSpecialUsageIdentifier::try_from_str(s)
    );
    assert_eq!(s, ChannelSpecialUsageIdentifier::DegreesOfFreedom(3).as_cow());
}

#[test]
fn audio_coding_identifier_order_of_ambisonics_parses_and_displays_as_expected() {
    let s = "3OA";
    assert_eq!(
        Ok(AudioCodingIdentifier::OrderOfAmbisonics(3)),
        AudioCodingIdentifier::try_from_str(s)
    );
    assert_eq!(s, AudioCodingIdentifier::OrderOfAmbisonics(3).as_cow());
}

#[test]
fn new_channels_displays_as_expected() {
    let test_instances = channels_test_instances();
    assert_eq!("2", test_instances[0].as_ref());
    assert_eq!("12/JOC", test_instances[1].as_ref());
    assert_eq!("16/3OA/IMMERSIVE,DOF-6", test_instances[2].as_ref());
}

#[test]
fn channels_count_works_as_expected() {
    let test_instances = channels_test_instances();
    assert_eq!(2, test_instances[0].count());
    assert_eq!(12, test_instances[1].count());
    assert_eq!(16, test_instances[2].count());
}

#[test]
fn channels_spatial_works_as_expected() {
    let test_instances = channels_test_instances();
    assert!(test_instances[0].spatial_audio().is_empty(), "spatial should be empty");
    assert!(
        test_instances[1]
            .spatial_audio()
            .contains(EnumeratedString::Known(AudioCodingIdentifier::JointObjectCoding)),
        "spatial should contain JOC"
    );
    assert!(
        test_instances[2]
            .spatial_audio()
            .contains(EnumeratedString::Known(AudioCodingIdentifier::OrderOfAmbisonics(3))),
        "spatial should contain 3OA"
    );
}

#[test]
fn channels_special_works_as_expected() {
    let test_instances = channels_test_instances();
    assert!(test_instances[0].special_usage().is_empty(), "special should be empty");
    assert!(test_instances[1].special_usage().is_empty(), "special should be empty");
    assert!(
        test_instances[2]
            .special_usage()
            .contains(EnumeratedString::Known(ChannelSpecialUsageIdentifier::Immersive)),
        "spatial should contain 3OA"
    );
    assert!(test_instances[2]
        .special_usage()
        .contains(EnumeratedString::Known(ChannelSpecialUsageIdentifier::DegreesOfFreedom(6))))
}

#[test]
fn channels_reads_special_usage_after_a_dash_and_trims() {
    let channels = ValidChannels::try_from("6/-/DOWNMIX,BED-4").expect("valid");
    assert_eq!(6, channels.count());
    assert!(channels.spatial_audio().is_empty());
    assert_eq!(2, channels.special_usage().iter().len());
    assert!(channels
        .special_usage()
        .contains(EnumeratedString::Known(ChannelSpecialUsageIdentifier::Bed(4))));
    let padded = ValidChannels::try_from("6/ JOC /x/y/z").expect("valid");
    assert_eq!("JOC", padded.spatial_audio().as_ref());
    assert_eq!(vec!["y", "z"], padded.unknown_parameters());
    assert!(ValidChannels::try_from("six/JOC").is_err());
    assert!(matches!(Channels::from_str("x"), Channels::Invalid("x")));
    assert_eq!(Some(6), Some(Channels::from_str("6")).valid().map(|c| c.count()));
}

#[test]
fn media_getters_follow_setters() {
    let mut media = Media::builder()
        .with_media_type("u")
        .with_name("n")
        .with_group_id("g")
        .finish();
    assert_eq!(EnumeratedString::Unknown("u"), media.media_type());
    media.set_media_type("VIDEO");
    assert_eq!(EnumeratedString::Known(MediaType::Video), media.media_type());
    media.set_uri("example");
    assert_eq!(Some("example"), media.uri());
    media.unset_uri();
    assert_eq!(None, media.uri());
    media.set_bit_depth(10);
    assert_eq!(Some(10), media.bit_depth());
    media.set_instream_id("CC1");
    assert_eq!(Some(InstreamId::Cea608(Cea608InstreamId::Cc1)), media.instream_id().known());
    media.set_characteristics("public.easy-to-read");
    assert!(media
        .characteristics()
        .expect("set")
        .contains(EnumeratedString::Known(MediaCharacteristicTag::EasyToRead)));
    media.set_channels("12/JOC");
    assert_eq!("12/JOC", media.channels().valid().expect("valid").as_ref());
    media.set_default(true);
    assert_eq!(
        "#EXT-X-MEDIA:TYPE=VIDEO,NAME=\"n\",GROUP-ID=\"g\",DEFAULT=YES,INSTREAM-ID=\"CC1\",BIT-DEPTH=10,CHARACTERISTICS=\"public.easy-to-read\",CHANNELS=\"12/JOC\"".as_bytes(),
        media.into_inner().value()
    );
}

#[test]
fn media_type_text_round_trips() {
    for t in [MediaType::Audio, MediaType::Video, MediaType::Subtitles, MediaType::ClosedCaptions] {
        assert_eq!(Ok(t), MediaType::try_from_str(&t.as_cow()));
    }
    assert!(MediaType::try_from_str("audio").is_err());
}
