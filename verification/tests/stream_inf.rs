use quick_m3u8::tag::hls::enumerated_string::{AsStaticCow, EnumeratedString, EnumeratedStringList, EnumeratedValue};
use quick_m3u8::tag::hls::stream_inf::{
    HdcpLevel, VideoChannelSpecifier, VideoLayout, VideoProjectionSpecifier, VideoRange,
};

#[test]
fn new_view_presentation_entries_displays_as_expected() {
    assert_eq!(
        "CH-STEREO",
        VideoLayout::new(
            EnumeratedStringList::from_values(vec![EnumeratedString::Known(VideoChannelSpecifier::Stereo)]),
            EnumeratedStringList::from_str("")
        )
        .as_ref()
    );
    assert_eq!(
        "CH-MONO,CH-STEREO",
        VideoLayout::new(
            EnumeratedStringList::from_values(vec![
                EnumeratedString::Known(VideoChannelSpecifier::Mono),
                EnumeratedString::Known(VideoChannelSpecifier::Stereo)
            ]),
            EnumeratedStringList::from_str("")
        )
        .as_ref()
    );
    assert_eq!(
        "PROJ-EQUI",
        VideoLayout::new(
            EnumeratedStringList::from_str(""),
            EnumeratedStringList::from_values(vec![EnumeratedString::Known(
                VideoProjectionSpecifier::Equirectangular
            )])
        )
        .as_ref()
    );
    assert_eq!(
        "CH-STEREO/PROJ-PRIM",
        VideoLayout::new(
            EnumeratedStringList::from_values(vec![EnumeratedString::Known(VideoChannelSpecifier::Stereo)]),
            EnumeratedStringList::from_values(vec![EnumeratedString::Known(
                VideoProjectionSpecifier::ParametricImmersive
            )])
        )
        .as_ref()
    );
}

#[test]
fn view_presentation_entries_ordering_does_not_matter() {
    let entries = VideoLayout::from_str("CH-STEREO/PROJ-HEQU");
    assert!(
        entries.channels().contains(EnumeratedString::Known(VideoChannelSpecifier::Stereo)),
        "should contain Stereo entry"
    );
    assert!(
        entries
            .projection()
            .contains(EnumeratedString::Known(VideoProjectionSpecifier::HalfEquirectangular)),
        "should contain HalfEqurectangular entry"
    );

    let entries = VideoLayout::from_str("PROJ-HEQU/CH-STEREO");
    assert!(
        entries.channels().contains(EnumeratedString::Known(VideoChannelSpecifier::Stereo)),
        "should contain Stereo entry"
    );
    assert!(
        entries
            .projection()
            .contains(EnumeratedString::Known(VideoProjectionSpecifier::HalfEquirectangular)),
        "should contain HalfEqurectangular entry"
    );
}

#[test]
fn video_layout_exposes_unknown_entries_and_empty_lists() {
    let layout = VideoLayout::from_str("CH-STEREO/NEURAL-INJECT/PROJ-PRIM");
    assert_eq!(vec!["NEURAL-INJECT"], layout.unknown_entries());
    let only_channels = VideoLayout::from_str("CH-3D");
    assert_eq!(1, only_channels.channels().iter().len());
    assert!(only_channels.channels().contains(EnumeratedString::Unknown("CH-3D")));
    assert!(only_channels.projection().is_empty());
}

#[test]
fn stream_inf_enumerations_round_trip() {
    for h in [HdcpLevel::NotRequired, HdcpLevel::Type0, HdcpLevel::Type1] {
        assert_eq!(Ok(h), HdcpLevel::try_from_str(&h.as_cow()));
    }
    assert_eq!("TYPE-1", HdcpLevel::Type1.as_cow());
    for v in [VideoRange::Sdr, VideoRange::Hlg, VideoRange::Pq] {
        assert_eq!(Ok(v), VideoRange::try_from_str(&v.as_cow()));
    }
    assert!(VideoRange::try_from_str("HDR").is_err());
}
