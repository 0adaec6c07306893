use quick_m3u8::error::{ParseTagValueError, ValidationError};
use quick_m3u8::tag::hls::version::Version;
use quick_m3u8::tag::hls::{TagLine, TagName};
use quick_m3u8::tag::known::{KnownTagLine, NoCustomTag};
use quick_m3u8::tag::unknown::{self, Tag};

fn parsed(line: &str) -> Tag<'_> {
    unknown::parse(line).expect("tag line").parsed
}

fn read_back(line: &str) -> Vec<u8> {
    TagLine::try_from(parsed(line)).expect("tag").into_inner().value().to_vec()
}

#[test]
fn tag_line_reads_each_kind_by_its_name() {
    let lines = [
        ("#EXTM3U", TagName::M3u),
        ("#EXT-X-VERSION:7", TagName::Version),
        ("#EXT-X-INDEPENDENT-SEGMENTS", TagName::IndependentSegments),
        ("#EXT-X-START:TIME-OFFSET=10.5,PRECISE=YES", TagName::Start),
        ("#EXT-X-DEFINE:NAME=\"a\",VALUE=\"b\"", TagName::Define),
        ("#EXT-X-TARGETDURATION:6", TagName::Targetduration),
        ("#EXT-X-MEDIA-SEQUENCE:100", TagName::MediaSequence),
        ("#EXT-X-DISCONTINUITY-SEQUENCE:2", TagName::DiscontinuitySequence),
        ("#EXT-X-ENDLIST", TagName::Endlist),
        ("#EXT-X-PLAYLIST-TYPE:VOD", TagName::PlaylistType),
        ("#EXT-X-I-FRAMES-ONLY", TagName::IFramesOnly),
        ("#EXT-X-PART-INF:PART-TARGET=0.5", TagName::PartInf),
        ("#EXT-X-SERVER-CONTROL:CAN-BLOCK-RELOAD=YES", TagName::ServerControl),
        ("#EXTINF:6.006,title", TagName::Inf),
        ("#EXT-X-BYTERANGE:1024@512", TagName::Byterange),
        ("#EXT-X-DISCONTINUITY", TagName::Discontinuity),
        ("#EXT-X-KEY:METHOD=NONE", TagName::Key),
        ("#EXT-X-MAP:URI=\"init.mp4\"", TagName::XMap),
        ("#EXT-X-PROGRAM-DATE-TIME:2025-06-03T17:56:42.123Z", TagName::ProgramDateTime),
        ("#EXT-X-GAP", TagName::Gap),
        ("#EXT-X-BITRATE:10000", TagName::Bitrate),
        ("#EXT-X-PART:URI=\"p.mp4\",DURATION=0.5", TagName::Part),
        ("#EXT-X-DATERANGE:ID=\"a\",START-DATE=\"2025-06-03T17:56:42.123Z\"", TagName::Daterange),
        ("#EXT-X-SKIP:SKIPPED-SEGMENTS=3", TagName::Skip),
        ("#EXT-X-PRELOAD-HINT:TYPE=PART,URI=\"p.mp4\"", TagName::PreloadHint),
        ("#EXT-X-RENDITION-REPORT:URI=\"r.m3u8\",LAST-MSN=10", TagName::RenditionReport),
        ("#EXT-X-MEDIA:TYPE=AUDIO,NAME=\"English\",GROUP-ID=\"aac\"", TagName::Media),
        ("#EXT-X-STREAM-INF:BANDWIDTH=10000000", TagName::StreamInf),
        ("#EXT-X-I-FRAME-STREAM-INF:URI=\"i.m3u8\",BANDWIDTH=10", TagName::IFrameStreamInf),
        ("#EXT-X-SESSION-DATA:DATA-ID=\"d\",VALUE=\"v\"", TagName::SessionData),
        ("#EXT-X-SESSION-KEY:METHOD=AES-128,URI=\"k\"", TagName::SessionKey),
        ("#EXT-X-CONTENT-STEERING:SERVER-URI=\"s\"", TagName::ContentSteering),
    ];
    for (line, name) in lines {
        let tag = TagLine::try_from(parsed(line)).expect(line);
        assert_eq!(name, tag.name(), "{line}");
        assert_eq!(line.as_bytes(), tag.into_inner().value(), "{line}");
    }
}

#[test]
fn tag_line_reads_a_kind_as_that_kind_reads_it() {
    match TagLine::try_from(parsed("#EXT-X-VERSION:7")).expect("tag") {
        TagLine::Version(v) => assert_eq!(Version::new(7), v),
        _ => panic!("not a version tag"),
    }
    match TagLine::try_from(parsed("#EXTINF:6.006,A useful title")).expect("tag") {
        TagLine::Inf(l, line) => {
            assert_eq!(b"#EXTINF:6.006,A useful title".to_vec(), line);
            assert_eq!(b"6.006".to_vec(), l.duration);
            assert_eq!("A useful title", l.title);
        }
        _ => panic!("not an inf tag"),
    }
    assert_eq!(
        Err(ValidationError::UnexpectedTagName),
        TagLine::try_from(parsed("#EXT-X-NOT-A-TAG:1")).map(|t| t.name())
    );
    assert_eq!(
        Err(ValidationError::ErrorExtractingTagValue(ParseTagValueError::NotEmpty)),
        TagLine::try_from(parsed("#EXT-X-GAP:1")).map(|t| t.name())
    );
    assert_eq!(
        Err(ValidationError::MissingRequiredAttribute("BANDWIDTH")),
        TagLine::try_from(parsed("#EXT-X-STREAM-INF:CODECS=\"avc1\"")).map(|t| t.name())
    );
}

#[test]
fn tag_line_writes_the_line_that_a_kind_held_as_text_was_read_from() {
    assert_eq!(
        b"#EXT-X-STREAM-INF:BANDWIDTH=1,X-UNKNOWN=2".to_vec(),
        read_back("#EXT-X-STREAM-INF:BANDWIDTH=1,X-UNKNOWN=2")
    );
    assert_eq!(b"#EXTINF:6,".to_vec(), read_back("#EXTINF:6,"));
    assert_eq!(b"#EXTINF:6".to_vec(), read_back("#EXTINF:6"));
}

#[test]
fn known_tag_line_without_custom_tags_reads_hls_tags() {
    let tag = KnownTagLine::<NoCustomTag>::try_from(parsed("#EXT-X-TARGETDURATION:6")).expect("tag");
    assert_eq!(b"#EXT-X-TARGETDURATION:6", tag.into_inner().value());
    assert!(KnownTagLine::<NoCustomTag>::try_from(parsed("#EXT-X-NOT-A-TAG")).is_err());
}
