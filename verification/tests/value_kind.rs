use quick_m3u8::error::{AttributeListSyntaxError, ParseTagValueError, ValidationError, ValidationErrorValueKind};
use quick_m3u8::tag::hls::byterange::Byterange;
use quick_m3u8::tag::hls::define::Define;
use quick_m3u8::tag::hls::key::Key;
use quick_m3u8::tag::hls::media::Media;
use quick_m3u8::tag::hls::playlist_type::PlaylistType;
use quick_m3u8::tag::hls::server_control::ServerControlLine;
use quick_m3u8::tag::hls::targetduration::Targetduration;
use quick_m3u8::tag::hls::version::Version;
use quick_m3u8::tag::hls::TagLine;
use quick_m3u8::tag::unknown::{self, Tag};
use quick_m3u8::tag::value::{value_kind, TagValue};

fn parsed(line: &str) -> Tag<'_> {
    unknown::parse(line).expect("tag line").parsed
}

fn wrong(kind: ValidationErrorValueKind) -> ValidationError {
    ValidationError::UnexpectedValueType(kind)
}

#[test]
fn value_kind_follows_the_first_line_feed_comma_or_equals() {
    assert_eq!(ValidationErrorValueKind::Empty, value_kind(None));
    assert_eq!(ValidationErrorValueKind::Unparsed, value_kind(Some(TagValue(b"42"))));
    assert_eq!(ValidationErrorValueKind::Unparsed, value_kind(Some(TagValue(b""))));
    assert_eq!(ValidationErrorValueKind::AttributeList, value_kind(Some(TagValue(b"A=1,B=2"))));
    assert_eq!(
        ValidationErrorValueKind::DecimalFloatingPointWithOptionalTitle,
        value_kind(Some(TagValue(b"6.0,A=1")))
    );
    assert_eq!(ValidationErrorValueKind::Unparsed, value_kind(Some(TagValue(b"x\nA=1"))));
}

#[test]
fn attribute_list_tags_refuse_a_value_of_another_kind() {
    assert_eq!(
        Err(wrong(ValidationErrorValueKind::Unparsed)),
        Define::try_from(parsed("#EXT-X-DEFINE:42")).map(|_| ())
    );
    assert_eq!(
        Err(wrong(ValidationErrorValueKind::Empty)),
        Define::try_from(parsed("#EXT-X-DEFINE")).map(|_| ())
    );
    assert_eq!(
        Err(wrong(ValidationErrorValueKind::DecimalFloatingPointWithOptionalTitle)),
        Key::try_from(parsed("#EXT-X-KEY:NONE,METHOD=NONE")).map(|_| ())
    );
    assert!(matches!(
        Define::try_from(parsed("#EXT-X-DEFINE:NAME=\"a\"")),
        Err(ValidationError::MissingRequiredAttribute("VALUE"))
    ));
    assert_eq!(
        Err(ValidationError::ErrorExtractingTagValue(ParseTagValueError::AttributeList(
            AttributeListSyntaxError::MissingEquals
        ))),
        Define::try_from(parsed("#EXT-X-DEFINE:NAME=\"a\",X")).map(|_| ())
    );
}

#[test]
fn unparsed_value_tags_refuse_a_value_of_another_kind() {
    assert_eq!(
        Err(wrong(ValidationErrorValueKind::AttributeList)),
        Version::try_from(parsed("#EXT-X-VERSION:V=3")).map(|v| v.version())
    );
    assert_eq!(
        Err(wrong(ValidationErrorValueKind::DecimalFloatingPointWithOptionalTitle)),
        Targetduration::try_from(parsed("#EXT-X-TARGETDURATION:6,")).map(|t| t.target_duration())
    );
    assert_eq!(
        Err(wrong(ValidationErrorValueKind::Empty)),
        Byterange::try_from(parsed("#EXT-X-BYTERANGE")).map(|_| ())
    );
    assert_eq!(
        Err(wrong(ValidationErrorValueKind::AttributeList)),
        PlaylistType::try_from(parsed("#EXT-X-PLAYLIST-TYPE:TYPE=VOD")).map(|_| ())
    );
    assert_eq!(
        Err(wrong(ValidationErrorValueKind::Unparsed)),
        TagLine::try_from(parsed("#EXT-X-SESSION-KEY:AES-128")).map(|t| t.name())
    );
    assert_eq!(
        Err(wrong(ValidationErrorValueKind::Empty)),
        ServerControlLine::try_from(&parsed("#EXT-X-SERVER-CONTROL")).map(|_| ())
    );
}

#[test]
fn tags_read_as_attribute_lists_elsewhere_keep_their_errors() {
    assert_eq!(
        Err(ValidationError::ErrorExtractingTagValue(ParseTagValueError::UnexpectedEmpty)),
        Media::try_from(parsed("#EXT-X-MEDIA")).map(|_| ())
    );
}
