use quick_m3u8::date::{DateTime, DateTimeTimezoneOffset};
use quick_m3u8::error::{ParseTagValueError, ValidationError};
use quick_m3u8::tag::known::{
    calculate_output, CustomTag, CustomTagAccess, IntoInnerTag, KnownTagLine, NoCustomTag,
    WritableCustomTag, WritableTag,
};
use quick_m3u8::tag::unknown::{self, Tag};
use quick_m3u8::tag::value::{DecimalResolution, WritableAttributeValue, WritableTagValue};

fn parsed(line: &str) -> Tag<'_> {
    unknown::parse(line).expect("tag line").parsed
}

#[derive(Debug, PartialEq)]
struct TestTag {
    mutated: bool,
}

impl<'a> CustomTag<'a> for TestTag {
    fn is_known_name(name: &str) -> bool {
        name == "-X-TEST-TAG"
    }

    fn try_from_tag(tag: Tag<'a>) -> Result<Self, ValidationError> {
        let value = tag
            .value
            .ok_or(ValidationError::ErrorExtractingTagValue(ParseTagValueError::UnexpectedEmpty))?;
        let list = value
            .try_as_attribute_list()
            .map_err(|e| ValidationError::ErrorExtractingTagValue(ParseTagValueError::AttributeList(e)))?;
        let Some(mutated_str) = list
            .get("MUTATED")
            .and_then(|v| v.unquoted())
            .and_then(|v| v.try_as_utf_8().ok())
        else {
            return Err(ValidationError::MissingRequiredAttribute("MUTATED"));
        };
        match mutated_str {
            "NO" => Ok(Self { mutated: false }),
            "YES" => Ok(Self { mutated: true }),
            _ => Err(ValidationError::InvalidEnumeratedString),
        }
    }
}

impl<'a> WritableCustomTag<'a> for TestTag {
    fn into_writable_tag(self) -> WritableTag {
        let value = if self.mutated { "YES" } else { "NO" };
        WritableTag::new(
            "-X-TEST-TAG",
            WritableTagValue::AttributeList(vec![(
                "MUTATED".to_string(),
                WritableAttributeValue::UnquotedString(value.to_string()),
            )]),
        )
    }
}

#[test]
fn custom_tag_should_be_mutable() {
    let tag = parsed("#EXT-X-TEST-TAG:MUTATED=NO");
    assert!(TestTag::is_known_name(tag.name));
    let mut tag = CustomTagAccess::<TestTag>::try_from(tag).expect("custom tag");
    assert_eq!(false, tag.as_ref().mutated);
    tag.as_mut().mutated = true;
    assert_eq!(true, tag.as_ref().mutated);
    assert_eq!(b"#EXT-X-TEST-TAG:MUTATED=YES", tag.into_inner().value());
}

#[derive(Debug, PartialEq)]
struct WeirdTag {
    number: f64,
}

impl<'a> CustomTag<'a> for WeirdTag {
    fn is_known_name(name: &str) -> bool {
        name == "-X-WEIRD-TAG"
    }

    fn try_from_tag(tag: Tag<'a>) -> Result<Self, ValidationError> {
        let value = tag
            .value
            .ok_or(ValidationError::ErrorExtractingTagValue(ParseTagValueError::UnexpectedEmpty))?;
        let number = std::str::from_utf8(value.0)
            .ok()
            .and_then(|s| s.parse::<f64>().ok())
            .ok_or(ValidationError::NotImplemented)?;
        Ok(Self { number })
    }
}

impl<'a> WritableCustomTag<'a> for WeirdTag {
    fn into_writable_tag(self) -> WritableTag {
        WritableTag::new(
            "-X-WEIRD-TAG",
            WritableTagValue::AttributeList(vec![(
                "SO-WEIRD".to_string(),
                WritableAttributeValue::DecimalInteger(999),
            )]),
        )
    }
}

#[test]
fn custom_tag_should_only_use_into_writable_tag_when_mutated() {
    let data = "#EXT-X-WEIRD-TAG:42";
    let tag = CustomTagAccess::<WeirdTag>::try_from(parsed(data)).expect("custom tag");
    assert_eq!(42.0, tag.as_ref().number);
    assert_eq!(b"#EXT-X-WEIRD-TAG:42", tag.into_inner().value());

    let mut tag = CustomTagAccess::<WeirdTag>::try_from(parsed(data)).expect("custom tag");
    assert_eq!(42.0, tag.as_ref().number);
    tag.as_mut();
    assert_eq!(b"#EXT-X-WEIRD-TAG:SO-WEIRD=999", tag.into_inner().value());
}

#[test]
fn custom_tag_errors_pass_through() {
    assert_eq!(
        Err(ValidationError::InvalidEnumeratedString),
        CustomTagAccess::<TestTag>::try_from(parsed("#EXT-X-TEST-TAG:MUTATED=MAYBE"))
    );
    assert_eq!(
        Err(ValidationError::MissingRequiredAttribute("MUTATED")),
        CustomTagAccess::<TestTag>::try_from(parsed("#EXT-X-TEST-TAG:OTHER=NO"))
    );
}

#[test]
fn no_custom_tag_is_never_read() {
    assert!(!NoCustomTag::is_known_name("-X-TEST-TAG"));
    assert!(!NoCustomTag::is_known_name(""));
    assert_eq!(
        Err(ValidationError::NotImplemented),
        NoCustomTag::try_from_tag(parsed("#EXT-NO-TAG"))
    );
    assert_eq!(b"#EXT-NO-TAG", NoCustomTag.into_inner().value());
}

#[test]
fn writable_values_are_written() {
    let line = |value| calculate_output(&WritableTag::new("-X-EXAMPLE", value));
    assert_eq!(b"#EXT-X-EXAMPLE".to_vec(), line(WritableTagValue::Empty));
    assert_eq!(b"#EXT-X-EXAMPLE:42".to_vec(), line(WritableTagValue::DecimalInteger(42)));
    assert_eq!(b"#EXT-X-EXAMPLE:1024@512".to_vec(), line(WritableTagValue::DecimalIntegerRange(1024, Some(512))));
    assert_eq!(b"#EXT-X-EXAMPLE:1024".to_vec(), line(WritableTagValue::DecimalIntegerRange(1024, None)));
    assert_eq!(
        b"#EXT-X-EXAMPLE:3.14,pi".to_vec(),
        line(WritableTagValue::DecimalFloatingPointWithOptionalTitle("3.14".to_string(), "pi".to_string()))
    );
    assert_eq!(
        b"#EXT-X-EXAMPLE:3.14".to_vec(),
        line(WritableTagValue::DecimalFloatingPointWithOptionalTitle("3.14".to_string(), String::new()))
    );
    assert_eq!(b"#EXT-X-EXAMPLE:HELLO".to_vec(), line(WritableTagValue::Utf8("HELLO".to_string())));
    let date_time = DateTime {
        date_fullyear: 2025,
        date_month: 6,
        date_mday: 4,
        time_hour: 13,
        time_minute: 50,
        time_second: 42,
        time_millisecond: 148,
        timezone_offset: DateTimeTimezoneOffset { time_hour: 3, time_minute: 0 },
    };
    assert_eq!(
        b"#EXT-X-EXAMPLE:2025-06-04T13:50:42.148+03:00".to_vec(),
        line(WritableTagValue::DateTime(date_time))
    );
    assert_eq!(
        b"#EXT-X-EXAMPLE:VALUE=42,PI=3.14,RES=1920x1080,NAME=\"x\",TYPE=A".to_vec(),
        line(WritableTagValue::AttributeList(vec![
            ("VALUE".to_string(), WritableAttributeValue::DecimalInteger(42)),
            ("PI".to_string(), WritableAttributeValue::SignedDecimalFloatingPoint("3.14".to_string())),
            (
                "RES".to_string(),
                WritableAttributeValue::DecimalResolution(DecimalResolution { width: 1920, height: 1080 })
            ),
            ("NAME".to_string(), WritableAttributeValue::QuotedString("x".to_string())),
            ("TYPE".to_string(), WritableAttributeValue::UnquotedString("A".to_string())),
        ]))
    );
    assert_eq!(b"#EXT-X-EXAMPLE:".to_vec(), line(WritableTagValue::AttributeList(Vec::new())));
}

#[test]
fn custom_attribute_lines_read_back() {
    let tag = WritableTag::new(
        "-X-EXAMPLE",
        WritableTagValue::AttributeList(vec![
            ("COUNT".to_string(), WritableAttributeValue::DecimalInteger(42)),
            ("NAME".to_string(), WritableAttributeValue::QuotedString("a, b".to_string())),
            ("KIND".to_string(), WritableAttributeValue::UnquotedString("PART".to_string())),
        ]),
    );
    let line = String::from_utf8(calculate_output(&tag)).expect("UTF-8");
    let read = parsed(&line);
    assert_eq!("-X-EXAMPLE", read.name);
    let list = read.value.expect("value").try_as_attribute_list().expect("attribute list");
    assert_eq!(3, list.len());
    assert_eq!(Some(42), list.get("COUNT").and_then(|v| v.unquoted()).and_then(|v| v.try_as_decimal_integer().ok()));
    assert_eq!(Some("a, b"), list.get("NAME").and_then(|v| v.quoted()));
    assert_eq!(Some(&b"PART"[..]), list.get("KIND").and_then(|v| v.unquoted()).map(|v| v.0));
}

#[test]
fn custom_tag_access_takes_what_reading_gave() {
    let input = b"#EXT-X-TEST-TAG:MUTATED=YES";
    let access =
        CustomTagAccess::<TestTag>::from_read(&input[..], Ok(TestTag { mutated: true })).expect("read");
    assert_eq!(&TestTag { mutated: true }, access.as_ref());
    assert_eq!(input, access.into_inner().value());
    assert_eq!(
        Err(ValidationError::MissingRequiredAttribute("MUTATED")),
        CustomTagAccess::<TestTag>::from_read(
            &input[..],
            Err(ValidationError::MissingRequiredAttribute("MUTATED"))
        )
        .map(|a| a.as_ref().mutated)
    );
    assert_eq!(
        Err(ValidationError::MissingRequiredAttribute("MUTATED")),
        CustomTagAccess::<TestTag>::try_from(parsed("#EXT-X-TEST-TAG:OTHER=1")).map(|a| a.as_ref().mutated)
    );
}

#[test]
fn known_tag_line_reads_the_custom_tag_first() {
    match KnownTagLine::<TestTag>::try_from(parsed("#EXT-X-TEST-TAG:MUTATED=NO")).expect("tag") {
        KnownTagLine::Custom(a) => assert_eq!(&TestTag { mutated: false }, a.as_ref()),
        KnownTagLine::Hls(_) => panic!("read as an HLS tag"),
    }
    match KnownTagLine::<TestTag>::from_choice(parsed("#EXT-X-GAP"), false).expect("tag") {
        KnownTagLine::Hls(t) => assert_eq!(b"#EXT-X-GAP", t.into_inner().value()),
        KnownTagLine::Custom(_) => panic!("read as the custom tag"),
    }
}
