use quick_m3u8::date::{DateTime, DateTimeTimezoneOffset};
use quick_m3u8::tag::unknown;
use quick_m3u8::tag::value::{HlsPlaylistType, TagValue};

/// Runs `test` on the value of a tag line that ends in nothing, in CRLF and in LF.
fn with_each_line_ending(value: &str, test: impl Fn(TagValue<'_>)) {
    for ending in ["", "\r\n", "\n"] {
        let line = format!("#EXT-X-TEST:{value}{ending}");
        let tag = unknown::parse(&line).expect("tag line").parsed;
        test(tag.value.expect("value"));
    }
}

#[test]
fn tag_value_reads_playlist_types() {
    with_each_line_ending("EVENT", |v| {
        assert_eq!(b"EVENT", v.0);
        assert_eq!(Ok(HlsPlaylistType::Event), v.try_as_hls_playlist_type());
    });
    with_each_line_ending("VOD", |v| {
        assert_eq!(b"VOD", v.0);
        assert_eq!(Ok(HlsPlaylistType::Vod), v.try_as_hls_playlist_type());
    });
}

#[test]
fn tag_value_reads_decimal_integer() {
    with_each_line_ending("42", |v| {
        assert_eq!(b"42", v.0);
        assert_eq!(Ok(42), v.try_as_decimal_integer());
    });
}

#[test]
fn tag_value_reads_decimal_integer_range() {
    with_each_line_ending("42@42", |v| {
        assert_eq!(b"42@42", v.0);
        assert_eq!(Ok((42, Some(42))), v.try_as_decimal_integer_range());
    });
    with_each_line_ending("42", |v| {
        assert_eq!(Ok((42, None)), v.try_as_decimal_integer_range());
    });
}

#[test]
fn tag_value_reads_duration_and_optional_title() {
    with_each_line_ending("42.0", |v| {
        assert_eq!(Ok((&b"42.0"[..], "")), v.try_as_duration_and_title());
    });
    with_each_line_ending("42.42", |v| {
        assert_eq!(Ok((&b"42.42"[..], "")), v.try_as_duration_and_title());
    });
    with_each_line_ending("42,", |v| {
        assert_eq!(Ok((&b"42"[..], "")), v.try_as_duration_and_title());
    });
    with_each_line_ending("42,=ATTRIBUTE-VALUE", |v| {
        assert_eq!(Ok((&b"42"[..], "=ATTRIBUTE-VALUE")), v.try_as_duration_and_title());
    });
    with_each_line_ending("-42,", |v| {
        assert_eq!(Ok((&b"-42"[..], "")), v.try_as_duration_and_title());
    });
    with_each_line_ending("-42,=ATTRIBUTE-VALUE", |v| {
        assert_eq!(Ok((&b"-42"[..], "=ATTRIBUTE-VALUE")), v.try_as_duration_and_title());
    });
}

#[test]
fn tag_value_reads_date_time_with_milliseconds() {
    let at = |hour: i8, minute: u8| DateTime {
        date_fullyear: 2025,
        date_month: 6,
        date_mday: 3,
        time_hour: 17,
        time_minute: 56,
        time_second: 42,
        time_millisecond: 123,
        timezone_offset: DateTimeTimezoneOffset { time_hour: hour, time_minute: minute },
    };
    with_each_line_ending("2025-06-03T17:56:42.123Z", |v| {
        assert_eq!(Ok(at(0, 0)), v.try_as_date_time());
    });
    with_each_line_ending("2025-06-03T17:56:42.123+01:00", |v| {
        assert_eq!(Ok(at(1, 0)), v.try_as_date_time());
    });
    with_each_line_ending("2025-06-03T17:56:42.123-05:00", |v| {
        assert_eq!(Ok(at(-5, 0)), v.try_as_date_time());
    });
}

#[test]
fn attribute_list_reads_decimal_integers() {
    with_each_line_ending("NAME=123,NEXT-NAME=456", |v| {
        let list = v.try_as_attribute_list().expect("attribute list");
        assert_eq!(2, list.len());
        let int = |name: &str| {
            list.get(name).and_then(|a| a.unquoted()).and_then(|u| u.try_as_decimal_integer().ok())
        };
        assert_eq!(Some(123), int("NAME"));
        assert_eq!(Some(456), int("NEXT-NAME"));
    });
}

#[test]
fn attribute_list_keeps_signed_decimal_text() {
    with_each_line_ending("NAME=-42.42,NEXT-NAME=84.84", |v| {
        let list = v.try_as_attribute_list().expect("attribute list");
        let text = |name: &str| list.get(name).and_then(|a| a.unquoted()).map(|u| u.0);
        assert_eq!(Some(&b"-42.42"[..]), text("NAME"));
        assert_eq!(Some(&b"84.84"[..]), text("NEXT-NAME"));
        assert!(list.get("NAME").and_then(|a| a.unquoted()).expect("unquoted").try_as_decimal_integer().is_err());
    });
}

#[test]
fn attribute_list_reads_quoted_strings_with_commas() {
    with_each_line_ending("NAME=\"Hello, World!\"", |v| {
        let list = v.try_as_attribute_list().expect("attribute list");
        assert_eq!(1, list.len());
        assert_eq!(Some("Hello, World!"), list.get("NAME").and_then(|a| a.quoted()));
    });
    with_each_line_ending("NAME=\"Hello,\",NEXT-NAME=\"World!\"", |v| {
        let list = v.try_as_attribute_list().expect("attribute list");
        assert_eq!(2, list.len());
        assert_eq!(Some("Hello,"), list.get("NAME").and_then(|a| a.quoted()));
        assert_eq!(Some("World!"), list.get("NEXT-NAME").and_then(|a| a.quoted()));
    });
}

#[test]
fn attribute_list_reads_unquoted_strings() {
    with_each_line_ending("NAME=PQ,NEXT-NAME=HLG", |v| {
        let list = v.try_as_attribute_list().expect("attribute list");
        let text = |name: &str| {
            list.get(name).and_then(|a| a.unquoted()).and_then(|u| u.try_as_utf_8().ok())
        };
        assert_eq!(Some("PQ"), text("NAME"));
        assert_eq!(Some("HLG"), text("NEXT-NAME"));
        assert_eq!(None, list.get("NAME").and_then(|a| a.quoted()));
    });
}
