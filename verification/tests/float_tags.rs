use quick_m3u8::date::{DateTime, DateTimeTimezoneOffset};
use quick_m3u8::error::{ParseFloatError, ParseTagValueError, ValidationError};
use quick_m3u8::tag::hls::daterange::{self, Cue, DaterangeLine, ExtensionValue};
use quick_m3u8::tag::hls::enumerated_string::{EnumeratedString, EnumeratedStringList};
use quick_m3u8::tag::hls::i_frame_stream_inf::{self, IFrameStreamInfLine};
use quick_m3u8::tag::hls::inf;
use quick_m3u8::tag::hls::part::{self, PartByterange, PartLine};
use quick_m3u8::tag::hls::part_inf::{self, PartInfLine};
use quick_m3u8::tag::hls::server_control::{self, ServerControlLine};
use quick_m3u8::tag::hls::start::{self, StartLine};
use quick_m3u8::tag::hls::stream_inf::{self, StreamInfLine};
use quick_m3u8::tag::unknown::{self, Tag};
use quick_m3u8::tag::value::DecimalResolution;

fn parsed(line: &str) -> Tag<'_> {
    unknown::parse(line).expect("tag line").parsed
}

fn text(s: &str) -> Option<String> {
    Some(s.to_string())
}

fn stream_inf_line(bandwidth: u64) -> StreamInfLine {
    StreamInfLine {
        bandwidth,
        average_bandwidth: None,
        score: None,
        codecs: None,
        supplemental_codecs: None,
        resolution: None,
        frame_rate: None,
        hdcp_level: None,
        allowed_cpc: None,
        video_range: None,
        req_video_layout: None,
        stable_variant_id: None,
        audio: None,
        video: None,
        subtitles: None,
        closed_captions: None,
        pathway_id: None,
    }
}

fn full_stream_inf_line() -> StreamInfLine {
    StreamInfLine {
        bandwidth: 10000000,
        average_bandwidth: Some(9000000),
        score: text("2.0"),
        codecs: text("hvc1.2.4.L153.b0,ec-3"),
        supplemental_codecs: text("dvh1.08.07/db4h"),
        resolution: Some(DecimalResolution { width: 3840, height: 2160 }),
        frame_rate: text("23.976"),
        hdcp_level: text("TYPE-1"),
        allowed_cpc: text("com.example.drm1:SMART-TV/PC"),
        video_range: text("PQ"),
        req_video_layout: text("CH-STEREO,CH-MONO"),
        stable_variant_id: text("1234"),
        audio: text("surround"),
        video: text("alternate-view"),
        subtitles: text("subs"),
        closed_captions: text("cc"),
        pathway_id: text("1234"),
    }
}

#[test]
fn stream_inf_as_str_with_no_options_should_be_valid() {
    assert_eq!(
        b"#EXT-X-STREAM-INF:BANDWIDTH=10000000",
        stream_inf::calculate_line(&stream_inf_line(10000000)).as_slice()
    );
}

#[test]
fn stream_inf_as_str_with_options_should_be_valid() {
    assert_eq!(
        "#EXT-X-STREAM-INF:BANDWIDTH=10000000,AVERAGE-BANDWIDTH=9000000,SCORE=2.0,CODECS=\"hvc1.2.4.L153.b0,ec-3\",SUPPLEMENTAL-CODECS=\"dvh1.08.07/db4h\",RESOLUTION=3840x2160,FRAME-RATE=23.976,HDCP-LEVEL=TYPE-1,ALLOWED-CPC=\"com.example.drm1:SMART-TV/PC\",VIDEO-RANGE=PQ,REQ-VIDEO-LAYOUT=\"CH-STEREO,CH-MONO\",STABLE-VARIANT-ID=\"1234\",AUDIO=\"surround\",VIDEO=\"alternate-view\",SUBTITLES=\"subs\",CLOSED-CAPTIONS=\"cc\",PATHWAY-ID=\"1234\""
        .as_bytes(),
        stream_inf::calculate_line(&full_stream_inf_line()).as_slice()
    );
}

#[test]
fn stream_inf_line_reads_back() {
    let line = String::from_utf8(stream_inf::calculate_line(&full_stream_inf_line())).expect("UTF-8");
    assert_eq!(Ok(full_stream_inf_line()), StreamInfLine::try_from(&parsed(&line)));
}

#[test]
fn stream_inf_needs_an_integer_bandwidth() {
    assert_eq!(
        Err(ValidationError::MissingRequiredAttribute("BANDWIDTH")),
        StreamInfLine::try_from(&parsed("#EXT-X-STREAM-INF:BANDWIDTH=1.5,CODECS=\"avc1\""))
    );
    let read = StreamInfLine::try_from(&parsed(
        "#EXT-X-STREAM-INF:BANDWIDTH=100,RESOLUTION=\"1x1\",SCORE=\"2\",AUDIO=aud",
    ))
    .expect("attributes");
    assert_eq!(stream_inf_line(100), read);
}

fn full_i_frame_stream_inf_line() -> IFrameStreamInfLine {
    IFrameStreamInfLine {
        uri: "iframe.high.m3u8".to_string(),
        bandwidth: 10000000,
        average_bandwidth: Some(9000000),
        score: text("2.0"),
        codecs: text("hvc1.2.4.L153.b0,ec-3"),
        supplemental_codecs: text("dvh1.08.07/db4h"),
        resolution: Some(DecimalResolution { width: 3840, height: 2160 }),
        hdcp_level: text("TYPE-1"),
        allowed_cpc: text("com.example.drm1:SMART-TV/PC"),
        video_range: text("PQ"),
        req_video_layout: text("CH-STEREO,CH-MONO"),
        stable_variant_id: text("1234"),
        video: text("alternate-view"),
        pathway_id: text("1234"),
    }
}

#[test]
fn i_frame_stream_inf_as_str_with_no_options_should_be_valid() {
    let line = IFrameStreamInfLine {
        uri: "example.iframe.m3u8".to_string(),
        bandwidth: 10000000,
        average_bandwidth: None,
        score: None,
        codecs: None,
        supplemental_codecs: None,
        resolution: None,
        hdcp_level: None,
        allowed_cpc: None,
        video_range: None,
        req_video_layout: None,
        stable_variant_id: None,
        video: None,
        pathway_id: None,
    };
    assert_eq!(
        b"#EXT-X-I-FRAME-STREAM-INF:URI=\"example.iframe.m3u8\",BANDWIDTH=10000000",
        i_frame_stream_inf::calculate_line(&line).as_slice()
    );
}

#[test]
fn i_frame_stream_inf_as_str_with_options_should_be_valid() {
    assert_eq!(
        "#EXT-X-I-FRAME-STREAM-INF:URI=\"iframe.high.m3u8\",BANDWIDTH=10000000,AVERAGE-BANDWIDTH=9000000,SCORE=2.0,CODECS=\"hvc1.2.4.L153.b0,ec-3\",SUPPLEMENTAL-CODECS=\"dvh1.08.07/db4h\",RESOLUTION=3840x2160,HDCP-LEVEL=TYPE-1,ALLOWED-CPC=\"com.example.drm1:SMART-TV/PC\",VIDEO-RANGE=PQ,REQ-VIDEO-LAYOUT=\"CH-STEREO,CH-MONO\",STABLE-VARIANT-ID=\"1234\",VIDEO=\"alternate-view\",PATHWAY-ID=\"1234\""
        .as_bytes(),
        i_frame_stream_inf::calculate_line(&full_i_frame_stream_inf_line()).as_slice()
    );
}

#[test]
fn i_frame_stream_inf_line_reads_back_and_needs_uri_then_bandwidth() {
    let line =
        String::from_utf8(i_frame_stream_inf::calculate_line(&full_i_frame_stream_inf_line()))
            .expect("UTF-8");
    assert_eq!(Ok(full_i_frame_stream_inf_line()), IFrameStreamInfLine::try_from(&parsed(&line)));
    assert_eq!(
        Err(ValidationError::MissingRequiredAttribute("URI")),
        IFrameStreamInfLine::try_from(&parsed("#EXT-X-I-FRAME-STREAM-INF:BANDWIDTH=10"))
    );
    assert_eq!(
        Err(ValidationError::MissingRequiredAttribute("BANDWIDTH")),
        IFrameStreamInfLine::try_from(&parsed("#EXT-X-I-FRAME-STREAM-INF:URI=\"i.m3u8\""))
    );
}

#[test]
fn part_inf_as_str_should_be_valid() {
    assert_eq!(
        b"#EXT-X-PART-INF:PART-TARGET=0.5",
        part_inf::calculate_line(&PartInfLine { part_target: "0.5".to_string() }).as_slice()
    );
}

#[test]
fn part_inf_reads_its_target_text() {
    assert_eq!(
        Ok(PartInfLine { part_target: "0.5".to_string() }),
        PartInfLine::try_from(&parsed("#EXT-X-PART-INF:PART-TARGET=0.5"))
    );
    assert_eq!(
        Err(ValidationError::MissingRequiredAttribute("PART-TARGET")),
        PartInfLine::try_from(&parsed("#EXT-X-PART-INF:PART-TARGET=\"0.5\""))
    );
}

fn server_control_line(
    can_skip_until: Option<String>,
    can_skip_dateranges: bool,
    hold_back: Option<String>,
    part_hold_back: Option<String>,
    can_block_reload: bool,
) -> ServerControlLine {
    ServerControlLine { can_skip_until, can_skip_dateranges, hold_back, part_hold_back, can_block_reload }
}

#[test]
fn as_str_with_one_value_should_be_valid() {
    assert_eq!(
        b"#EXT-X-SERVER-CONTROL:CAN-SKIP-UNTIL=36.0",
        server_control::calculate_line(&server_control_line(text("36.0"), false, None, None, false))
            .as_slice()
    );
}

#[test]
fn as_str_with_bools_should_be_valid() {
    assert_eq!(
        b"#EXT-X-SERVER-CONTROL:CAN-SKIP-DATERANGES=YES,CAN-BLOCK-RELOAD=YES",
        server_control::calculate_line(&server_control_line(None, true, None, None, true)).as_slice()
    );
}

#[test]
fn as_str_with_all_options_should_be_valid() {
    assert_eq!(
        "#EXT-X-SERVER-CONTROL:CAN-SKIP-UNTIL=36.0,CAN-SKIP-DATERANGES=YES,HOLD-BACK=18.0,PART-HOLD-BACK=1.5,CAN-BLOCK-RELOAD=YES"
        .as_bytes(),
        server_control::calculate_line(&server_control_line(
            text("36.0"),
            true,
            text("18.0"),
            text("1.5"),
            true
        ))
        .as_slice()
    );
}

#[test]
fn server_control_with_no_attributes_writes_an_empty_list() {
    assert_eq!(
        b"#EXT-X-SERVER-CONTROL:",
        server_control::calculate_line(&server_control_line(None, false, None, None, false))
            .as_slice()
    );
    assert_eq!(
        Ok(server_control_line(text("36"), true, text("12"), text("1.5"), true)),
        ServerControlLine::try_from(&parsed(
            "#EXT-X-SERVER-CONTROL:CAN-SKIP-UNTIL=36,CAN-SKIP-DATERANGES=YES,HOLD-BACK=12,PART-HOLD-BACK=1.5,CAN-BLOCK-RELOAD=YES"
        ))
    );
}

#[test]
fn as_str_without_precise_should_be_valid() {
    assert_eq!(
        b"#EXT-X-START:TIME-OFFSET=-42",
        start::calculate_line(&StartLine { time_offset: "-42".to_string(), precise: false })
            .as_slice()
    );
}

#[test]
fn as_str_with_precise_should_be_valid() {
    assert_eq!(
        b"#EXT-X-START:TIME-OFFSET=-42,PRECISE=YES",
        start::calculate_line(&StartLine { time_offset: "-42".to_string(), precise: true })
            .as_slice()
    );
}

#[test]
fn start_reads_its_offset_text_and_precise_flag() {
    assert_eq!(
        Ok(StartLine { time_offset: "10.5".to_string(), precise: true }),
        StartLine::try_from(&parsed("#EXT-X-START:TIME-OFFSET=10.5,PRECISE=YES"))
    );
    assert_eq!(
        Ok(StartLine { time_offset: "10.5".to_string(), precise: false }),
        StartLine::try_from(&parsed("#EXT-X-START:TIME-OFFSET=10.5,PRECISE=NO"))
    );
    assert_eq!(
        Err(ValidationError::MissingRequiredAttribute("TIME-OFFSET")),
        StartLine::try_from(&parsed("#EXT-X-START:PRECISE=YES"))
    );
}

fn part_line(independent: bool, byterange: Option<PartByterange>, gap: bool) -> PartLine {
    PartLine {
        uri: "part.1.0.mp4".to_string(),
        duration: "0.5".to_string(),
        independent,
        byterange,
        gap,
    }
}

#[test]
fn part_as_str_with_no_options_should_be_valid() {
    assert_eq!(
        b"#EXT-X-PART:URI=\"part.1.0.mp4\",DURATION=0.5",
        part::calculate_line(&part_line(false, None, false)).as_slice()
    );
}

#[test]
fn as_str_with_options_no_byterange_offset_should_be_valid() {
    assert_eq!(
        b"#EXT-X-PART:URI=\"part.1.0.mp4\",DURATION=0.5,INDEPENDENT=YES,BYTERANGE=\"1024\",GAP=YES",
        part::calculate_line(&part_line(true, Some(PartByterange { length: 1024, offset: None }), true))
            .as_slice()
    );
}

#[test]
fn as_str_with_options_with_byterange_offset_should_be_valid() {
    assert_eq!(
        b"#EXT-X-PART:URI=\"part.1.0.mp4\",DURATION=0.5,INDEPENDENT=YES,BYTERANGE=\"1024@512\",GAP=YES",
        part::calculate_line(&part_line(
            true,
            Some(PartByterange { length: 1024, offset: Some(512) }),
            true
        ))
        .as_slice()
    );
}

#[test]
fn part_reads_back_and_needs_uri_then_duration() {
    let written = part_line(true, Some(PartByterange { length: 1024, offset: Some(512) }), true);
    let line = String::from_utf8(part::calculate_line(&written)).expect("UTF-8");
    assert_eq!(Ok(written), PartLine::try_from(&parsed(&line)));
    assert_eq!(
        Err(ValidationError::MissingRequiredAttribute("URI")),
        PartLine::try_from(&parsed("#EXT-X-PART:DURATION=0.5"))
    );
    assert_eq!(
        Err(ValidationError::MissingRequiredAttribute("DURATION")),
        PartLine::try_from(&parsed("#EXT-X-PART:URI=\"p.mp4\""))
    );
    assert_eq!(
        Ok(part_line(false, None, false)),
        PartLine::try_from(&parsed("#EXT-X-PART:URI=\"part.1.0.mp4\",DURATION=0.5,BYTERANGE=1024"))
    );
}

#[test]
fn as_str_should_be_valid_with_empty_title() {
    assert_eq!(b"#EXTINF:6", inf::calculate_line("6", "").as_slice());
    assert_eq!(b"#EXTINF:6.006", inf::calculate_line("6.006", "").as_slice());
}

#[test]
fn as_str_should_be_valid_with_some_title() {
    assert_eq!(b"#EXTINF:6,title", inf::calculate_line("6", "title").as_slice());
    assert_eq!(b"#EXTINF:6.006,title", inf::calculate_line("6.006", "title").as_slice());
}

#[test]
fn inf_reads_duration_and_title() {
    assert_eq!(Ok((&b"6"[..], "")), inf::duration_and_title(&parsed("#EXTINF:6")));
    assert_eq!(Ok((&b"6.006"[..], "")), inf::duration_and_title(&parsed("#EXTINF:6.006,")));
    assert_eq!(
        Ok((&b"6.006"[..], "A useful title")),
        inf::duration_and_title(&parsed("#EXTINF:6.006,A useful title"))
    );
    assert_eq!(
        Err(ValidationError::ErrorExtractingTagValue(ParseTagValueError::UnexpectedEmpty)),
        inf::duration_and_title(&parsed("#EXTINF"))
    );
    let not_utf8 = Tag {
        name: "INF",
        value: Some(quick_m3u8::tag::value::TagValue(&b"6,\xff"[..])),
        original_input: &b"#EXTINF:6,\xff"[..],
        validation_error: None,
    };
    assert_eq!(
        Err(ValidationError::ErrorExtractingTagValue(ParseTagValueError::DecimalFloatingPoint(ParseFloatError))),
        inf::duration_and_title(&not_utf8)
    );
}

fn date(hour: u8, minute: u8, second: u8) -> DateTime {
    DateTime {
        date_fullyear: 2025,
        date_month: 6,
        date_mday: 14,
        time_hour: hour,
        time_minute: minute,
        time_second: second,
        time_millisecond: 0,
        timezone_offset: DateTimeTimezoneOffset { time_hour: -5, time_minute: 0 },
    }
}

fn epoch() -> DateTime {
    DateTime {
        date_fullyear: 1970,
        date_month: 1,
        date_mday: 1,
        time_hour: 0,
        time_minute: 0,
        time_second: 0,
        time_millisecond: 0,
        timezone_offset: DateTimeTimezoneOffset { time_hour: 0, time_minute: 0 },
    }
}

fn daterange_line(id: &str, start_date: DateTime) -> DaterangeLine {
    DaterangeLine {
        id: id.to_string(),
        start_date,
        class: None,
        cue: None,
        end_date: None,
        duration: None,
        planned_duration: None,
        extension_attributes: Vec::new(),
        end_on_next: false,
        scte35_cmd: None,
        scte35_out: None,
        scte35_in: None,
    }
}

#[test]
fn new_with_no_optionals_should_be_valid() {
    assert_eq!(
        b"#EXT-X-DATERANGE:ID=\"some-id\",START-DATE=\"2025-06-14T23:41:42.000-05:00\"",
        daterange::calculate_line(&daterange_line("some-id", date(23, 41, 42))).as_slice()
    );
}

fn full_daterange_line() -> DaterangeLine {
    DaterangeLine {
        class: text("com.example.class"),
        cue: Some(EnumeratedStringList::<Cue>::from_values(vec![EnumeratedString::Known(Cue::Once)]).to_string()),
        end_date: Some(date(23, 43, 42)),
        duration: text("120"),
        planned_duration: text("180"),
        end_on_next: true,
        scte35_cmd: text("0xABCD"),
        scte35_out: text("0xABCD"),
        scte35_in: text("0xABCD"),
        ..daterange_line("some-id", date(23, 41, 42))
    }
}

#[test]
fn new_with_optionals_should_be_valid() {
    assert_eq!(
        "#EXT-X-DATERANGE:ID=\"some-id\",START-DATE=\"2025-06-14T23:41:42.000-05:00\",CLASS=\"com.example.class\",CUE=\"ONCE\",END-DATE=\"2025-06-14T23:43:42.000-05:00\",DURATION=120,PLANNED-DURATION=180,SCTE35-CMD=0xABCD,SCTE35-OUT=0xABCD,SCTE35-IN=0xABCD,END-ON-NEXT=YES"
        .as_bytes(),
        daterange::calculate_line(&full_daterange_line()).as_slice()
    );
}

#[test]
fn new_with_optionals_and_some_client_attributes_should_be_valid() {
    let line = DaterangeLine {
        extension_attributes: vec![
            ("X-COM-EXAMPLE-A".to_string(), ExtensionValue::QuotedString("Example A".to_string())),
            ("X-COM-EXAMPLE-B".to_string(), ExtensionValue::DecimalFloatingPoint("42".to_string())),
            ("X-COM-EXAMPLE-C".to_string(), ExtensionValue::HexadecimalSequence("0xABCD".to_string())),
        ],
        ..daterange_line("some-id", date(23, 41, 42))
    };
    let written = daterange::calculate_line(&line);
    let mut found_a = false;
    let mut found_b = false;
    let mut found_c = false;
    for (index, split) in written.split(|b| b == &b',').enumerate() {
        match index {
            0 => assert_eq!(b"#EXT-X-DATERANGE:ID=\"some-id\"", split),
            1 => assert_eq!(b"START-DATE=\"2025-06-14T23:41:42.000-05:00\"", split),
            2 | 3 | 4 => {
                if split.starts_with(b"X-COM-EXAMPLE-A") {
                    if found_a {
                        panic!("Already found A")
                    }
                    found_a = true;
                    assert_eq!(b"X-COM-EXAMPLE-A=\"Example A\"", split);
                } else if split.starts_with(b"X-COM-EXAMPLE-B") {
                    if found_b {
                        panic!("Already found B")
                    }
                    found_b = true;
                    assert_eq!(b"X-COM-EXAMPLE-B=42", split);
                } else if split.starts_with(b"X-COM-EXAMPLE-C") {
                    if found_c {
                        panic!("Already found C")
                    }
                    found_c = true;
                    assert_eq!(b"X-COM-EXAMPLE-C=0xABCD", split);
                } else {
                    panic!("Unexpected attribute at index {}", index);
                }
            }
            _ => panic!("Too many attributes"),
        }
    }
    assert!(found_a);
    assert!(found_b);
    assert!(found_c);
}

#[test]
fn mutation_should_work() {
    let mut line = DaterangeLine {
        cue: text("ONCE"),
        extension_attributes: vec![(
            "X-TO-REMOVE".to_string(),
            ExtensionValue::QuotedString("remove me".to_string()),
        )],
        ..daterange_line("some-id", epoch())
    };
    assert_eq!(
        "#EXT-X-DATERANGE:ID=\"some-id\",START-DATE=\"1970-01-01T00:00:00.000Z\",CUE=\"ONCE\",X-TO-REMOVE=\"remove me\""
        .as_bytes(),
        daterange::calculate_line(&line).as_slice()
    );
    line.id = "another-id".to_string();
    line.class = text("com.example.test");
    line.cue = None;
    line.extension_attributes =
        vec![("X-EXAMPLE".to_string(), ExtensionValue::QuotedString("TEST".to_string()))];
    assert_eq!(
        "#EXT-X-DATERANGE:ID=\"another-id\",START-DATE=\"1970-01-01T00:00:00.000Z\",CLASS=\"com.example.test\",X-EXAMPLE=\"TEST\""
        .as_bytes(),
        daterange::calculate_line(&line).as_slice()
    );
}

#[test]
fn mutating_cue_works_as_expected() {
    let mut line = DaterangeLine { cue: text("ONCE"), ..daterange_line("some-id", epoch()) };
    let mut cue = EnumeratedStringList::<Cue>::from_str(line.cue.as_deref().expect("cue"));
    cue.insert(EnumeratedString::Known(Cue::Pre));
    line.cue = Some(cue.to_string());
    let read = EnumeratedStringList::<Cue>::from_str(line.cue.as_deref().expect("cue"));
    assert!(read.contains(EnumeratedString::Known(Cue::Once)));
    assert!(read.contains(EnumeratedString::Known(Cue::Pre)));
    assert_eq!(2, read.iter().len());
    assert_eq!(Some("ONCE,PRE"), line.cue.as_deref());
}

#[test]
fn daterange_reads_back_its_line() {
    let line = DaterangeLine {
        extension_attributes: vec![
            ("X-COM-EXAMPLE-A".to_string(), ExtensionValue::QuotedString("Example A".to_string())),
            ("X-COM-EXAMPLE-B".to_string(), ExtensionValue::DecimalFloatingPoint("42".to_string())),
            ("X-COM-EXAMPLE-C".to_string(), ExtensionValue::HexadecimalSequence("0xABCD".to_string())),
        ],
        ..full_daterange_line()
    };
    let written = String::from_utf8(daterange::calculate_line(&line)).expect("UTF-8");
    assert_eq!(Ok(line), DaterangeLine::try_from(&parsed(&written)));
    assert_eq!(
        Err(ValidationError::MissingRequiredAttribute("START-DATE")),
        DaterangeLine::try_from(&parsed("#EXT-X-DATERANGE:ID=\"a\",START-DATE=\"yesterday\""))
    );
    assert_eq!(
        Err(ValidationError::MissingRequiredAttribute("ID")),
        DaterangeLine::try_from(&parsed("#EXT-X-DATERANGE:START-DATE=\"1970-01-01T00:00:00.000Z\""))
    );
    let read = DaterangeLine::try_from(&parsed(
        "#EXT-X-DATERANGE:ID=\"a\",START-DATE=\"1970-01-01T00:00:00.000Z\",SCTE35-IN=\"0x1\",Y-NOT=1,X-N=-1.5",
    ))
    .expect("attributes");
    assert_eq!(text("0x1"), read.scte35_in);
    assert_eq!(
        vec![("X-N".to_string(), ExtensionValue::DecimalFloatingPoint("-1.5".to_string()))],
        read.extension_attributes
    );
}
