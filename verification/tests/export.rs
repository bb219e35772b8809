use devserial::export::{
    format_time_of_day, format_timestamp, line_object, now_for_filename, now_time_of_day,
    to_string, with_format_extension, write_all, write_header, write_line, ExportError,
    ExportFormat,
};
use devserial::storage::StoredLine;

fn sample() -> Vec<StoredLine> {
    vec![
        StoredLine {
            id: 1,
            timestamp_ns: 1_767_225_600_000_000_000,
            payload: "boot ok".into(),
        },
        StoredLine {
            id: 2,
            timestamp_ns: 1_767_225_600_500_000_000,
            payload: "value = \"42\"".into(),
        },
    ]
}

#[test]
fn txt_writes_payloads_only() {
    let out = to_string(&sample(), ExportFormat::Txt).unwrap();
    assert_eq!(out, "boot ok\nvalue = \"42\"\n");
}

#[test]
fn csv_has_header_and_doubles_quotes() {
    let out = to_string(&sample(), ExportFormat::Csv).unwrap();
    let mut rows = out.lines();
    assert_eq!(rows.next().unwrap(), "id,timestamp,timestamp_ns,payload");
    assert!(rows.next().unwrap().starts_with("1,2026-01-01T"));
    assert!(out.contains("\"value = \"\"42\"\"\""));
}

#[test]
fn jsonl_is_one_object_per_line() {
    let out = to_string(&sample(), ExportFormat::Jsonl).unwrap();
    let lines: Vec<&str> = out.lines().collect();
    assert_eq!(lines.len(), 2);
    let parsed: serde_json::Value = serde_json::from_str(lines[1]).unwrap();
    assert_eq!(parsed["id"], 2);
    assert_eq!(parsed["payload"], "value = \"42\"");
    // A string, not a number: a reader that rounds it could not hand it back.
    assert_eq!(parsed["timestamp_ns"], "1767225600500000000");
}

#[test]
fn format_parsing_rejects_unknown() {
    assert!("xyz".parse::<ExportFormat>().is_err());
    assert_eq!("CSV".parse::<ExportFormat>().unwrap(), ExportFormat::Csv);
    assert_eq!("ndjson".parse::<ExportFormat>().unwrap(), ExportFormat::Jsonl);
}

#[test]
fn extension_swap() {
    assert_eq!(
        with_format_extension("/tmp/log.txt", ExportFormat::Csv),
        "/tmp/log.csv"
    );
    // No parent, so no separator.
    assert_eq!(with_format_extension("log", ExportFormat::Jsonl), "log.jsonl");
}

#[test]
fn zero_timestamp_renders_empty() {
    assert_eq!(format_timestamp(0), "");
}

#[test]
fn empty_export_still_writes_csv_header() {
    let out = to_string(&[], ExportFormat::Csv).unwrap();
    assert_eq!(out, "id,timestamp,timestamp_ns,payload\n");
    assert_eq!(to_string(&[], ExportFormat::Txt).unwrap(), "");
}

#[test]
fn a_record_carries_all_nine_digits_in_utc() {
    let rendered = format_timestamp(1_767_225_600_123_456_789);
    assert_eq!(rendered, "2026-01-01T00:00:00.123456789Z");
    assert!(rendered.ends_with('Z'), "a record has to name its zone");
    assert_eq!(format_timestamp(0), "", "no time is not the epoch");
    assert_eq!(format_timestamp(-1), "");
}

#[test]
fn a_screen_shows_local_time_of_day() {
    let ns = 1_767_225_600_123_456_789;
    let rendered = format_time_of_day(ns);

    let expected = chrono::DateTime::from_timestamp_nanos(ns)
        .with_timezone(&chrono::Local)
        .format("%H:%M:%S%.3f")
        .to_string();
    assert_eq!(rendered, expected, "the screen form is not local");
    assert_eq!(rendered.len(), "00:00:00.123".len());
    assert!(
        !rendered.contains('Z') && !rendered.contains('-'),
        "the screen form carries neither a zone nor a date: {rendered}"
    );
    assert_eq!(format_time_of_day(0), "");
}

#[test]
fn both_forms_describe_the_same_instant() {
    let ns = 1_767_268_496_000_000_000;
    let record = format_timestamp(ns);
    let screen = format_time_of_day(ns);

    let parsed = chrono::DateTime::parse_from_rfc3339(&record).expect("the record parses");
    assert_eq!(parsed.timestamp_nanos_opt(), Some(ns));
    assert_eq!(
        parsed
            .with_timezone(&chrono::Local)
            .format("%H:%M:%S%.3f")
            .to_string(),
        screen
    );
}

#[test]
fn both_forms_share_the_milliseconds() {
    for ns in [1, 999_999, 1_767_268_496_987_654_321, 9_223_372_036_854_775_807] {
        let record = format_timestamp(ns);
        let screen = format_time_of_day(ns);
        assert_eq!(&record[20..23], &screen[9..12]);
    }
}

#[test]
fn records_sort_as_text() {
    let a = format_timestamp(1_767_225_599_999_999_999);
    let b = format_timestamp(1_767_225_600_000_000_000);
    let c = format_timestamp(9_223_372_036_854_775_807);
    assert!(a < b && b < c);
}

#[test]
fn formats_read_back() {
    for f in ExportFormat::all() {
        assert_eq!(f.to_string().parse::<ExportFormat>().unwrap(), f);
        assert_eq!(f.extension(), f.to_string());
    }
    assert_eq!(ExportFormat::default(), ExportFormat::Txt);
    assert!(matches!(ExportFormat::parse("xyz"), Err(ExportError::UnknownFormat(t)) if t == "xyz"));
}

#[test]
fn a_csv_payload_keeps_commas_quotes_and_line_ends() {
    let line = StoredLine { id: 7, timestamp_ns: 0, payload: "a,\"b\"\nc".into() };
    let mut out = String::new();
    write_line(&mut out, &line, ExportFormat::Csv).unwrap();
    assert_eq!(out, "7,,0,\"a,\"\"b\"\"\nc\"\n");
}

#[test]
fn a_json_record_is_one_line_whatever_it_holds() {
    let line = StoredLine { id: -1, timestamp_ns: 0, payload: "a\n\t\"\\\u{1}ü".into() };
    let object = line_object(&line);
    assert!(!object.contains('\n'));
    assert_eq!(
        object,
        "{\"id\":-1,\"payload\":\"a\\n\\t\\\"\\\\\\u0001ü\",\"timestamp\":\"\",\"timestamp_ns\":\"0\"}"
    );
}

#[test]
fn writing_appends() {
    let mut out = String::from("x");
    write_header(&mut out, ExportFormat::Csv).unwrap();
    assert_eq!(write_all(&mut out, &sample(), ExportFormat::Txt).unwrap(), 2);
    assert!(out.starts_with("xid,timestamp"));
    assert!(out.ends_with("boot ok\nvalue = \"42\"\n"));
}

#[test]
fn the_current_instant_has_its_shapes() {
    assert_eq!(now_time_of_day().len(), "00:00:00.123".len());
    let stamp = now_for_filename();
    assert_eq!(stamp.len(), "20260101_120000".len());
    assert_eq!(&stamp[8..9], "_");
    assert!(stamp.chars().enumerate().all(|(i, c)| i == 8 || c.is_ascii_digit()));
}

#[test]
fn a_record_has_its_shape() {
    assert_eq!(format_timestamp(1), "1970-01-01T00:00:00.000000001Z");
    assert_eq!(format_timestamp(9_223_372_036_854_775_807), "2262-04-11T23:47:16.854775807Z");
    for ns in [1, 1_000_000_000, 1_767_225_600_123_456_789] {
        let record = format_timestamp(ns);
        assert_eq!(record.len(), 30);
        assert!(record.ends_with('Z'));
        assert!(format_timestamp(ns + 1) > record);
    }
}
