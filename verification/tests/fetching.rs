use soql_studio::socrata::fetch::{
    content_mismatch_message, content_type_is_csv, parse_csv_preview, BodyReady, ChunkStep,
    FetchSlots, FetchStream, StartOutcome,
};

#[test]
fn content_type_detection() {
    assert!(content_type_is_csv("text/csv"));
    assert!(content_type_is_csv("text/csv; charset=utf-8"));
    assert!(!content_type_is_csv("application/json"));
    assert!(!content_type_is_csv(""));
}

#[test]
fn mismatch_message_carries_content_type() {
    let m = content_mismatch_message("application/json", "{\"error\":true}");
    assert_eq!(m, "Expected CSV; found application/json: {\"error\":true}");
    assert!(m.contains("application/json"));
}

#[test]
fn preview_caps_at_ten_data_rows() {
    let mut body = String::from("h1,h2\n");
    for i in 0..12 {
        body.push_str(&format!("r{}a,r{}b\n", i, i));
    }
    let rows = parse_csv_preview(&body).unwrap();
    assert_eq!(rows.len(), 11);
    assert_eq!(rows[0], vec!["h1".to_string(), "h2".to_string()]);
    assert_eq!(rows[1], vec!["r0a".to_string(), "r0b".to_string()]);
    assert_eq!(rows[10], vec!["r9a".to_string(), "r9b".to_string()]);
}

#[test]
fn preview_keeps_short_bodies_whole() {
    let rows = parse_csv_preview("city,pop\nBoston,4628910\n").unwrap();
    assert_eq!(
        rows,
        vec![
            vec!["city".to_string(), "pop".to_string()],
            vec!["Boston".to_string(), "4628910".to_string()],
        ]
    );
}

#[test]
fn preview_header_only() {
    let rows = parse_csv_preview("a,b\n").unwrap();
    assert_eq!(rows.len(), 1);
    assert_eq!(rows[0], vec!["a".to_string(), "b".to_string()]);
}

#[test]
fn preview_reports_malformed_record() {
    let err = parse_csv_preview("a,b\n1,2,3\n").unwrap_err();
    assert_eq!(err, "Malformed CSV record in preview.");
}

#[test]
fn cancel_before_any_chunk_yields_cancel_error() {
    let stream = FetchStream::new();
    match stream.finish(true) {
        Err(m) => assert_eq!(m, "Fetching canceled."),
        Ok(_) => panic!("a cancelled attempt must not yield a body"),
    }
}

#[test]
fn cancel_mid_stream_yields_cancel_error() {
    let mut stream = FetchStream::new();
    match stream.on_chunk(b"h1,h2\n", false) {
        ChunkStep::Progress(n) => assert_eq!(n, 6),
        ChunkStep::Canceled(_) => panic!("no cancellation was requested"),
    }
    match stream.on_chunk(b"1,2\n", true) {
        ChunkStep::Canceled(m) => assert_eq!(m, "Fetching canceled."),
        ChunkStep::Progress(_) => panic!("cancellation must stop the stream"),
    }
}

#[test]
fn streamed_body_parses_to_preview() {
    let mut stream = FetchStream::new();
    assert!(matches!(
        stream.on_chunk(b"h1,h2\n1,2\n", false),
        ChunkStep::Progress(10)
    ));
    assert!(matches!(stream.on_chunk(b"3,4\n", false), ChunkStep::Progress(4)));
    let body = stream.finish(false).unwrap();
    let rows = body.into_preview().unwrap();
    assert_eq!(
        rows,
        vec![
            vec!["h1".to_string(), "h2".to_string()],
            vec!["1".to_string(), "2".to_string()],
            vec!["3".to_string(), "4".to_string()],
        ]
    );
}

#[test]
fn invalid_utf8_body_is_a_typed_error() {
    let body = BodyReady { bytes: vec![0xff, 0xfe, 0x00] };
    let err = body.into_preview().unwrap_err();
    assert_eq!(err, "Invalid UTF-8 sequence in response body.");
}

#[test]
fn busy_slot_rejects_second_start() {
    let mut slots = FetchSlots::new();
    assert!(matches!(slots.try_start_data(), StartOutcome::Started));
    assert!(matches!(slots.try_start_data(), StartOutcome::Rejected));
    assert!(slots.data_active);
    assert!(!slots.analysis_active);
}

#[test]
fn other_slot_starts_independently() {
    let mut slots = FetchSlots::new();
    assert!(matches!(slots.try_start_data(), StartOutcome::Started));
    assert!(matches!(slots.try_start_analysis(), StartOutcome::Started));
    assert!(slots.data_active && slots.analysis_active);
    slots.finish_data();
    assert!(!slots.data_active);
    assert!(slots.analysis_active);
    slots.finish_analysis();
    assert!(!slots.analysis_active);
}
