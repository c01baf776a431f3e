use rust_router::json::{check_plain_text, epoch_text, text_or_epoch, timestamp_text};
use rust_router::response::{internal_error_response, not_found_response};
use rust_router::{error_response, json_response, Header, JsonResponse, Response, StatusCode};

fn json_header() -> Header {
    Header { name: "Content-Type".to_string(), value: "application/json".to_string() }
}

#[test]
fn status_code_accepts_100_to_999() {
    assert_eq!(StatusCode::from_u16(100).map(|s| s.as_u16()), Some(100));
    assert_eq!(StatusCode::from_u16(200).map(|s| s.as_u16()), Some(200));
    assert_eq!(StatusCode::from_u16(404).map(|s| s.as_u16()), Some(404));
    assert_eq!(StatusCode::from_u16(999).map(|s| s.as_u16()), Some(999));
}

#[test]
fn status_code_rejects_numbers_out_of_range() {
    assert_eq!(StatusCode::from_u16(0), None);
    assert_eq!(StatusCode::from_u16(99), None);
    assert_eq!(StatusCode::from_u16(1000), None);
    assert_eq!(StatusCode::from_u16(u16::MAX), None);
}

#[test]
fn named_status_codes() {
    assert_eq!(StatusCode::ok().as_u16(), 200);
    assert_eq!(StatusCode::bad_request().as_u16(), 400);
    assert_eq!(StatusCode::not_found().as_u16(), 404);
    assert_eq!(StatusCode::internal_server_error().as_u16(), 500);
    assert_eq!(StatusCode::from_u16(404), Some(StatusCode::not_found()));
}

#[test]
fn error_response_carries_status_and_message() {
    let response = error_response(StatusCode::bad_request(), "Invalid request body");
    assert_eq!(
        response,
        Response {
            status: StatusCode::bad_request(),
            headers: vec![],
            body: b"Invalid request body".to_vec(),
        }
    );
}

#[test]
fn error_response_with_an_empty_message() {
    let response = error_response(StatusCode::from_u16(503).unwrap(), "");
    assert_eq!(response.status.as_u16(), 503);
    assert!(response.headers.is_empty());
    assert!(response.body.is_empty());
}

#[test]
fn error_response_encodes_the_message_as_utf8() {
    let response = error_response(StatusCode::bad_request(), "né €");
    assert_eq!(response.body, vec![0x6e, 0xc3, 0xa9, 0x20, 0xe2, 0x82, 0xac]);
}

#[test]
fn not_found_response_is_404_not_found() {
    let response = not_found_response();
    assert_eq!(response.status.as_u16(), 404);
    assert!(response.headers.is_empty());
    assert_eq!(response.body, b"Not Found".to_vec());
}

#[test]
fn internal_error_response_is_500_internal_server_error() {
    let response = internal_error_response();
    assert_eq!(response.status.as_u16(), 500);
    assert!(response.headers.is_empty());
    assert_eq!(response.body, b"Internal Server Error".to_vec());
}

#[test]
fn render_frames_payload_and_timestamp() {
    let stamped = JsonResponse {
        data: b"{\"x\":1}".to_vec(),
        timestamp: "2024-05-01T12:34:56.789Z".to_string(),
    };
    let response = stamped.render(true);
    assert_eq!(
        response,
        Response {
            status: StatusCode::ok(),
            headers: vec![json_header()],
            body: b"{\"data\":{\"x\":1},\"timestamp\":\"2024-05-01T12:34:56.789Z\"}".to_vec(),
        }
    );
}

#[test]
fn render_with_an_empty_timestamp() {
    let stamped = JsonResponse { data: b"null".to_vec(), timestamp: String::new() };
    let response = stamped.render(true);
    assert_eq!(response.status.as_u16(), 200);
    assert_eq!(response.body, b"{\"data\":null,\"timestamp\":\"\"}".to_vec());
}

#[test]
fn render_of_a_payload_that_is_not_json_is_an_internal_error() {
    let stamped = JsonResponse {
        data: b"{\"x\":1}".to_vec(),
        timestamp: "2024-05-01T12:34:56Z".to_string(),
    };
    assert_eq!(stamped.render(false), internal_error_response());
}

#[test]
fn render_of_a_timestamp_that_needs_escapes_is_an_internal_error() {
    for timestamp in ["a\"b", "a\\b", "a\nb", "caf\u{e9}", "\u{7f}"] {
        let stamped = JsonResponse { data: b"1".to_vec(), timestamp: timestamp.to_string() };
        assert_eq!(stamped.render(true), internal_error_response());
    }
}

#[test]
fn plain_text_is_printable_ascii_without_quote_and_backslash() {
    assert!(check_plain_text(""));
    assert!(check_plain_text("2024-05-01T12:34:56.789Z"));
    assert!(check_plain_text(" ~"));
    assert!(!check_plain_text("\""));
    assert!(!check_plain_text("\\"));
    assert!(!check_plain_text("\u{1f}"));
    assert!(!check_plain_text("\u{7f}"));
    assert!(!check_plain_text("\u{80}"));
    assert!(!check_plain_text("abc\u{e9}"));
    assert!(!check_plain_text("tab\there"));
}

#[test]
fn into_response_accepts_well_formed_json() {
    for payload in ["{\"x\":1}", "[1,2,3]", "\"text\"", "null", " 12 ", "{\"a\":{\"b\":[true,false]}}"] {
        let stamped = JsonResponse {
            data: payload.as_bytes().to_vec(),
            timestamp: "2024-05-01T00:00:00Z".to_string(),
        };
        let response = stamped.into_response();
        assert_eq!(response.status.as_u16(), 200);
        assert_eq!(response.headers, vec![json_header()]);
        let expected = format!("{{\"data\":{},\"timestamp\":\"2024-05-01T00:00:00Z\"}}", payload);
        assert_eq!(response.body, expected.into_bytes());
    }
}

#[test]
fn into_response_turns_malformed_json_into_an_internal_error() {
    for payload in ["", "not-json", "{\"x\":1", "{\"x\":1}}", "1,\"y\":2", "{'x':1}", "\u{0}"] {
        let stamped = JsonResponse {
            data: payload.as_bytes().to_vec(),
            timestamp: "2024-05-01T00:00:00Z".to_string(),
        };
        assert_eq!(stamped.into_response(), internal_error_response());
    }
}

#[test]
fn into_response_turns_too_deeply_nested_json_into_an_internal_error() {
    let mut payload = "[".repeat(200);
    payload.push_str(&"]".repeat(200));
    let stamped = JsonResponse {
        data: payload.into_bytes(),
        timestamp: "2024-05-01T00:00:00Z".to_string(),
    };
    assert_eq!(stamped.into_response(), internal_error_response());
}

#[test]
fn into_response_accepts_nested_json_within_the_depth_limit() {
    let mut payload = "[".repeat(100);
    payload.push_str(&"]".repeat(100));
    let stamped = JsonResponse {
        data: payload.into_bytes(),
        timestamp: "2024-05-01T00:00:00Z".to_string(),
    };
    assert_eq!(stamped.into_response().status.as_u16(), 200);
}

#[test]
fn into_response_body_is_one_json_object() {
    let stamped = JsonResponse {
        data: b"{\"message\":\"pong\"}".to_vec(),
        timestamp: "2024-05-01T00:00:00Z".to_string(),
    };
    let response = stamped.into_response();
    let body: serde_json::Value = serde_json::from_slice(&response.body).unwrap();
    assert_eq!(body["data"]["message"], serde_json::Value::String("pong".to_string()));
    assert_eq!(body["timestamp"], serde_json::Value::String("2024-05-01T00:00:00Z".to_string()));
    assert_eq!(body.as_object().unwrap().len(), 2);
}

fn is_utc_timestamp(text: &str) -> bool {
    text.chars().count() >= 20
        && text.ends_with('Z')
        && text.chars().all(|c| c.is_ascii_digit() || "+-:.TZ".contains(c))
}

#[test]
fn epoch_text_is_the_start_of_1970() {
    assert_eq!(epoch_text(), "1970-01-01T00:00:00Z");
    assert!(is_utc_timestamp(&epoch_text()));
}

#[test]
fn text_or_epoch_keeps_a_text_and_fills_in_for_none() {
    assert_eq!(text_or_epoch(Some("2024-05-01T12:34:56Z".to_string())), "2024-05-01T12:34:56Z");
    assert_eq!(text_or_epoch(Some(String::new())), "");
    assert_eq!(text_or_epoch(None), "1970-01-01T00:00:00Z");
}

#[test]
fn timestamp_text_writes_the_reading_as_rfc3339() {
    assert_eq!(timestamp_text(Some((0, 0))), "1970-01-01T00:00:00Z");
    assert_eq!(timestamp_text(Some((1_714_566_896, 0))), "2024-05-01T12:34:56Z");
    assert_eq!(timestamp_text(Some((1_714_566_896, 789_000_000))), "2024-05-01T12:34:56.789Z");
    assert_eq!(timestamp_text(Some((1_714_566_896, 789_123_000))), "2024-05-01T12:34:56.789123Z");
    assert_eq!(timestamp_text(Some((1_714_566_896, 1))), "2024-05-01T12:34:56.000000001Z");
    assert_eq!(timestamp_text(Some((253_402_300_799, 0))), "9999-12-31T23:59:59Z");
    assert_eq!(timestamp_text(Some((253_402_300_800, 0))), "+10000-01-01T00:00:00Z");
}

#[test]
fn timestamp_text_falls_back_to_the_start_of_1970() {
    assert_eq!(timestamp_text(None), "1970-01-01T00:00:00Z");
    assert_eq!(timestamp_text(Some((u64::MAX, 0))), "1970-01-01T00:00:00Z");
    assert_eq!(timestamp_text(Some((i64::MAX as u64 + 1, 0))), "1970-01-01T00:00:00Z");
    assert_eq!(timestamp_text(Some((i64::MAX as u64, 0))), "1970-01-01T00:00:00Z");
    assert_eq!(timestamp_text(Some((1_714_566_896, 2_000_000_000))), "1970-01-01T00:00:00Z");
}

#[test]
fn timestamp_text_always_has_the_shape_of_a_utc_timestamp() {
    let readings = [
        None,
        Some((0, 0)),
        Some((59, 999_999_999)),
        Some((1_714_566_896, 500)),
        Some((253_402_300_800, 0)),
        Some((u64::MAX, u32::MAX)),
    ];
    for reading in readings {
        let text = timestamp_text(reading);
        assert!(is_utc_timestamp(&text));
        assert!(check_plain_text(&text));
    }
}

#[test]
fn new_keeps_the_payload_and_stamps_the_present_time() {
    let stamped = JsonResponse::new(b"[1]".to_vec());
    assert_eq!(stamped.data, b"[1]".to_vec());
    assert!(is_utc_timestamp(&stamped.timestamp));
    assert!(check_plain_text(&stamped.timestamp));
    let time = chrono::DateTime::parse_from_rfc3339(&stamped.timestamp).unwrap();
    assert!(time.timestamp() > 1_600_000_000);
}

#[test]
fn json_response_wraps_the_payload_with_a_timestamp() {
    let response = json_response(b"{\"x\":1}".to_vec());
    assert_eq!(response.status.as_u16(), 200);
    assert_eq!(response.headers, vec![json_header()]);
    let body: serde_json::Value = serde_json::from_slice(&response.body).unwrap();
    assert_eq!(body["data"]["x"], serde_json::Value::from(1));
    let timestamp = body["timestamp"].as_str().unwrap();
    assert!(is_utc_timestamp(timestamp));
    assert!(chrono::DateTime::parse_from_rfc3339(timestamp).is_ok());
}

#[test]
fn json_response_of_malformed_json_is_an_internal_error() {
    assert_eq!(json_response(b"not-json".to_vec()), internal_error_response());
    assert_eq!(json_response(Vec::new()), internal_error_response());
}
