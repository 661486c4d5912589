use axum::http::header::CONTENT_LENGTH;
use axum::http::header::CONTENT_TYPE;
use axum::http::HeaderMap;
use axum::http::HeaderName;
use axum::http::HeaderValue;
use axum_static::decision::decide_content_type;
use axum_static::headers::write_content_type;
use axum_static::headers::HeaderOutcome;
use axum_static::headers::ROOMY_FIELD_COUNT;

fn crowded(names: usize) -> HeaderMap {
    let mut headers = HeaderMap::new();
    for i in 0..names {
        let name = HeaderName::from_bytes(format!("x-field-{}", i).as_bytes()).unwrap();
        headers.try_insert(name, HeaderValue::from_static("v")).unwrap();
    }
    assert_eq!(headers.keys_len(), names);
    headers
}

#[test]
fn content_type_is_written_into_empty_headers() {
    let mut headers = HeaderMap::new();
    assert_eq!(write_content_type(&mut headers, "text/javascript"), HeaderOutcome::Written);
    assert_eq!(headers.len(), 1);
    assert_eq!(headers.get("content-type").unwrap().as_bytes(), b"text/javascript");
    assert_eq!(headers.get(CONTENT_TYPE).unwrap(), "text/javascript");
}

#[test]
fn content_type_overwrites_what_the_response_carried() {
    let mut headers = HeaderMap::new();
    headers.insert(CONTENT_TYPE, HeaderValue::from_static("text/plain"));
    headers.append(CONTENT_TYPE, HeaderValue::from_static("text/csv"));
    headers.insert(CONTENT_LENGTH, HeaderValue::from_static("12"));
    assert_eq!(write_content_type(&mut headers, "image/png"), HeaderOutcome::Written);
    let values: Vec<&HeaderValue> = headers.get_all(CONTENT_TYPE).iter().collect();
    assert_eq!(values.len(), 1);
    assert_eq!(values[0], "image/png");
    assert_eq!(headers.get(CONTENT_LENGTH).unwrap(), "12");
    assert_eq!(headers.len(), 2);
}

#[test]
fn writing_twice_is_writing_once() {
    let mut once = HeaderMap::new();
    once.insert(CONTENT_TYPE, HeaderValue::from_static("text/html; charset=utf-8"));
    let mut twice = once.clone();
    let text = decide_content_type("/assets/app.js", false).header_text();
    assert_eq!(write_content_type(&mut once, text), HeaderOutcome::Written);
    assert_eq!(write_content_type(&mut twice, text), HeaderOutcome::Written);
    assert_eq!(write_content_type(&mut twice, text), HeaderOutcome::Written);
    assert_eq!(once, twice);
    assert_eq!(twice.get(CONTENT_TYPE).unwrap(), "text/javascript");
}

#[test]
fn marker_is_written_for_a_directory_request() {
    let mut headers = HeaderMap::new();
    headers.insert(CONTENT_TYPE, HeaderValue::from_static("text/html"));
    let text = decide_content_type("/", false).header_text();
    assert_eq!(write_content_type(&mut headers, text), HeaderOutcome::Written);
    assert_eq!(headers.get(CONTENT_TYPE).unwrap(), "unknown");
}

#[test]
fn fallback_is_written_for_an_unlisted_extension() {
    let mut headers = HeaderMap::new();
    let text = decide_content_type("/assets/unknownext.xyz", false).header_text();
    assert_eq!(write_content_type(&mut headers, text), HeaderOutcome::Written);
    assert_eq!(headers.get(CONTENT_TYPE).unwrap(), "application/octet-stream");
}

#[test]
fn text_that_is_no_header_value_changes_nothing() {
    let mut headers = HeaderMap::new();
    headers.insert(CONTENT_TYPE, HeaderValue::from_static("text/plain"));
    let before = headers.clone();
    for text in ["text/\nplain", "a\rb", "\u{0}", "del\u{7f}", "bell\u{7}"] {
        assert_eq!(write_content_type(&mut headers, text), HeaderOutcome::NotAHeaderValue);
        assert_eq!(headers, before);
    }
    let mut empty = HeaderMap::new();
    assert_eq!(write_content_type(&mut empty, "\n"), HeaderOutcome::NotAHeaderValue);
    assert!(empty.is_empty());
}

#[test]
fn header_values_may_hold_tabs_and_bytes_above_ascii() {
    let mut headers = HeaderMap::new();
    assert_eq!(write_content_type(&mut headers, "a\tb"), HeaderOutcome::Written);
    assert_eq!(headers.get(CONTENT_TYPE).unwrap().as_bytes(), b"a\tb");
    assert_eq!(write_content_type(&mut headers, "caf\u{e9}"), HeaderOutcome::Written);
    assert_eq!(headers.get(CONTENT_TYPE).unwrap().as_bytes(), "caf\u{e9}".as_bytes());
    assert_eq!(write_content_type(&mut headers, ""), HeaderOutcome::Written);
    assert_eq!(headers.get(CONTENT_TYPE).unwrap().as_bytes(), b"");
}

#[test]
fn roomy_headers_take_the_content_type() {
    assert_eq!(ROOMY_FIELD_COUNT, 4096);
    let mut headers = crowded(ROOMY_FIELD_COUNT - 1);
    assert_eq!(write_content_type(&mut headers, "image/png"), HeaderOutcome::Written);
    assert_eq!(headers.get(CONTENT_TYPE).unwrap(), "image/png");
    assert_eq!(headers.keys_len(), ROOMY_FIELD_COUNT);
    assert_eq!(headers.get("x-field-0").unwrap(), "v");
}

#[test]
fn full_headers_are_left_as_they_are() {
    let mut headers = crowded(24576);
    let before = headers.clone();
    assert_eq!(write_content_type(&mut headers, "image/png"), HeaderOutcome::NoRoom);
    assert!(headers.get(CONTENT_TYPE).is_none());
    assert_eq!(headers, before);
    assert_eq!(write_content_type(&mut headers, "\n"), HeaderOutcome::NotAHeaderValue);
    assert_eq!(headers, before);
}

#[test]
fn content_type_of_an_error_page_follows_the_path() {
    let mut headers = HeaderMap::new();
    headers.insert(CONTENT_TYPE, HeaderValue::from_static("text/plain; charset=utf-8"));
    let text = decide_content_type("/nope.png", false).header_text();
    assert_eq!(write_content_type(&mut headers, text), HeaderOutcome::Written);
    assert_eq!(headers.get(CONTENT_TYPE).unwrap(), "image/png");
}
