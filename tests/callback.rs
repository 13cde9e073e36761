use inventor_bot::api::auth::{
    callback_read_state, code_from_target, has_request_line, parse_callback, redirect_response,
    CallbackError,
};

#[test]
fn callback_without_code_parameter() {
    let r = parse_callback(b"GET /?foo=bar HTTP/1.1\r\n\r\n");
    assert_eq!(r, Err(CallbackError::CodeMissing));
    assert_eq!(CallbackError::CodeMissing.message(), "authorisation code is not present");
}

#[test]
fn callback_with_empty_code() {
    let r = parse_callback(b"GET /?code= HTTP/1.1\r\n\r\n");
    assert_eq!(r, Err(CallbackError::CodeEmpty));
    assert_eq!(CallbackError::CodeEmpty.message(), "authorisation code is empty");
}

#[test]
fn callback_with_code() {
    let r = parse_callback(b"GET /?code=XYZ HTTP/1.1\r\n\r\n");
    assert_eq!(r, Ok(String::from("XYZ")));
}

#[test]
fn callback_request_line_only() {
    let r = parse_callback(b"GET /?code=abc123 HTTP/1.1\r\nHost: 127.0.0.1\r\n");
    assert_eq!(r, Ok(String::from("abc123")));
}

#[test]
fn callback_malformed() {
    let r = parse_callback(b"\x01\x02 nonsense\r\n\r\n");
    assert_eq!(r, Err(CallbackError::Malformed));
}

#[test]
fn code_takes_first_marker() {
    assert_eq!(code_from_target("/x?code=a?code=b"), Ok(String::from("a?code=b")));
    assert_eq!(code_from_target("/?state=1&code=z"), Err(CallbackError::CodeMissing));
    assert_eq!(code_from_target(""), Err(CallbackError::CodeMissing));
    assert_eq!(code_from_target("?code="), Err(CallbackError::CodeEmpty));
}

#[test]
fn read_state_waits_then_parses() {
    assert!(!has_request_line(b"GET /?code=1"));
    assert_eq!(callback_read_state(b"GET /?code=1", 64), None);
    assert_eq!(
        callback_read_state(b"GET /?code=1", 12),
        Some(Err(CallbackError::TooLarge))
    );
    assert_eq!(
        callback_read_state(b"GET /?code=1 HTTP/1.1\r\n", 64),
        Some(Ok(String::from("1")))
    );
}

#[test]
fn redirect_points_at_instance() {
    assert_eq!(
        redirect_response("example.social"),
        "HTTP/1.1 303 See Other\r\nLocation: https://example.social\r\n\r\n"
    );
}
