use armature_http_client::{HttpClientError, Response};
use bytes::Bytes;
use http::header::{HeaderMap, HeaderName, HeaderValue};
use http::StatusCode;
use url::Url;

fn response(status: u16, headers: &[(&str, &[u8])], body: &[u8]) -> Response {
    let mut map = HeaderMap::new();
    for (name, value) in headers {
        map.append(
            HeaderName::from_bytes(name.as_bytes()).expect("token"),
            HeaderValue::from_bytes(value).expect("value"),
        );
    }
    Response::from_parts(
        StatusCode::from_u16(status).expect("three digits"),
        map,
        Bytes::copy_from_slice(body),
        Url::parse("http://localhost/here").expect("valid"),
    )
}

#[test]
fn a_response_says_what_was_received() {
    let r = response(200, &[("X-A", b"1"), ("X-A", b"2")], b"hello");
    assert_eq!(r.status(), StatusCode::OK);
    assert_eq!(r.header("x-a"), Some("1"));
    assert_eq!(r.header("X-A"), Some("1"));
    assert_eq!(r.header("x-b"), None);
    assert_eq!(r.header("not a name"), None);
    assert_eq!(r.headers().len(), 2);
    assert_eq!(r.url().as_str(), "http://localhost/here");
    assert_eq!(r.bytes().as_ref(), b"hello");
    assert_eq!(r.text().expect("utf-8"), "hello");
    assert_eq!(r.into_bytes().as_ref(), b"hello");
}

#[test]
fn statuses_fall_into_classes() {
    for (status, success, client, server) in [
        (199, false, false, false),
        (200, true, false, false),
        (299, true, false, false),
        (300, false, false, false),
        (400, false, true, false),
        (499, false, true, false),
        (500, false, false, true),
        (599, false, false, true),
        (600, false, false, false),
    ] {
        let r = response(status, &[], b"");
        assert_eq!(r.is_success(), success, "{status}");
        assert_eq!(r.is_client_error(), client, "{status}");
        assert_eq!(r.is_server_error(), server, "{status}");
    }
}

#[test]
fn a_header_that_is_not_printable_is_not_text() {
    let r = response(200, &[("x-a", b"caf\xc3\xa9"), ("x-b", b"a\tb")], b"");
    assert_eq!(r.header("x-a"), None);
    assert_eq!(r.header("x-b"), Some("a\tb"));
}

#[test]
fn content_length_and_type() {
    let r = response(200, &[("Content-Length", b"42"), ("Content-Type", b"text/html")], b"");
    assert_eq!(r.content_length(), Some(42));
    assert_eq!(r.content_type(), Some("text/html"));
    let r = response(200, &[], b"");
    assert_eq!(r.content_length(), None);
    assert_eq!(r.content_type(), None);
    for (text, length) in [
        (&b"18446744073709551615"[..], Some(u64::MAX)),
        (b"18446744073709551616", None),
        (b"007", Some(7)),
        (b"+7", Some(7)),
        (b"-7", None),
        (b"", None),
        (b"+", None),
        (b" 7", None),
        (b"7x", None),
    ] {
        let r = response(200, &[("content-length", text)], b"");
        assert_eq!(r.content_length(), length, "{text:?}");
    }
}

#[test]
fn a_body_that_is_not_text_is_an_error() {
    let r = response(200, &[], b"ok\xff");
    assert!(matches!(
        r.text(),
        Err(HttpClientError::Json(m)) if m == "invalid utf-8 sequence of 1 bytes from index 2"
    ));
    assert!(matches!(r.into_text(), Err(HttpClientError::Json(_))));
    assert_eq!(response(200, &[], "h\u{e9}".as_bytes()).into_text().expect("utf-8"), "h\u{e9}");
}

#[test]
fn a_body_is_parsed_as_json() {
    let r = response(200, &[], b"[1,2]");
    let numbers: Vec<u8> =
        r.json(|body| serde_json::from_slice(body).map_err(|e| e.to_string())).expect("JSON");
    assert_eq!(numbers, vec![1, 2]);
    let failed: Result<Vec<u8>, HttpClientError> = response(200, &[], b"[1,")
        .into_json(|body| serde_json::from_slice(body).map_err(|e| e.to_string()));
    assert!(matches!(
        failed,
        Err(HttpClientError::Json(m)) if m == "EOF while parsing a value at line 1 column 3"
    ));
}

#[test]
fn error_statuses_become_errors() {
    let r = response(404, &[], b"no such item").error_for_status();
    assert!(matches!(
        r,
        Err(HttpClientError::Response { status: 404, message }) if message == "no such item"
    ));
    let r = response(503, &[], b"\xff").error_for_status();
    assert!(matches!(
        r,
        Err(HttpClientError::Response { status: 503, message }) if message == "Unknown error"
    ));
    let r = response(204, &[], b"").error_for_status().expect("no error");
    assert_eq!(r.status(), StatusCode::NO_CONTENT);
    assert!(response(302, &[], b"").error_for_status().is_ok());
}
