use snitcher::{decimal_string, Error, ErrorKind};

fn response_message(e: Error) -> (u16, Vec<(String, String)>, String) {
    let r = e.into_response();
    let v: serde_json::Value = serde_json::from_slice(&r.body).unwrap();
    let m = v["message"].as_str().unwrap().to_string();
    (r.status, r.headers, m)
}

#[test]
fn io_failure_renders_as_server_error() {
    let io = std::io::Error::new(std::io::ErrorKind::NotFound, "no such file");
    let e = Error::context(ErrorKind::Io, io.to_string());
    assert!(matches!(e.kind(), ErrorKind::Io));
    let (status, _, message) = response_message(e);
    assert_eq!(status, 500);
    assert!(message.contains("IO error"));
    assert_eq!(message, "IO error\n\tcaused by: no such file");
}

#[test]
fn invalid_api_version_renders_as_bad_request() {
    let r = Error::new(ErrorKind::InvalidApiVersion).into_response();
    assert_eq!(r.status, 400);
}

#[test]
fn other_kinds_render_as_server_error() {
    let kinds = vec![
        ErrorKind::Io,
        ErrorKind::Hyper,
        ErrorKind::InvalidUri("x".to_string()),
        ErrorKind::UrlParse,
        ErrorKind::JsonEncode,
        ErrorKind::JsonDecode,
        ErrorKind::Utf8Decode,
        ErrorKind::RemoteFailure(404, "gone".to_string()),
        ErrorKind::HyperPipe,
    ];
    for k in kinds {
        assert_eq!(Error::new(k).into_response().status, 500);
    }
}

#[test]
fn response_headers_describe_body() {
    let r = Error::new(ErrorKind::UrlParse).into_response();
    let body = String::from_utf8(r.body.clone()).unwrap();
    assert_eq!(body, "{\"message\":\"Cannot parse uri\"}");
    assert_eq!(
        r.headers,
        vec![
            ("content-type".to_string(), "application/json".to_string()),
            ("content-length".to_string(), body.len().to_string()),
        ]
    );
}

#[test]
fn content_length_counts_utf8_bytes() {
    let r = Error::new(ErrorKind::InvalidUri("h\u{e9}".to_string())).into_response();
    let body = String::from_utf8(r.body.clone()).unwrap();
    assert_eq!(body, "{\"message\":\"Invalid uri h\u{e9}\"}");
    assert_eq!(r.headers[1].1, "29");
}

#[test]
fn chain_is_rendered_in_order() {
    let inner = Error::context(ErrorKind::Hyper, "connection reset".to_string());
    let outer = Error::caused_by(ErrorKind::UrlParse, inner);
    assert!(matches!(outer.kind(), ErrorKind::UrlParse));
    assert_eq!(outer.causes().len(), 2);
    assert_eq!(
        outer.message(),
        "Cannot parse uri\n\tcaused by: Hyper error\n\tcaused by: connection reset"
    );
    let (_, _, message) = response_message(outer);
    assert_eq!(
        message,
        "Cannot parse uri\n\tcaused by: Hyper error\n\tcaused by: connection reset"
    );
}

#[test]
fn message_is_escaped_in_json_body() {
    let e = Error::context(ErrorKind::JsonDecode, "bad \"quote\"".to_string());
    let body = String::from_utf8(e.into_response().body).unwrap();
    assert_eq!(
        body,
        "{\"message\":\"Cannot deserialize JSON\\n\\tcaused by: bad \\\"quote\\\"\"}"
    );
}

#[test]
fn kind_display_texts() {
    assert_eq!(Error::new(ErrorKind::Io).to_string(), "IO error");
    assert_eq!(ErrorKind::InvalidUri("a/b".to_string()).to_string(), "Invalid uri a/b");
    assert_eq!(
        ErrorKind::RemoteFailure(503, "busy".to_string()).to_string(),
        "Remote request failed with status 503: busy"
    );
    assert_eq!(ErrorKind::InvalidApiVersion.to_string(), "Invalid or missing API version");
}

#[test]
fn decimal_rendering() {
    assert_eq!(decimal_string(0), "0");
    assert_eq!(decimal_string(7), "7");
    assert_eq!(decimal_string(10), "10");
    assert_eq!(decimal_string(1234567890), "1234567890");
    assert_eq!(decimal_string(u64::MAX), u64::MAX.to_string());
}

#[test]
fn control_characters_are_escaped() {
    let e = Error::context(ErrorKind::Io, "a\u{1}b\u{8}c\u{c}d\re\\f\u{1f}".to_string());
    let body = String::from_utf8(e.into_response().body).unwrap();
    assert_eq!(
        body,
        "{\"message\":\"IO error\\n\\tcaused by: a\\u0001b\\bc\\fd\\re\\\\f\\u001f\"}"
    );
}
