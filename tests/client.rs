use snitcher::{classify_response, decode_text, query_string, Client, ErrorKind};

fn pairs(p: &[(&str, &str)]) -> Option<Vec<(String, String)>> {
    Some(p.iter().map(|(k, v)| (k.to_string(), v.to_string())).collect())
}

#[test]
fn query_pairs_are_encoded_in_order() {
    assert_eq!(query_string(&pairs(&[("b", "2"), ("a", "1")])), "b=2&a=1");
    assert_eq!(query_string(&pairs(&[("a b", "x&y=z")])), "a+b=x%26y%3Dz");
    assert_eq!(query_string(&pairs(&[("k", "\u{e9}*-._~")])), "k=%C3%A9*-._%7E");
}

#[test]
fn absent_or_empty_query_is_empty() {
    assert_eq!(query_string(&None), "");
    assert_eq!(query_string(&Some(Vec::new())), "");
}

#[test]
fn url_without_query_ends_in_question_mark() {
    let c = Client::new((), "http://localhost/".to_string());
    let r = c.prepare_request(http::Method::GET, "/modules", None, None, false).unwrap();
    assert_eq!(r.uri, "http://localhost/modules?");
    let r = c
        .prepare_request(http::Method::GET, "/modules", Some(Vec::new()), None, false)
        .unwrap();
    assert_eq!(r.uri, "http://localhost/modules?");
    assert!(r.headers.is_empty());
    assert!(r.body.is_empty());
}

#[test]
fn url_with_query_keeps_pairs() {
    let c = Client::new((), "http://localhost:8080/".to_string());
    let r = c
        .prepare_request(http::Method::GET, "/list", pairs(&[("x", "1"), ("y", "a b")]), None, false)
        .unwrap();
    assert_eq!(r.uri, "http://localhost:8080/list?x=1&y=a+b");
}

#[test]
fn bad_base_url_is_url_parse_error() {
    let c = Client::new((), "not a url".to_string());
    let e = c.prepare_request(http::Method::GET, "/x", None, None, false).err().unwrap();
    assert!(matches!(e.kind(), ErrorKind::UrlParse));
    assert_eq!(e.causes().len(), 1);
}

#[test]
fn put_module_with_if_match() {
    let c = Client::new((), "http://localhost/".to_string());
    let body = "{\"name\":\"foo\"}".to_string();
    let r = c
        .prepare_request(http::Method::PUT, "/modules/foo", None, Some(body.clone()), true)
        .unwrap();
    assert_eq!(r.method, http::Method::PUT);
    assert_eq!(r.uri, "http://localhost/modules/foo?");
    assert_eq!(
        r.headers,
        vec![
            ("if-match".to_string(), "*".to_string()),
            ("content-type".to_string(), "text/json".to_string()),
            ("content-length".to_string(), "14".to_string()),
        ]
    );
    assert_eq!(r.body, body.as_bytes().to_vec());
    let reply = b"{\"name\":\"foo\",\"id\":\"1\"}".to_vec();
    let payload = classify_response(200, reply).unwrap().unwrap();
    let v: serde_json::Value = serde_json::from_slice(&payload).unwrap();
    assert_eq!(v["name"], "foo");
    assert_eq!(v["id"], "1");
}

#[test]
fn echoed_body_comes_back() {
    let c = Client::new((), "http://localhost/".to_string());
    let body = "{\"a\":[1,2],\"b\":\"\u{e9}\"}".to_string();
    let r = c
        .prepare_request(http::Method::POST, "/echo", None, Some(body.clone()), false)
        .unwrap();
    let payload = classify_response(200, r.body).unwrap();
    let text = decode_text(payload).unwrap();
    assert_eq!(text, Some(body));
}

#[test]
fn empty_success_body_is_none() {
    assert!(classify_response(200, Vec::new()).unwrap().is_none());
    assert!(classify_response(204, Vec::new()).unwrap().is_none());
    assert_eq!(classify_response(299, vec![1]).unwrap(), Some(vec![1]));
}

#[test]
fn failure_status_is_remote_failure() {
    for status in [199u16, 300, 404, 500] {
        let e = classify_response(status, b"boom".to_vec()).err().unwrap();
        match e.kind() {
            ErrorKind::RemoteFailure(s, t) => {
                assert_eq!(*s, status);
                assert_eq!(t, "boom");
            }
            _ => panic!("wrong kind"),
        }
        assert!(e.message().contains("boom"));
    }
    let e = classify_response(404, Vec::new()).err().unwrap();
    assert!(matches!(e.kind(), ErrorKind::RemoteFailure(404, _)));
}

#[test]
fn invalid_utf8_payload_is_decode_error() {
    let e = decode_text(Some(vec![0xff, 0xfe])).err().unwrap();
    assert!(matches!(e.kind(), ErrorKind::Utf8Decode));
    assert_eq!(e.causes().len(), 1);
    assert!(e.message().starts_with("Invalid UTF-8 text\n\tcaused by: "));
    assert_eq!(decode_text(None).unwrap(), None);
    assert_eq!(decode_text(Some(b"hi".to_vec())).unwrap(), Some("hi".to_string()));
}

#[test]
fn clones_share_host() {
    let c = Client::new(5u8, "http://h/".to_string());
    let d = c.clone();
    assert_eq!(d.host_name(), "http://h/");
    assert!(std::sync::Arc::ptr_eq(c.service(), d.service()));
    assert_eq!(*d.service().lock().unwrap(), 5);
}

#[test]
fn query_pairs_join_after_single_mark() {
    let c = Client::new((), "http://localhost/".to_string());
    let r = c
        .prepare_request(http::Method::GET, "/modules", pairs(&[("q", "a b&c")]), None, false)
        .unwrap();
    assert_eq!(r.uri, "http://localhost/modules?q=a+b%26c");
    let u = url::Url::parse(&r.uri).unwrap();
    let got: Vec<(String, String)> = u.query_pairs().into_owned().collect();
    assert_eq!(got, vec![("q".to_string(), "a b&c".to_string())]);
}
