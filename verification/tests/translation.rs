use route_proxy::proxy_route_service::{after_upstream, Step, INTERNAL_SERVER_ERROR};
use route_proxy::response::{
    check_response_header, into_response, map_response_head, ResponseHead, ResponseHeader,
    TranslateError,
};
use route_proxy::route_config::NameValuePair;

fn pair(name: &str, value: &str) -> NameValuePair {
    NameValuePair { name: name.to_string(), value: value.to_string() }
}

fn header(name: &str, value: &[u8]) -> ResponseHeader {
    ResponseHeader { name: name.to_string(), value: value.to_vec() }
}

fn head(status: u16) -> ResponseHead {
    ResponseHead { status, headers: vec![], cookies: vec![] }
}

#[test]
fn status_and_body_are_preserved() {
    let body = vec![0u8, 1, 2, 255, 254];
    let out = into_response(&head(418), body.clone()).expect("418 can be represented");
    assert_eq!(out.head.status, 418);
    assert_eq!(out.body, body);
}

#[test]
fn empty_body_stays_empty() {
    let out = into_response(&head(204), Vec::new()).expect("204 can be represented");
    assert_eq!(out.head.status, 204);
    assert!(out.body.is_empty());
}

#[test]
fn every_http_status_translates() {
    for code in [100u16, 101, 200, 301, 404, 500, 599] {
        assert_eq!(map_response_head(&head(code)).map(|h| h.status), Ok(code));
    }
}

#[test]
fn status_bounds_are_100_and_999() {
    assert_eq!(map_response_head(&head(99)), Err(TranslateError::InvalidStatus(99)));
    assert_eq!(map_response_head(&head(0)), Err(TranslateError::InvalidStatus(0)));
    assert_eq!(map_response_head(&head(1000)), Err(TranslateError::InvalidStatus(1000)));
    assert_eq!(map_response_head(&head(65535)), Err(TranslateError::InvalidStatus(65535)));
    assert_eq!(map_response_head(&head(100)).map(|h| h.status), Ok(100));
    assert_eq!(map_response_head(&head(999)).map(|h| h.status), Ok(999));
}

#[test]
fn unrepresentable_status_fails_the_whole_response() {
    assert_eq!(into_response(&head(42), b"x".to_vec()), Err(TranslateError::InvalidStatus(42)));
}

#[test]
fn valid_headers_are_copied_in_order() {
    let upstream = ResponseHead {
        status: 200,
        headers: vec![
            header("content-type", b"application/json"),
            header("x-trace", b"abc"),
            header("set-cookie", b"a=1"),
            header("set-cookie", b"b=2"),
        ],
        cookies: vec![],
    };
    let out = map_response_head(&upstream).expect("200 can be represented");
    assert_eq!(out.headers, upstream.headers);
}

#[test]
fn invalid_header_is_dropped_and_the_rest_stays() {
    let upstream = ResponseHead {
        status: 200,
        headers: vec![
            header("first", b"1"),
            header("bad name", b"2"),
            header("third", b"line\nbreak"),
            header("", b"4"),
            header("fifth", b"5"),
        ],
        cookies: vec![],
    };
    let out = map_response_head(&upstream).expect("200 can be represented");
    assert_eq!(out.headers, vec![header("first", b"1"), header("fifth", b"5")]);
}

#[test]
fn response_header_name_is_lowered() {
    assert_eq!(check_response_header(&header("X-Trace-Id", b"Abc")), Some(header("x-trace-id", b"Abc")));
}

#[test]
fn double_quote_passes_in_response_header_names() {
    assert_eq!(check_response_header(&header("a\"b", b"v")), Some(header("a\"b", b"v")));
    assert_eq!(check_response_header(&header("a b", b"v")), None);
    assert_eq!(check_response_header(&header("a:b", b"v")), None);
}

#[test]
fn response_header_value_may_hold_opaque_bytes() {
    assert_eq!(check_response_header(&header("x", &[0x80, 0xff, 0x20, 0x09])), Some(header("x", &[0x80, 0xff, 0x20, 0x09])));
    assert_eq!(check_response_header(&header("x", &[0x7f])), None);
    assert_eq!(check_response_header(&header("x", &[0x1f])), None);
    assert_eq!(check_response_header(&header("x", &[0x00])), None);
    assert_eq!(check_response_header(&header("x", &[])), Some(header("x", &[])));
}

#[test]
fn response_header_name_length_is_bounded() {
    let longest = "h".repeat(65535);
    assert_eq!(check_response_header(&header(&longest, b"v")), Some(header(&longest, b"v")));
    assert_eq!(check_response_header(&header(&"h".repeat(65536), b"v")), None);
}

#[test]
fn cookies_are_reissued_by_name_and_value() {
    let upstream = ResponseHead {
        status: 200,
        headers: vec![],
        cookies: vec![pair("session", "abc123"), pair("theme", "dark mode")],
    };
    let out = map_response_head(&upstream).expect("200 can be represented");
    assert_eq!(out.cookies, vec![pair("session", "abc123"), pair("theme", "dark mode")]);
}

#[test]
fn cookie_that_cannot_be_written_is_dropped() {
    let upstream = ResponseHead {
        status: 200,
        headers: vec![header("x", b"y")],
        cookies: vec![
            pair("good", "1"),
            pair("bad\nname", "2"),
            pair("name", "bad\u{0}value"),
            pair("also-good", "caf\u{e9}"),
        ],
    };
    let out = map_response_head(&upstream).expect("200 can be represented");
    assert_eq!(out.cookies, vec![pair("good", "1"), pair("also-good", "caf\u{e9}")]);
    assert_eq!(out.headers, vec![header("x", b"y")]);
}

#[test]
fn failed_upstream_call_is_a_server_error() {
    assert_eq!(after_upstream(None), Step::Fail(500));
    assert_eq!(INTERNAL_SERVER_ERROR, 500);
}

#[test]
fn unrepresentable_upstream_status_is_a_server_error() {
    assert_eq!(after_upstream(Some(&head(7))), Step::Fail(500));
}

#[test]
fn upstream_answer_is_relayed() {
    let upstream = ResponseHead {
        status: 201,
        headers: vec![header("Location", b"/new"), header("bad name", b"x")],
        cookies: vec![pair("id", "9")],
    };
    assert_eq!(
        after_upstream(Some(&upstream)),
        Step::Relay(ResponseHead {
            status: 201,
            headers: vec![header("location", b"/new")],
            cookies: vec![pair("id", "9")],
        })
    );
}
