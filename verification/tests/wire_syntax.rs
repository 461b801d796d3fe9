use route_proxy::proxy_item::{check_header, Header};
use route_proxy::response::{
    check_response_header, map_response_head, ResponseHead, ResponseHeader, TranslateError,
};
use route_proxy::route_config::NameValuePair;

fn is_token(c: char) -> bool {
    c.is_ascii_alphanumeric() || "!#$%&'*+-.^_`|~".contains(c)
}

fn pair(name: &str, value: &str) -> NameValuePair {
    NameValuePair { name: name.to_string(), value: value.to_string() }
}

#[test]
fn request_header_name_takes_exactly_the_token_characters() {
    for code in 0u8..128 {
        let c = code as char;
        let name = format!("a{}b", c);
        let expected = if is_token(c) {
            Some(Header { name: name.to_ascii_lowercase(), value: "v".to_string() })
        } else {
            None
        };
        assert_eq!(check_header(&pair(&name, "v")), expected, "character {}", code);
    }
}

#[test]
fn request_header_name_of_one_character() {
    for code in 0u8..128 {
        let c = code as char;
        let name = c.to_string();
        assert_eq!(check_header(&pair(&name, "v")).is_some(), is_token(c), "character {}", code);
    }
}

#[test]
fn request_header_name_refuses_characters_beyond_ascii() {
    for c in ['\u{80}', '\u{e9}', '\u{100}', '\u{212a}', '\u{1f600}'] {
        assert_eq!(check_header(&pair(&format!("x{}", c), "v")), None);
    }
}

#[test]
fn long_request_header_name_takes_exactly_the_token_characters() {
    let filler = "n".repeat(80);
    for code in 0u8..128 {
        let c = code as char;
        let name = format!("{}{}", filler, c);
        assert_eq!(check_header(&pair(&name, "v")).is_some(), is_token(c), "character {}", code);
    }
}

#[test]
fn request_header_value_takes_tab_and_all_from_space_but_del() {
    for code in 0u8..128 {
        let c = code as char;
        let value = format!("a{}b", c);
        let ok = (code >= 32 && code != 127) || code == 9;
        assert_eq!(check_header(&pair("x", &value)).is_some(), ok, "character {}", code);
    }
    for c in ['\u{80}', '\u{e9}', '\u{100}', '\u{1f600}'] {
        let value = format!("a{}b", c);
        assert_eq!(
            check_header(&pair("x", &value)),
            Some(Header { name: "x".to_string(), value: value.clone() })
        );
    }
}

#[test]
fn response_header_name_takes_token_characters_and_the_double_quote() {
    for code in 0u8..128 {
        let c = code as char;
        let name = format!("a{}b", c);
        let header = ResponseHeader { name: name.clone(), value: b"v".to_vec() };
        let expected = if is_token(c) || c == '"' {
            Some(ResponseHeader { name: name.to_ascii_lowercase(), value: b"v".to_vec() })
        } else {
            None
        };
        assert_eq!(check_response_header(&header), expected, "character {}", code);
    }
    let filler = "n".repeat(80);
    for code in 0u8..128 {
        let c = code as char;
        let header = ResponseHeader { name: format!("{}{}", filler, c), value: b"v".to_vec() };
        assert_eq!(
            check_response_header(&header).is_some(),
            is_token(c) || c == '"',
            "character {}",
            code
        );
    }
    let beyond = ResponseHeader { name: "caf\u{e9}".to_string(), value: b"v".to_vec() };
    assert_eq!(check_response_header(&beyond), None);
}

#[test]
fn response_header_value_takes_tab_and_all_from_space_but_del() {
    for code in 0u8..=255 {
        let header = ResponseHeader { name: "x".to_string(), value: vec![b'a', code, b'b'] };
        let ok = (code >= 32 && code != 127) || code == 9;
        assert_eq!(check_response_header(&header).is_some(), ok, "byte {}", code);
    }
}

#[test]
fn status_is_representable_exactly_from_100_to_999() {
    for code in 0u16..=u16::MAX {
        let head = ResponseHead { status: code, headers: vec![], cookies: vec![] };
        let translated = map_response_head(&head).map(|h| h.status);
        if (100..=999).contains(&code) {
            assert_eq!(translated, Ok(code));
        } else {
            assert_eq!(translated, Err(TranslateError::InvalidStatus(code)));
        }
    }
}

#[test]
fn cookie_is_issued_exactly_when_name_and_value_are_header_text() {
    for code in 0u8..128 {
        let c = code as char;
        let ok = (code >= 32 && code != 127) || code == 9;
        let in_value = ResponseHead {
            status: 200,
            headers: vec![],
            cookies: vec![pair("name", &format!("a{}b", c))],
        };
        let kept = map_response_head(&in_value).map(|h| h.cookies.len());
        assert_eq!(kept, Ok(if ok { 1 } else { 0 }), "value character {}", code);
        let in_name = ResponseHead {
            status: 200,
            headers: vec![],
            cookies: vec![pair(&format!("a{}b", c), "value")],
        };
        let kept = map_response_head(&in_name).map(|h| h.cookies.len());
        assert_eq!(kept, Ok(if ok { 1 } else { 0 }), "name character {}", code);
    }
    let beyond = ResponseHead {
        status: 200,
        headers: vec![],
        cookies: vec![pair("n\u{e9}", "v\u{1f600}"), pair("", "")],
    };
    assert_eq!(map_response_head(&beyond).map(|h| h.cookies.len()), Ok(2));
}
