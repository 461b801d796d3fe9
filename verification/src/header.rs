//! Wire syntax of header names, header values and status codes, as the HTTP
//! stacks on either side of the proxy accept them.
//!
//! The functions here hand single questions to those stacks. Their contracts
//! are taken on trust; everything built on them is proved.

use crate::route_config::lowered;
use std::str::FromStr;
use vstd::prelude::*;

verus! {

/// The longest header name, in bytes, that either stack takes.
pub const MAX_HEADER_NAME_LEN: usize = 65535;

/// A character of an HTTP token: a letter, a digit, or one of
/// ``! # $ % & ' * + - . ^ _ ` | ~``.
pub open spec fn is_token_char(c: char) -> bool {
    ||| ('a' <= c && c <= 'z')
    ||| ('A' <= c && c <= 'Z')
    ||| ('0' <= c && c <= '9')
    ||| c == '!'
    ||| c == '#'
    ||| c == '$'
    ||| c == '%'
    ||| c == '&'
    ||| c == '\''
    ||| c == '*'
    ||| c == '+'
    ||| c == '-'
    ||| c == '.'
    ||| c == '^'
    ||| c == '_'
    ||| c == '`'
    ||| c == '|'
    ||| c == '~'
}

/// A header name that the outbound client takes: a non-empty token of at
/// most `MAX_HEADER_NAME_LEN` characters.
pub open spec fn valid_request_header_name(name: Seq<char>) -> bool {
    &&& 1 <= name.len() <= MAX_HEADER_NAME_LEN
    &&& forall|i: int| 0 <= i < name.len() ==> is_token_char(#[trigger] name[i])
}

/// A header name that the serving side takes: as for the outbound client,
/// and a double quote passes as well.
pub open spec fn valid_response_header_name(name: Seq<char>) -> bool {
    &&& 1 <= name.len() <= MAX_HEADER_NAME_LEN
    &&& forall|i: int|
        0 <= i < name.len() ==> (is_token_char(#[trigger] name[i]) || name[i] == '"')
}

/// A character that may stand in a header value: a tab, or anything from
/// the space upwards except DEL.
pub open spec fn is_value_char(c: char) -> bool {
    (c as u32 >= 32 && c as u32 != 127) || c == '\t'
}

/// A header value given as text that both stacks take.
pub open spec fn valid_header_value(value: Seq<char>) -> bool {
    forall|i: int| 0 <= i < value.len() ==> is_value_char(#[trigger] value[i])
}

/// A byte that may stand in a header value: a tab, or anything from the
/// space upwards except DEL.
pub open spec fn is_value_byte(b: u8) -> bool {
    (b >= 32 && b != 127) || b == 9
}

/// A header value given as bytes that the serving side takes.
pub open spec fn valid_header_value_bytes(value: Seq<u8>) -> bool {
    forall|i: int| 0 <= i < value.len() ==> is_value_byte(#[trigger] value[i])
}

/// A status code that the serving side can represent.
pub open spec fn valid_status(code: u16) -> bool {
    100 <= code < 1000
}

/// Calls `reqwest::header::HeaderName::from_str` and hands back the name as
/// the client will send it.
///
/// Trusted: the client takes exactly the names of
/// `valid_request_header_name`, and stores each with its ASCII letters in
/// lower case.
#[verifier::external_body]
pub(crate) fn request_header_name(name: &str) -> (r: Option<String>)
    ensures
        r is Some <==> valid_request_header_name(name@),
        r is Some ==> r->Some_0@ == lowered(name@),
{
    match reqwest::header::HeaderName::from_str(name) {
        Ok(parsed) => Some(parsed.as_str().to_owned()),
        Err(_) => None,
    }
}

/// Calls `reqwest::header::HeaderValue::from_str`.
///
/// Trusted: the client takes a value exactly when each of its characters is
/// a tab or lies at or above the space and is not DEL. Its documentation
/// speaks of visible ASCII only; its code, which this follows, lets a tab
/// and every character above DEL pass as well.
#[verifier::external_body]
pub(crate) fn request_header_value_accepted(value: &str) -> (r: bool)
    ensures
        r == valid_header_value(value@),
{
    reqwest::header::HeaderValue::from_str(value).is_ok()
}

/// Calls `actix_web::http::header::HeaderName::from_str` and hands back the
/// name as the server will send it.
///
/// Trusted: the server takes exactly the names of
/// `valid_response_header_name`, and stores each with its ASCII letters in
/// lower case.
#[verifier::external_body]
pub(crate) fn response_header_name(name: &str) -> (r: Option<String>)
    ensures
        r is Some <==> valid_response_header_name(name@),
        r is Some ==> r->Some_0@ == lowered(name@),
{
    match actix_web::http::header::HeaderName::from_str(name) {
        Ok(parsed) => Some(parsed.as_str().to_owned()),
        Err(_) => None,
    }
}

/// Calls `actix_web::http::header::HeaderValue::from_bytes`.
///
/// Trusted: the server takes a value exactly when each of its bytes is a
/// tab or lies at or above the space and is not DEL.
#[verifier::external_body]
pub(crate) fn response_header_value_accepted(value: &Vec<u8>) -> (r: bool)
    ensures
        r == valid_header_value_bytes(value@),
{
    actix_web::http::header::HeaderValue::from_bytes(value.as_slice()).is_ok()
}

/// Calls `actix_web::http::StatusCode::from_u16`.
///
/// Trusted: the server represents the codes from 100 to 999 and no others.
#[verifier::external_body]
pub(crate) fn status_accepted(code: u16) -> (r: bool)
    ensures
        r == valid_status(code),
{
    actix_web::http::StatusCode::from_u16(code).is_ok()
}

/// Calls `actix_web::HttpResponse::add_cookie`, on a fresh response, with
/// the cookie that `actix_web::cookie::Cookie::new` makes of the name and
/// the value.
///
/// Trusted: a cookie of a name and a value alone is written as the name, an
/// equals sign and the value, and it is added exactly when that text is a
/// valid header value, which is when both parts are.
#[verifier::external_body]
pub(crate) fn cookie_accepted(name: &str, value: &str) -> (r: bool)
    ensures
        r == (valid_header_value(name@) && valid_header_value(value@)),
{
    let mut response = actix_web::HttpResponse::new(actix_web::http::StatusCode::OK);
    response.add_cookie(&actix_web::cookie::Cookie::new(name, value)).is_ok()
}

} // verus!
