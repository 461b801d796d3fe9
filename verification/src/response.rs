//! The response translator: how an upstream response becomes the response
//! that is relayed to the caller.

use crate::header::{
    cookie_accepted, response_header_name, response_header_value_accepted, status_accepted,
    valid_header_value, valid_header_value_bytes, valid_response_header_name, valid_status,
};
use crate::filtering::{lemma_filter_map_keeps, lemma_filter_map_source};
use crate::proxy_service::Pair;
use crate::route_config::{lowered, pairs_view, NameValuePair};
use vstd::prelude::*;

verus! {

/// A response header as plain values: its name and the bytes of its value.
pub type RawPair = (Seq<char>, Seq<u8>);

/// A response header as it came off the wire: a name, and a value that
/// need not be text.
#[derive(Debug, PartialEq, Eq)]
pub struct ResponseHeader {
    pub name: String,
    pub value: Vec<u8>,
}

impl View for ResponseHeader {
    type V = RawPair;

    open spec fn view(&self) -> RawPair {
        (self.name@, self.value@)
    }
}

/// The headers of a list, each as its name and value.
pub open spec fn raw_view(s: Seq<ResponseHeader>) -> Seq<RawPair> {
    s.map_values(|h: ResponseHeader| h@)
}

/// What a `ResponseHead` holds, as plain values.
pub struct ResponseHeadView {
    pub status: u16,
    pub headers: Seq<RawPair>,
    pub cookies: Seq<Pair>,
}

/// Everything of a response that precedes its body: the status code, the
/// headers in order, and the cookies by name and value.
#[derive(Debug, PartialEq, Eq)]
pub struct ResponseHead {
    pub status: u16,
    pub headers: Vec<ResponseHeader>,
    pub cookies: Vec<NameValuePair>,
}

impl View for ResponseHead {
    type V = ResponseHeadView;

    open spec fn view(&self) -> ResponseHeadView {
        ResponseHeadView {
            status: self.status,
            headers: raw_view(self.headers@),
            cookies: pairs_view(self.cookies@),
        }
    }
}

/// A translated response: its head and the bytes of its body.
#[derive(Debug, PartialEq, Eq)]
pub struct DownboundResponse {
    pub head: ResponseHead,
    pub body: Vec<u8>,
}

/// Why an upstream response could not be translated.
#[derive(Debug, PartialEq, Eq)]
pub enum TranslateError {
    /// The upstream status code is one that the serving side cannot
    /// represent.
    InvalidStatus(u16),
}

/// Whether the serving side takes an upstream header.
pub open spec fn response_header_accepted(h: RawPair) -> bool {
    valid_response_header_name(h.0) && valid_header_value_bytes(h.1)
}

/// An upstream header as it is relayed, with its name in lower case; `None`
/// for one that the serving side does not take.
pub open spec fn checked_response_header(h: RawPair) -> Option<RawPair> {
    if response_header_accepted(h) {
        Some((lowered(h.0), h.1))
    } else {
        None
    }
}

/// `checked_response_header` as a function value.
pub open spec fn response_header_check() -> spec_fn(RawPair) -> Option<RawPair> {
    |h: RawPair| checked_response_header(h)
}

/// The upstream headers that are relayed, in their order, each name in
/// lower case. A header that the serving side does not take is left out
/// and the others stay.
pub open spec fn relayed_headers(headers: Seq<RawPair>) -> Seq<RawPair> {
    headers.filter_map(response_header_check())
}

/// Whether a cookie of this name and value can be issued again.
pub open spec fn cookie_can_be_issued(c: Pair) -> bool {
    valid_header_value(c.0) && valid_header_value(c.1)
}

/// A cookie that is issued again, as it is; `None` for one that cannot be
/// written as a header.
pub open spec fn checked_cookie(c: Pair) -> Option<Pair> {
    if cookie_can_be_issued(c) {
        Some(c)
    } else {
        None
    }
}

/// `checked_cookie` as a function value.
pub open spec fn cookie_check() -> spec_fn(Pair) -> Option<Pair> {
    |c: Pair| checked_cookie(c)
}

/// The upstream cookies that are issued again, in their order, by name and
/// value. A cookie that cannot be written as a header is left out and the
/// others stay.
pub open spec fn relayed_cookies(cookies: Seq<Pair>) -> Seq<Pair> {
    cookies.filter_map(cookie_check())
}

/// The head that is relayed for an upstream head whose status the serving
/// side can represent.
pub open spec fn relayed_head(upstream: ResponseHeadView) -> ResponseHeadView {
    ResponseHeadView {
        status: upstream.status,
        headers: relayed_headers(upstream.headers),
        cookies: relayed_cookies(upstream.cookies),
    }
}

/// Validates one upstream header for the serving side. It is kept, with its
/// name in lower case and its value untouched, exactly when both are
/// well-formed.
pub fn check_response_header(h: &ResponseHeader) -> (r: Option<ResponseHeader>)
    ensures
        r is Some <==> response_header_accepted(h@),
        r is Some ==> r->Some_0@ == (lowered(h.name@), h.value@),
{
    match response_header_name(h.name.as_str()) {
        Some(name) => {
            if response_header_value_accepted(&h.value) {
                Some(ResponseHeader { name, value: vstd::slice::slice_to_vec(h.value.as_slice()) })
            } else {
                None
            }
        },
        None => None,
    }
}

fn relay_headers(headers: &Vec<ResponseHeader>) -> (r: Vec<ResponseHeader>)
    ensures
        raw_view(r@) == relayed_headers(raw_view(headers@)),
{
    let mut kept: Vec<ResponseHeader> = Vec::new();
    let mut i: usize = 0;
    assert(raw_view(headers@).take(0) =~= Seq::empty());
    assert(raw_view(kept@) =~= Seq::empty());
    while i < headers.len()
        invariant
            i <= headers.len(),
            raw_view(kept@) == relayed_headers(raw_view(headers@).take(i as int)),
        decreases headers.len() - i,
    {
        let ghost before = raw_view(kept@);
        proof {
            raw_view(headers@).lemma_filter_map_take_succ(response_header_check(), i as int);
        }
        match check_response_header(&headers[i]) {
            Some(h) => {
                kept.push(h);
                assert(raw_view(kept@) =~= before + seq![h@]);
            },
            None => {
                assert(before + Seq::empty() =~= before);
            },
        }
        i = i + 1;
    }
    assert(raw_view(headers@).take(i as int) =~= raw_view(headers@));
    kept
}

fn relay_cookies(cookies: &Vec<NameValuePair>) -> (r: Vec<NameValuePair>)
    ensures
        pairs_view(r@) == relayed_cookies(pairs_view(cookies@)),
{
    let mut kept: Vec<NameValuePair> = Vec::new();
    let mut i: usize = 0;
    assert(pairs_view(cookies@).take(0) =~= Seq::empty());
    assert(pairs_view(kept@) =~= Seq::empty());
    while i < cookies.len()
        invariant
            i <= cookies.len(),
            pairs_view(kept@) == relayed_cookies(pairs_view(cookies@).take(i as int)),
        decreases cookies.len() - i,
    {
        let ghost before = pairs_view(kept@);
        proof {
            pairs_view(cookies@).lemma_filter_map_take_succ(cookie_check(), i as int);
        }
        if cookie_accepted(cookies[i].name.as_str(), cookies[i].value.as_str()) {
            let c = cookies[i].clone();
            kept.push(c);
            assert(pairs_view(kept@) =~= before + seq![c@]);
        } else {
            assert(before + Seq::empty() =~= before);
        }
        i = i + 1;
    }
    assert(pairs_view(cookies@).take(i as int) =~= pairs_view(cookies@));
    kept
}

/// Translates the head of an upstream response. The status code is copied
/// as it is; headers and cookies that the serving side does not take are
/// dropped one by one. The translation fails only on a status code that the
/// serving side cannot represent.
pub fn map_response_head(upstream: &ResponseHead) -> (r: Result<ResponseHead, TranslateError>)
    ensures
        r is Ok <==> valid_status(upstream.status),
        r is Ok ==> r->Ok_0@ == relayed_head(upstream@),
        r is Err ==> r->Err_0 == TranslateError::InvalidStatus(upstream.status),
{
    if !status_accepted(upstream.status) {
        return Err(TranslateError::InvalidStatus(upstream.status));
    }
    Ok(
        ResponseHead {
            status: upstream.status,
            headers: relay_headers(&upstream.headers),
            cookies: relay_cookies(&upstream.cookies),
        },
    )
}

/// Translates an upstream response: the head as `map_response_head` does,
/// the body byte for byte.
pub fn into_response(upstream: &ResponseHead, body: Vec<u8>) -> (r: Result<
    DownboundResponse,
    TranslateError,
>)
    ensures
        r is Ok <==> valid_status(upstream.status),
        r is Ok ==> r->Ok_0.head@ == relayed_head(upstream@) && r->Ok_0.body@ == body@,
        r is Err ==> r->Err_0 == TranslateError::InvalidStatus(upstream.status),
{
    match map_response_head(upstream) {
        Ok(head) => Ok(DownboundResponse { head, body }),
        Err(e) => Err(e),
    }
}

/// Every status code of the HTTP range can be represented, so no response
/// with such a code fails to translate.
pub proof fn http_status_is_valid(code: u16)
    requires
        100 <= code <= 599,
    ensures
        valid_status(code),
{
}

/// A header that the serving side takes is relayed, whatever stands beside
/// it: an invalid neighbour does not abort the translation.
pub proof fn accepted_header_is_relayed(headers: Seq<RawPair>, i: int)
    requires
        0 <= i < headers.len(),
        response_header_accepted(headers[i]),
    ensures
        relayed_headers(headers).contains((lowered(headers[i].0), headers[i].1)),
{
    lemma_filter_map_keeps(headers, response_header_check(), i);
}

/// Every relayed header stems from an upstream header that the serving
/// side takes: nothing is invented and nothing invalid passes. The result
/// is the position of that upstream header.
pub proof fn relayed_header_was_accepted(headers: Seq<RawPair>, j: int) -> (i: int)
    requires
        0 <= j < relayed_headers(headers).len(),
    ensures
        0 <= i < headers.len(),
        response_header_accepted(headers[i]),
        relayed_headers(headers)[j] == (lowered(headers[i].0), headers[i].1),
{
    lemma_filter_map_source(headers, response_header_check(), j)
}

/// A cookie that can be written as a header is issued again, whatever
/// stands beside it.
pub proof fn accepted_cookie_is_relayed(cookies: Seq<Pair>, i: int)
    requires
        0 <= i < cookies.len(),
        cookie_can_be_issued(cookies[i]),
    ensures
        relayed_cookies(cookies).contains(cookies[i]),
{
    lemma_filter_map_keeps(cookies, cookie_check(), i);
}

} // verus!
