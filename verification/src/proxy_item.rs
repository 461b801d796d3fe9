//! The resolved form of one route: what is sent upstream when nothing in the
//! inbound request overrides it.

use crate::filtering::{lemma_filter_map_keeps, lemma_filter_map_source};
use crate::header::{
    request_header_name, request_header_value_accepted, valid_header_value,
    valid_request_header_name,
};
use crate::route_config::{lowered, optional_pairs, pairs_view, HttpMethod, NameValuePair, RouteConfig};
use vstd::prelude::*;
use vstd::slice::slice_to_vec;
use vstd::string::StrSliceExecFns;

verus! {

/// A header that passed validation: the name with its letters in lower
/// case, and the value as configured.
#[derive(Debug, PartialEq, Eq)]
pub struct Header {
    pub name: String,
    pub value: String,
}

impl View for Header {
    type V = (Seq<char>, Seq<char>);

    open spec fn view(&self) -> (Seq<char>, Seq<char>) {
        (self.name@, self.value@)
    }
}

impl Clone for Header {
    fn clone(&self) -> (r: Header)
        ensures
            r@ == self@,
    {
        Header { name: self.name.clone(), value: self.value.clone() }
    }
}

/// The headers of a list, each as its name and value.
pub open spec fn headers_view(s: Seq<Header>) -> Seq<(Seq<char>, Seq<char>)> {
    s.map_values(|h: Header| h@)
}

/// Whether a configured header can be sent: both its name and its value are
/// well-formed.
pub open spec fn header_accepted(pair: (Seq<char>, Seq<char>)) -> bool {
    valid_request_header_name(pair.0) && valid_header_value(pair.1)
}

/// A configured header as it is sent, with its name in lower case; `None`
/// for one that cannot be sent.
pub open spec fn checked_header(pair: (Seq<char>, Seq<char>)) -> Option<(Seq<char>, Seq<char>)> {
    if header_accepted(pair) {
        Some((lowered(pair.0), pair.1))
    } else {
        None
    }
}

/// `checked_header` as a function value.
pub open spec fn header_check() -> spec_fn((Seq<char>, Seq<char>)) -> Option<
    (Seq<char>, Seq<char>),
> {
    |pair: (Seq<char>, Seq<char>)| checked_header(pair)
}

/// The configured headers that can be sent, in their configured order, each
/// name in lower case. An entry that fails validation is left out and the
/// others stay.
pub open spec fn accepted_headers(pairs: Seq<(Seq<char>, Seq<char>)>) -> Seq<
    (Seq<char>, Seq<char>),
> {
    pairs.filter_map(header_check())
}

/// What a `ProxyItem` holds, as plain values.
pub struct ProxyItemView {
    pub url: Seq<char>,
    pub headers: Seq<(Seq<char>, Seq<char>)>,
    pub query_params: Seq<(Seq<char>, Seq<char>)>,
    pub method: HttpMethod,
    pub default_body: Seq<u8>,
}

/// One route, resolved: the upstream URL, the method issued upstream, the
/// validated default headers, the default query parameters and the default
/// body.
#[derive(Debug, PartialEq, Eq)]
pub struct ProxyItem {
    pub url: String,
    pub headers: Vec<Header>,
    pub query_params: Vec<NameValuePair>,
    pub method: HttpMethod,
    pub default_body: Vec<u8>,
}

impl View for ProxyItem {
    type V = ProxyItemView;

    open spec fn view(&self) -> ProxyItemView {
        ProxyItemView {
            url: self.url@,
            headers: headers_view(self.headers@),
            query_params: pairs_view(self.query_params@),
            method: self.method,
            default_body: self.default_body@,
        }
    }
}

/// The resolved form of a configured route.
pub open spec fn item_of(route: RouteConfig) -> ProxyItemView {
    ProxyItemView {
        url: route.url@,
        headers: accepted_headers(optional_pairs(route.headers)),
        query_params: optional_pairs(route.query),
        method: route.spec_outbound_method(),
        default_body: route.spec_default_body(),
    }
}

fn clone_pairs(list: &Vec<NameValuePair>) -> (r: Vec<NameValuePair>)
    ensures
        pairs_view(r@) == pairs_view(list@),
{
    let mut out: Vec<NameValuePair> = Vec::new();
    let mut i: usize = 0;
    while i < list.len()
        invariant
            i <= list.len(),
            out@.len() == i,
            forall|j: int| 0 <= j < i ==> out@[j]@ == list@[j]@,
        decreases list.len() - i,
    {
        out.push(list[i].clone());
        i = i + 1;
    }
    assert(pairs_view(out@) =~= pairs_view(list@));
    out
}

pub(crate) fn clone_headers(list: &Vec<Header>) -> (r: Vec<Header>)
    ensures
        headers_view(r@) == headers_view(list@),
{
    let mut out: Vec<Header> = Vec::new();
    let mut i: usize = 0;
    while i < list.len()
        invariant
            i <= list.len(),
            out@.len() == i,
            forall|j: int| 0 <= j < i ==> out@[j]@ == list@[j]@,
        decreases list.len() - i,
    {
        out.push(list[i].clone());
        i = i + 1;
    }
    assert(headers_view(out@) =~= headers_view(list@));
    out
}

fn clone_bytes(bytes: &Vec<u8>) -> (r: Vec<u8>)
    ensures
        r@ == bytes@,
{
    slice_to_vec(bytes.as_slice())
}

/// Validates one configured header. It is kept, with its name in lower
/// case, exactly when both the name and the value are well-formed.
pub fn check_header(pair: &NameValuePair) -> (r: Option<Header>)
    ensures
        r is Some <==> header_accepted(pair@),
        r is Some ==> r->Some_0@ == (lowered(pair.name@), pair.value@),
{
    match request_header_name(pair.name.as_str()) {
        Some(name) => {
            if request_header_value_accepted(pair.value.as_str()) {
                Some(Header { name, value: pair.value.clone() })
            } else {
                None
            }
        },
        None => None,
    }
}

impl ProxyItem {
    /// A route to `url` with nothing else configured: GET, no default
    /// headers, query parameters or body.
    pub fn new(url: &str) -> (r: ProxyItem)
        ensures
            r@ == (ProxyItemView {
                url: url@,
                headers: Seq::empty(),
                query_params: Seq::empty(),
                method: HttpMethod::Get,
                default_body: Seq::empty(),
            }),
    {
        let r = ProxyItem {
            url: url.to_owned(),
            headers: Vec::new(),
            query_params: Vec::new(),
            method: HttpMethod::Get,
            default_body: Vec::new(),
        };
        assert(headers_view(r.headers@) =~= Seq::empty());
        assert(pairs_view(r.query_params@) =~= Seq::empty());
        r
    }

    /// Sets the body that is sent when the inbound request has none.
    pub fn set_default_body(self, bytes: &[u8]) -> (r: ProxyItem)
        ensures
            r@ == (ProxyItemView { default_body: bytes@, ..self@ }),
    {
        let mut item = self;
        item.default_body = slice_to_vec(bytes);
        item
    }

    /// Sets the default headers to those of `headers` that pass validation,
    /// in their order. An invalid entry is dropped by itself.
    pub fn set_headers(self, headers: &Vec<NameValuePair>) -> (r: ProxyItem)
        ensures
            r@ == (ProxyItemView { headers: accepted_headers(pairs_view(headers@)), ..self@ }),
    {
        let mut kept: Vec<Header> = Vec::new();
        let mut i: usize = 0;
        assert(pairs_view(headers@).take(0) =~= Seq::empty());
        assert(headers_view(kept@) =~= Seq::empty());
        while i < headers.len()
            invariant
                i <= headers.len(),
                headers_view(kept@) == accepted_headers(pairs_view(headers@).take(i as int)),
            decreases headers.len() - i,
        {
            let ghost before = headers_view(kept@);
            proof {
                pairs_view(headers@).lemma_filter_map_take_succ(header_check(), i as int);
            }
            match check_header(&headers[i]) {
                Some(h) => {
                    kept.push(h);
                    assert(headers_view(kept@) =~= before + seq![h@]);
                },
                None => {
                    assert(before + Seq::empty() =~= before);
                },
            }
            i = i + 1;
        }
        assert(pairs_view(headers@).take(i as int) =~= pairs_view(headers@));
        let mut item = self;
        item.headers = kept;
        item
    }

    /// Sets the default query parameters.
    pub fn set_query(self, query: &Vec<NameValuePair>) -> (r: ProxyItem)
        ensures
            r@ == (ProxyItemView { query_params: pairs_view(query@), ..self@ }),
    {
        let mut item = self;
        item.query_params = clone_pairs(query);
        item
    }

    /// Sets the method issued upstream.
    pub fn set_method(self, method: HttpMethod) -> (r: ProxyItem)
        ensures
            r@ == (ProxyItemView { method: method, ..self@ }),
    {
        let mut item = self;
        item.method = method;
        item
    }

    /// Resolves a configured route: the target method takes precedence over
    /// the inbound method, invalid headers are dropped one by one, and
    /// absent lists and an absent body count as empty.
    pub fn from_route(route: &RouteConfig) -> (r: ProxyItem)
        ensures
            r@ == item_of(*route),
    {
        let mut item = ProxyItem::new(route.url.as_str());
        match &route.query {
            Some(query) => {
                item = item.set_query(query);
            },
            None => {},
        }
        match &route.headers {
            Some(headers) => {
                item = item.set_headers(headers);
            },
            None => {},
        }
        item = item.set_method(route.outbound_method());
        match &route.default_body {
            Some(body) => {
                let bytes = body.as_str().as_bytes_vec();
                item = item.set_default_body(bytes.as_slice());
            },
            None => {},
        }
        item
    }

    /// A copy of the item.
    pub fn duplicate(&self) -> (r: ProxyItem)
        ensures
            r@ == self@,
    {
        ProxyItem {
            url: self.url.clone(),
            headers: clone_headers(&self.headers),
            query_params: clone_pairs(&self.query_params),
            method: self.method,
            default_body: clone_bytes(&self.default_body),
        }
    }
}

/// A configured header that passes validation is among the route's default
/// headers, whatever stands beside it: one bad entry never disables the
/// others.
pub proof fn accepted_header_is_kept(pairs: Seq<(Seq<char>, Seq<char>)>, i: int)
    requires
        0 <= i < pairs.len(),
        header_accepted(pairs[i]),
    ensures
        accepted_headers(pairs).contains((lowered(pairs[i].0), pairs[i].1)),
{
    lemma_filter_map_keeps(pairs, header_check(), i);
}

/// Every default header of a route stems from a configured header that
/// passes validation. The result is the position of that configured header.
pub proof fn kept_header_was_accepted(pairs: Seq<(Seq<char>, Seq<char>)>, j: int) -> (i: int)
    requires
        0 <= j < accepted_headers(pairs).len(),
    ensures
        0 <= i < pairs.len(),
        header_accepted(pairs[i]),
        accepted_headers(pairs)[j] == (lowered(pairs[i].0), pairs[i].1),
{
    lemma_filter_map_source(pairs, header_check(), j)
}

} // verus!
