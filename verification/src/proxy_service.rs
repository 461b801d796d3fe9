//! The request forwarder: how a route's defaults and a live inbound request
//! combine into the request that is sent upstream.

use crate::proxy_item::{
    accepted_headers, clone_headers, headers_view, item_of, Header, ProxyItem, ProxyItemView,
};
use crate::route_config::{optional_pairs, pairs_view, HttpMethod, NameValuePair, RouteConfig};
use std::collections::HashMap;
use vstd::prelude::*;

verus! {

/// A query parameter or header as plain values: its name and its value.
pub type Pair = (Seq<char>, Seq<char>);

/// The value of the first pair named `name`, if any pair has that name.
pub open spec fn value_of(q: Seq<Pair>, name: Seq<char>) -> Option<Seq<char>>
    decreases q.len(),
{
    if q.len() == 0 {
        None
    } else {
        match value_of(q.drop_last(), name) {
            Some(v) => Some(v),
            None => if q.last().0 == name {
                Some(q.last().1)
            } else {
                None
            },
        }
    }
}

/// No name stands twice in the list.
pub open spec fn distinct_names(q: Seq<Pair>) -> bool {
    forall|i: int, j: int| 0 <= i < j < q.len() ==> (#[trigger] q[i]).0 != (#[trigger] q[j]).0
}

/// The mapping from name to value that a list of parameters stands for.
pub open spec fn query_map(q: Seq<Pair>) -> Map<Seq<char>, Seq<char>> {
    Map::new(|name: Seq<char>| value_of(q, name) is Some, |name: Seq<char>| value_of(q, name)->Some_0)
}

/// The outbound query: the inbound parameters, followed by each default
/// whose name no parameter before it has. An inbound value is never
/// replaced; a default only fills a gap.
pub open spec fn merged_query(inbound: Seq<Pair>, defaults: Seq<Pair>) -> Seq<Pair>
    decreases defaults.len(),
{
    if defaults.len() == 0 {
        inbound
    } else {
        let merged = merged_query(inbound, defaults.drop_last());
        let d = defaults.last();
        if value_of(merged, d.0) is Some {
            merged
        } else {
            merged.push(d)
        }
    }
}

/// The same merge on mappings: each default is added unless its name is
/// taken.
pub open spec fn merged_map(inbound: Map<Seq<char>, Seq<char>>, defaults: Seq<Pair>) -> Map<
    Seq<char>,
    Seq<char>,
>
    decreases defaults.len(),
{
    if defaults.len() == 0 {
        inbound
    } else {
        let merged = merged_map(inbound, defaults.drop_last());
        let d = defaults.last();
        if merged.contains_key(d.0) {
            merged
        } else {
            merged.insert(d.0, d.1)
        }
    }
}

/// The outbound body: the inbound body where it is not empty, else the
/// route's default body.
pub open spec fn outbound_body(inbound: Seq<u8>, default_body: Seq<u8>) -> Seq<u8> {
    if inbound.len() > 0 {
        inbound
    } else {
        default_body
    }
}

/// What an `OutboundRequest` holds, as plain values.
pub struct OutboundRequestView {
    pub method: HttpMethod,
    pub url: Seq<char>,
    pub query: Seq<Pair>,
    pub headers: Seq<Pair>,
    pub body: Seq<u8>,
}

/// The request to send upstream. An empty `query` means that no query
/// string is attached, an empty `body` that the request has no body.
#[derive(Debug, PartialEq, Eq)]
pub struct OutboundRequest {
    pub method: HttpMethod,
    pub url: String,
    pub query: Vec<NameValuePair>,
    pub headers: Vec<Header>,
    pub body: Vec<u8>,
}

impl View for OutboundRequest {
    type V = OutboundRequestView;

    open spec fn view(&self) -> OutboundRequestView {
        OutboundRequestView {
            method: self.method,
            url: self.url@,
            query: pairs_view(self.query@),
            headers: headers_view(self.headers@),
            body: self.body@,
        }
    }
}

impl OutboundRequest {
    /// Whether a query string is attached: only where there is at least one
    /// parameter.
    pub fn has_query(&self) -> (r: bool)
        ensures
            r == (self@.query.len() > 0),
    {
        self.query.len() > 0
    }

    /// Whether the request carries a body: only where there is at least one
    /// byte to send.
    pub fn has_body(&self) -> (r: bool)
        ensures
            r == (self@.body.len() > 0),
    {
        self.body.len() > 0
    }
}

/// The request that a route issues for an inbound request with the given
/// parsed query parameters and body. Nothing else of the inbound request
/// enters: its headers in particular are not forwarded.
pub open spec fn outbound_of(item: ProxyItemView, inbound_query: Seq<Pair>, body: Seq<u8>)
    -> OutboundRequestView {
    OutboundRequestView {
        method: item.method,
        url: item.url,
        query: merged_query(inbound_query, item.query_params),
        headers: item.headers,
        body: outbound_body(body, item.default_body),
    }
}

/// The parameters that the serving side's query parser reads from a query
/// string, by name; `None` where it refuses the string.
pub uninterp spec fn parsed_query(query_string: Seq<char>) -> Option<Map<Seq<char>, Seq<char>>>;

/// The inbound parameters by name. A query string that cannot be parsed
/// counts as one without parameters.
pub open spec fn inbound_map(query_string: Seq<char>) -> Map<Seq<char>, Seq<char>> {
    match parsed_query(query_string) {
        Some(m) => m,
        None => Map::empty(),
    }
}

/// Calls `actix_web::web::Query::<HashMap<String, String>>::from_query` and
/// lists the entries of the map it returns.
///
/// Trusted: whether the string parses, and to which mapping, depends on the
/// string alone. The entries are listed once each, in no stated order.
#[verifier::external_body]
fn parse_query(query_string: &str) -> (r: Option<Vec<NameValuePair>>)
    ensures
        r is Some <==> parsed_query(query_string@) is Some,
        r is Some ==> distinct_names(pairs_view(r->Some_0@)),
        r is Some ==> query_map(pairs_view(r->Some_0@)) == parsed_query(query_string@)->Some_0,
{
    match actix_web::web::Query::<HashMap<String, String>>::from_query(query_string) {
        Ok(parsed) => Some(
            parsed.into_inner().into_iter().map(|(name, value)| NameValuePair { name, value }).collect(),
        ),
        Err(_) => None,
    }
}

proof fn lemma_value_of_push(q: Seq<Pair>, p: Pair, name: Seq<char>)
    ensures
        value_of(q.push(p), name) == match value_of(q, name) {
            Some(v) => Some(v),
            None => if p.0 == name {
                Some(p.1)
            } else {
                None
            },
        },
{
    assert(q.push(p).drop_last() =~= q);
}

proof fn lemma_value_of_index(q: Seq<Pair>, name: Seq<char>)
    ensures
        value_of(q, name) is Some <==> exists|i: int| 0 <= i < q.len() && (#[trigger] q[i]).0 == name,
    decreases q.len(),
{
    if q.len() > 0 {
        lemma_value_of_index(q.drop_last(), name);
        if value_of(q.drop_last(), name) is Some {
            let i = choose|i: int| 0 <= i < q.len() - 1 && (#[trigger] q.drop_last()[i]).0 == name;
            assert(q[i].0 == name);
        } else if q.last().0 == name {
            assert(q[q.len() - 1].0 == name);
        } else {
            if exists|i: int| 0 <= i < q.len() && (#[trigger] q[i]).0 == name {
                let i = choose|i: int| 0 <= i < q.len() && (#[trigger] q[i]).0 == name;
                assert(q.drop_last()[i].0 == name);
            }
        }
    }
}

/// Looks a parameter up by name: the value of the first pair with that
/// name.
pub fn find_value<'a>(q: &'a Vec<NameValuePair>, name: &String) -> (r: Option<&'a String>)
    ensures
        r is Some <==> value_of(pairs_view(q@), name@) is Some,
        r is Some ==> r->Some_0@ == value_of(pairs_view(q@), name@)->Some_0,
{
    let mut i: usize = 0;
    assert(pairs_view(q@).take(0) =~= Seq::empty());
    while i < q.len()
        invariant
            i <= q.len(),
            value_of(pairs_view(q@).take(i as int), name@) is None,
        decreases q.len() - i,
    {
        proof {
            let upto = pairs_view(q@).take(i as int);
            assert(pairs_view(q@).take(i as int + 1) =~= upto.push(q@[i as int]@));
            lemma_value_of_push(upto, q@[i as int]@, name@);
        }
        if q[i].name == *name {
            proof {
                lemma_value_of_rest(pairs_view(q@), i as int + 1, name@);
            }
            return Some(&q[i].value);
        }
        i = i + 1;
    }
    assert(pairs_view(q@).take(i as int) =~= pairs_view(q@));
    None
}

proof fn lemma_value_of_rest(q: Seq<Pair>, n: int, name: Seq<char>)
    requires
        0 <= n <= q.len(),
        value_of(q.take(n), name) is Some,
    ensures
        value_of(q, name) == value_of(q.take(n), name),
    decreases q.len() - n,
{
    if n < q.len() {
        assert(q.take(n + 1) =~= q.take(n).push(q[n]));
        lemma_value_of_push(q.take(n), q[n], name);
        lemma_value_of_rest(q, n + 1, name);
    } else {
        assert(q.take(n) =~= q);
    }
}

/// Merges the route's default query parameters into the inbound ones: a
/// default is added only where no parameter of that name is present yet.
pub fn merge_query(inbound: Vec<NameValuePair>, defaults: &Vec<NameValuePair>) -> (r: Vec<
    NameValuePair,
>)
    ensures
        pairs_view(r@) == merged_query(pairs_view(inbound@), pairs_view(defaults@)),
{
    let mut merged = inbound;
    let mut i: usize = 0;
    assert(pairs_view(defaults@).take(0) =~= Seq::empty());
    while i < defaults.len()
        invariant
            i <= defaults.len(),
            pairs_view(merged@) == merged_query(
                pairs_view(inbound@),
                pairs_view(defaults@).take(i as int),
            ),
        decreases defaults.len() - i,
    {
        let ghost before = pairs_view(merged@);
        let ghost upto = pairs_view(defaults@).take(i as int + 1);
        assert(upto.drop_last() =~= pairs_view(defaults@).take(i as int));
        assert(upto.last() == defaults@[i as int]@);
        if find_value(&merged, &defaults[i].name).is_none() {
            let pair = defaults[i].clone();
            merged.push(pair);
            assert(pairs_view(merged@) =~= before.push(pair@));
        }
        i = i + 1;
    }
    assert(pairs_view(defaults@).take(i as int) =~= pairs_view(defaults@));
    merged
}

/// Chooses the outbound body: the inbound body as it is where it has any
/// bytes, else the route's default body.
pub fn select_body(inbound: Vec<u8>, default_body: &Vec<u8>) -> (r: Vec<u8>)
    ensures
        r@ == outbound_body(inbound@, default_body@),
{
    if inbound.len() > 0 {
        inbound
    } else {
        vstd::slice::slice_to_vec(default_body.as_slice())
    }
}

/// Builds the upstream request of a route for an inbound request whose
/// query string has been parsed into `inbound_query` and whose body has
/// been read into `body`.
pub fn build_request(item: &ProxyItem, inbound_query: Vec<NameValuePair>, body: Vec<u8>) -> (r:
    OutboundRequest)
    ensures
        r@ == outbound_of(item@, pairs_view(inbound_query@), body@),
{
    OutboundRequest {
        method: item.method,
        url: item.url.clone(),
        query: merge_query(inbound_query, &item.query_params),
        headers: clone_headers(&item.headers),
        body: select_body(body, &item.default_body),
    }
}

/// Builds the upstream request of a route from the raw query string and
/// the body of an inbound request. The query string is parsed first; one
/// that cannot be parsed counts as empty.
///
/// Method, URL, headers and body are those of `outbound_of`. The query
/// lists each name once, and by name it is the merge of the parsed inbound
/// parameters with the route's defaults.
pub fn init_request(item: &ProxyItem, query_string: &str, body: Vec<u8>) -> (r: OutboundRequest)
    ensures
        r@.method == item@.method,
        r@.url == item@.url,
        r@.headers == item@.headers,
        r@.body == outbound_body(body@, item@.default_body),
        query_map(r@.query) == merged_map(inbound_map(query_string@), item@.query_params),
        distinct_names(r@.query),
{
    let inbound_query = match parse_query(query_string) {
        Some(list) => list,
        None => Vec::new(),
    };
    proof {
        let q = pairs_view(inbound_query@);
        if parsed_query(query_string@) is None {
            assert(q =~= Seq::empty());
            assert(query_map(q) =~= Map::empty());
        }
        lemma_merged_query_map(q, item@.query_params);
        lemma_merged_distinct(q, item@.query_params);
    }
    build_request(item, inbound_query, body)
}

proof fn lemma_merged_query_map(inbound: Seq<Pair>, defaults: Seq<Pair>)
    ensures
        query_map(merged_query(inbound, defaults)) == merged_map(query_map(inbound), defaults),
    decreases defaults.len(),
{
    if defaults.len() > 0 {
        lemma_merged_query_map(inbound, defaults.drop_last());
        let merged = merged_query(inbound, defaults.drop_last());
        let d = defaults.last();
        if value_of(merged, d.0) is None {
            assert forall|name: Seq<char>|
                value_of(merged.push(d), name) == (if name == d.0 {
                    Some(d.1)
                } else {
                    value_of(merged, name)
                }) by {
                lemma_value_of_push(merged, d, name);
            }
            assert(query_map(merged.push(d)) =~= query_map(merged).insert(d.0, d.1));
        }
    }
}

proof fn lemma_merged_distinct(inbound: Seq<Pair>, defaults: Seq<Pair>)
    requires
        distinct_names(inbound),
    ensures
        distinct_names(merged_query(inbound, defaults)),
    decreases defaults.len(),
{
    if defaults.len() > 0 {
        lemma_merged_distinct(inbound, defaults.drop_last());
        let merged = merged_query(inbound, defaults.drop_last());
        let d = defaults.last();
        if value_of(merged, d.0) is None {
            lemma_value_of_index(merged, d.0);
        }
    }
}

/// Inbound wins: a parameter that the inbound request carries keeps its
/// inbound value in the outbound query, whatever the route's defaults say.
pub proof fn inbound_query_wins(inbound: Seq<Pair>, defaults: Seq<Pair>, name: Seq<char>)
    requires
        value_of(inbound, name) is Some,
    ensures
        value_of(merged_query(inbound, defaults), name) == value_of(inbound, name),
    decreases defaults.len(),
{
    if defaults.len() > 0 {
        inbound_query_wins(inbound, defaults.drop_last(), name);
        lemma_value_of_push(merged_query(inbound, defaults.drop_last()), defaults.last(), name);
    }
}

/// Defaults fill gaps: a parameter that the inbound request lacks has, in
/// the outbound query, the value of the route's first default of that name,
/// and is absent where the route has no such default.
pub proof fn default_query_applies(inbound: Seq<Pair>, defaults: Seq<Pair>, name: Seq<char>)
    requires
        value_of(inbound, name) is None,
    ensures
        value_of(merged_query(inbound, defaults), name) == value_of(defaults, name),
    decreases defaults.len(),
{
    if defaults.len() > 0 {
        default_query_applies(inbound, defaults.drop_last(), name);
        lemma_value_of_push(merged_query(inbound, defaults.drop_last()), defaults.last(), name);
    }
}

/// Inbound wins, by name: a parameter that the inbound request carries is
/// in the merged mapping with its inbound value.
pub proof fn inbound_parameter_wins(
    inbound: Map<Seq<char>, Seq<char>>,
    defaults: Seq<Pair>,
    name: Seq<char>,
)
    requires
        inbound.contains_key(name),
    ensures
        merged_map(inbound, defaults).contains_key(name),
        merged_map(inbound, defaults)[name] == inbound[name],
    decreases defaults.len(),
{
    if defaults.len() > 0 {
        inbound_parameter_wins(inbound, defaults.drop_last(), name);
    }
}

/// Defaults fill gaps, by name: a parameter that the inbound request lacks
/// is in the merged mapping exactly when the route has a default of that
/// name, and then with the value of the first such default.
pub proof fn default_parameter_applies(
    inbound: Map<Seq<char>, Seq<char>>,
    defaults: Seq<Pair>,
    name: Seq<char>,
)
    requires
        !inbound.contains_key(name),
    ensures
        merged_map(inbound, defaults).contains_key(name) <==> value_of(defaults, name) is Some,
        value_of(defaults, name) is Some ==> merged_map(inbound, defaults)[name] == value_of(
            defaults,
            name,
        )->Some_0,
    decreases defaults.len(),
{
    if defaults.len() > 0 {
        default_parameter_applies(inbound, defaults.drop_last(), name);
    }
}

/// The outbound method is the route's target method where it has one, and
/// the method the route answers on where it has none.
pub proof fn outbound_method_of_route(route: RouteConfig, inbound_query: Seq<Pair>, body: Seq<u8>)
    ensures
        route.target_method is Some ==> outbound_of(item_of(route), inbound_query, body).method
            == route.target_method->Some_0,
        route.target_method is None ==> outbound_of(item_of(route), inbound_query, body).method
            == route.spec_inbound_method(),
{
}

/// The outbound headers are the route's configured headers that pass
/// validation, and nothing else: they do not depend on the inbound request.
pub proof fn outbound_headers_of_route(route: RouteConfig, inbound_query: Seq<Pair>, body: Seq<u8>)
    ensures
        outbound_of(item_of(route), inbound_query, body).headers == accepted_headers(
            optional_pairs(route.headers),
        ),
{
}

/// A non-empty inbound body is sent as it is; an empty one gives way to
/// the route's default body.
pub proof fn outbound_body_of_route(route: RouteConfig, inbound_query: Seq<Pair>, body: Seq<u8>)
    ensures
        body.len() > 0 ==> outbound_of(item_of(route), inbound_query, body).body == body,
        body.len() == 0 ==> outbound_of(item_of(route), inbound_query, body).body
            == route.spec_default_body(),
{
}

} // verus!
