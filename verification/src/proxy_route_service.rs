//! The decisions of one proxied request, between the pieces of outside work:
//! reading the inbound body, sending upstream, and relaying the answer.

use crate::header::valid_status;
use crate::proxy_item::ProxyItem;
use crate::proxy_service::{
    distinct_names, inbound_map, init_request, merged_map, outbound_body, query_map,
    OutboundRequest,
};
use crate::response::{map_response_head, relayed_head, ResponseHead};
use vstd::prelude::*;

verus! {

/// The status answered when the inbound body cannot be read.
pub const BAD_REQUEST: u16 = 400;

/// The status answered when the upstream cannot be reached or its answer
/// cannot be relayed.
pub const INTERNAL_SERVER_ERROR: u16 = 500;

/// What to do next for a request.
#[derive(Debug, PartialEq, Eq)]
pub enum Step {
    /// Send this request upstream.
    Send(OutboundRequest),
    /// Answer with this head, then stream the upstream body after it.
    Relay(ResponseHead),
    /// Answer with this status and no body.
    Fail(u16),
}

/// Decides what follows the reading of the inbound body, `None` standing
/// for a body that could not be read. A failed read is answered as a client
/// error and nothing is sent upstream; otherwise the route's request is
/// built and sent.
pub fn after_body(item: &ProxyItem, query_string: &str, body: Option<Vec<u8>>) -> (r: Step)
    ensures
        body is None ==> r == Step::Fail(BAD_REQUEST),
        body is Some ==> r is Send && {
            let sent = r->Send_0@;
            &&& sent.method == item@.method
            &&& sent.url == item@.url
            &&& sent.headers == item@.headers
            &&& sent.body == outbound_body(body->Some_0@, item@.default_body)
            &&& query_map(sent.query) == merged_map(inbound_map(query_string@), item@.query_params)
            &&& distinct_names(sent.query)
        },
{
    match body {
        Some(bytes) => Step::Send(init_request(item, query_string, bytes)),
        None => Step::Fail(BAD_REQUEST),
    }
}

/// Decides what follows the upstream call, `None` standing for a call that
/// failed. A failed call, or an answer whose status cannot be represented,
/// is answered as a server error; there is no second attempt. Otherwise the
/// translated head is relayed.
pub fn after_upstream(upstream: Option<&ResponseHead>) -> (r: Step)
    ensures
        upstream is Some && valid_status(upstream->Some_0.status) ==> r is Relay && r->Relay_0@
            == relayed_head(upstream->Some_0@),
        !(upstream is Some && valid_status(upstream->Some_0.status)) ==> r == Step::Fail(
            INTERNAL_SERVER_ERROR,
        ),
{
    match upstream {
        Some(head) => match map_response_head(head) {
            Ok(translated) => Step::Relay(translated),
            Err(_) => Step::Fail(INTERNAL_SERVER_ERROR),
        },
        None => Step::Fail(INTERNAL_SERVER_ERROR),
    }
}

} // verus!
