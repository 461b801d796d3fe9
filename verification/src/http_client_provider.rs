//! The settings from which the process-wide client is set up.

use crate::http_client::{ClientConfigError, ClientPlan, ClientPlanView, HttpClientConfig, plan_of, proxy_url_accepted, text_of};
use vstd::prelude::*;

verus! {

/// The client settings as the process hands them over at startup.
#[derive(Debug, PartialEq, Eq)]
pub struct ClientConfig {
    pub http_proxy: Option<String>,
    pub user: Option<String>,
    pub pass: Option<String>,
    pub enable_cookies: bool,
}

/// The plan for optional settings: without any, the client uses no proxy
/// and no cookie store, and still follows a bounded number of redirects.
pub open spec fn provided_plan(config: Option<ClientConfig>) -> ClientPlanView {
    match config {
        Some(c) => plan_of(text_of(c.http_proxy), text_of(c.user), text_of(c.pass), c.enable_cookies),
        None => plan_of(None, None, None, false),
    }
}

/// Decides how the process-wide client is built. The plan is refused
/// exactly when settings are given and their proxy URL is malformed.
pub fn init(config: Option<ClientConfig>) -> (r: Result<ClientPlan, ClientConfigError>)
    ensures
        r is Err <==> (config is Some && config->Some_0.http_proxy is Some && !proxy_url_accepted(
            config->Some_0.http_proxy->Some_0@,
        )),
        r is Err ==> r->Err_0 == ClientConfigError::InvalidProxyUrl,
        r is Ok ==> r->Ok_0@ == provided_plan(config),
{
    let settings = match config {
        Some(ClientConfig { http_proxy, user, pass, enable_cookies }) => HttpClientConfig {
            http_proxy,
            user,
            pass,
            enable_cookies,
        },
        None => HttpClientConfig { http_proxy: None, user: None, pass: None, enable_cookies: false },
    };
    settings.plan()
}

} // verus!
