//! The settings of the shared outbound client, decided once at startup.

use vstd::prelude::*;

verus! {

/// How many redirects the outbound client follows before it gives up.
pub const MAX_REDIRECTS: usize = 5;

/// The process-level settings of the outbound client. All are optional
/// and combine freely.
#[derive(Debug, PartialEq, Eq)]
pub struct HttpClientConfig {
    pub http_proxy: Option<String>,
    pub user: Option<String>,
    pub pass: Option<String>,
    pub enable_cookies: bool,
}

/// The forwarding proxy that all outbound traffic goes through, with the
/// basic-authentication credentials for it where there are any.
#[derive(Debug, PartialEq, Eq)]
pub struct ProxyPlan {
    pub url: String,
    pub credentials: Option<(String, String)>,
}

/// What a `ProxyPlan` holds, as plain values.
pub struct ProxyPlanView {
    pub url: Seq<char>,
    pub credentials: Option<(Seq<char>, Seq<char>)>,
}

impl View for ProxyPlan {
    type V = ProxyPlanView;

    open spec fn view(&self) -> ProxyPlanView {
        ProxyPlanView {
            url: self.url@,
            credentials: match self.credentials {
                Some(c) => Some((c.0@, c.1@)),
                None => None,
            },
        }
    }
}

/// How the shared outbound client is to be built.
#[derive(Debug, PartialEq, Eq)]
pub struct ClientPlan {
    pub proxy: Option<ProxyPlan>,
    pub cookie_store: bool,
    pub max_redirects: usize,
}

/// What a `ClientPlan` holds, as plain values.
pub struct ClientPlanView {
    pub proxy: Option<ProxyPlanView>,
    pub cookie_store: bool,
    pub max_redirects: usize,
}

impl View for ClientPlan {
    type V = ClientPlanView;

    open spec fn view(&self) -> ClientPlanView {
        ClientPlanView {
            proxy: match self.proxy {
                Some(p) => Some(p@),
                None => None,
            },
            cookie_store: self.cookie_store,
            max_redirects: self.max_redirects,
        }
    }
}

/// Why the client cannot be built from its settings.
#[derive(Debug, PartialEq, Eq)]
pub enum ClientConfigError {
    /// The forwarding proxy's URL is malformed.
    InvalidProxyUrl,
}

/// The text of an optional string.
pub open spec fn text_of(s: Option<String>) -> Option<Seq<char>> {
    match s {
        Some(t) => Some(t@),
        None => None,
    }
}

/// The plan for given settings. The proxy is used where a URL is given;
/// credentials go with it only where both the user and the password are
/// given; without a URL they are ignored. The redirect limit is fixed.
pub open spec fn plan_of(
    http_proxy: Option<Seq<char>>,
    user: Option<Seq<char>>,
    pass: Option<Seq<char>>,
    enable_cookies: bool,
) -> ClientPlanView {
    ClientPlanView {
        proxy: match http_proxy {
            Some(url) => Some(
                ProxyPlanView {
                    url: url,
                    credentials: if user is Some && pass is Some {
                        Some((user->Some_0, pass->Some_0))
                    } else {
                        None
                    },
                },
            ),
            None => None,
        },
        cookie_store: enable_cookies,
        max_redirects: MAX_REDIRECTS,
    }
}

/// Whether the outbound client takes `url` as the URL of a forwarding
/// proxy.
pub uninterp spec fn proxy_url_accepted(url: Seq<char>) -> bool;

/// Calls `reqwest::Proxy::all` and says whether it took the URL.
///
/// Trusted: whether the client takes a proxy URL depends on the URL alone.
#[verifier::external_body]
fn check_proxy_url(url: &str) -> (r: bool)
    ensures
        r == proxy_url_accepted(url@),
{
    reqwest::Proxy::all(url).is_ok()
}

impl HttpClientConfig {
    /// The settings as plain values.
    pub open spec fn spec_plan(&self) -> ClientPlanView {
        plan_of(text_of(self.http_proxy), text_of(self.user), text_of(self.pass), self.enable_cookies)
    }

    /// Decides how the client is built, given whether the proxy URL, if
    /// there is one, is well-formed. A malformed proxy URL is the one thing
    /// that stops the client from being built.
    pub fn plan_checked(self, proxy_url_ok: bool) -> (r: Result<ClientPlan, ClientConfigError>)
        ensures
            r is Err <==> (self.http_proxy is Some && !proxy_url_ok),
            r is Err ==> r->Err_0 == ClientConfigError::InvalidProxyUrl,
            r is Ok ==> r->Ok_0@ == self.spec_plan(),
    {
        let HttpClientConfig { http_proxy, user, pass, enable_cookies } = self;
        let proxy = match http_proxy {
            Some(url) => {
                if !proxy_url_ok {
                    return Err(ClientConfigError::InvalidProxyUrl);
                }
                let credentials = match (user, pass) {
                    (Some(user_name), Some(password)) => Some((user_name, password)),
                    _ => None,
                };
                Some(ProxyPlan { url, credentials })
            },
            None => None,
        };
        Ok(ClientPlan { proxy, cookie_store: enable_cookies, max_redirects: MAX_REDIRECTS })
    }

    /// Decides how the client is built. The proxy URL, if there is one, is
    /// checked first; the plan is refused exactly when that URL is
    /// malformed.
    pub fn plan(self) -> (r: Result<ClientPlan, ClientConfigError>)
        ensures
            r is Err <==> (self.http_proxy is Some && !proxy_url_accepted(
                self.http_proxy->Some_0@,
            )),
            r is Err ==> r->Err_0 == ClientConfigError::InvalidProxyUrl,
            r is Ok ==> r->Ok_0@ == self.spec_plan(),
    {
        let proxy_url_ok = match &self.http_proxy {
            Some(url) => check_proxy_url(url.as_str()),
            None => true,
        };
        self.plan_checked(proxy_url_ok)
    }
}

/// Credentials are attached to the proxy exactly when a proxy URL, a user
/// and a password are all given.
pub proof fn credentials_need_all_three(
    http_proxy: Option<Seq<char>>,
    user: Option<Seq<char>>,
    pass: Option<Seq<char>>,
    enable_cookies: bool,
)
    ensures
        ({
            let plan = plan_of(http_proxy, user, pass, enable_cookies);
            (plan.proxy is Some && plan.proxy->Some_0.credentials is Some) <==> (http_proxy is Some
                && user is Some && pass is Some)
        }),
        plan_of(http_proxy, user, pass, enable_cookies).max_redirects == 5,
{
}

} // verus!
