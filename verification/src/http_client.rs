//! Proxies for outgoing requests.

use vstd::prelude::*;

use crate::text::copy_opt;

verus! {

/// A proxy, and how to log in to it.
#[derive(Debug)]
pub struct ProxyConfig {
    /// The address of the proxy.
    pub url: String,
    /// The user.
    pub username: Option<String>,
    /// The user's password.
    pub password: Option<String>,
}

impl ProxyConfig {
    /// Whether this is the proxy at an address, without a login.
    pub open spec fn is_plain(self, url: Seq<char>) -> bool {
        self.url@ == url && self.username is None && self.password is None
    }

    /// The proxy at an address, without a login.
    pub fn new(url: &str) -> (r: Self)
        ensures
            r.is_plain(url@),
    {
        ProxyConfig { url: url.to_string(), username: None, password: None }
    }
}

impl Clone for ProxyConfig {
    fn clone(&self) -> (r: Self)
        ensures
            r == *self,
    {
        ProxyConfig {
            url: self.url.clone(),
            username: copy_opt(&self.username),
            password: copy_opt(&self.password),
        }
    }
}

/// Whether a request goes through `chosen`: the proxy that it names, or else the
/// one that all requests go through.
pub open spec fn is_proxy_for(
    chosen: Option<ProxyConfig>,
    requested: Option<String>,
    global: Option<ProxyConfig>,
) -> bool {
    match requested {
        Some(url) => chosen matches Some(p) && p.is_plain(url@),
        None => chosen == global,
    }
}

/// The proxy that a request names, or else the one that all requests go
/// through.
pub fn choose_proxy(requested: &Option<String>, global: Option<ProxyConfig>) -> (r: Option<
    ProxyConfig,
>)
    ensures
        is_proxy_for(r, *requested, global),
{
    match requested {
        Some(url) => Some(ProxyConfig::new(url.as_str())),
        None => global,
    }
}

/// A copy of a proxy.
pub fn copy_proxy(proxy: &Option<ProxyConfig>) -> (r: Option<ProxyConfig>)
    ensures
        r == *proxy,
{
    match proxy {
        Some(p) => Some(p.clone()),
        None => None,
    }
}

/// A request goes through the proxy that it names, without a login; only where it names
/// none does it go through the one of all requests.
pub proof fn the_named_proxy_comes_first(
    requested: Option<String>,
    global: Option<ProxyConfig>,
    r: Option<ProxyConfig>,
)
    requires
        call_ensures(choose_proxy, (&requested, global), r),
    ensures
        requested matches Some(url) ==> (r matches Some(p) && p.url@ == url@ && p.username is None
            && p.password is None),
        requested is None ==> r == global,
{
}

} // verus!
