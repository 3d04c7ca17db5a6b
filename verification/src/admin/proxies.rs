//! The pool of proxies.

use vstd::prelude::*;

use crate::admin::error::{AdminServiceError, ErrorView};
use crate::admin::failures::{change_failure, classify_error};
use crate::admin::service::AdminService;
use crate::admin::types::{AssignProxyRequest, BatchAddProxyRequest, ProxyPoolEntry, ProxyPoolResponse};
use crate::kiro::token_manager::{CredentialEntry, ManagerCall};
use crate::numbers::{decimal, write_decimal};
use crate::text::{contains, copy_opt, same_text};

verus! {

/// A proxy as the pool keeps it.
#[derive(Debug)]
pub struct PooledProxy {
    /// Its number.
    pub id: u64,
    /// Its address.
    pub url: String,
    /// What it is called.
    pub label: Option<String>,
    /// Whether it can be given to credentials.
    pub enabled: bool,
}

/// What the pool says of the address of a proxy.
#[derive(Debug)]
pub enum GetUrlResult {
    /// The address.
    Found(String),
    /// There is no such proxy.
    NotFound,
    /// The proxy cannot be given to credentials.
    Disabled,
}

/// What the pool is asked to do.
#[derive(Debug)]
pub enum PoolCall {
    /// Add a proxy.
    Add {
        /// Its address.
        url: String,
        /// What it is called.
        label: Option<String>,
    },
    /// Add some proxies.
    BatchAdd(Vec<String>),
    /// Delete a proxy.
    Delete {
        /// The proxy.
        id: u64,
    },
    /// Say whether a proxy can be given to credentials.
    SetEnabled {
        /// The proxy.
        id: u64,
        /// Whether it can.
        enabled: bool,
    },
    /// Tell the address of a proxy.
    GetUrl {
        /// The proxy.
        id: u64,
    },
}

/// Whether a credential uses the proxy at an address.
pub open spec fn uses_proxy(entry: CredentialEntry, url: Seq<char>) -> bool {
    entry.proxy_url matches Some(u) && u@ == url
}

/// How many credentials use the proxy at an address.
pub open spec fn users(entries: Seq<CredentialEntry>, url: Seq<char>) -> nat {
    entries.filter(|e: CredentialEntry| uses_proxy(e, url)).len()
}

/// A proxy as a client sees it.
pub open spec fn pool_entry(proxy: PooledProxy, count: u32) -> ProxyPoolEntry {
    ProxyPoolEntry {
        id: proxy.id,
        url: proxy.url,
        label: proxy.label,
        enabled: proxy.enabled,
        credential_count: count,
    }
}

fn shown(proxy: &PooledProxy, count: u32) -> (r: ProxyPoolEntry)
    ensures
        r == pool_entry(*proxy, count),
{
    ProxyPoolEntry {
        id: proxy.id,
        url: proxy.url.clone(),
        label: copy_opt(&proxy.label),
        enabled: proxy.enabled,
        credential_count: count,
    }
}

fn count_users(entries: &Vec<CredentialEntry>, url: &str) -> (r: usize)
    ensures
        r == users(entries@, url@),
{
    let mut count: usize = 0;
    let ghost f = |e: CredentialEntry| uses_proxy(e, url@);
    let mut i: usize = 0;
    proof {
        reveal(Seq::filter);
    }
    while i < entries.len()
        invariant
            f == (|e: CredentialEntry| uses_proxy(e, url@)),
            i <= entries@.len(),
            count <= i,
            count == entries@.take(i as int).filter(f).len(),
        decreases entries@.len() - i,
    {
        proof {
            reveal(Seq::filter);
            assert(entries@.take(i + 1).drop_last() =~= entries@.take(i as int));
            assert(entries@.take(i + 1).last() == entries@[i as int]);
        }
        let hit = match &entries[i].proxy_url {
            Some(u) => same_text(u.as_str(), url),
            None => false,
        };
        assert(hit == f(entries@[i as int]));
        if hit {
            count = count + 1;
        }
        i = i + 1;
    }
    assert(entries@.take(i as int) =~= entries@);
    count
}

/// Puts together the answer to the proxies of the pool: each with the number of
/// credentials that use it, modulo 2^32.
fn pool_listing(proxies: &Vec<PooledProxy>, entries: &Vec<CredentialEntry>) -> (r: Vec<
    ProxyPoolEntry,
>)
    ensures
        r@ == listed_pool(proxies@, entries@),
{
    let mut out: Vec<ProxyPoolEntry> = Vec::new();
    let ghost all = listed_pool(proxies@, entries@);
    let mut i: usize = 0;
    while i < proxies.len()
        invariant
            all == listed_pool(proxies@, entries@),
            i <= proxies@.len(),
            out@ == all.take(i as int),
        decreases proxies@.len() - i,
    {
        let count: usize = count_users(entries, proxies[i].url.as_str());
        out.push(shown(&proxies[i], #[verifier::truncate] (count as u32)));
        assert(all.take(i + 1) =~= all.take(i as int).push(all[i as int]));
        i = i + 1;
    }
    assert(all.take(i as int) =~= all);
    out
}

/// The proxies of the pool as a client sees them.
pub open spec fn listed_pool(proxies: Seq<PooledProxy>, entries: Seq<CredentialEntry>) -> Seq<
    ProxyPoolEntry,
> {
    Seq::new(
        proxies.len(),
        |i: int| pool_entry(proxies[i], users(entries, proxies[i].url@) as u32),
    )
}

/// Proxies that were just added, as a client sees them: no credential uses them.
pub open spec fn added_proxies(proxies: Seq<PooledProxy>) -> Seq<ProxyPoolEntry> {
    Seq::new(proxies.len(), |i: int| pool_entry(proxies[i], 0))
}

impl AdminService {
    /// The proxies of the pool, each with the number of credentials that use it.
    pub fn get_proxy_pool(&self, proxies: &Vec<PooledProxy>, entries: &Vec<CredentialEntry>) -> (r:
        ProxyPoolResponse)
        ensures
            r.proxies@ == listed_pool(proxies@, entries@),
            r.total == proxies@.len(),
    {
        let pool = pool_listing(proxies, entries);
        ProxyPoolResponse { total: pool.len(), proxies: pool }
    }

    /// What the pool is asked to do to add a proxy.
    pub fn add_proxy(&self, url: String, label: Option<String>) -> (r: PoolCall)
        ensures
            r == (PoolCall::Add { url, label }),
    {
        PoolCall::Add { url, label }
    }

    /// What the answer means.
    pub fn add_proxy_done(&self, outcome: Result<PooledProxy, String>) -> (r: Result<
        ProxyPoolEntry,
        AdminServiceError,
    >)
        ensures
            match outcome {
                Ok(p) => r == Ok::<ProxyPoolEntry, AdminServiceError>(pool_entry(p, 0)),
                Err(e) => r matches Err(f) && f@ == ErrorView::Invalid(e@),
            },
    {
        match outcome {
            Ok(p) => Ok(shown(&p, 0)),
            Err(e) => Err(AdminServiceError::InvalidCredential(e)),
        }
    }

    /// What the pool is asked to do to add some proxies.
    pub fn batch_add_proxies(&self, req: BatchAddProxyRequest) -> (r: PoolCall)
        ensures
            r == PoolCall::BatchAdd(req.urls),
    {
        PoolCall::BatchAdd(req.urls)
    }

    /// What the answer means: the proxies that were added, and what was wrong
    /// with the others.
    pub fn batch_add_proxies_done(&self, added: Vec<PooledProxy>, errors: Vec<String>) -> (r: (
        Vec<ProxyPoolEntry>,
        Vec<String>,
    ))
        ensures
            r.0@ == added_proxies(added@),
            r.1 == errors,
    {
        let mut out: Vec<ProxyPoolEntry> = Vec::new();
        let ghost all = added_proxies(added@);
        let mut i: usize = 0;
        while i < added.len()
            invariant
                all == added_proxies(added@),
                i <= added@.len(),
                out@ == all.take(i as int),
            decreases added@.len() - i,
        {
            out.push(shown(&added[i], 0));
            assert(all.take(i + 1) =~= all.take(i as int).push(all[i as int]));
            i = i + 1;
        }
        assert(all.take(i as int) =~= all);
        (out, errors)
    }

    /// What the pool is asked to do to delete a proxy.
    pub fn delete_proxy(&self, id: u64) -> (r: PoolCall)
        ensures
            r == (PoolCall::Delete { id }),
    {
        PoolCall::Delete { id }
    }

    /// What the answer means.
    pub fn delete_proxy_done(&self, id: u64, outcome: Result<(), String>) -> (r: Result<
        (),
        AdminServiceError,
    >)
        ensures
            match outcome {
                Ok(_) => r is Ok,
                Err(e) => r matches Err(f) && f@ == change_failure(e@, id),
            },
    {
        match outcome {
            Ok(_) => Ok(()),
            Err(e) => Err(classify_error(e, id)),
        }
    }

    /// What the pool is asked to do so that a proxy can be given to credentials,
    /// or no longer.
    pub fn set_proxy_enabled(&self, id: u64, enabled: bool) -> (r: PoolCall)
        ensures
            r == (PoolCall::SetEnabled { id, enabled }),
    {
        PoolCall::SetEnabled { id, enabled }
    }

    /// What the answer means: a failure says that there is no such proxy.
    pub fn set_proxy_enabled_done(&self, id: u64, outcome: Result<(), String>) -> (r: Result<
        (),
        AdminServiceError,
    >)
        ensures
            match outcome {
                Ok(_) => r is Ok,
                Err(_) => r matches Err(f) && f@ == ErrorView::NotFound(id),
            },
    {
        match outcome {
            Ok(_) => Ok(()),
            Err(_) => Err(AdminServiceError::NotFound { id }),
        }
    }

    /// What the pool is asked before a credential is given a proxy: nothing, if
    /// the credential is to have none.
    pub fn assigned_proxy(&self, req: &AssignProxyRequest) -> (r: Option<PoolCall>)
        ensures
            r == (match req.proxy_id {
                Some(id) => Some(PoolCall::GetUrl { id }),
                None => None,
            }),
    {
        match req.proxy_id {
            Some(id) => Some(PoolCall::GetUrl { id }),
            None => None,
        }
    }

    /// What is asked for to give a credential a proxy of the pool, or to take
    /// its proxy away. Nothing else of the credential changes.
    pub fn assign_proxy_to_credential(
        &self,
        credential_id: u64,
        req: &AssignProxyRequest,
        found: GetUrlResult,
    ) -> (r: Result<ManagerCall, AdminServiceError>)
        ensures
            match (req.proxy_id, found) {
                (None, _) => r == Ok::<ManagerCall, AdminServiceError>(
                    proxy_change(credential_id, None),
                ),
                (Some(_), GetUrlResult::Found(url)) => r == Ok::<ManagerCall, AdminServiceError>(
                    proxy_change(credential_id, Some(url)),
                ),
                (Some(id), GetUrlResult::NotFound) => r matches Err(e) && e@ == ErrorView::NotFound(
                    id,
                ),
                (Some(id), GetUrlResult::Disabled) => r matches Err(e) && e@ == ErrorView::Invalid(
                    "代理 #"@ + decimal(id as nat) + " 已被禁用，请先启用后再分配"@,
                ),
            },
    {
        let proxy_url = match req.proxy_id {
            Some(id) => match found {
                GetUrlResult::Found(url) => Some(url),
                GetUrlResult::NotFound => return Err(AdminServiceError::NotFound { id }),
                GetUrlResult::Disabled => {
                    let mut message = "代理 #".to_string();
                    message.append(write_decimal(id).as_str());
                    message.append(" 已被禁用，请先启用后再分配");
                    return Err(AdminServiceError::InvalidCredential(message));
                },
            },
            None => None,
        };
        Ok(
            ManagerCall::UpdateCredential {
                id: credential_id,
                email: None,
                proxy_url: Some(proxy_url),
                proxy_username: None,
                proxy_password: None,
            },
        )
    }
}

/// What is asked for to change the proxy of a credential and nothing else.
pub open spec fn proxy_change(id: u64, url: Option<String>) -> ManagerCall {
    ManagerCall::UpdateCredential {
        id,
        email: None,
        proxy_url: Some(url),
        proxy_username: None,
        proxy_password: None,
    }
}

/// Every proxy of the pool is shown as it is kept, in its place, with the number of
/// credentials that use its address.
pub proof fn the_pool_is_shown_as_it_is(
    service: AdminService,
    proxies: Vec<PooledProxy>,
    entries: Vec<CredentialEntry>,
    r: ProxyPoolResponse,
    i: int,
)
    requires
        call_ensures(AdminService::get_proxy_pool, (&service, &proxies, &entries), r),
        0 <= i < proxies@.len(),
    ensures
        r.total == proxies@.len() && r.proxies@.len() == proxies@.len(),
        r.proxies@[i].id == proxies@[i].id,
        r.proxies@[i].url == proxies@[i].url,
        r.proxies@[i].label == proxies@[i].label,
        r.proxies@[i].enabled == proxies@[i].enabled,
        (forall|k: int|
            0 <= k < entries@.len() ==> (#[trigger] entries@[k].proxy_url matches Some(u) ==> u@
                != proxies@[i].url@)) ==> r.proxies@[i].credential_count == 0,
        (forall|k: int|
            0 <= k < entries@.len() ==> (#[trigger] entries@[k].proxy_url matches Some(u) && u@
                == proxies@[i].url@)) && entries@.len() <= u32::MAX ==> r.proxies@[i].credential_count
            == entries@.len(),
        users(entries@, proxies@[i].url@) <= u32::MAX ==> r.proxies@[i].credential_count == users(
            entries@,
            proxies@[i].url@,
        ),
{
    users_at_the_ends(entries@, proxies@[i].url@);
}

proof fn users_at_the_ends(entries: Seq<CredentialEntry>, url: Seq<char>)
    ensures
        (forall|k: int|
            0 <= k < entries.len() ==> (#[trigger] entries[k].proxy_url matches Some(u) ==> u@
                != url)) ==> users(entries, url) == 0,
        (forall|k: int|
            0 <= k < entries.len() ==> (#[trigger] entries[k].proxy_url matches Some(u) && u@
                == url)) ==> users(entries, url) == entries.len(),
    decreases entries.len(),
{
    reveal(Seq::filter);
    if entries.len() > 0 {
        let rest = entries.drop_last();
        users_at_the_ends(rest, url);
        assert(entries[entries.len() - 1].proxy_url == entries.last().proxy_url);
        assert forall|k: int| 0 <= k < rest.len() implies (#[trigger] rest[k].proxy_url)
            == entries[k].proxy_url by {}
    }
}

/// Every credential counts for the proxy whose address it has, and for no other.
pub proof fn a_credential_counts_for_its_proxy(
    entries: Seq<CredentialEntry>,
    entry: CredentialEntry,
    url: Seq<char>,
)
    ensures
        users(Seq::empty(), url) == 0,
        users(entries.push(entry), url) == users(entries, url) + if (entry.proxy_url
            matches Some(u) && u@ == url) {
            1nat
        } else {
            0nat
        },
{
    reveal(Seq::filter);
    assert(entries.push(entry).drop_last() =~= entries);
    assert(entries.push(entry).last() == entry);
}

/// A proxy that was added is shown as it is kept, and no credential uses it yet; what
/// was wrong with others is told.
pub proof fn added_proxies_are_shown(
    service: AdminService,
    proxy: PooledProxy,
    message: String,
    added: Vec<PooledProxy>,
    errors: Vec<String>,
    one: Result<ProxyPoolEntry, AdminServiceError>,
    refused: Result<ProxyPoolEntry, AdminServiceError>,
    all: (Vec<ProxyPoolEntry>, Vec<String>),
    i: int,
)
    requires
        call_ensures(AdminService::add_proxy_done, (&service, Ok(proxy)), one),
        call_ensures(AdminService::add_proxy_done, (&service, Err(message)), refused),
        call_ensures(AdminService::batch_add_proxies_done, (&service, added, errors), all),
        0 <= i < added@.len(),
    ensures
        one matches Ok(p) && p.id == proxy.id && p.url == proxy.url && p.label == proxy.label
            && p.enabled == proxy.enabled && p.credential_count == 0,
        refused matches Err(e) && e@ == ErrorView::Invalid(message@),
        all.0@.len() == added@.len(),
        all.0@[i].id == added@[i].id && all.0@[i].url == added@[i].url && all.0@[i].label
            == added@[i].label && all.0@[i].enabled == added@[i].enabled,
        all.0@[i].credential_count == 0,
        all.1 == errors,
{
}

/// The pool is asked for what the client asked for.
pub proof fn the_pool_is_asked_for_the_same(
    service: AdminService,
    url: String,
    label: Option<String>,
    batch: BatchAddProxyRequest,
    id: u64,
    enabled: bool,
    req: AssignProxyRequest,
    calls: Seq<PoolCall>,
    lookup: Option<PoolCall>,
)
    requires
        calls.len() == 4,
        call_ensures(AdminService::add_proxy, (&service, url, label), calls[0]),
        call_ensures(AdminService::batch_add_proxies, (&service, batch), calls[1]),
        call_ensures(AdminService::delete_proxy, (&service, id), calls[2]),
        call_ensures(AdminService::set_proxy_enabled, (&service, id, enabled), calls[3]),
        call_ensures(AdminService::assigned_proxy, (&service, &req), lookup),
    ensures
        calls[0] == (PoolCall::Add { url, label }),
        calls[1] == PoolCall::BatchAdd(batch.urls),
        calls[2] == (PoolCall::Delete { id }),
        calls[3] == (PoolCall::SetEnabled { id, enabled }),
        req.proxy_id matches Some(p) ==> lookup == Some(PoolCall::GetUrl { id: p }),
        req.proxy_id is None ==> lookup is None,
{
}

/// A credential is given the address of the proxy that was asked for, and nothing else
/// of it changes; without a proxy its own is taken away. A proxy that is not there is
/// not found, and one that is switched off is refused as a bad request.
pub proof fn a_credential_gets_the_proxy_that_was_asked_for(
    service: AdminService,
    credential_id: u64,
    req: AssignProxyRequest,
    found: GetUrlResult,
    r: Result<ManagerCall, AdminServiceError>,
)
    requires
        call_ensures(
            AdminService::assign_proxy_to_credential,
            (&service, credential_id, &req, found),
            r,
        ),
    ensures
        r matches Ok(call) ==> (call matches ManagerCall::UpdateCredential {
            id,
            email,
            proxy_url,
            proxy_username,
            proxy_password,
        } && id == credential_id && email is None && proxy_username is None && proxy_password is None
            && proxy_url is Some),
        req.proxy_id is None ==> (r matches Ok(ManagerCall::UpdateCredential { proxy_url, .. })
            && proxy_url == Some(None::<String>)),
        req.proxy_id is Some ==> {
            &&& found matches GetUrlResult::Found(url) ==> (r matches Ok(
                ManagerCall::UpdateCredential { proxy_url, .. },
            ) && proxy_url == Some(Some(url)))
            &&& found is NotFound ==> (r matches Err(e) && e@ == ErrorView::NotFound(
                req.proxy_id.unwrap(),
            ))
            &&& found is Disabled ==> (r matches Err(e) && e@ == ErrorView::Invalid(
                "代理 #"@ + decimal(req.proxy_id.unwrap() as nat)
                    + " 已被禁用，请先启用后再分配"@,
            ))
        },
{
}

/// What the pool has done is told as done, and what it could not do as an error.
pub proof fn what_the_pool_did_is_told(
    service: AdminService,
    id: u64,
    message: String,
    deleted: Result<(), AdminServiceError>,
    kept: Result<(), AdminServiceError>,
    switched: Result<(), AdminServiceError>,
    missing: Result<(), AdminServiceError>,
)
    requires
        call_ensures(AdminService::delete_proxy_done, (&service, id, Ok(())), deleted),
        call_ensures(AdminService::delete_proxy_done, (&service, id, Err(message)), kept),
        call_ensures(AdminService::set_proxy_enabled_done, (&service, id, Ok(())), switched),
        call_ensures(AdminService::set_proxy_enabled_done, (&service, id, Err(message)), missing),
    ensures
        deleted is Ok && switched is Ok,
        contains(message@, "不存在"@) ==> (kept matches Err(e) && e@ == ErrorView::NotFound(id)),
        !contains(message@, "不存在"@) ==> (kept matches Err(e) && e@ == ErrorView::Internal(
            message@,
        )),
        missing matches Err(e) && e@ == ErrorView::NotFound(id),
{
}

} // verus!
