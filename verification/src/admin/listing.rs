//! The state of all credentials.

use vstd::prelude::*;

use crate::admin::balance::{usable, CachedBalance};
use crate::admin::service::AdminService;
use crate::admin::types::{CredentialStatusItem, CredentialsStatusResponse};
use crate::clock::utc_now;
use crate::kiro::token_manager::{CredentialEntry, ManagerSnapshot};
use crate::model::config::Config;
use crate::text::copy_opt;

verus! {

/// The state of a credential.
pub open spec fn status_item(
    entry: CredentialEntry,
    current_id: u64,
    default_endpoint: String,
    cached: Option<CachedBalance>,
) -> CredentialStatusItem {
    CredentialStatusItem {
        id: entry.id,
        priority: entry.priority,
        disabled: entry.disabled,
        failure_count: entry.failure_count,
        is_current: entry.id == current_id,
        expires_at: entry.expires_at,
        auth_method: entry.auth_method,
        has_profile_arn: entry.has_profile_arn,
        refresh_token_hash: entry.refresh_token_hash,
        api_key_hash: entry.api_key_hash,
        masked_api_key: entry.masked_api_key,
        email: entry.email,
        success_count: entry.success_count,
        last_used_at: entry.last_used_at,
        has_proxy: entry.has_proxy,
        proxy_url: entry.proxy_url,
        refresh_failure_count: entry.refresh_failure_count,
        disabled_reason: entry.disabled_reason,
        endpoint: match entry.endpoint {
            Some(endpoint) => endpoint,
            None => default_endpoint,
        },
        balance: match cached {
            Some(c) => Some(c.data),
            None => None,
        },
        balance_updated_at: match cached {
            Some(c) => Some(c.cached_at),
            None => None,
        },
    }
}

/// The states of all credentials, in the order in which they are kept.
pub open spec fn status_items(
    snapshot: ManagerSnapshot,
    config: Config,
    cache: Map<u64, CachedBalance>,
    now: i64,
) -> Seq<CredentialStatusItem> {
    Seq::new(
        snapshot.entries@.len(),
        |i: int|
            status_item(
                snapshot.entries@[i],
                snapshot.current_id,
                config.default_endpoint,
                usable(cache, snapshot.entries@[i].id, now),
            ),
    )
}

/// The states of the credentials that have this priority.
pub open spec fn with_priority(items: Seq<CredentialStatusItem>, priority: u32) -> Seq<
    CredentialStatusItem,
> {
    items.filter(|c: CredentialStatusItem| c.priority == priority)
}

/// Whether states are in the order of their priorities.
pub open spec fn is_sorted(items: Seq<CredentialStatusItem>) -> bool {
    forall|i: int, j: int|
        0 <= i < j < items.len() ==> (#[trigger] items[i]).priority <= (#[trigger]
        items[j]).priority
}

/// Whether `out` holds the states of `items` in the order of their priorities,
/// and those of the same priority in the order in which they were.
pub open spec fn is_stable_order(
    out: Seq<CredentialStatusItem>,
    items: Seq<CredentialStatusItem>,
) -> bool {
    &&& is_sorted(out)
    &&& forall|p: u32| #[trigger] with_priority(out, p) == with_priority(items, p)
}

/// Whether this is the state of all credentials.
pub open spec fn is_listing(
    r: CredentialsStatusResponse,
    snapshot: ManagerSnapshot,
    config: Config,
    cache: Map<u64, CachedBalance>,
    now: i64,
) -> bool {
    &&& r.total == snapshot.total
    &&& r.available == snapshot.available
    &&& r.current_id == snapshot.current_id
    &&& is_stable_order(r.credentials@, status_items(snapshot, config, cache, now))
}

fn describe(entry: &CredentialEntry, current_id: u64, config: &Config, cached: Option<&CachedBalance>) -> (r:
    CredentialStatusItem)
    ensures
        r == status_item(
            *entry,
            current_id,
            config.default_endpoint,
            match cached {
                Some(c) => Some(*c),
                None => None,
            },
        ),
{
    let (balance, balance_updated_at) = match cached {
        Some(c) => (Some(c.data.clone()), Some(c.cached_at)),
        None => (None, None),
    };
    CredentialStatusItem {
        id: entry.id,
        priority: entry.priority,
        disabled: entry.disabled,
        failure_count: entry.failure_count,
        is_current: entry.id == current_id,
        expires_at: copy_opt(&entry.expires_at),
        auth_method: copy_opt(&entry.auth_method),
        has_profile_arn: entry.has_profile_arn,
        refresh_token_hash: copy_opt(&entry.refresh_token_hash),
        api_key_hash: copy_opt(&entry.api_key_hash),
        masked_api_key: copy_opt(&entry.masked_api_key),
        email: copy_opt(&entry.email),
        success_count: entry.success_count,
        last_used_at: copy_opt(&entry.last_used_at),
        has_proxy: entry.has_proxy,
        proxy_url: copy_opt(&entry.proxy_url),
        refresh_failure_count: entry.refresh_failure_count,
        disabled_reason: copy_opt(&entry.disabled_reason),
        endpoint: match &entry.endpoint {
            Some(endpoint) => endpoint.clone(),
            None => config.default_endpoint.clone(),
        },
        balance,
        balance_updated_at,
    }
}

proof fn inserted_in_order(
    out: Seq<CredentialStatusItem>,
    items: Seq<CredentialStatusItem>,
    item: CredentialStatusItem,
    at: int,
)
    requires
        is_stable_order(out, items),
        0 <= at <= out.len(),
        forall|i: int| 0 <= i < at ==> (#[trigger] out[i]).priority <= item.priority,
        forall|i: int| at <= i < out.len() ==> (#[trigger] out[i]).priority > item.priority,
    ensures
        is_stable_order(out.insert(at, item), items.push(item)),
{
    let more = out.insert(at, item);
    let head = out.take(at);
    let tail = out.skip(at);
    assert(out =~= head + tail);
    assert(more =~= head + seq![item] + tail);
    assert(items.push(item) =~= items + seq![item]);
    assert forall|i: int, j: int| 0 <= i < j < more.len() implies (#[trigger] more[i]).priority <= (
    #[trigger] more[j]).priority by {
        if i < at {
            assert(more[i] == out[i]);
        } else if i > at {
            assert(more[i] == out[i - 1]);
        }
        if j < at {
            assert(more[j] == out[j]);
        } else if j > at {
            assert(more[j] == out[j - 1]);
        }
    }
    assert forall|p: u32| #[trigger]
        with_priority(more, p) == with_priority(items.push(item), p) by {
        let f = |c: CredentialStatusItem| c.priority == p;
        Seq::filter_distributes_over_add(head, tail, f);
        Seq::filter_distributes_over_add(head + seq![item], tail, f);
        Seq::filter_distributes_over_add(head, seq![item], f);
        Seq::filter_distributes_over_add(items, seq![item], f);
        assert(with_priority(out, p) == with_priority(items, p));
        if p == item.priority {
            assert forall|i: int| 0 <= i < tail.len() implies !f(#[trigger] tail[i]) by {
                assert(tail[i] == out[at + i]);
            }
            tail.lemma_all_neg_filter_empty(f);
            assert(with_priority(out, p) =~= head.filter(f));
            assert(with_priority(more, p) =~= head.filter(f) + seq![item].filter(f));
        } else {
            assert forall|i: int| 0 <= i < 1 implies !f(#[trigger] seq![item][i]) by {}
            seq![item].lemma_all_neg_filter_empty(f);
            assert(with_priority(more, p) =~= head.filter(f) + tail.filter(f));
            assert(with_priority(items.push(item), p) =~= items.filter(f));
        }
    }
}

impl AdminService {
    /// The state of all credentials, those that come first before the others.
    pub fn get_all_credentials_at(
        &self,
        snapshot: &ManagerSnapshot,
        config: &Config,
        now: i64,
    ) -> (r: CredentialsStatusResponse)
        ensures
            is_listing(r, *snapshot, *config, self.balance_cache@, now),
    {
        let mut credentials: Vec<CredentialStatusItem> = Vec::new();
        let ghost items = status_items(*snapshot, *config, self.balance_cache@, now);
        proof {
            assert forall|p: u32| #[trigger]
                with_priority(credentials@, p) == with_priority(items.take(0), p) by {
                assert(credentials@ =~= items.take(0));
            }
        }
        let mut i: usize = 0;
        while i < snapshot.entries.len()
            invariant
                items == status_items(*snapshot, *config, self.balance_cache@, now),
                i <= snapshot.entries@.len(),
                is_stable_order(credentials@, items.take(i as int)),
            decreases snapshot.entries@.len() - i,
        {
            let entry = &snapshot.entries[i];
            let item = describe(
                entry,
                snapshot.current_id,
                config,
                self.balance_cache.get(entry.id, now),
            );
            assert(item == items[i as int]);
            let mut at: usize = credentials.len();
            while at > 0 && credentials[at - 1].priority > item.priority
                invariant
                    at <= credentials@.len(),
                    forall|k: int|
                        at <= k < credentials@.len() ==> (#[trigger] credentials@[k]).priority
                            > item.priority,
                decreases at,
            {
                at = at - 1;
            }
            proof {
                inserted_in_order(credentials@, items.take(i as int), item, at as int);
                assert(items.take(i as int).push(item) =~= items.take(i + 1));
            }
            credentials.insert(at, item);
            i = i + 1;
        }
        assert(items.take(i as int) =~= items);
        CredentialsStatusResponse {
            total: snapshot.total,
            available: snapshot.available,
            current_id: snapshot.current_id,
            credentials,
        }
    }

    /// The state of all credentials now.
    pub fn get_all_credentials(&self, snapshot: &ManagerSnapshot, config: &Config) -> (r:
        CredentialsStatusResponse)
        ensures
            exists|now: i64|
                now >= 0 && #[trigger] is_listing(
                    r,
                    *snapshot,
                    *config,
                    self.balance_cache@,
                    now,
                ),
    {
        let now: i64 = utc_now().seconds;
        self.get_all_credentials_at(snapshot, config, now)
    }
}

/// Putting states in order loses none and repeats none.
pub proof fn every_credential_is_listed(
    out: Seq<CredentialStatusItem>,
    items: Seq<CredentialStatusItem>,
)
    requires
        is_stable_order(out, items),
    ensures
        out.to_multiset() == items.to_multiset(),
        out.len() == items.len(),
{
    assert forall|c: CredentialStatusItem| #[trigger]
        out.to_multiset().count(c) == items.to_multiset().count(c) by {
        counted_in_priority(out, c);
        counted_in_priority(items, c);
        assert(with_priority(out, c.priority) == with_priority(items, c.priority));
    }
    assert(out.to_multiset() =~= items.to_multiset());
    out.to_multiset_ensures();
    items.to_multiset_ensures();
}

proof fn counted_in_priority(items: Seq<CredentialStatusItem>, c: CredentialStatusItem)
    ensures
        items.to_multiset().count(c) == with_priority(items, c.priority).to_multiset().count(c),
    decreases items.len(),
{
    reveal(Seq::filter);
    if items.len() > 0 {
        let rest = items.drop_last();
        counted_in_priority(rest, c);
        assert(items =~= rest.push(items.last()));
        rest.to_multiset_ensures();
        with_priority(rest, c.priority).to_multiset_ensures();
        assert(items.to_multiset() =~= rest.to_multiset().insert(items.last()));
        if items.last().priority == c.priority {
            assert(with_priority(items, c.priority) =~= with_priority(rest, c.priority).push(
                items.last(),
            ));
        } else {
            assert(with_priority(items, c.priority) =~= with_priority(rest, c.priority));
        }
    } else {
        assert(with_priority(items, c.priority) =~= items);
    }
}

/// Every credential is listed as it is known, once for each time that it is kept, with
/// its endpoint or the default one, with whether it is the one in use, and with its
/// balance if that was learned less than five minutes ago.
pub proof fn credentials_are_listed_as_they_are_known(
    service: AdminService,
    snapshot: ManagerSnapshot,
    config: Config,
    now: i64,
    r: CredentialsStatusResponse,
    i: int,
)
    requires
        call_ensures(
            AdminService::get_all_credentials_at,
            (&service, &snapshot, &config, now),
            r,
        ),
        0 <= i < snapshot.entries@.len(),
    ensures
        r.total == snapshot.total && r.available == snapshot.available && r.current_id
            == snapshot.current_id,
        r.credentials@.len() == snapshot.entries@.len(),
        forall|a: int, b: int|
            0 <= a < b < r.credentials@.len() ==> (#[trigger] r.credentials@[a]).priority <= (
            #[trigger] r.credentials@[b]).priority,
        exists|k: int|
            0 <= k < r.credentials@.len() && tells_of(
                #[trigger] r.credentials@[k],
                snapshot.entries@[i],
                snapshot.current_id,
                config.default_endpoint,
                service.balance_cache@,
                now,
            ),
{
    let items = status_items(snapshot, config, service.balance_cache@, now);
    let out = r.credentials@;
    every_credential_is_listed(out, items);
    items.to_multiset_ensures();
    out.to_multiset_ensures();
    assert(items.contains(items[i]));
    assert(items.to_multiset().contains(items[i]));
    assert(out.contains(items[i]));
    let k = choose|k: int| 0 <= k < out.len() && out[k] == items[i];
    assert(tells_of(
        out[k],
        snapshot.entries@[i],
        snapshot.current_id,
        config.default_endpoint,
        service.balance_cache@,
        now,
    ));
}

/// Whether a state tells of a credential what is known of it.
pub open spec fn tells_of(
    item: CredentialStatusItem,
    entry: CredentialEntry,
    current_id: u64,
    default_endpoint: String,
    cache: Map<u64, CachedBalance>,
    now: i64,
) -> bool {
    let fresh = cache.dom().contains(entry.id) && now - cache[entry.id].cached_at < 300;
    &&& item.id == entry.id
    &&& item.priority == entry.priority
    &&& item.disabled == entry.disabled
    &&& item.disabled_reason == entry.disabled_reason
    &&& item.failure_count == entry.failure_count
    &&& item.refresh_failure_count == entry.refresh_failure_count
    &&& item.success_count == entry.success_count
    &&& item.is_current == (entry.id == current_id)
    &&& item.expires_at == entry.expires_at
    &&& item.last_used_at == entry.last_used_at
    &&& item.auth_method == entry.auth_method
    &&& item.has_profile_arn == entry.has_profile_arn
    &&& item.refresh_token_hash == entry.refresh_token_hash
    &&& item.api_key_hash == entry.api_key_hash
    &&& item.masked_api_key == entry.masked_api_key
    &&& item.email == entry.email
    &&& item.has_proxy == entry.has_proxy
    &&& item.proxy_url == entry.proxy_url
    &&& entry.endpoint matches Some(e) ==> item.endpoint == e
    &&& entry.endpoint is None ==> item.endpoint == default_endpoint
    &&& fresh ==> item.balance == Some(cache[entry.id].data) && item.balance_updated_at == Some(
        cache[entry.id].cached_at,
    )
    &&& !fresh ==> item.balance is None && item.balance_updated_at is None
}

/// Credentials of one priority are listed in the order in which they are kept.
pub proof fn equal_priorities_keep_their_order(
    service: AdminService,
    snapshot: ManagerSnapshot,
    config: Config,
    now: i64,
    r: CredentialsStatusResponse,
    priority: u32,
)
    requires
        call_ensures(
            AdminService::get_all_credentials_at,
            (&service, &snapshot, &config, now),
            r,
        ),
    ensures
        r.credentials@.filter(|c: CredentialStatusItem| c.priority == priority).map_values(
            |c: CredentialStatusItem| c.id,
        ) == snapshot.entries@.filter(|e: CredentialEntry| e.priority == priority).map_values(
            |e: CredentialEntry| e.id,
        ),
{
    let items = status_items(snapshot, config, service.balance_cache@, now);
    assert(with_priority(r.credentials@, priority) == with_priority(items, priority));
    same_filter(snapshot.entries@, items, priority);
}

proof fn same_filter(
    entries: Seq<CredentialEntry>,
    items: Seq<CredentialStatusItem>,
    priority: u32,
)
    requires
        entries.len() == items.len(),
        forall|i: int|
            0 <= i < entries.len() ==> (#[trigger] items[i]).id == entries[i].id && items[i].priority
                == entries[i].priority,
    ensures
        items.filter(|c: CredentialStatusItem| c.priority == priority).map_values(
            |c: CredentialStatusItem| c.id,
        ) == entries.filter(|e: CredentialEntry| e.priority == priority).map_values(
            |e: CredentialEntry| e.id,
        ),
    decreases entries.len(),
{
    reveal(Seq::filter);
    let f = |c: CredentialStatusItem| c.priority == priority;
    let g = |e: CredentialEntry| e.priority == priority;
    let p = |c: CredentialStatusItem| c.id;
    let q = |e: CredentialEntry| e.id;
    if entries.len() > 0 {
        same_filter(entries.drop_last(), items.drop_last(), priority);
        let a = items.drop_last().filter(f);
        let b = entries.drop_last().filter(g);
        assert(items[items.len() - 1].id == entries[entries.len() - 1].id);
        assert(a.push(items.last()).map_values(p) =~= a.map_values(p).push(items.last().id));
        assert(b.push(entries.last()).map_values(q) =~= b.map_values(q).push(entries.last().id));
    } else {
        assert(items.filter(f).map_values(p) =~= entries.filter(g).map_values(q));
    }
}

/// Whether one of the states tells of a credential what is known of it.
pub open spec fn is_told(
    items: Seq<CredentialStatusItem>,
    entry: CredentialEntry,
    current_id: u64,
    default_endpoint: String,
    cache: Map<u64, CachedBalance>,
    now: i64,
) -> bool {
    exists|k: int|
        0 <= k < items.len() && tells_of(
            #[trigger] items[k],
            entry,
            current_id,
            default_endpoint,
            cache,
            now,
        )
}

/// At the moment of the call too every credential is listed as it is known, with its
/// balance or without one.
pub proof fn credentials_are_listed_now(
    service: AdminService,
    snapshot: ManagerSnapshot,
    config: Config,
    r: CredentialsStatusResponse,
)
    requires
        call_ensures(AdminService::get_all_credentials, (&service, &snapshot, &config), r),
    ensures
        r.total == snapshot.total && r.available == snapshot.available && r.current_id
            == snapshot.current_id,
        r.credentials@.len() == snapshot.entries@.len(),
        forall|a: int, b: int|
            0 <= a < b < r.credentials@.len() ==> (#[trigger] r.credentials@[a]).priority <= (
            #[trigger] r.credentials@[b]).priority,
        exists|now: i64| #![trigger status_items(snapshot, config, service.balance_cache@, now)]
            now >= 0 && forall|i: int|
                0 <= i < snapshot.entries@.len() ==> is_told(
                    r.credentials@,
                    #[trigger] snapshot.entries@[i],
                    snapshot.current_id,
                    config.default_endpoint,
                    service.balance_cache@,
                    now,
                ),
{
    let cache = service.balance_cache@;
    let now = choose|now: i64|
        now >= 0 && #[trigger] is_listing(r, snapshot, config, cache, now);
    let items = status_items(snapshot, config, cache, now);
    let out = r.credentials@;
    every_credential_is_listed(out, items);
    items.to_multiset_ensures();
    out.to_multiset_ensures();
    assert forall|i: int| 0 <= i < snapshot.entries@.len() implies is_told(
        out,
        #[trigger] snapshot.entries@[i],
        snapshot.current_id,
        config.default_endpoint,
        cache,
        now,
    ) by {
        assert(items.contains(items[i]));
        assert(items.to_multiset().contains(items[i]));
        assert(out.contains(items[i]));
        let k = choose|k: int| 0 <= k < out.len() && out[k] == items[i];
        assert(tells_of(
            out[k],
            snapshot.entries@[i],
            snapshot.current_id,
            config.default_endpoint,
            cache,
            now,
        ));
    }
}

} // verus!
