//! Balances of credentials, and how long a known balance is used.

use std::collections::HashMap;

use vstd::prelude::*;
use vstd::std_specs::iter::IteratorSpec;

use crate::numbers::{decimal, decimal_is_injective, decimal_reads_back, parse_unsigned, read_unsigned, write_decimal};
use crate::text::{chars_of, copy_opt};

verus! {

broadcast use vstd::std_specs::hash::group_hash_axioms;

/// How many seconds a balance is used for.
pub const BALANCE_CACHE_TTL_SECS: i64 = 300;

/// The balance of a credential. Amounts are IEEE 754 double precision numbers,
/// held as their bits.
#[derive(Debug)]
pub struct BalanceResponse {
    /// The credential.
    pub id: u64,
    /// The name of its subscription.
    pub subscription_title: Option<String>,
    /// The amount that was used.
    pub current_usage: u64,
    /// The amount that may be used.
    pub usage_limit: u64,
    /// What is left; negative if more was used than may be.
    pub remaining: u64,
    /// The part that was used, in percent.
    pub usage_percentage: u64,
    /// Whether nothing is left, or all of it was used.
    pub exceeded: bool,
    /// When the usage starts again at nothing, as the bits of a number.
    pub next_reset_at: Option<u64>,
    /// Whether more may be used than the limit, if that is known.
    pub overage_enabled: Option<bool>,
    /// Whether that can be switched on, if that is known.
    pub overage_capable: Option<bool>,
    /// What the upstream said of that.
    pub overage_capability_raw: Option<String>,
}

impl Clone for BalanceResponse {
    fn clone(&self) -> (r: Self)
        ensures
            r == *self,
    {
        BalanceResponse {
            id: self.id,
            subscription_title: copy_opt(&self.subscription_title),
            current_usage: self.current_usage,
            usage_limit: self.usage_limit,
            remaining: self.remaining,
            usage_percentage: self.usage_percentage,
            exceeded: self.exceeded,
            next_reset_at: self.next_reset_at,
            overage_enabled: self.overage_enabled,
            overage_capable: self.overage_capable,
            overage_capability_raw: copy_opt(&self.overage_capability_raw),
        }
    }
}

/// A balance and when it was learned.
#[derive(Debug)]
pub struct CachedBalance {
    /// When it was learned, in seconds since the Unix epoch.
    pub cached_at: i64,
    /// The balance.
    pub data: BalanceResponse,
}

impl Clone for CachedBalance {
    fn clone(&self) -> (r: Self)
        ensures
            r == *self,
    {
        CachedBalance { cached_at: self.cached_at, data: self.data.clone() }
    }
}

impl CachedBalance {
    /// Whether the balance may still be used.
    pub open spec fn fresh(self, now: i64) -> bool {
        now - self.cached_at < BALANCE_CACHE_TTL_SECS
    }

    /// Whether the balance may still be used.
    pub fn is_fresh(&self, now: i64) -> (r: bool)
        ensures
            r == self.fresh(now),
    {
        (now as i128) - (self.cached_at as i128) < BALANCE_CACHE_TTL_SECS as i128
    }
}

/// The balance that may still be used for a credential, if there is one.
pub open spec fn usable(cache: Map<u64, CachedBalance>, id: u64, now: i64) -> Option<
    CachedBalance,
> {
    if cache.dom().contains(id) && cache[id].fresh(now) {
        Some(cache[id])
    } else {
        None
    }
}

/// The known balances by credential.
#[derive(Debug)]
pub struct BalanceCache {
    entries: HashMap<u64, CachedBalance>,
}

impl View for BalanceCache {
    type V = Map<u64, CachedBalance>;

    closed spec fn view(&self) -> Map<u64, CachedBalance> {
        self.entries@
    }
}

/// The balances in a stored list: those under a number that are still fresh,
/// later ones before earlier ones.
pub open spec fn loaded(list: Seq<(Seq<char>, CachedBalance)>, now: i64) -> Map<u64, CachedBalance>
    decreases list.len(),
{
    if list.len() == 0 {
        Map::empty()
    } else {
        let rest = loaded(list.drop_last(), now);
        let (key, entry) = list.last();
        match parse_unsigned(key, u64::MAX as nat) {
            Some(id) => if entry.fresh(now) {
                rest.insert(id as u64, entry)
            } else {
                rest
            },
            None => rest,
        }
    }
}

/// A stored list with its keys as text.
pub open spec fn stored(list: Seq<(String, CachedBalance)>) -> Seq<(Seq<char>, CachedBalance)> {
    list.map_values(|e: (String, CachedBalance)| (e.0@, e.1))
}

/// Whether a list holds every balance once, under the digits of its credential.
pub open spec fn lists(
    list: Seq<(Seq<char>, CachedBalance)>,
    cache: Map<u64, CachedBalance>,
) -> bool {
    &&& forall|i: int| 0 <= i < list.len() ==> is_entry(#[trigger] list[i], cache)
    &&& forall|id: u64| #[trigger]
        cache.dom().contains(id) ==> exists|i: int|
            0 <= i < list.len() && (#[trigger] list[i]).0 == decimal(id as nat)
    &&& forall|i: int, j: int|
        0 <= i < j < list.len() ==> (#[trigger] list[i]).0 != (#[trigger] list[j]).0
}

/// The credential that a key stands for.
pub open spec fn id_of(key: Seq<char>) -> u64 {
    parse_unsigned(key, u64::MAX as nat).unwrap() as u64
}

/// Whether this is one of the balances, under the digits of its credential.
pub open spec fn is_entry(
    entry: (Seq<char>, CachedBalance),
    cache: Map<u64, CachedBalance>,
) -> bool {
    let id = id_of(entry.0);
    cache.dom().contains(id) && entry.0 == decimal(id as nat) && entry.1 == cache[id]
}

impl BalanceCache {
    /// No balances.
    pub fn new() -> (r: Self)
        ensures
            r@ == Map::<u64, CachedBalance>::empty(),
    {
        BalanceCache { entries: HashMap::new() }
    }

    /// The balance that may still be used for a credential, if there is one.
    pub fn get(&self, id: u64, now: i64) -> (r: Option<&CachedBalance>)
        ensures
            match r {
                Some(c) => usable(self@, id, now) == Some(*c),
                None => usable(self@, id, now) is None,
            },
    {
        match self.entries.get(&id) {
            Some(c) => if c.is_fresh(now) {
                Some(c)
            } else {
                None
            },
            None => None,
        }
    }

    /// Keeps a balance.
    pub fn insert(&mut self, id: u64, entry: CachedBalance)
        ensures
            final(self)@ == old(self)@.insert(id, entry),
    {
        self.entries.insert(id, entry);
    }

    /// Forgets a balance.
    pub fn remove(&mut self, id: u64)
        ensures
            final(self)@ == old(self)@.remove(id),
    {
        self.entries.remove(&id);
    }

    /// The balances of a stored list.
    pub fn load_balance_cache_from(list: Vec<(String, CachedBalance)>, now: i64) -> (r: Self)
        ensures
            r@ == loaded(stored(list@), now),
    {
        let mut cache = BalanceCache::new();
        let mut i: usize = 0;
        while i < list.len()
            invariant
                i <= list.len(),
                cache@ == loaded(stored(list@).take(i as int), now),
            decreases list.len() - i,
        {
            let (key, entry) = &list[i];
            assert(stored(list@).take(i + 1).drop_last() =~= stored(list@).take(i as int));
            if let Some(id) = read_unsigned(chars_of(key.as_str()).as_slice(), u64::MAX) {
                if entry.is_fresh(now) {
                    cache.insert(id, entry.clone());
                }
            }
            i = i + 1;
        }
        assert(stored(list@).take(i as int) =~= stored(list@));
        cache
    }

    /// The balances as a list to store, in no particular order.
    pub fn saved(&self) -> (r: Vec<(String, CachedBalance)>)
        ensures
            lists(stored(r@), self@),
    {
        let mut list: Vec<(String, CachedBalance)> = Vec::new();
        let all = self.entries.iter();
        let ghost pairs = all.remaining();
        for pair in iter: all
            invariant
                iter.seq() == pairs,
                list@.len() == iter.index(),
                forall|i: int|
                    0 <= i < list@.len() ==> {
                        &&& (#[trigger] list@[i]).0@ == decimal(*pairs[i].0 as nat)
                        &&& list@[i].1 == *pairs[i].1
                    },
        {
            let (id, entry) = pair;
            list.push((write_decimal(*id), entry.clone()));
        }
        proof {
            let out = stored(list@);
            let cache = self@;
            assert forall|i: int| 0 <= i < out.len() implies is_entry(#[trigger] out[i], cache) by {
                decimal_reads_back(*pairs[i].0 as nat, u64::MAX as nat);
                assert(self.entries@.contains_key(*pairs[i].0));
            }
            assert forall|id: u64| #[trigger] cache.dom().contains(id) implies exists|i: int|
                0 <= i < out.len() && (#[trigger] out[i]).0 == decimal(id as nat) by {
                assert(self.entries@.contains_key(id));
                let i = choose|i: int| 0 <= i < pairs.len() && pairs[i] == (&id, &cache[id]);
                assert(out[i].0 == decimal(id as nat));
            }
            assert forall|i: int, j: int| 0 <= i < j < out.len() implies (#[trigger] out[i]).0 != (
            #[trigger] out[j]).0 by {
                if out[i].0 == out[j].0 {
                    decimal_is_injective(*pairs[i].0 as nat, *pairs[j].0 as nat);
                    assert(self.entries@.contains_key(*pairs[i].0));
                    assert(self.entries@.contains_key(*pairs[j].0));
                    assert(pairs[i] == pairs[j]);
                }
            }
        }
        list
    }
}

/// What was stored is loaded again, as long as it is fresh.
pub proof fn saved_balances_are_loaded_again(
    list: Seq<(Seq<char>, CachedBalance)>,
    cache: Map<u64, CachedBalance>,
    now: i64,
)
    requires
        lists(list, cache),
    ensures
        loaded(list, now) == cache.restrict(
            Set::new(|id: u64| cache.dom().contains(id) && cache[id].fresh(now)),
        ),
{
    loaded_part(list, cache, now, list.len());
    assert(list.take(list.len() as int) =~= list);
    let all = loaded(list, now);
    let kept = cache.restrict(
        Set::new(|id: u64| cache.dom().contains(id) && cache[id].fresh(now)),
    );
    assert forall|id: u64| #[trigger] all.dom().contains(id) == kept.dom().contains(id) by {
        if all.dom().contains(id) {
            assert(loaded(list.take(list.len() as int), now).dom().contains(id));
        }
        if kept.dom().contains(id) {
            let i = choose|i: int|
                0 <= i < list.len() && (#[trigger] list[i]).0 == decimal(id as nat);
            decimal_reads_back(id as nat, u64::MAX as nat);
            assert(id_of(list[i].0) == id);
        }
    }
    assert(all.dom() =~= kept.dom());
    assert(all =~= kept);
}

proof fn loaded_part(
    list: Seq<(Seq<char>, CachedBalance)>,
    cache: Map<u64, CachedBalance>,
    now: i64,
    n: nat,
)
    requires
        lists(list, cache),
        n <= list.len(),
    ensures
        forall|id: u64| #[trigger]
            loaded(list.take(n as int), now).dom().contains(id) ==> cache.dom().contains(id)
                && cache[id].fresh(now) && loaded(list.take(n as int), now)[id] == cache[id],
        forall|i: int|
            0 <= i < n && cache[id_of((#[trigger] list[i]).0)].fresh(now) ==> loaded(
                list.take(n as int),
                now,
            ).dom().contains(id_of(list[i].0)),
    decreases n,
{
    if n > 0 {
        loaded_part(list, cache, now, (n - 1) as nat);
        let part = list.take(n as int);
        assert(part.drop_last() =~= list.take(n - 1));
        assert(is_entry(list[n - 1], cache));
        decimal_reads_back(id_of(list[n - 1].0) as nat, u64::MAX as nat);
        let rest = loaded(list.take(n - 1), now);
        let id = id_of(list[n - 1].0);
        assert(part.last() == list[n - 1]);
        assert(loaded(part, now) == if cache[id].fresh(now) {
            rest.insert(id, cache[id])
        } else {
            rest
        });
    } else {
        assert(loaded(list.take(0), now) =~= Map::empty());
    }
}

/// Whatever is loaded is fresh.
pub proof fn loaded_balances_are_fresh(
    list: Seq<(Seq<char>, CachedBalance)>,
    now: i64,
    id: u64,
)
    requires
        loaded(list, now).dom().contains(id),
    ensures
        usable(loaded(list, now), id, now) == Some(loaded(list, now)[id]),
    decreases list.len(),
{
    if list.len() > 0 && loaded(list.drop_last(), now).dom().contains(id) {
        loaded_balances_are_fresh(list.drop_last(), now, id);
    }
}

/// A balance that has just been learned is used for the time to live, and no
/// longer.
pub proof fn balance_is_used_for_its_time(
    cache: Map<u64, CachedBalance>,
    id: u64,
    entry: CachedBalance,
    now: i64,
)
    ensures
        usable(cache.insert(id, entry), id, now) == (if now - entry.cached_at
            < BALANCE_CACHE_TTL_SECS {
            Some(entry)
        } else {
            None
        }),
{
}

/// What is stored is loaded again under the same credential, as long as it was learned
/// less than five minutes ago; nothing else is loaded.
pub proof fn stored_balances_come_back(
    cache: BalanceCache,
    list: Vec<(String, CachedBalance)>,
    now: i64,
    r: BalanceCache,
    id: u64,
)
    requires
        call_ensures(BalanceCache::saved, (&cache,), list),
        call_ensures(BalanceCache::load_balance_cache_from, (list, now), r),
    ensures
        r@.dom().contains(id) <==> cache@.dom().contains(id) && now - cache@[id].cached_at < 300,
        r@.dom().contains(id) ==> r@[id] == cache@[id],
{
    saved_balances_are_loaded_again(stored(list@), cache@, now);
}

/// A stored balance is loaded under the number that its key writes down; a key that is
/// no number, and a balance that is too old, is passed over.
pub proof fn a_stored_balance_is_read_by_its_key(
    key: String,
    entry: CachedBalance,
    id: u64,
    now: i64,
    list: Vec<(String, CachedBalance)>,
    r: BalanceCache,
)
    requires
        list@ == seq![(key, entry)],
        call_ensures(BalanceCache::load_balance_cache_from, (list, now), r),
    ensures
        key@ == decimal(id as nat) && now - entry.cached_at < 300 ==> r@ == map![id => entry],
        now - entry.cached_at >= 300 ==> r@ == Map::<u64, CachedBalance>::empty(),
        parse_unsigned(key@, u64::MAX as nat) is None ==> r@ == Map::<u64, CachedBalance>::empty(),
{
    decimal_reads_back(id as nat, u64::MAX as nat);
    let l = stored(list@);
    assert(l =~= seq![(key@, entry)]);
    assert(l.drop_last() =~= Seq::empty());
    assert(loaded(l.drop_last(), now) == Map::<u64, CachedBalance>::empty());
    assert(map![id => entry] =~= Map::<u64, CachedBalance>::empty().insert(id, entry));
}

/// A balance that is kept is given for five minutes from when it was learned, for its own
/// credential alone, and no longer than it is kept.
pub proof fn a_kept_balance_is_given_while_it_is_fresh(
    before: BalanceCache,
    kept: BalanceCache,
    gone: BalanceCache,
    id: u64,
    other: u64,
    entry: CachedBalance,
    now: i64,
    given: Option<&CachedBalance>,
    untouched: Option<&CachedBalance>,
    same: Option<&CachedBalance>,
    nothing: Option<&CachedBalance>,
)
    requires
        exists|c: &mut BalanceCache| #[trigger]
            call_ensures(BalanceCache::insert, (c, id, entry), ()) && *c == before && *final(c)
                == kept,
        exists|c: &mut BalanceCache| #[trigger]
            call_ensures(BalanceCache::remove, (c, id), ()) && *c == kept && *final(c) == gone,
        other != id,
        call_ensures(BalanceCache::get, (&kept, id, now), given),
        call_ensures(BalanceCache::get, (&kept, other, now), untouched),
        call_ensures(BalanceCache::get, (&before, other, now), same),
        call_ensures(BalanceCache::get, (&gone, id, now), nothing),
    ensures
        now - entry.cached_at < 300 ==> (given matches Some(c) && *c == entry),
        now - entry.cached_at >= 300 ==> given is None,
        untouched is Some <==> same is Some,
        untouched matches Some(c) ==> *c == *same.unwrap(),
        nothing is None,
{
}

/// Of two stored balances of one credential the later one in the list is loaded.
pub proof fn the_later_entry_is_loaded(
    list: Seq<(Seq<char>, CachedBalance)>,
    id: u64,
    entry: CachedBalance,
    now: i64,
)
    requires
        now - entry.cached_at < 300,
    ensures
        loaded(list.push((decimal(id as nat), entry)), now) == loaded(list, now).insert(id, entry),
{
    decimal_reads_back(id as nat, u64::MAX as nat);
    assert(list.push((decimal(id as nat), entry)).drop_last() =~= list);
}

} // verus!
