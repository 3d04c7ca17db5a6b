//! Balances of single credentials, and what is done with all credentials at
//! once because of their balances.

use vstd::prelude::*;

use crate::admin::balance::{usable, BalanceResponse, CachedBalance};
use crate::admin::error::AdminServiceError;
use crate::admin::failures::{balance_failure, classify_balance_error};
use crate::admin::service::AdminService;
use crate::admin::types::{EnableOverageAllResult, QuotaExceededResult};
use crate::clock::utc_now;
use crate::kiro::token_manager::{CredentialEntry, ManagerCall, ManagerSnapshot, UsageLimits};

verus! {

/// How a question for a balance is answered.
#[derive(Debug)]
pub enum BalanceAnswer {
    /// With what is known.
    Known(BalanceResponse),
    /// The upstream is asked first.
    Ask(ManagerCall),
}

/// What the limits of a credential say of its balance.
pub open spec fn balance_of(id: u64, usage: UsageLimits) -> BalanceResponse {
    BalanceResponse {
        id,
        subscription_title: usage.subscription_title,
        current_usage: usage.current_usage,
        usage_limit: usage.usage_limit,
        remaining: usage.remaining,
        usage_percentage: usage.usage_percentage,
        exceeded: usage.exceeded,
        next_reset_at: usage.next_date_reset,
        overage_enabled: usage.overage_enabled,
        overage_capable: usage.overage_capable,
        overage_capability_raw: usage.overage_capability,
    }
}

/// Reads the balance of a credential from what the upstream has answered.
pub fn fetch_balance(id: u64, answer: Result<UsageLimits, String>) -> (r: Result<
    BalanceResponse,
    AdminServiceError,
>)
    ensures
        match answer {
            Ok(usage) => r == Ok::<BalanceResponse, AdminServiceError>(balance_of(id, usage)),
            Err(e) => r matches Err(f) && f@ == balance_failure(e@, id),
        },
{
    match answer {
        Ok(usage) => Ok(
            BalanceResponse {
                id,
                subscription_title: usage.subscription_title,
                current_usage: usage.current_usage,
                usage_limit: usage.usage_limit,
                remaining: usage.remaining,
                usage_percentage: usage.usage_percentage,
                exceeded: usage.exceeded,
                next_reset_at: usage.next_date_reset,
                overage_enabled: usage.overage_enabled,
                overage_capable: usage.overage_capable,
                overage_capability_raw: usage.overage_capability,
            },
        ),
        Err(e) => Err(classify_balance_error(e, id)),
    }
}

/// How a question for a balance is answered at a point in time.
pub open spec fn balance_answer(cache: Map<u64, CachedBalance>, id: u64, now: i64) -> BalanceAnswer {
    match usable(cache, id, now) {
        Some(c) => BalanceAnswer::Known(c.data),
        None => BalanceAnswer::Ask(ManagerCall::UsageLimits { id }),
    }
}

impl AdminService {
    /// The service with other balances.
    pub open spec fn with_balances(self, other: AdminService) -> AdminService {
        AdminService { balance_cache: other.balance_cache, ..self }
    }

    /// Answers the question for a balance, or says whom to ask.
    pub fn get_balance_at(&self, id: u64, now: i64) -> (r: BalanceAnswer)
        ensures
            r == balance_answer(self.balance_cache@, id, now),
    {
        match self.balance_cache.get(id, now) {
            Some(c) => BalanceAnswer::Known(c.data.clone()),
            None => BalanceAnswer::Ask(ManagerCall::UsageLimits { id }),
        }
    }

    /// Answers the question for a balance now, or says whom to ask.
    pub fn get_balance(&self, id: u64) -> (r: BalanceAnswer)
        ensures
            exists|now: i64|
                now >= 0 && r == #[trigger] balance_answer(self.balance_cache@, id, now),
    {
        let now: i64 = utc_now().seconds;
        self.get_balance_at(id, now)
    }

    /// Takes what the upstream has answered: a balance is kept and given, and
    /// after a failure nothing has changed. If it was a success the balances are
    /// to be stored.
    pub fn get_balance_done_at(
        &mut self,
        id: u64,
        answer: Result<UsageLimits, String>,
        now: i64,
    ) -> (r: Result<BalanceResponse, AdminServiceError>)
        ensures
            match answer {
                Ok(usage) => {
                    &&& r == Ok::<BalanceResponse, AdminServiceError>(balance_of(id, usage))
                    &&& final(self).balance_cache@ == old(self).balance_cache@.insert(
                        id,
                        CachedBalance { cached_at: now, data: balance_of(id, usage) },
                    )
                    &&& *final(self) == old(self).with_balances(*final(self))
                },
                Err(e) => {
                    &&& r matches Err(f) && f@ == balance_failure(e@, id)
                    &&& *final(self) == *old(self)
                },
            },
    {
        match fetch_balance(id, answer) {
            Ok(balance) => {
                self.balance_cache.insert(
                    id,
                    CachedBalance { cached_at: now, data: balance.clone() },
                );
                Ok(balance)
            },
            Err(e) => Err(e),
        }
    }

    /// Takes what the upstream has answered now.
    pub fn get_balance_done(&mut self, id: u64, answer: Result<UsageLimits, String>) -> (r: Result<
        BalanceResponse,
        AdminServiceError,
    >)
        ensures
            match answer {
                Ok(usage) => {
                    &&& r == Ok::<BalanceResponse, AdminServiceError>(balance_of(id, usage))
                    &&& exists|now: i64|
                        now >= 0 && final(self).balance_cache@ == #[trigger] learned(
                            old(self).balance_cache@,
                            id,
                            balance_of(id, usage),
                            now,
                        )
                    &&& *final(self) == old(self).with_balances(*final(self))
                },
                Err(e) => {
                    &&& r matches Err(f) && f@ == balance_failure(e@, id)
                    &&& *final(self) == *old(self)
                },
            },
    {
        let now: i64 = utc_now().seconds;
        let r = self.get_balance_done_at(id, answer, now);
        proof {
            if answer is Ok {
                assert(self.balance_cache@ == learned(
                    old(self).balance_cache@,
                    id,
                    balance_of(id, answer->Ok_0),
                    now,
                ));
            }
        }
        r
    }
}

/// The balances after one was learned.
pub open spec fn learned(
    cache: Map<u64, CachedBalance>,
    id: u64,
    balance: BalanceResponse,
    now: i64,
) -> Map<u64, CachedBalance> {
    cache.insert(id, CachedBalance { cached_at: now, data: balance })
}

/// The numbers of some credentials.
pub open spec fn ids(entries: Seq<CredentialEntry>) -> Seq<u64> {
    entries.map_values(|e: CredentialEntry| e.id)
}

/// The credentials that are in use.
pub open spec fn in_use(entries: Seq<CredentialEntry>) -> Seq<CredentialEntry> {
    entries.filter(|e: CredentialEntry| !e.disabled)
}

/// Whether a credential is in use and is known to have used all it may.
pub open spec fn is_exceeded(
    entry: CredentialEntry,
    cache: Map<u64, CachedBalance>,
    now: i64,
) -> bool {
    !entry.disabled && (usable(cache, entry.id, now) matches Some(c) && c.data.exceeded)
}

/// The credentials that are in use and are known to have used all they may.
pub open spec fn exceeded_ids(
    entries: Seq<CredentialEntry>,
    cache: Map<u64, CachedBalance>,
    now: i64,
) -> Seq<u64> {
    ids(entries.filter(|e: CredentialEntry| is_exceeded(e, cache, now)))
}

proof fn filtered_push(
    entries: Seq<CredentialEntry>,
    i: int,
    f: spec_fn(CredentialEntry) -> bool,
)
    requires
        0 <= i < entries.len(),
    ensures
        ids(entries.take(i + 1).filter(f)) == if f(entries[i]) {
            ids(entries.take(i).filter(f)).push(entries[i].id)
        } else {
            ids(entries.take(i).filter(f))
        },
{
    reveal(Seq::filter);
    assert(entries.take(i + 1).drop_last() =~= entries.take(i));
    assert(entries.take(i + 1).last() == entries[i]);
    if f(entries[i]) {
        assert(ids(entries.take(i).filter(f).push(entries[i])) =~= ids(
            entries.take(i).filter(f),
        ).push(entries[i].id));
    }
}

/// Putting credentials out of use, one after the other.
#[derive(Debug)]
pub struct QuotaRun {
    /// The credentials, in this order.
    pub targets: Vec<u64>,
    /// The credential that was in use at the start.
    pub current_id: u64,
    /// How many are done.
    pub done: usize,
    /// Whether the credential that was in use is out of use now.
    pub switched_current: bool,
    /// What became of those that are done.
    pub result: QuotaExceededResult,
}

impl QuotaRun {
    /// Whether every credential that is done is accounted for, once.
    pub open spec fn wf(self) -> bool {
        &&& self.done <= self.targets@.len()
        &&& self.result.disabled_ids@.to_multiset().add(self.result.skipped_ids@.to_multiset())
            == self.targets@.take(self.done as int).to_multiset()
        &&& self.switched_current == self.result.disabled_ids@.contains(self.current_id)
    }

    /// The next credential to be put out of use, if there is one left.
    pub fn next_call(&self) -> (r: Option<ManagerCall>)
        ensures
            r == (if self.done < self.targets@.len() {
                Some(ManagerCall::DisableQuotaExceeded { id: self.targets@[self.done as int] })
            } else {
                None
            }),
    {
        if self.done < self.targets.len() {
            Some(ManagerCall::DisableQuotaExceeded { id: self.targets[self.done] })
        } else {
            None
        }
    }

    /// Takes what came of the next credential.
    pub fn step(&mut self, outcome: Result<(), String>)
        requires
            old(self).wf(),
            old(self).done < old(self).targets@.len(),
        ensures
            final(self).wf(),
            final(self).targets == old(self).targets,
            final(self).current_id == old(self).current_id,
            final(self).done == old(self).done + 1,
            match outcome {
                Ok(_) => {
                    let id = old(self).targets@[old(self).done as int];
                    &&& final(self).result.disabled_ids@ == old(self).result.disabled_ids@.push(id)
                    &&& final(self).result.skipped_ids == old(self).result.skipped_ids
                },
                Err(_) => {
                    let id = old(self).targets@[old(self).done as int];
                    &&& final(self).result.disabled_ids == old(self).result.disabled_ids
                    &&& final(self).result.skipped_ids@ == old(self).result.skipped_ids@.push(id)
                },
            },
    {
        let total: usize = self.targets.len();
        let id: u64 = self.targets[self.done];
        proof {
            let n = self.done as int;
            assert(self.targets@.take(n + 1) =~= self.targets@.take(n).push(id));
            self.targets@.take(n).to_multiset_ensures();
            self.result.disabled_ids@.to_multiset_ensures();
            self.result.skipped_ids@.to_multiset_ensures();
            let d = self.result.disabled_ids@;
            let s = self.result.skipped_ids@;
            assert(d.push(id).to_multiset().add(s.to_multiset()) =~= d.to_multiset().add(
                s.to_multiset(),
            ).insert(id));
            assert(d.to_multiset().add(s.push(id).to_multiset()) =~= d.to_multiset().add(
                s.to_multiset(),
            ).insert(id));
            assert(d.push(id)[d.len() as int] == id);
            assert forall|x: u64| d.push(id).contains(x) == (d.contains(x) || x == id) by {
                if d.contains(x) {
                    let k = choose|k: int| 0 <= k < d.len() && d[k] == x;
                    assert(d.push(id)[k] == x);
                }
                if d.push(id).contains(x) && x != id {
                    let k = choose|k: int| 0 <= k < d.push(id).len() && d.push(id)[k] == x;
                    assert(d[k] == x);
                }
            }
        }
        match outcome {
            Ok(_) => {
                self.result.disabled_ids.push(id);
                if id == self.current_id {
                    self.switched_current = true;
                }
            },
            Err(_) => {
                self.result.skipped_ids.push(id);
            },
        }
        self.done = self.done + 1;
    }

    /// What became of the credentials, and whether another credential is to be
    /// used: that is so if the one in use was put out of use.
    pub fn finish(self) -> (r: (QuotaExceededResult, Option<ManagerCall>))
        requires
            self.wf(),
            self.done == self.targets@.len(),
        ensures
            r.0 == self.result,
            r.0.disabled_ids@.to_multiset().add(r.0.skipped_ids@.to_multiset())
                == self.targets@.to_multiset(),
            r.1 == (if r.0.disabled_ids@.contains(self.current_id) {
                Some(ManagerCall::SwitchToNext)
            } else {
                None
            }),
    {
        assert(self.targets@.take(self.done as int) =~= self.targets@);
        let call = if self.switched_current {
            Some(ManagerCall::SwitchToNext)
        } else {
            None
        };
        (self.result, call)
    }
}

/// Whether a run is at its start, with these credentials to be put out of use.
pub open spec fn starts_quota_run(
    run: QuotaRun,
    snapshot: ManagerSnapshot,
    cache: Map<u64, CachedBalance>,
    now: i64,
) -> bool {
    &&& run.targets@ == exceeded_ids(snapshot.entries@, cache, now)
    &&& run.current_id == snapshot.current_id
    &&& run.done == 0
    &&& run.result.disabled_ids@.len() == 0
    &&& run.result.skipped_ids@.len() == 0
}

impl AdminService {
    /// Starts to put the credentials out of use that have used all they may.
    pub fn disable_quota_exceeded_at(&self, snapshot: &ManagerSnapshot, now: i64) -> (r: QuotaRun)
        ensures
            r.wf(),
            starts_quota_run(r, *snapshot, self.balance_cache@, now),
    {
        let mut targets: Vec<u64> = Vec::new();
        let ghost f = |e: CredentialEntry| is_exceeded(e, self.balance_cache@, now);
        let mut i: usize = 0;
        proof {
            reveal(Seq::filter);
            assert(targets@ =~= ids(snapshot.entries@.take(0).filter(f)));
        }
        while i < snapshot.entries.len()
            invariant
                f == (|e: CredentialEntry| is_exceeded(e, self.balance_cache@, now)),
                i <= snapshot.entries@.len(),
                targets@ == ids(snapshot.entries@.take(i as int).filter(f)),
            decreases snapshot.entries@.len() - i,
        {
            let entry = &snapshot.entries[i];
            proof {
                filtered_push(snapshot.entries@, i as int, f);
            }
            if !entry.disabled {
                if let Some(c) = self.balance_cache.get(entry.id, now) {
                    if c.data.exceeded {
                        targets.push(entry.id);
                    }
                }
            }
            i = i + 1;
        }
        assert(snapshot.entries@.take(i as int) =~= snapshot.entries@);
        let r = QuotaRun {
            targets,
            current_id: snapshot.current_id,
            done: 0,
            switched_current: false,
            result: QuotaExceededResult { disabled_ids: Vec::new(), skipped_ids: Vec::new() },
        };
        proof {
            let none = Seq::<u64>::empty();
            none.to_multiset_ensures();
            assert(r.targets@.take(0) =~= none);
            assert(r.result.disabled_ids@ =~= none && r.result.skipped_ids@ =~= none);
            assert(none.to_multiset().add(none.to_multiset()) =~= none.to_multiset());
        }
        r
    }

    /// Starts to put the credentials out of use that have used all they may by
    /// now.
    pub fn disable_quota_exceeded(&self, snapshot: &ManagerSnapshot) -> (r: QuotaRun)
        ensures
            r.wf(),
            exists|now: i64|
                now >= 0 && #[trigger] starts_quota_run(
                    r,
                    *snapshot,
                    self.balance_cache@,
                    now,
                ),
    {
        let now: i64 = utc_now().seconds;
        self.disable_quota_exceeded_at(snapshot, now)
    }
}

/// Asking for the balances of credentials, one after the other.
#[derive(Debug)]
pub struct RefreshRun {
    /// The credentials, in this order.
    pub targets: Vec<u64>,
    /// For how many of them it has succeeded.
    pub success: usize,
    /// For how many of them it has failed.
    pub failure: usize,
}

impl RefreshRun {
    /// How many are done.
    pub open spec fn done(self) -> int {
        self.success + self.failure
    }

    /// Whether no more are done than there are.
    pub open spec fn wf(self) -> bool {
        self.done() <= self.targets@.len()
    }

    /// The next credential to ask for, if there is one left.
    pub fn next_call(&self) -> (r: Option<ManagerCall>)
        requires
            self.wf(),
        ensures
            r == (if self.done() < self.targets@.len() {
                Some(ManagerCall::UsageLimits { id: self.targets@[self.done()] })
            } else {
                None
            }),
    {
        let total: usize = self.targets.len();
        let done: usize = self.success + self.failure;
        if done < total {
            Some(ManagerCall::UsageLimits { id: self.targets[done] })
        } else {
            None
        }
    }

    /// For how many credentials it has succeeded and failed, and whether the
    /// balances are to be stored: that is so if it has succeeded for one.
    pub fn finish(self) -> (r: ((usize, usize), bool))
        requires
            self.wf(),
            self.done() == self.targets@.len(),
        ensures
            r.0.0 == self.success,
            r.0.1 == self.failure,
            r.0.0 + r.0.1 == self.targets@.len(),
            r.1 == (self.success > 0),
    {
        ((self.success, self.failure), self.success > 0)
    }
}

impl AdminService {
    /// Starts to ask for the balances of the credentials that are in use.
    pub fn refresh_all_balances(&self, snapshot: &ManagerSnapshot) -> (r: RefreshRun)
        ensures
            r.wf(),
            r.done() == 0,
            r.targets@ == ids(in_use(snapshot.entries@)),
    {
        let mut targets: Vec<u64> = Vec::new();
        let ghost f = |e: CredentialEntry| !e.disabled;
        let mut i: usize = 0;
        proof {
            reveal(Seq::filter);
            assert(targets@ =~= ids(snapshot.entries@.take(0).filter(f)));
        }
        while i < snapshot.entries.len()
            invariant
                f == (|e: CredentialEntry| !e.disabled),
                i <= snapshot.entries@.len(),
                targets@ == ids(snapshot.entries@.take(i as int).filter(f)),
            decreases snapshot.entries@.len() - i,
        {
            proof {
                filtered_push(snapshot.entries@, i as int, f);
            }
            if !snapshot.entries[i].disabled {
                targets.push(snapshot.entries[i].id);
            }
            i = i + 1;
        }
        assert(snapshot.entries@.take(i as int) =~= snapshot.entries@);
        RefreshRun { targets, success: 0, failure: 0 }
    }

    /// Takes what the upstream has answered for the next credential. A failure
    /// leaves the balance that is known.
    pub fn refresh_step_at(
        &mut self,
        run: &mut RefreshRun,
        answer: Result<UsageLimits, String>,
        now: i64,
    )
        requires
            old(run).wf(),
            old(run).done() < old(run).targets@.len(),
        ensures
            final(run).wf(),
            final(run).targets == old(run).targets,
            match answer {
                Ok(usage) => {
                    let id = old(run).targets@[old(run).done()];
                    &&& final(run).success == old(run).success + 1
                    &&& final(run).failure == old(run).failure
                    &&& final(self).balance_cache@ == learned(
                        old(self).balance_cache@,
                        id,
                        balance_of(id, usage),
                        now,
                    )
                    &&& *final(self) == old(self).with_balances(*final(self))
                },
                Err(_) => {
                    &&& final(run).success == old(run).success
                    &&& final(run).failure == old(run).failure + 1
                    &&& *final(self) == *old(self)
                },
            },
    {
        let total: usize = run.targets.len();
        let done: usize = run.success + run.failure;
        let id: u64 = run.targets[done];
        match self.get_balance_done_at(id, answer, now) {
            Ok(_) => {
                run.success = run.success + 1;
            },
            Err(_) => {
                run.failure = run.failure + 1;
            },
        }
    }

    /// Takes what the upstream has answered now for the next credential.
    pub fn refresh_step(&mut self, run: &mut RefreshRun, answer: Result<UsageLimits, String>)
        requires
            old(run).wf(),
            old(run).done() < old(run).targets@.len(),
        ensures
            final(run).wf(),
            final(run).targets == old(run).targets,
            match answer {
                Ok(usage) => {
                    let id = old(run).targets@[old(run).done()];
                    &&& final(run).success == old(run).success + 1
                    &&& final(run).failure == old(run).failure
                    &&& exists|now: i64|
                        now >= 0 && final(self).balance_cache@ == #[trigger] learned(
                            old(self).balance_cache@,
                            id,
                            balance_of(id, usage),
                            now,
                        )
                    &&& *final(self) == old(self).with_balances(*final(self))
                },
                Err(_) => {
                    &&& final(run).success == old(run).success
                    &&& final(run).failure == old(run).failure + 1
                    &&& *final(self) == *old(self)
                },
            },
    {
        let now: i64 = utc_now().seconds;
        self.refresh_step_at(run, answer, now)
    }
}

/// Whether a credential is left as it is when all are allowed to use more than
/// their limit: it is out of use, or it is known that it cannot or that it does
/// already. Where nothing is known it is tried.
pub open spec fn leaves_overage(
    entry: CredentialEntry,
    cache: Map<u64, CachedBalance>,
    now: i64,
) -> bool {
    entry.disabled || (usable(cache, entry.id, now) matches Some(c) && (c.data.overage_capable
        == Some(false) || c.data.overage_enabled == Some(true)))
}

/// The credentials that are allowed to use more than their limit.
pub open spec fn overage_targets(
    entries: Seq<CredentialEntry>,
    cache: Map<u64, CachedBalance>,
    now: i64,
) -> Seq<u64> {
    ids(entries.filter(|e: CredentialEntry| !leaves_overage(e, cache, now)))
}

/// The credentials that are left as they are.
pub open spec fn overage_skipped(
    entries: Seq<CredentialEntry>,
    cache: Map<u64, CachedBalance>,
    now: i64,
) -> Seq<u64> {
    ids(entries.filter(|e: CredentialEntry| leaves_overage(e, cache, now)))
}

/// Allowing credentials to use more than their limit, one after the other.
#[derive(Debug)]
pub struct OverageRun {
    /// The credentials, in this order.
    pub targets: Vec<u64>,
    /// How many are done.
    pub done: usize,
    /// What became of those that are done.
    pub result: EnableOverageAllResult,
}

impl OverageRun {
    /// Whether every credential that is done is accounted for, once, and every
    /// failure has its message.
    pub open spec fn wf(self) -> bool {
        &&& self.done <= self.targets@.len()
        &&& self.result.enabled_ids@.to_multiset().add(self.result.failed_ids@.to_multiset())
            == self.targets@.take(self.done as int).to_multiset()
        &&& self.result.failed_ids@.len() == self.result.failure_messages@.len()
    }

    /// The next credential to be allowed more, if there is one left.
    pub fn next_call(&self) -> (r: Option<ManagerCall>)
        ensures
            if self.done < self.targets@.len() {
                r matches Some(call) && is_preference(
                    call,
                    self.targets@[self.done as int],
                    "ENABLED"@,
                )
            } else {
                r is None
            },
    {
        if self.done < self.targets.len() {
            Some(
                ManagerCall::SetUserPreference {
                    id: self.targets[self.done],
                    status: "ENABLED".to_string(),
                },
            )
        } else {
            None
        }
    }

    /// What became of the credentials, and whether the balances are to be
    /// stored: that is so if one was allowed more.
    pub fn finish(self) -> (r: (EnableOverageAllResult, bool))
        requires
            self.wf(),
            self.done == self.targets@.len(),
        ensures
            r.0 == self.result,
            r.0.enabled_ids@.to_multiset().add(r.0.failed_ids@.to_multiset())
                == self.targets@.to_multiset(),
            r.0.failed_ids@.len() == r.0.failure_messages@.len(),
            r.1 == (self.result.enabled_ids@.len() > 0),
    {
        assert(self.targets@.take(self.done as int) =~= self.targets@);
        let store = self.result.enabled_ids.len() > 0;
        (self.result, store)
    }
}

/// Whether the upstream is told this of a credential.
pub open spec fn is_preference(call: ManagerCall, id: u64, status: Seq<char>) -> bool {
    call matches ManagerCall::SetUserPreference { id: i, status: s } && i == id && s@ == status
}

/// Whether a run is at its start, with these credentials to be allowed more.
pub open spec fn starts_overage_run(
    run: OverageRun,
    entries: Seq<CredentialEntry>,
    cache: Map<u64, CachedBalance>,
    now: i64,
) -> bool {
    &&& run.targets@ == overage_targets(entries, cache, now)
    &&& run.done == 0
    &&& run.result.skipped_ids@ == overage_skipped(entries, cache, now)
    &&& run.result.enabled_ids@.len() == 0
    &&& run.result.failed_ids@.len() == 0
    &&& run.result.failure_messages@.len() == 0
}

impl AdminService {
    /// Starts to allow all credentials to use more than their limit that can and
    /// do not do so yet.
    pub fn enable_overage_for_all_capable_at(&self, snapshot: &ManagerSnapshot, now: i64) -> (r:
        OverageRun)
        ensures
            r.wf(),
            starts_overage_run(r, snapshot.entries@, self.balance_cache@, now),
    {
        let mut targets: Vec<u64> = Vec::new();
        let mut skipped: Vec<u64> = Vec::new();
        let ghost f = |e: CredentialEntry| !leaves_overage(e, self.balance_cache@, now);
        let ghost g = |e: CredentialEntry| leaves_overage(e, self.balance_cache@, now);
        let mut i: usize = 0;
        proof {
            reveal(Seq::filter);
            assert(targets@ =~= ids(snapshot.entries@.take(0).filter(f)));
            assert(skipped@ =~= ids(snapshot.entries@.take(0).filter(g)));
        }
        while i < snapshot.entries.len()
            invariant
                f == (|e: CredentialEntry| !leaves_overage(e, self.balance_cache@, now)),
                g == (|e: CredentialEntry| leaves_overage(e, self.balance_cache@, now)),
                i <= snapshot.entries@.len(),
                targets@ == ids(snapshot.entries@.take(i as int).filter(f)),
                skipped@ == ids(snapshot.entries@.take(i as int).filter(g)),
            decreases snapshot.entries@.len() - i,
        {
            let entry = &snapshot.entries[i];
            proof {
                filtered_push(snapshot.entries@, i as int, f);
                filtered_push(snapshot.entries@, i as int, g);
            }
            let leave = if entry.disabled {
                true
            } else {
                match self.balance_cache.get(entry.id, now) {
                    Some(c) => match (c.data.overage_capable, c.data.overage_enabled) {
                        (Some(false), _) => true,
                        (_, Some(true)) => true,
                        _ => false,
                    },
                    None => false,
                }
            };
            assert(leave == leaves_overage(snapshot.entries@[i as int], self.balance_cache@, now));
            if leave {
                skipped.push(entry.id);
            } else {
                targets.push(entry.id);
            }
            i = i + 1;
        }
        assert(snapshot.entries@.take(i as int) =~= snapshot.entries@);
        let r = OverageRun {
            targets,
            done: 0,
            result: EnableOverageAllResult {
                enabled_ids: Vec::new(),
                skipped_ids: skipped,
                failed_ids: Vec::new(),
                failure_messages: Vec::new(),
            },
        };
        proof {
            let none = Seq::<u64>::empty();
            none.to_multiset_ensures();
            assert(r.targets@.take(0) =~= none);
            assert(r.result.enabled_ids@ =~= none && r.result.failed_ids@ =~= none);
            assert(none.to_multiset().add(none.to_multiset()) =~= none.to_multiset());
        }
        r
    }

    /// Starts to allow all credentials to use more than their limit that can and
    /// do not do so by now.
    pub fn enable_overage_for_all_capable(&self, snapshot: &ManagerSnapshot) -> (r: OverageRun)
        ensures
            r.wf(),
            exists|now: i64|
                now >= 0 && #[trigger] starts_overage_run(
                    r,
                    snapshot.entries@,
                    self.balance_cache@,
                    now,
                ),
    {
        let now: i64 = utc_now().seconds;
        self.enable_overage_for_all_capable_at(snapshot, now)
    }

    /// Takes what came of the next credential. If it was allowed more its balance
    /// is forgotten, because it is out of date.
    pub fn overage_step(&mut self, run: &mut OverageRun, outcome: Result<(), String>)
        requires
            old(run).wf(),
            old(run).done < old(run).targets@.len(),
        ensures
            final(run).wf(),
            final(run).targets == old(run).targets,
            final(run).done == old(run).done + 1,
            final(run).result.skipped_ids == old(run).result.skipped_ids,
            match outcome {
                Ok(_) => {
                    let id = old(run).targets@[old(run).done as int];
                    &&& final(run).result.enabled_ids@ == old(run).result.enabled_ids@.push(id)
                    &&& final(run).result.failed_ids == old(run).result.failed_ids
                    &&& final(run).result.failure_messages == old(run).result.failure_messages
                    &&& final(self).balance_cache@ == old(self).balance_cache@.remove(id)
                    &&& *final(self) == old(self).with_balances(*final(self))
                },
                Err(e) => {
                    let id = old(run).targets@[old(run).done as int];
                    &&& final(run).result.enabled_ids == old(run).result.enabled_ids
                    &&& final(run).result.failed_ids@ == old(run).result.failed_ids@.push(id)
                    &&& final(run).result.failure_messages@
                        == old(run).result.failure_messages@.push(e)
                    &&& *final(self) == *old(self)
                },
            },
    {
        let total: usize = run.targets.len();
        let id: u64 = run.targets[run.done];
        proof {
            let n = run.done as int;
            assert(run.targets@.take(n + 1) =~= run.targets@.take(n).push(id));
            run.targets@.take(n).to_multiset_ensures();
            run.result.enabled_ids@.to_multiset_ensures();
            run.result.failed_ids@.to_multiset_ensures();
            let d = run.result.enabled_ids@;
            let s = run.result.failed_ids@;
            assert(d.push(id).to_multiset().add(s.to_multiset()) =~= d.to_multiset().add(
                s.to_multiset(),
            ).insert(id));
            assert(d.to_multiset().add(s.push(id).to_multiset()) =~= d.to_multiset().add(
                s.to_multiset(),
            ).insert(id));
        }
        match outcome {
            Ok(_) => {
                run.result.enabled_ids.push(id);
                self.balance_cache.remove(id);
            },
            Err(e) => {
                run.result.failed_ids.push(id);
                run.result.failure_messages.push(e);
            },
        }
        run.done = run.done + 1;
    }

    /// What the upstream is told so that a credential may use more than its
    /// limit, or may no longer.
    pub fn set_overage(&self, id: u64, enabled: bool) -> (r: ManagerCall)
        ensures
            is_preference(
                r,
                id,
                if enabled {
                    "ENABLED"@
                } else {
                    "DISABLED"@
                },
            ),
    {
        let status = if enabled {
            "ENABLED".to_string()
        } else {
            "DISABLED".to_string()
        };
        ManagerCall::SetUserPreference { id, status }
    }

    /// Takes what came of telling the upstream. After a success the balance is
    /// forgotten, because it is out of date, the balances are to be stored and
    /// the upstream is to be asked again; after a failure nothing has changed.
    pub fn set_overage_done(&mut self, id: u64, outcome: Result<(), String>) -> (r: Result<
        ManagerCall,
        AdminServiceError,
    >)
        ensures
            match outcome {
                Ok(_) => {
                    &&& r == Ok::<ManagerCall, AdminServiceError>(ManagerCall::UsageLimits { id })
                    &&& final(self).balance_cache@ == old(self).balance_cache@.remove(id)
                    &&& *final(self) == old(self).with_balances(*final(self))
                },
                Err(e) => {
                    &&& r matches Err(f) && f@ == balance_failure(e@, id)
                    &&& *final(self) == *old(self)
                },
            },
    {
        match outcome {
            Ok(_) => {
                self.balance_cache.remove(id);
                Ok(ManagerCall::UsageLimits { id })
            },
            Err(e) => Err(classify_balance_error(e, id)),
        }
    }
}

/// Every credential is either allowed more or left as it is, and none is both.
pub proof fn overage_parts_all_credentials(
    entries: Seq<CredentialEntry>,
    cache: Map<u64, CachedBalance>,
    now: i64,
)
    ensures
        overage_targets(entries, cache, now).to_multiset().add(
            overage_skipped(entries, cache, now).to_multiset(),
        ) == ids(entries).to_multiset(),
    decreases entries.len(),
{
    let f = |e: CredentialEntry| !leaves_overage(e, cache, now);
    let g = |e: CredentialEntry| leaves_overage(e, cache, now);
    if entries.len() == 0 {
        reveal(Seq::filter);
        let none = Seq::<u64>::empty();
        none.to_multiset_ensures();
        assert(ids(entries) =~= none);
        assert(ids(entries.filter(f)) =~= none);
        assert(ids(entries.filter(g)) =~= none);
        assert(none.to_multiset().add(none.to_multiset()) =~= none.to_multiset());
    } else {
        let rest = entries.drop_last();
        let n = entries.len() - 1;
        let id = entries[n].id;
        overage_parts_all_credentials(rest, cache, now);
        assert(entries.take(n) =~= rest);
        assert(entries.take(n + 1) =~= entries);
        filtered_push(entries, n, f);
        filtered_push(entries, n, g);
        assert(ids(entries) =~= ids(rest).push(id));
        let t = ids(rest.filter(f));
        let s = ids(rest.filter(g));
        t.to_multiset_ensures();
        s.to_multiset_ensures();
        ids(rest).to_multiset_ensures();
        assert(t.push(id).to_multiset().add(s.to_multiset()) =~= t.to_multiset().add(
            s.to_multiset(),
        ).insert(id));
        assert(t.to_multiset().add(s.push(id).to_multiset()) =~= t.to_multiset().add(
            s.to_multiset(),
        ).insert(id));
    }
}

/// A credential that is out of use is neither put out of use again nor allowed
/// more.
pub proof fn unused_credentials_are_left_alone(
    entry: CredentialEntry,
    cache: Map<u64, CachedBalance>,
    now: i64,
)
    requires
        entry.disabled,
    ensures
        !is_exceeded(entry, cache, now),
        leaves_overage(entry, cache, now),
{
}

/// A balance that is not known, or is out of date, never puts a credential out
/// of use.
pub proof fn unknown_balance_disables_nothing(
    entry: CredentialEntry,
    cache: Map<u64, CachedBalance>,
    now: i64,
)
    requires
        usable(cache, entry.id, now) is None,
    ensures
        !is_exceeded(entry, cache, now),
        leaves_overage(entry, cache, now) == entry.disabled,
{
}

/// Once a balance is forgotten, the next question for it goes to the upstream;
/// questions for others do not change.
pub proof fn forgotten_balance_is_asked_for(
    cache: Map<u64, CachedBalance>,
    id: u64,
    other: u64,
    now: i64,
)
    requires
        other != id,
    ensures
        balance_answer(cache.remove(id), id, now) == BalanceAnswer::Ask(
            ManagerCall::UsageLimits { id },
        ),
        balance_answer(cache.remove(id), other, now) == balance_answer(cache, other, now),
{
}

/// Once a balance is learned, a question for it within the time to live is
/// answered without the upstream.
pub proof fn learned_balance_is_answered(
    cache: Map<u64, CachedBalance>,
    id: u64,
    balance: BalanceResponse,
    then: i64,
    now: i64,
)
    requires
        now - then < 300,
    ensures
        balance_answer(learned(cache, id, balance, then), id, now) == BalanceAnswer::Known(balance),
{
}

/// A credential is put out of use because of its quota exactly if it is in use, its
/// balance was learned less than five minutes ago, and that balance says that all was
/// used; nothing else of the balance or of the credential counts.
pub proof fn the_exceeded_are_put_out_of_use(
    service: AdminService,
    snapshot: ManagerSnapshot,
    now: i64,
    run: QuotaRun,
    id: u64,
)
    requires
        call_ensures(AdminService::disable_quota_exceeded_at, (&service, &snapshot, now), run),
    ensures
        run.targets@.contains(id) <==> exists|i: int|
            0 <= i < snapshot.entries@.len() && (#[trigger] snapshot.entries@[i]).id == id
                && !snapshot.entries@[i].disabled && service.balance_cache@.dom().contains(id)
                && now - service.balance_cache@[id].cached_at < 300
                && service.balance_cache@[id].data.exceeded,
        run.current_id == snapshot.current_id,
        run.done == 0,
        run.result.disabled_ids@.len() == 0 && run.result.skipped_ids@.len() == 0,
{
    quota_targets(snapshot.entries@, service.balance_cache@, now, id);
}

/// The same holds at the moment of the call, for all credentials at once.
pub proof fn the_exceeded_are_put_out_of_use_now(
    service: AdminService,
    snapshot: ManagerSnapshot,
    run: QuotaRun,
)
    requires
        call_ensures(AdminService::disable_quota_exceeded, (&service, &snapshot), run),
    ensures
        exists|now: i64| #![trigger exceeded_ids(snapshot.entries@, service.balance_cache@, now)]
            now >= 0 && forall|id: u64| #[trigger]
                run.targets@.contains(id) <==> exists|i: int|
                    0 <= i < snapshot.entries@.len() && (#[trigger] snapshot.entries@[i]).id == id
                        && !snapshot.entries@[i].disabled
                        && service.balance_cache@.dom().contains(id) && now
                        - service.balance_cache@[id].cached_at < 300
                        && service.balance_cache@[id].data.exceeded,
        run.current_id == snapshot.current_id,
        run.done == 0,
        run.result.disabled_ids@.len() == 0 && run.result.skipped_ids@.len() == 0,
{
    let cache = service.balance_cache@;
    let now = choose|now: i64| now >= 0 && #[trigger] starts_quota_run(run, snapshot, cache, now);
    assert forall|id: u64| #[trigger]
        run.targets@.contains(id) <==> exists|i: int|
            0 <= i < snapshot.entries@.len() && (#[trigger] snapshot.entries@[i]).id == id
                && !snapshot.entries@[i].disabled && cache.dom().contains(id) && now
                - cache[id].cached_at < 300 && cache[id].data.exceeded by {
        quota_targets(snapshot.entries@, cache, now, id);
    }
    assert(run.targets@ == exceeded_ids(snapshot.entries@, cache, now));
}

proof fn quota_targets(
    entries: Seq<CredentialEntry>,
    cache: Map<u64, CachedBalance>,
    now: i64,
    id: u64,
)
    ensures
        exceeded_ids(entries, cache, now).contains(id) <==> exists|i: int|
            0 <= i < entries.len() && (#[trigger] entries[i]).id == id && !entries[i].disabled
                && cache.dom().contains(id) && now - cache[id].cached_at < 300
                && cache[id].data.exceeded,
{
    let f = |e: CredentialEntry| is_exceeded(e, cache, now);
    filter_keeps_what_passes(entries, f, id);
    if exceeded_ids(entries, cache, now).contains(id) {
        let i = choose|i: int|
            0 <= i < entries.len() && (#[trigger] entries[i]).id == id && f(entries[i]);
        assert(is_exceeded(entries[i], cache, now));
        assert(entries[i].id == id);
    }
    if exists|i: int|
        0 <= i < entries.len() && (#[trigger] entries[i]).id == id && !entries[i].disabled
            && cache.dom().contains(id) && now - cache[id].cached_at < 300
            && cache[id].data.exceeded {
        let i = choose|i: int|
            0 <= i < entries.len() && (#[trigger] entries[i]).id == id && !entries[i].disabled
                && cache.dom().contains(id) && now - cache[id].cached_at < 300
                && cache[id].data.exceeded;
        assert(f(entries[i]));
    }
}

/// A credential is allowed more than its limit exactly if it is in use and nothing
/// that was learned less than five minutes ago says that it cannot or that it is
/// already; all others are left as they are.
pub proof fn the_capable_are_allowed_more(
    service: AdminService,
    snapshot: ManagerSnapshot,
    now: i64,
    run: OverageRun,
    id: u64,
)
    requires
        call_ensures(
            AdminService::enable_overage_for_all_capable_at,
            (&service, &snapshot, now),
            run,
        ),
    ensures
        run.targets@.contains(id) <==> exists|i: int|
            0 <= i < snapshot.entries@.len() && (#[trigger] snapshot.entries@[i]).id == id
                && !snapshot.entries@[i].disabled && !(service.balance_cache@.dom().contains(id)
                && now - service.balance_cache@[id].cached_at < 300 && (
            service.balance_cache@[id].data.overage_capable == Some(false)
                || service.balance_cache@[id].data.overage_enabled == Some(true))),
        run.result.skipped_ids@.contains(id) <==> exists|i: int|
            0 <= i < snapshot.entries@.len() && (#[trigger] snapshot.entries@[i]).id == id && (
            snapshot.entries@[i].disabled || (service.balance_cache@.dom().contains(id) && now
                - service.balance_cache@[id].cached_at < 300 && (
            service.balance_cache@[id].data.overage_capable == Some(false)
                || service.balance_cache@[id].data.overage_enabled == Some(true)))),
        run.targets@.len() + run.result.skipped_ids@.len() == snapshot.entries@.len(),
        run.done == 0,
        run.result.enabled_ids@.len() == 0 && run.result.failed_ids@.len() == 0,
{
    let cache = service.balance_cache@;
    let entries = snapshot.entries@;
    let f = |e: CredentialEntry| !leaves_overage(e, cache, now);
    let g = |e: CredentialEntry| leaves_overage(e, cache, now);
    filter_keeps_what_passes(entries, f, id);
    filter_keeps_what_passes(entries, g, id);
    overage_parts_all_credentials(entries, cache, now);
    ids(entries).to_multiset_ensures();
    run.targets@.to_multiset_ensures();
    run.result.skipped_ids@.to_multiset_ensures();
    assert(run.targets@.to_multiset().add(run.result.skipped_ids@.to_multiset()).len()
        == run.targets@.len() + run.result.skipped_ids@.len());
    if run.targets@.contains(id) {
        let i = choose|i: int|
            0 <= i < entries.len() && (#[trigger] entries[i]).id == id && f(entries[i]);
        assert(!leaves_overage(entries[i], cache, now));
    }
    if run.result.skipped_ids@.contains(id) {
        let i = choose|i: int|
            0 <= i < entries.len() && (#[trigger] entries[i]).id == id && g(entries[i]);
        assert(leaves_overage(entries[i], cache, now));
    }
    assert forall|i: int| 0 <= i < entries.len() && (#[trigger] entries[i]).id == id implies f(
        entries[i],
    ) == !g(entries[i]) by {}
}

/// The balances are asked for of every credential that is in use, and of no other.
pub proof fn the_balances_in_use_are_asked_for(
    service: AdminService,
    snapshot: ManagerSnapshot,
    run: RefreshRun,
    id: u64,
)
    requires
        call_ensures(AdminService::refresh_all_balances, (&service, &snapshot), run),
    ensures
        run.targets@.contains(id) <==> exists|i: int|
            0 <= i < snapshot.entries@.len() && (#[trigger] snapshot.entries@[i]).id == id
                && !snapshot.entries@[i].disabled,
        run.success == 0 && run.failure == 0,
{
    let f = |e: CredentialEntry| !e.disabled;
    filter_keeps_what_passes(snapshot.entries@, f, id);
    assert forall|i: int|
        0 <= i < snapshot.entries@.len() && (#[trigger] snapshot.entries@[i]).id == id implies f(
        snapshot.entries@[i],
    ) == !snapshot.entries@[i].disabled by {}
}

proof fn filter_keeps_what_passes(
    entries: Seq<CredentialEntry>,
    f: spec_fn(CredentialEntry) -> bool,
    id: u64,
)
    ensures
        ids(entries.filter(f)).contains(id) <==> exists|i: int|
            0 <= i < entries.len() && (#[trigger] entries[i]).id == id && f(entries[i]),
    decreases entries.len(),
{
    reveal(Seq::filter);
    if entries.len() == 0 {
        assert(ids(entries.filter(f)).len() == 0);
    } else {
        let rest = entries.drop_last();
        let n = entries.len() - 1;
        filter_keeps_what_passes(rest, f, id);
        assert(entries.take(n) =~= rest);
        assert(entries.take(n + 1) =~= entries);
        filtered_push(entries, n, f);
        let old_ids = ids(rest.filter(f));
        let new_ids = ids(entries.filter(f));
        if new_ids.contains(id) {
            let k = choose|k: int| 0 <= k < new_ids.len() && new_ids[k] == id;
            if f(entries[n]) && k == old_ids.len() {
                assert(entries[n].id == id && f(entries[n]));
            } else {
                assert(old_ids[k] == id);
                let i = choose|i: int|
                    0 <= i < rest.len() && (#[trigger] rest[i]).id == id && f(rest[i]);
                assert(entries[i] == rest[i]);
            }
        }
        if exists|i: int| 0 <= i < entries.len() && (#[trigger] entries[i]).id == id && f(entries[i]) {
            let i = choose|i: int|
                0 <= i < entries.len() && (#[trigger] entries[i]).id == id && f(entries[i]);
            if i == n {
                assert(new_ids[old_ids.len() as int] == id);
            } else {
                assert(rest[i] == entries[i]);
                assert(old_ids.contains(id));
                let k = choose|k: int| 0 <= k < old_ids.len() && old_ids[k] == id;
                assert(new_ids[k] == id);
            }
        }
    }
}

/// The credentials are taken in the order in which they are kept, each as often as it
/// is kept: what is found in two parts of the list is found in the one and then in the
/// other, and of a single credential it is the credential or nothing.
pub proof fn credentials_are_taken_in_order(
    one: Seq<CredentialEntry>,
    other: Seq<CredentialEntry>,
    entry: CredentialEntry,
    cache: Map<u64, CachedBalance>,
    now: i64,
)
    ensures
        exceeded_ids(one + other, cache, now) == exceeded_ids(one, cache, now) + exceeded_ids(
            other,
            cache,
            now,
        ),
        overage_targets(one + other, cache, now) == overage_targets(one, cache, now)
            + overage_targets(other, cache, now),
        overage_skipped(one + other, cache, now) == overage_skipped(one, cache, now)
            + overage_skipped(other, cache, now),
        ids(in_use(one + other)) == ids(in_use(one)) + ids(in_use(other)),
        exceeded_ids(seq![entry], cache, now).len() <= 1,
        overage_targets(seq![entry], cache, now).len() + overage_skipped(
            seq![entry],
            cache,
            now,
        ).len() == 1,
        ids(in_use(seq![entry])) == (if entry.disabled {
            Seq::<u64>::empty()
        } else {
            seq![entry.id]
        }),
{
    let f = |e: CredentialEntry| is_exceeded(e, cache, now);
    let g = |e: CredentialEntry| !leaves_overage(e, cache, now);
    let h = |e: CredentialEntry| leaves_overage(e, cache, now);
    let u = |e: CredentialEntry| !e.disabled;
    parts_are_filtered(one, other, f);
    parts_are_filtered(one, other, g);
    parts_are_filtered(one, other, h);
    parts_are_filtered(one, other, u);
    single_is_filtered(entry, f);
    single_is_filtered(entry, g);
    single_is_filtered(entry, h);
    single_is_filtered(entry, u);
}

proof fn parts_are_filtered(
    one: Seq<CredentialEntry>,
    other: Seq<CredentialEntry>,
    f: spec_fn(CredentialEntry) -> bool,
)
    ensures
        ids((one + other).filter(f)) == ids(one.filter(f)) + ids(other.filter(f)),
{
    Seq::filter_distributes_over_add(one, other, f);
    assert(ids(one.filter(f) + other.filter(f)) =~= ids(one.filter(f)) + ids(other.filter(f)));
}

proof fn single_is_filtered(entry: CredentialEntry, f: spec_fn(CredentialEntry) -> bool)
    ensures
        ids(seq![entry].filter(f)) == (if f(entry) {
            seq![entry.id]
        } else {
            Seq::<u64>::empty()
        }),
{
    let one = seq![entry];
    reveal(Seq::filter);
    assert(one.take(1) =~= one);
    assert(one.take(0) =~= Seq::empty());
    filtered_push(one, 0, f);
    assert(ids(one.take(0).filter(f)) =~= Seq::<u64>::empty());
    assert(Seq::<u64>::empty().push(entry.id) =~= seq![entry.id]);
}

/// Each credential of a run is put out of use in its turn; another credential is used
/// afterwards exactly if the one in use was among those that were put out of use.
pub proof fn a_quota_run_takes_each_in_turn(
    run: QuotaRun,
    call: Option<ManagerCall>,
    done: QuotaRun,
    failed: QuotaRun,
    message: String,
    finished: (QuotaExceededResult, Option<ManagerCall>),
)
    requires
        call_ensures(QuotaRun::next_call, (&run,), call),
        run.wf() && run.done < run.targets@.len(),
        exists|q: &mut QuotaRun| #[trigger]
            call_ensures(QuotaRun::step, (q, Ok(())), ()) && *q == run && *final(q) == done,
        exists|q: &mut QuotaRun| #[trigger]
            call_ensures(QuotaRun::step, (q, Err(message)), ()) && *q == run && *final(q) == failed,
        done.done == done.targets@.len() ==> call_ensures(QuotaRun::finish, (done,), finished),
    ensures
        ({
            let id = run.targets@[run.done as int];
            &&& call == Some(ManagerCall::DisableQuotaExceeded { id })
            &&& done.done == run.done + 1 && failed.done == run.done + 1
            &&& done.targets == run.targets && failed.targets == run.targets
            &&& done.result.disabled_ids@ == run.result.disabled_ids@.push(id)
            &&& done.result.skipped_ids@ == run.result.skipped_ids@
            &&& failed.result.disabled_ids@ == run.result.disabled_ids@
            &&& failed.result.skipped_ids@ == run.result.skipped_ids@.push(id)
            &&& done.done == done.targets@.len() ==> {
                &&& finished.0 == done.result
                &&& finished.1 == (if done.result.disabled_ids@.contains(run.current_id) {
                    Some(ManagerCall::SwitchToNext)
                } else {
                    None
                })
            }
            &&& done.done == done.targets@.len() && run.current_id == id ==> finished.1 == Some(
                ManagerCall::SwitchToNext,
            )
        }),
{
    let id = run.targets@[run.done as int];
    assert(done.result.disabled_ids@[run.result.disabled_ids@.len() as int] == id);
}

/// Each credential of a run is allowed more in its turn. A success forgets its balance,
/// and no other; a failure is told with its message and changes no balance.
pub proof fn an_overage_run_takes_each_in_turn(
    run: OverageRun,
    call: Option<ManagerCall>,
    before: AdminService,
    done: OverageRun,
    allowed: AdminService,
    failed: OverageRun,
    refused: AdminService,
    message: String,
)
    requires
        call_ensures(OverageRun::next_call, (&run,), call),
        run.wf() && run.done < run.targets@.len(),
        exists|s: &mut AdminService, q: &mut OverageRun| #[trigger]
            call_ensures(AdminService::overage_step, (s, q, Ok(())), ()) && *s == before
                && *final(s) == allowed && *q == run && *final(q) == done,
        exists|s: &mut AdminService, q: &mut OverageRun| #[trigger]
            call_ensures(AdminService::overage_step, (s, q, Err(message)), ()) && *s == before
                && *final(s) == refused && *q == run && *final(q) == failed,
    ensures
        ({
            let id = run.targets@[run.done as int];
            &&& call matches Some(ManagerCall::SetUserPreference { id: i, status }) && i == id
                && status@ == "ENABLED"@
            &&& done.done == run.done + 1 && failed.done == run.done + 1
            &&& done.targets == run.targets && failed.targets == run.targets
            &&& done.result.enabled_ids@ == run.result.enabled_ids@.push(id)
            &&& done.result.failed_ids@ == run.result.failed_ids@
            &&& done.result.skipped_ids@ == run.result.skipped_ids@
            &&& failed.result.enabled_ids@ == run.result.enabled_ids@
            &&& failed.result.failed_ids@ == run.result.failed_ids@.push(id)
            &&& failed.result.failure_messages@ == run.result.failure_messages@.push(message)
            &&& failed.result.skipped_ids@ == run.result.skipped_ids@
            &&& allowed.balance_cache@ == before.balance_cache@.remove(id)
            &&& refused == before
        }),
{
}

/// A run that is done tells how many there were of each kind, and whether there is
/// anything new to store.
pub proof fn a_run_that_is_done_tells_its_result(
    refresh: RefreshRun,
    counted: ((usize, usize), bool),
    overage: OverageRun,
    told: (EnableOverageAllResult, bool),
    next: Option<ManagerCall>,
    asked: Option<ManagerCall>,
)
    requires
        refresh.wf() && refresh.done() == refresh.targets@.len(),
        call_ensures(RefreshRun::finish, (refresh,), counted),
        overage.wf() && overage.done == overage.targets@.len(),
        call_ensures(OverageRun::finish, (overage,), told),
        call_ensures(OverageRun::next_call, (&overage,), next),
        call_ensures(RefreshRun::next_call, (&refresh,), asked),
    ensures
        counted.0.0 == refresh.success && counted.0.1 == refresh.failure,
        counted.0.0 + counted.0.1 == refresh.targets@.len(),
        counted.1 == (refresh.success > 0),
        told.0 == overage.result,
        told.1 == (overage.result.enabled_ids@.len() > 0),
        next is None && asked is None,
{
}

/// What the upstream says of a credential is learned under that credential, as it was
/// said, and is told from then on for five minutes; a failure leaves what is known.
pub proof fn a_balance_is_told_as_it_was_learned(
    before: AdminService,
    after: AdminService,
    failed: AdminService,
    id: u64,
    usage: UsageLimits,
    message: String,
    then: i64,
    now: i64,
    first: Result<BalanceResponse, AdminServiceError>,
    error: Result<BalanceResponse, AdminServiceError>,
    r: BalanceAnswer,
)
    requires
        exists|s: &mut AdminService| #[trigger]
            call_ensures(AdminService::get_balance_done_at, (s, id, Ok(usage), then), first) && *s
                == before && *final(s) == after,
        exists|s: &mut AdminService| #[trigger]
            call_ensures(AdminService::get_balance_done_at, (s, id, Err(message), then), error)
                && *s == before && *final(s) == failed,
        call_ensures(AdminService::get_balance_at, (&after, id, now), r),
    ensures
        first matches Ok(b) && {
            &&& b.id == id
            &&& b.subscription_title == usage.subscription_title
            &&& b.current_usage == usage.current_usage
            &&& b.usage_limit == usage.usage_limit
            &&& b.remaining == usage.remaining
            &&& b.usage_percentage == usage.usage_percentage
            &&& b.exceeded == usage.exceeded
            &&& b.next_reset_at == usage.next_date_reset
            &&& b.overage_enabled == usage.overage_enabled
            &&& b.overage_capable == usage.overage_capable
            &&& b.overage_capability_raw == usage.overage_capability
            &&& now - then < 300 ==> r == BalanceAnswer::Known(b)
        },
        now - then >= 300 ==> r == BalanceAnswer::Ask(ManagerCall::UsageLimits { id }),
        forall|other: u64|
            other != id ==> (#[trigger] after.balance_cache@.dom().contains(other)
                <==> before.balance_cache@.dom().contains(other)) && after.balance_cache@[other]
                == before.balance_cache@[other],
        error is Err,
        failed == before,
        after.update_config == before.update_config,
        after.idc_sessions == before.idc_sessions,
        after.social_sessions == before.social_sessions,
{
}

/// A run that asks for balances learns the answer for the credential whose turn it is,
/// and counts it.
pub proof fn a_refresh_run_takes_each_in_turn(
    run: RefreshRun,
    call: Option<ManagerCall>,
    before: AdminService,
    done: RefreshRun,
    after: AdminService,
    failed: RefreshRun,
    refused: AdminService,
    usage: UsageLimits,
    message: String,
    now: i64,
)
    requires
        call_ensures(RefreshRun::next_call, (&run,), call),
        run.wf() && run.done() < run.targets@.len(),
        exists|s: &mut AdminService, q: &mut RefreshRun| #[trigger]
            call_ensures(AdminService::refresh_step_at, (s, q, Ok(usage), now), ()) && *s == before
                && *final(s) == after && *q == run && *final(q) == done,
        exists|s: &mut AdminService, q: &mut RefreshRun| #[trigger]
            call_ensures(AdminService::refresh_step_at, (s, q, Err(message), now), ()) && *s
                == before && *final(s) == refused && *q == run && *final(q) == failed,
    ensures
        ({
            let id = run.targets@[run.success + run.failure];
            &&& call == Some(ManagerCall::UsageLimits { id })
            &&& done.success == run.success + 1 && done.failure == run.failure
            &&& failed.success == run.success && failed.failure == run.failure + 1
            &&& done.targets == run.targets && failed.targets == run.targets
            &&& after.balance_cache@.dom().contains(id)
            &&& after.balance_cache@[id].cached_at == now
            &&& after.balance_cache@[id].data.exceeded == usage.exceeded
            &&& after.balance_cache@[id].data.overage_enabled == usage.overage_enabled
            &&& after.balance_cache@.remove(id) =~= before.balance_cache@.remove(id)
            &&& refused == before
        }),
{
}

/// Telling the upstream whether a credential may use more than its limit names the
/// credential and the wish; a success forgets its balance and asks for the new one,
/// and a failure changes nothing.
pub proof fn a_change_of_overage_is_asked_for_anew(
    service: AdminService,
    id: u64,
    enabled: bool,
    call: ManagerCall,
    before: AdminService,
    after: AdminService,
    refused: AdminService,
    message: String,
    done: Result<ManagerCall, AdminServiceError>,
    error: Result<ManagerCall, AdminServiceError>,
)
    requires
        call_ensures(AdminService::set_overage, (&service, id, enabled), call),
        exists|s: &mut AdminService| #[trigger]
            call_ensures(AdminService::set_overage_done, (s, id, Ok(())), done) && *s == before
                && *final(s) == after,
        exists|s: &mut AdminService| #[trigger]
            call_ensures(AdminService::set_overage_done, (s, id, Err(message)), error) && *s
                == before && *final(s) == refused,
    ensures
        call matches ManagerCall::SetUserPreference { id: i, status } && i == id && status@ == (
        if enabled {
            "ENABLED"@
        } else {
            "DISABLED"@
        }),
        done == Ok::<ManagerCall, AdminServiceError>(ManagerCall::UsageLimits { id }),
        after.balance_cache@ == before.balance_cache@.remove(id),
        after.update_config == before.update_config,
        error is Err,
        refused == before,
{
}

/// A credential is allowed more at the moment of the call if it is in use and its balance
/// is not known; it is left alone if it is out of use. Everything else follows from when
/// its balance was learned, for all credentials at once.
pub proof fn the_capable_are_allowed_more_now(
    service: AdminService,
    snapshot: ManagerSnapshot,
    run: OverageRun,
)
    requires
        call_ensures(AdminService::enable_overage_for_all_capable, (&service, &snapshot), run),
    ensures
        exists|now: i64| #![trigger overage_targets(snapshot.entries@, service.balance_cache@, now)]
            now >= 0 && (forall|id: u64| #[trigger]
                run.targets@.contains(id) <==> exists|i: int|
                    0 <= i < snapshot.entries@.len() && (#[trigger] snapshot.entries@[i]).id == id
                        && !snapshot.entries@[i].disabled && !(
                    service.balance_cache@.dom().contains(id) && now
                        - service.balance_cache@[id].cached_at < 300 && (
                    service.balance_cache@[id].data.overage_capable == Some(false)
                        || service.balance_cache@[id].data.overage_enabled == Some(true)))),
        run.targets@.len() + run.result.skipped_ids@.len() == snapshot.entries@.len(),
        run.done == 0,
        run.result.enabled_ids@.len() == 0 && run.result.failed_ids@.len() == 0,
{
    let cache = service.balance_cache@;
    let entries = snapshot.entries@;
    let now = choose|now: i64| now >= 0 && #[trigger] starts_overage_run(run, entries, cache, now);
    let f = |e: CredentialEntry| !leaves_overage(e, cache, now);
    assert(run.targets@ == overage_targets(entries, cache, now));
    assert forall|id: u64| #[trigger]
        run.targets@.contains(id) <==> exists|i: int|
            0 <= i < entries.len() && (#[trigger] entries[i]).id == id && !entries[i].disabled && !(
            cache.dom().contains(id) && now - cache[id].cached_at < 300 && (
            cache[id].data.overage_capable == Some(false) || cache[id].data.overage_enabled == Some(
                true,
            ))) by {
        filter_keeps_what_passes(entries, f, id);
        if run.targets@.contains(id) {
            let i = choose|i: int|
                0 <= i < entries.len() && (#[trigger] entries[i]).id == id && f(entries[i]);
            assert(!leaves_overage(entries[i], cache, now));
        }
        if exists|i: int|
            0 <= i < entries.len() && (#[trigger] entries[i]).id == id && !entries[i].disabled && !(
            cache.dom().contains(id) && now - cache[id].cached_at < 300 && (
            cache[id].data.overage_capable == Some(false) || cache[id].data.overage_enabled == Some(
                true,
            ))) {
            let i = choose|i: int|
                0 <= i < entries.len() && (#[trigger] entries[i]).id == id && !entries[i].disabled
                    && !(cache.dom().contains(id) && now - cache[id].cached_at < 300 && (
                cache[id].data.overage_capable == Some(false) || cache[id].data.overage_enabled
                    == Some(true)));
            assert(f(entries[i]));
        }
    }
    overage_parts_all_credentials(entries, cache, now);
    ids(entries).to_multiset_ensures();
    run.targets@.to_multiset_ensures();
    run.result.skipped_ids@.to_multiset_ensures();
    assert(run.targets@.to_multiset().add(run.result.skipped_ids@.to_multiset()).len()
        == run.targets@.len() + run.result.skipped_ids@.len());
}

/// At the moment of the call too a balance is told only if it is known, for the credential
/// that is asked for, and what the upstream has said is learned as it was said.
pub proof fn a_balance_is_told_now_only_if_it_is_known(
    service: AdminService,
    id: u64,
    r: BalanceAnswer,
    before: AdminService,
    after: AdminService,
    usage: UsageLimits,
    first: Result<BalanceResponse, AdminServiceError>,
    run: RefreshRun,
    refreshed: AdminService,
    counted: RefreshRun,
)
    requires
        call_ensures(AdminService::get_balance, (&service, id), r),
        exists|s: &mut AdminService| #[trigger]
            call_ensures(AdminService::get_balance_done, (s, id, Ok(usage)), first) && *s == before
                && *final(s) == after,
        run.wf() && run.done() < run.targets@.len(),
        exists|s: &mut AdminService, q: &mut RefreshRun| #[trigger]
            call_ensures(AdminService::refresh_step, (s, q, Ok(usage)), ()) && *s == before
                && *final(s) == refreshed && *q == run && *final(q) == counted,
    ensures
        r matches BalanceAnswer::Known(b) ==> service.balance_cache@.dom().contains(id) && b
            == service.balance_cache@[id].data,
        r matches BalanceAnswer::Ask(call) ==> call == (ManagerCall::UsageLimits { id }),
        !service.balance_cache@.dom().contains(id) ==> r is Ask,
        service.balance_cache@.dom().contains(id) && service.balance_cache@[id].cached_at
            == i64::MAX ==> r is Known,
        after.balance_cache@.dom().contains(id),
        after.balance_cache@[id].cached_at >= 0,
        first matches Ok(b) && b == after.balance_cache@[id].data && b.id == id && b.exceeded
            == usage.exceeded && b.remaining == usage.remaining && b.usage_percentage
            == usage.usage_percentage && b.overage_enabled == usage.overage_enabled,
        after.balance_cache@.remove(id) =~= before.balance_cache@.remove(id),
        ({
            let turn = run.targets@[run.success + run.failure];
            &&& refreshed.balance_cache@.dom().contains(turn)
            &&& refreshed.balance_cache@[turn].data.exceeded == usage.exceeded
            &&& refreshed.balance_cache@.remove(turn) =~= before.balance_cache@.remove(turn)
            &&& counted.success == run.success + 1 && counted.failure == run.failure
        }),
{
}

} // verus!
