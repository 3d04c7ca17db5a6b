//! What the administration service keeps while it runs.

use vstd::prelude::*;

use crate::admin::balance::{
    loaded, loaded_balances_are_fresh, stored, BalanceCache, CachedBalance,
};
use crate::admin::endpoints::EndpointSet;
use crate::admin::error::{AdminServiceError, ErrorView};
use crate::admin::idc_login::IdcAuthSession;
use crate::admin::image_update::ImageResult;
use crate::admin::images::{image_problem, outer_whitespace_is_ignored};
use crate::admin::release::CachedUpdateCheck;
use crate::admin::schedule::{normal_time_reads_back, normalizing_keeps_the_time, time_of_day};
use crate::admin::sessions::{live, SessionTable};
use crate::admin::social_login::SocialAuthSession;
use crate::admin::types::{SetUpdateConfigRequest, UpdateConfigResponse};
use crate::admin::update_config::{
    change_problem, check_update_config, RuntimeUpdateConfig, UpdateConfigChange,
};
use crate::clock::{utc_now, Timestamp};
use crate::model::config::Config;
use crate::text::{trim, views};

verus! {

/// What the administration service keeps while it runs.
#[derive(Debug)]
pub struct AdminService {
    /// The known balances.
    pub balance_cache: BalanceCache,
    /// The endpoints that credentials can use.
    pub known_endpoints: EndpointSet,
    /// The settings of online updates.
    pub update_config: RuntimeUpdateConfig,
    /// What the last look for updates has found.
    pub update_check_cache: Option<CachedUpdateCheck>,
    /// The logins with a device code that are under way.
    pub idc_sessions: SessionTable<IdcAuthSession>,
    /// The logins with a social account that are under way.
    pub social_sessions: SessionTable<SocialAuthSession>,
}

impl AdminService {
    /// Whether what is kept is sound.
    pub open spec fn wf(self) -> bool {
        &&& self.known_endpoints.wf()
        &&& self.update_check_cache matches Some(c) ==> c.cached_at.wf()
        &&& self.idc_sessions.wf()
        &&& self.social_sessions.wf()
    }

    /// A service that starts with the stored settings and balances, and with the
    /// endpoints that credentials can use.
    pub fn new_at(
        config: &Config,
        balances: Vec<(String, CachedBalance)>,
        known_endpoints: Vec<String>,
        now: i64,
    ) -> (r: Self)
        ensures
            r.wf(),
            r.starts_with(*config, balances@, known_endpoints@, now),
    {
        AdminService {
            balance_cache: BalanceCache::load_balance_cache_from(balances, now),
            known_endpoints: EndpointSet::new(known_endpoints),
            update_config: RuntimeUpdateConfig::from_config(config),
            update_check_cache: None,
            idc_sessions: SessionTable::new(),
            social_sessions: SessionTable::new(),
        }
    }

    /// Whether this is a service that starts with these settings, with those of
    /// these balances that are fresh, and with these endpoints.
    pub open spec fn starts_with(
        self,
        config: Config,
        balances: Seq<(String, CachedBalance)>,
        known_endpoints: Seq<String>,
        now: i64,
    ) -> bool {
        &&& self.balance_cache@ == loaded(stored(balances), now)
        &&& self.known_endpoints@ == views(known_endpoints).to_set()
        &&& self.update_config.image == config.update_image
        &&& self.update_config.previous_image == config.update_previous_image
        &&& self.update_config.auto_apply == config.update_auto_apply
        &&& self.update_config.auto_apply_time == config.update_auto_apply_time
        &&& self.update_check_cache is None
        &&& self.idc_sessions@ == Map::<Seq<char>, (Timestamp, IdcAuthSession)>::empty()
        &&& self.social_sessions@ == Map::<Seq<char>, (Timestamp, SocialAuthSession)>::empty()
    }

    /// A service that starts now.
    pub fn new(
        config: &Config,
        balances: Vec<(String, CachedBalance)>,
        known_endpoints: Vec<String>,
    ) -> (r: Self)
        ensures
            r.wf(),
            exists|now: i64|
                now >= 0 && #[trigger] r.starts_with(
                    *config,
                    balances@,
                    known_endpoints@,
                    now,
                ),
    {
        let now: i64 = utc_now().seconds;
        AdminService::new_at(config, balances, known_endpoints, now)
    }

    /// Forgets the logins that have ended at a point in time.
    pub fn purge_sessions_at(&mut self, now: &Timestamp)
        requires
            old(self).wf(),
        ensures
            final(self).wf(),
            final(self).idc_sessions@ == live(old(self).idc_sessions@, *now),
            final(self).social_sessions@ == live(old(self).social_sessions@, *now),
            *final(self) == (AdminService {
                idc_sessions: final(self).idc_sessions,
                social_sessions: final(self).social_sessions,
                ..*old(self)
            }),
    {
        self.idc_sessions.purge(now);
        self.social_sessions.purge(now);
    }

    /// Forgets the logins that have ended.
    pub fn purge_sessions(&mut self)
        requires
            old(self).wf(),
        ensures
            final(self).wf(),
            exists|now: Timestamp|
                now.wf() && final(self).idc_sessions@ == #[trigger] live(
                    old(self).idc_sessions@,
                    now,
                ) && final(self).social_sessions@ == live(old(self).social_sessions@, now),
            *final(self) == (AdminService {
                idc_sessions: final(self).idc_sessions,
                social_sessions: final(self).social_sessions,
                ..*old(self)
            }),
    {
        let now = utc_now();
        self.purge_sessions_at(&now)
    }

    /// The settings of online updates.
    pub fn get_update_config(&self) -> (r: UpdateConfigResponse)
        ensures
            r == self.update_config.shown(),
    {
        self.update_config.response()
    }

    /// Changes the settings of online updates, and gives them back with the
    /// change that is to be stored. A request that is not valid changes nothing.
    pub fn set_update_config(&mut self, req: &SetUpdateConfigRequest) -> (r: Result<
        (UpdateConfigResponse, UpdateConfigChange),
        AdminServiceError,
    >)
        ensures
            match change_problem(*req) {
                None => r matches Ok((answer, change)) && {
                    &&& change.comes_from(*req)
                    &&& answer == old(self).update_config.changed(change).shown()
                    &&& *final(self) == (AdminService {
                        update_config: old(self).update_config.changed(change),
                        ..*old(self)
                    })
                },
                Some(problem) => {
                    &&& r matches Err(e) && e@ == problem
                    &&& *final(self) == *old(self)
                },
            },
    {
        match check_update_config(req) {
            Ok(change) => {
                self.update_config.apply(&change);
                Ok((self.update_config.response(), change))
            },
            Err(e) => Err(e),
        }
    }
}

/// The settings in the file and those in use stay the same under every change
/// and every image operation.
pub proof fn stored_settings_follow(
    runtime: RuntimeUpdateConfig,
    config: Config,
    change: UpdateConfigChange,
    result: ImageResult,
)
    requires
        agree(runtime, config),
    ensures
        agree(runtime.changed(change), config.with_update_change(change)),
        agree(runtime.after_image(result), config.after_image(result)),
{
}

/// Whether the settings in use are those in the file.
pub open spec fn agree(runtime: RuntimeUpdateConfig, config: Config) -> bool {
    &&& runtime.image == config.update_image
    &&& runtime.previous_image == config.update_previous_image
    &&& runtime.auto_apply == config.update_auto_apply
    &&& runtime.auto_apply_time == config.update_auto_apply_time
}

/// Forgetting the logins that have ended forgets no other, and what is left has
/// not ended.
pub proof fn purging_keeps_the_living<S>(
    sessions: Map<Seq<char>, (Timestamp, S)>,
    now: Timestamp,
    id: Seq<char>,
)
    ensures
        live(sessions, now).dom().contains(id) <==> sessions.dom().contains(id)
            && !now.at_or_after(sessions[id].0),
        live(sessions, now).dom().contains(id) ==> live(sessions, now)[id] == sessions[id],
{
}

/// A valid request changes the settings of online updates as it says and leaves what it
/// does not name: the image without the blanks around it, the time as `HH:MM`. The
/// answer shows the settings as they are then, and nothing else of the service changes.
/// A request that is not valid is refused as a bad request and changes nothing.
pub proof fn settings_change_as_requested(
    before: AdminService,
    after: AdminService,
    req: SetUpdateConfigRequest,
    r: Result<(UpdateConfigResponse, UpdateConfigChange), AdminServiceError>,
    shown: UpdateConfigResponse,
    file: Config,
    stored: Config,
)
    requires
        exists|s: &mut AdminService| #[trigger]
            call_ensures(AdminService::set_update_config, (s, &req), r) && *s == before && *final(s)
                == after,
        call_ensures(AdminService::get_update_config, (&after,), shown),
        r matches Ok((_, change)) ==> exists|c: &mut Config| #[trigger]
            call_ensures(Config::apply_update_change, (c, change), ()) && *c == file && *final(c)
                == stored,
    ensures
        r is Err ==> after == before && r->Err_0@.status() == 400,
        r matches Ok((answer, _)) ==> {
            &&& req.image matches Some(i) ==> after.update_config.image@ == trim(i@)
                && stored.update_image@ == trim(i@)
            &&& req.image is None ==> after.update_config.image == before.update_config.image
                && stored.update_image == file.update_image
            &&& req.auto_apply matches Some(b) ==> after.update_config.auto_apply == b
                && stored.update_auto_apply == b
            &&& req.auto_apply is None ==> after.update_config.auto_apply
                == before.update_config.auto_apply && stored.update_auto_apply
                == file.update_auto_apply
            &&& req.auto_apply_time is None ==> after.update_config.auto_apply_time
                == before.update_config.auto_apply_time && stored.update_auto_apply_time
                == file.update_auto_apply_time
            &&& req.auto_apply_time matches Some(t) ==> time_of_day(t@) is Ok && time_of_day(
                after.update_config.auto_apply_time@,
            ) == time_of_day(t@) && after.update_config.auto_apply_time@.len() == 5
                && stored.update_auto_apply_time@ == after.update_config.auto_apply_time@
            &&& answer == shown
            &&& after.update_config.previous_image == before.update_config.previous_image
            &&& after.balance_cache == before.balance_cache
            &&& after.known_endpoints == before.known_endpoints
            &&& after.update_check_cache == before.update_check_cache
            &&& after.idc_sessions == before.idc_sessions
            &&& after.social_sessions == before.social_sessions
            &&& stored.update_previous_image == file.update_previous_image
            &&& stored.default_endpoint == file.default_endpoint
            &&& stored.proxy_url == file.proxy_url
            &&& stored.admin_api_key == file.admin_api_key
            &&& stored.api_key == file.api_key
        },
        shown.image == after.update_config.image,
        shown.previous_image == after.update_config.previous_image,
        shown.auto_apply == after.update_config.auto_apply,
        shown.auto_apply_time == after.update_config.auto_apply_time,
{
    if let Ok((_, change)) = r {
        if let Some(t) = req.auto_apply_time {
            normalizing_keeps_the_time(t@);
            let (hour, minute) = time_of_day(t@)->Ok_0;
            normal_time_reads_back(hour, minute);
        }
    }
}

/// A request is refused exactly if its image is neither blank nor a reference to a
/// Docker Hub image, or if its time is none.
pub proof fn only_bad_settings_are_refused(
    before: AdminService,
    after: AdminService,
    req: SetUpdateConfigRequest,
    r: Result<(UpdateConfigResponse, UpdateConfigChange), AdminServiceError>,
)
    requires
        exists|s: &mut AdminService| #[trigger]
            call_ensures(AdminService::set_update_config, (s, &req), r) && *s == before && *final(s)
                == after,
    ensures
        r is Err <==> (req.image matches Some(i) && trim(i@).len() > 0 && image_problem(i@) is Some)
            || (req.auto_apply_time matches Some(t) && time_of_day(t@) is Err),
        req.image matches Some(i) ==> trim(i@).len() > 0 && image_problem(i@) is Some ==> r->Err_0@
            == ErrorView::Invalid(image_problem(i@).unwrap()),
        (req.image matches Some(i) ==> trim(i@).len() == 0 || image_problem(i@) is None) ==> (
        req.auto_apply_time matches Some(t) ==> time_of_day(t@) is Err ==> r->Err_0@
            == ErrorView::Invalid(time_of_day(t@)->Err_0)),
{
    if let Some(i) = req.image {
        outer_whitespace_is_ignored(i@);
    }
}

/// A service starts with the settings of the file, with the endpoints that it is given,
/// and with the stored balances that were learned less than five minutes ago; no login
/// is under way, and no look for updates was made.
pub proof fn a_service_starts_as_it_was_stored(
    config: Config,
    balances: Vec<(String, CachedBalance)>,
    endpoints: Vec<String>,
    now: i64,
    r: AdminService,
    id: u64,
    name: Seq<char>,
)
    requires
        call_ensures(AdminService::new_at, (&config, balances, endpoints, now), r),
    ensures
        r.wf(),
        r.update_config.image == config.update_image,
        r.update_config.previous_image == config.update_previous_image,
        r.update_config.auto_apply == config.update_auto_apply,
        r.update_config.auto_apply_time == config.update_auto_apply_time,
        r.update_check_cache is None,
        !r.idc_sessions@.dom().contains(name) && !r.social_sessions@.dom().contains(name),
        r.known_endpoints@.contains(name) <==> exists|i: int|
            0 <= i < endpoints@.len() && (#[trigger] endpoints@[i])@ == name,
        r.balance_cache@.dom().contains(id) ==> now - r.balance_cache@[id].cached_at < 300,
{
    let all = views(endpoints@);
    if r.known_endpoints@.contains(name) {
        let i = choose|i: int| 0 <= i < all.len() && all[i] == name;
        assert(endpoints@[i]@ == name);
    }
    if exists|i: int| 0 <= i < endpoints@.len() && (#[trigger] endpoints@[i])@ == name {
        let i = choose|i: int| 0 <= i < endpoints@.len() && (#[trigger] endpoints@[i])@ == name;
        assert(all[i] == name);
    }
    if r.balance_cache@.dom().contains(id) {
        loaded_balances_are_fresh(stored(balances@), now, id);
    }
}

/// Forgetting the logins that have ended keeps those that have not, with what they hold,
/// and changes nothing else.
pub proof fn only_ended_logins_are_forgotten(
    before: AdminService,
    after: AdminService,
    now: Timestamp,
    id: Seq<char>,
)
    requires
        exists|s: &mut AdminService| #[trigger]
            call_ensures(AdminService::purge_sessions_at, (s, &now), ()) && *s == before && *final(s)
                == after,
    ensures
        after.idc_sessions@.dom().contains(id) <==> before.idc_sessions@.dom().contains(id)
            && !now.at_or_after(before.idc_sessions@[id].0),
        after.idc_sessions@.dom().contains(id) ==> after.idc_sessions@[id]
            == before.idc_sessions@[id],
        after.social_sessions@.dom().contains(id) <==> before.social_sessions@.dom().contains(id)
            && !now.at_or_after(before.social_sessions@[id].0),
        after.social_sessions@.dom().contains(id) ==> after.social_sessions@[id]
            == before.social_sessions@[id],
        after.balance_cache == before.balance_cache,
        after.known_endpoints == before.known_endpoints,
        after.update_config == before.update_config,
        after.update_check_cache == before.update_check_cache,
{
}

/// At the moment of the call too a service starts with the settings of the file and with
/// the endpoints that it is given, and forgets only logins.
pub proof fn a_service_starts_and_forgets_now(
    config: Config,
    balances: Vec<(String, CachedBalance)>,
    endpoints: Vec<String>,
    r: AdminService,
    before: AdminService,
    after: AdminService,
    id: Seq<char>,
)
    requires
        call_ensures(AdminService::new, (&config, balances, endpoints), r),
        exists|s: &mut AdminService| #[trigger]
            call_ensures(AdminService::purge_sessions, (s,), ()) && *s == before && *final(s)
                == after,
    ensures
        r.wf(),
        r.update_config.image == config.update_image,
        r.update_config.previous_image == config.update_previous_image,
        r.update_config.auto_apply == config.update_auto_apply,
        r.update_config.auto_apply_time == config.update_auto_apply_time,
        r.known_endpoints@ == views(endpoints@).to_set(),
        r.update_check_cache is None,
        !r.idc_sessions@.dom().contains(id) && !r.social_sessions@.dom().contains(id),
        after.idc_sessions@.dom().contains(id) ==> before.idc_sessions@.dom().contains(id)
            && after.idc_sessions@[id] == before.idc_sessions@[id],
        after.social_sessions@.dom().contains(id) ==> before.social_sessions@.dom().contains(id)
            && after.social_sessions@[id] == before.social_sessions@[id],
        after.balance_cache == before.balance_cache,
        after.known_endpoints == before.known_endpoints,
        after.update_config == before.update_config,
        after.update_check_cache == before.update_check_cache,
{
}

} // verus!
