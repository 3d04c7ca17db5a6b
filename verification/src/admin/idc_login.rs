//! Logins with a device code.
//!
//! The gateway registers as a client and gets a code, which the user enters on a
//! page of the upstream. Meanwhile the gateway asks again and again whether the
//! login was granted.

use vstd::prelude::*;

use crate::admin::error::{AdminServiceError, ErrorView};
use crate::admin::relogin::{
    do_relogin_update, end_text, ends_at, starting_relogin, LoginStep, ReloginPhase,
};
use crate::admin::service::AdminService;
use crate::admin::types::{PollIdcLoginResponse, StartIdcLoginRequest, StartIdcLoginResponse};
use crate::clock::{rfc3339, utc_now, Timestamp};
use crate::encoding::{fresh_uuid, is_uuid_v4};
use crate::http_client::{choose_proxy, copy_proxy, is_proxy_for, ProxyConfig};
use crate::kiro::model::credentials::{blank_credentials, KiroCredentials};
use crate::kiro::token_manager::ManagerSnapshot;
use crate::text::view_opt;

verus! {

/// The least number of seconds between two questions.
pub const MIN_POLL_INTERVAL: i64 = 5;

/// What a session of a login with a device code holds.
#[derive(Debug)]
pub struct IdcAuthSession {
    /// The region to log in to.
    pub region: String,
    /// The client that the gateway is registered as.
    pub client_id: String,
    /// The secret of that client.
    pub client_secret: String,
    /// The code that questions name.
    pub device_code: String,
    /// How many seconds to wait between two questions.
    pub poll_interval: i64,
    /// What is known of the new credential.
    pub cred_template: KiroCredentials,
    /// The proxy that the login goes through.
    pub proxy: Option<ProxyConfig>,
    /// The credential that gets the new tokens, if none is to be added.
    pub relogin_target_id: Option<u64>,
}

/// A login with a device code that is about to start: the gateway is to be
/// registered as a client in a region, through a proxy.
#[derive(Debug)]
pub struct IdcLogin {
    /// The region to log in to.
    pub region: String,
    /// The page of the organisation.
    pub start_url: String,
    /// The proxy that the login goes through.
    pub proxy: Option<ProxyConfig>,
    /// The priority of the new credential.
    pub priority: u32,
    /// The address of the owner.
    pub email: Option<String>,
    /// The proxy of the new credential.
    pub proxy_url: Option<String>,
    /// The credential that gets the new tokens, if none is to be added.
    pub relogin_target_id: Option<u64>,
}

/// The client that the gateway was registered as.
#[derive(Debug)]
pub struct ClientRegistration {
    /// The client.
    pub client_id: String,
    /// Its secret.
    pub client_secret: String,
}

/// A login with a device code whose client is registered: the code is to be
/// asked for.
#[derive(Debug)]
pub struct IdcAuthorization {
    /// The login.
    pub login: IdcLogin,
    /// The client.
    pub client: ClientRegistration,
}

/// The code that the upstream has given.
#[derive(Debug)]
pub struct DeviceAuthorization {
    /// The code that questions name.
    pub device_code: String,
    /// The code to enter.
    pub user_code: String,
    /// The page to enter it on.
    pub verification_uri: String,
    /// That page with the code in its address.
    pub verification_uri_complete: String,
    /// After how many seconds the code ends.
    pub expires_in: i64,
    /// How many seconds to wait between two questions.
    pub interval: i64,
}

/// What is asked to learn whether a login was granted.
#[derive(Debug)]
pub struct IdcQuestion {
    /// The region to log in to.
    pub region: String,
    /// The client.
    pub client_id: String,
    /// The secret of that client.
    pub client_secret: String,
    /// The code that questions name.
    pub device_code: String,
    /// The proxy that the login goes through.
    pub proxy: Option<ProxyConfig>,
    /// What is known of the new credential.
    pub cred_template: KiroCredentials,
    /// The credential that gets the new tokens, if none is to be added.
    pub relogin_target_id: Option<u64>,
}

/// What a question for the state of a login means.
#[derive(Debug)]
pub enum IdcPoll {
    /// The session has ended.
    Expired,
    /// Ask the upstream.
    Ask(IdcQuestion),
}

/// The tokens that a login has given.
#[derive(Debug)]
pub struct IdcToken {
    /// The access token.
    pub access_token: String,
    /// The refresh token.
    pub refresh_token: Option<String>,
    /// After how many seconds the access token ends.
    pub expires_in: Option<i64>,
}

/// What the upstream has answered.
#[derive(Debug)]
pub enum IdcAnswer {
    /// The login was not granted yet.
    Pending,
    /// The code has ended.
    Expired,
    /// The question has failed.
    Error(String),
    /// The login was granted.
    Success(IdcToken),
}

/// Whether this is the login that a request asks for.
pub open spec fn is_idc_login(
    login: IdcLogin,
    req: StartIdcLoginRequest,
    global_proxy: Option<ProxyConfig>,
    default_start_url: Seq<char>,
    target: Option<u64>,
) -> bool {
    &&& login.region == req.region
    &&& login.start_url@ == match req.start_url {
        Some(u) => u@,
        None => default_start_url,
    }
    &&& is_proxy_for(login.proxy, req.proxy_url, global_proxy)
    &&& login.priority == req.priority
    &&& login.email == req.email
    &&& login.proxy_url == req.proxy_url
    &&& login.relogin_target_id == target
}

fn prepare_login(
    req: StartIdcLoginRequest,
    global_proxy: Option<ProxyConfig>,
    default_start_url: &str,
    target: Option<u64>,
) -> (r: IdcLogin)
    ensures
        is_idc_login(r, req, global_proxy, default_start_url@, target),
{
    let proxy = choose_proxy(&req.proxy_url, global_proxy);
    IdcLogin {
        region: req.region,
        start_url: match req.start_url {
            Some(u) => u,
            None => default_start_url.to_string(),
        },
        proxy,
        priority: req.priority,
        email: req.email,
        proxy_url: req.proxy_url,
        relogin_target_id: target,
    }
}

/// Goes on once the gateway was registered as a client, or could not be.
pub fn idc_client_registered(login: IdcLogin, outcome: Result<ClientRegistration, String>) -> (r:
    Result<IdcAuthorization, AdminServiceError>)
    ensures
        match outcome {
            Ok(client) => r == Ok::<IdcAuthorization, AdminServiceError>(
                IdcAuthorization { login, client },
            ),
            Err(e) => r matches Err(f) && f@ == ErrorView::Internal(e@),
        },
{
    match outcome {
        Ok(client) => Ok(IdcAuthorization { login, client }),
        Err(e) => Err(AdminServiceError::InternalError(e)),
    }
}

/// Whether this is what is known of a credential before the login.
pub open spec fn is_idc_template(cred: KiroCredentials, a: IdcAuthorization) -> bool {
    &&& view_opt(cred.auth_method) == Some("idc"@)
    &&& cred == (KiroCredentials {
        auth_method: cred.auth_method,
        client_id: Some(a.client.client_id),
        client_secret: Some(a.client.client_secret),
        region: Some(a.login.region),
        priority: a.login.priority,
        email: a.login.email,
        proxy_url: a.login.proxy_url,
        ..blank_credentials()
    })
}

/// How many seconds to wait between two questions: what the upstream says, but
/// not too few.
pub open spec fn poll_interval(interval: i64) -> i64 {
    if interval > MIN_POLL_INTERVAL {
        interval
    } else {
        MIN_POLL_INTERVAL
    }
}

/// Whether this is the session of a login whose code was given.
pub open spec fn is_idc_session(
    s: IdcAuthSession,
    a: IdcAuthorization,
    device: DeviceAuthorization,
) -> bool {
    &&& s.region == a.login.region
    &&& s.client_id == a.client.client_id
    &&& s.client_secret == a.client.client_secret
    &&& s.device_code == device.device_code
    &&& s.poll_interval == poll_interval(device.interval)
    &&& s.proxy == a.login.proxy
    &&& s.relogin_target_id == a.login.relogin_target_id
    &&& match a.login.relogin_target_id {
        Some(_) => s.cred_template == blank_credentials(),
        None => is_idc_template(s.cred_template, a),
    }
}

/// The sessions of a service.
pub open spec fn idc(service: AdminService) -> Map<Seq<char>, (Timestamp, IdcAuthSession)> {
    service.idc_sessions@
}

/// What a service answers, and what becomes of its sessions, when a login
/// starts.
pub open spec fn starts_idc(
    before: Map<Seq<char>, (Timestamp, IdcAuthSession)>,
    after: Map<Seq<char>, (Timestamp, IdcAuthSession)>,
    a: IdcAuthorization,
    device: DeviceAuthorization,
    id: Seq<char>,
    now: Timestamp,
    r: StartIdcLoginResponse,
) -> bool {
    let end = now.later(device.expires_in).unwrap();
    &&& after.dom().contains(id)
    &&& after[id].0 == end
    &&& is_idc_session(after[id].1, a, device)
    &&& after == before.insert(id, after[id])
    &&& r.session_id@ == id
    &&& r.user_code == device.user_code
    &&& r.verification_uri == device.verification_uri
    &&& r.verification_uri_complete == device.verification_uri_complete
    &&& r.expires_at@ == end.text()
    &&& r.poll_interval == poll_interval(device.interval)
}

/// What a service answers, and what becomes of its sessions, when a code was
/// given or could not be.
pub open spec fn authorizes(
    before: Map<Seq<char>, (Timestamp, IdcAuthSession)>,
    after: Map<Seq<char>, (Timestamp, IdcAuthSession)>,
    a: IdcAuthorization,
    outcome: Result<DeviceAuthorization, String>,
    id: Seq<char>,
    now: Timestamp,
    r: Result<StartIdcLoginResponse, AdminServiceError>,
) -> bool {
    match outcome {
        Ok(device) => r matches Ok(answer) && starts_idc(
            before,
            after,
            a,
            device,
            id,
            now,
            answer,
        ),
        Err(e) => (r matches Err(f) && f@ == ErrorView::Internal(e@)) && after == before,
    }
}

/// Whether the calendar can tell when a code ends.
pub open spec fn code_end_can_be_told(
    outcome: Result<DeviceAuthorization, String>,
    now: Timestamp,
) -> bool {
    outcome matches Ok(device) ==> now.later(device.expires_in) is Some
}

/// Whether this is the question that a session asks.
pub open spec fn is_question(q: IdcQuestion, s: IdcAuthSession) -> bool {
    q == (IdcQuestion {
        region: s.region,
        client_id: s.client_id,
        client_secret: s.client_secret,
        device_code: s.device_code,
        proxy: s.proxy,
        cred_template: s.cred_template,
        relogin_target_id: s.relogin_target_id,
    })
}

/// What a service says when it is asked for the state of a login.
pub open spec fn asks(
    sessions: Map<Seq<char>, (Timestamp, IdcAuthSession)>,
    id: Seq<char>,
    now: Timestamp,
    r: Result<IdcPoll, AdminServiceError>,
) -> bool {
    if !sessions.dom().contains(id) {
        r matches Err(e) && e@ == ErrorView::NotFound(0)
    } else if now.at_or_after(sessions[id].0) {
        r == Ok::<IdcPoll, AdminServiceError>(IdcPoll::Expired)
    } else {
        r matches Ok(IdcPoll::Ask(q)) && is_question(q, sessions[id].1)
    }
}

/// Whether this is the credential that the tokens of a login make.
pub open spec fn is_idc_credential(
    cred: KiroCredentials,
    template: KiroCredentials,
    token: IdcToken,
    now: Timestamp,
) -> bool {
    &&& cred == (KiroCredentials {
        access_token: Some(token.access_token),
        refresh_token: token.refresh_token,
        expires_at: cred.expires_at,
        ..template
    })
    &&& match token.expires_in {
        Some(seconds) => view_opt(cred.expires_at) == Some(end_text(now, seconds)),
        None => cred.expires_at == template.expires_at,
    }
}

/// What follows, and what becomes of the sessions, when the upstream has
/// answered. The session of a login that was granted, or whose code has ended,
/// is gone.
pub open spec fn answered(
    before: Map<Seq<char>, (Timestamp, IdcAuthSession)>,
    after: Map<Seq<char>, (Timestamp, IdcAuthSession)>,
    id: Seq<char>,
    q: IdcQuestion,
    answer: IdcAnswer,
    now: Timestamp,
    r: Result<LoginStep, AdminServiceError>,
) -> bool {
    match answer {
        IdcAnswer::Pending => {
            &&& r == Ok::<LoginStep, AdminServiceError>(
                LoginStep::Answer(PollIdcLoginResponse::Pending),
            )
            &&& after == before
        },
        IdcAnswer::Expired => {
            &&& r == Ok::<LoginStep, AdminServiceError>(
                LoginStep::Answer(PollIdcLoginResponse::Expired),
            )
            &&& after == before.remove(id)
        },
        IdcAnswer::Error(e) => {
            &&& r matches Err(f) && f@ == ErrorView::Internal(e@)
            &&& after == before
        },
        IdcAnswer::Success(token) => {
            &&& after == before.remove(id)
            &&& match (q.relogin_target_id, token.refresh_token) {
                (Some(target), Some(t)) => r == Ok::<LoginStep, AdminServiceError>(
                    LoginStep::Relogin(starting_relogin(target, t)),
                ),
                (Some(target), None) => r == Ok::<LoginStep, AdminServiceError>(
                    LoginStep::Answer(PollIdcLoginResponse::Success { credential_id: target }),
                ),
                (None, _) => r matches Ok(LoginStep::Add(cred)) && is_idc_credential(
                    cred,
                    q.cred_template,
                    token,
                    now,
                ),
            }
        },
    }
}

/// Whether the calendar can tell when the access token ends, where it has to.
pub open spec fn token_end_can_be_told(q: IdcQuestion, answer: IdcAnswer, now: Timestamp) -> bool {
    match answer {
        IdcAnswer::Success(token) => q.relogin_target_id is None && token.expires_in is Some
            ==> now.later(token.expires_in.unwrap()) is Some,
        _ => true,
    }
}

/// What follows, and what becomes of the sessions, when the upstream has
/// answered: nothing, if the calendar cannot tell when the access token ends.
pub open spec fn tries_answer(
    before: Map<Seq<char>, (Timestamp, IdcAuthSession)>,
    after: Map<Seq<char>, (Timestamp, IdcAuthSession)>,
    id: Seq<char>,
    q: IdcQuestion,
    answer: IdcAnswer,
    now: Timestamp,
    r: Option<Result<LoginStep, AdminServiceError>>,
) -> bool {
    if token_end_can_be_told(q, answer, now) {
        r matches Some(step) && answered(before, after, id, q, answer, now, step)
    } else {
        r is None && after == before
    }
}

/// What a service answers, and what becomes of its sessions, when a code was
/// given or could not be: nothing, if the calendar cannot tell when it ends.
pub open spec fn tries_authorization(
    before: Map<Seq<char>, (Timestamp, IdcAuthSession)>,
    after: Map<Seq<char>, (Timestamp, IdcAuthSession)>,
    a: IdcAuthorization,
    outcome: Result<DeviceAuthorization, String>,
    id: Seq<char>,
    now: Timestamp,
    r: Option<Result<StartIdcLoginResponse, AdminServiceError>>,
) -> bool {
    if code_end_can_be_told(outcome, now) {
        r matches Some(answer) && authorizes(before, after, a, outcome, id, now, answer)
    } else {
        r is None && after == before
    }
}

impl AdminService {
    /// The service with other sessions of device codes.
    pub open spec fn with_idc(self, other: AdminService) -> AdminService {
        AdminService { idc_sessions: other.idc_sessions, ..self }
    }

    /// Prepares a login with a device code.
    pub fn start_idc_login(
        &self,
        req: StartIdcLoginRequest,
        global_proxy: Option<ProxyConfig>,
        default_start_url: &str,
    ) -> (r: IdcLogin)
        ensures
            is_idc_login(r, req, global_proxy, default_start_url@, None),
    {
        prepare_login(req, global_proxy, default_start_url, None)
    }

    /// Prepares a login with a device code that gives a credential new tokens.
    pub fn start_idc_relogin(
        &self,
        snapshot: &ManagerSnapshot,
        target_id: u64,
        req: StartIdcLoginRequest,
        global_proxy: Option<ProxyConfig>,
        default_start_url: &str,
    ) -> (r: Result<IdcLogin, AdminServiceError>)
        ensures
            if snapshot.knows(target_id) {
                r matches Ok(login) && is_idc_login(
                    login,
                    req,
                    global_proxy,
                    default_start_url@,
                    Some(target_id),
                )
            } else {
                r matches Err(e) && e@ == ErrorView::NotFound(target_id)
            },
    {
        match self.check_relogin_target(snapshot, target_id) {
            Ok(()) => Ok(prepare_login(req, global_proxy, default_start_url, Some(target_id))),
            Err(e) => Err(e),
        }
    }

    /// Starts a login with a device code under a name, once the code was given.
    pub fn idc_device_authorized_at(
        &mut self,
        a: IdcAuthorization,
        outcome: Result<DeviceAuthorization, String>,
        session_id: String,
        now: &Timestamp,
    ) -> (r: Result<StartIdcLoginResponse, AdminServiceError>)
        requires
            old(self).wf(),
            now.wf(),
            code_end_can_be_told(outcome, *now),
        ensures
            final(self).wf(),
            authorizes(
                idc(*old(self)),
                idc(*final(self)),
                a,
                outcome,
                session_id@,
                *now,
                r,
            ),
            *final(self) == old(self).with_idc(*final(self)),
    {
        let device = match outcome {
            Ok(device) => device,
            Err(e) => return Err(AdminServiceError::InternalError(e)),
        };
        let expires_at = match now.plus_seconds(device.expires_in) {
            Some(t) => t,
            None => {
                assert(false);
                *now
            },
        };
        let cred_template = match a.login.relogin_target_id {
            Some(_) => KiroCredentials::default(),
            None => KiroCredentials {
                auth_method: Some("idc".to_string()),
                client_id: Some(a.client.client_id.clone()),
                client_secret: Some(a.client.client_secret.clone()),
                region: Some(a.login.region.clone()),
                priority: a.login.priority,
                email: a.login.email,
                proxy_url: a.login.proxy_url,
                ..KiroCredentials::default()
            },
        };
        let interval: i64 = if device.interval > MIN_POLL_INTERVAL {
            device.interval
        } else {
            MIN_POLL_INTERVAL
        };
        let session = IdcAuthSession {
            region: a.login.region,
            client_id: a.client.client_id,
            client_secret: a.client.client_secret,
            device_code: device.device_code,
            poll_interval: interval,
            cred_template,
            proxy: a.login.proxy,
            relogin_target_id: a.login.relogin_target_id,
        };
        let answer_id = session_id.clone();
        self.idc_sessions.insert(session_id, expires_at, session);
        Ok(
            StartIdcLoginResponse {
                session_id: answer_id,
                user_code: device.user_code,
                verification_uri: device.verification_uri,
                verification_uri_complete: device.verification_uri_complete,
                expires_at: expires_at.to_rfc3339(),
                poll_interval: interval,
            },
        )
    }

    /// Starts a login with a device code now, under a random name. Nothing
    /// starts if the calendar cannot tell when the code ends.
    pub fn idc_device_authorized(
        &mut self,
        a: IdcAuthorization,
        outcome: Result<DeviceAuthorization, String>,
    ) -> (r: Option<Result<StartIdcLoginResponse, AdminServiceError>>)
        requires
            old(self).wf(),
        ensures
            final(self).wf(),
            exists|now: Timestamp, id: Seq<char>|
                now.wf() && is_uuid_v4(id) && #[trigger] tries_authorization(
                    idc(*old(self)),
                    idc(*final(self)),
                    a,
                    outcome,
                    id,
                    now,
                    r,
                ),
            *final(self) == old(self).with_idc(*final(self)),
    {
        let now = utc_now();
        let session_id = fresh_uuid();
        let ghost id = session_id@;
        if let Ok(device) = &outcome {
            if now.plus_seconds(device.expires_in).is_none() {
                assert(tries_authorization(
                    idc(*old(self)),
                    idc(*self),
                    a,
                    outcome,
                    id,
                    now,
                    None,
                ));
                return None;
            }
        }
        let r = self.idc_device_authorized_at(a, outcome, session_id, &now);
        assert(tries_authorization(
            idc(*old(self)),
            idc(*self),
            a,
            outcome,
            id,
            now,
            Some(r),
        ));
        Some(r)
    }

    /// Says what a question for the state of a login means at a point in time.
    pub fn poll_idc_login_at(&self, session_id: &str, now: &Timestamp) -> (r: Result<
        IdcPoll,
        AdminServiceError,
    >)
        requires
            self.wf(),
        ensures
            asks(idc(*self), session_id@, *now, r),
    {
        match self.idc_sessions.get(session_id) {
            Some(slot) => {
                if now.is_at_or_after(&slot.expires_at) {
                    return Ok(IdcPoll::Expired);
                }
                let s = &slot.session;
                Ok(
                    IdcPoll::Ask(
                        IdcQuestion {
                            region: s.region.clone(),
                            client_id: s.client_id.clone(),
                            client_secret: s.client_secret.clone(),
                            device_code: s.device_code.clone(),
                            proxy: copy_proxy(&s.proxy),
                            cred_template: s.cred_template.clone(),
                            relogin_target_id: s.relogin_target_id,
                        },
                    ),
                )
            },
            None => Err(AdminServiceError::NotFound { id: 0 }),
        }
    }

    /// Says what a question for the state of a login means now.
    pub fn poll_idc_login(&self, session_id: &str) -> (r: Result<IdcPoll, AdminServiceError>)
        requires
            self.wf(),
        ensures
            exists|now: Timestamp| now.wf() && #[trigger] asks(idc(*self), session_id@, now, r),
    {
        let now = utc_now();
        self.poll_idc_login_at(session_id, &now)
    }

    /// Goes on with what the upstream has answered at a point in time.
    pub fn idc_answered_at(
        &mut self,
        session_id: &str,
        q: IdcQuestion,
        answer: IdcAnswer,
        now: &Timestamp,
    ) -> (r: Result<LoginStep, AdminServiceError>)
        requires
            old(self).wf(),
            now.wf(),
            token_end_can_be_told(q, answer, *now),
        ensures
            final(self).wf(),
            answered(
                idc(*old(self)),
                idc(*final(self)),
                session_id@,
                q,
                answer,
                *now,
                r,
            ),
            *final(self) == old(self).with_idc(*final(self)),
    {
        match answer {
            IdcAnswer::Pending => Ok(LoginStep::Answer(PollIdcLoginResponse::Pending)),
            IdcAnswer::Expired => {
                let gone = self.idc_sessions.remove(session_id);
                Ok(LoginStep::Answer(PollIdcLoginResponse::Expired))
            },
            IdcAnswer::Error(e) => Err(AdminServiceError::InternalError(e)),
            IdcAnswer::Success(token) => {
                let gone = self.idc_sessions.remove(session_id);
                if let Some(target) = q.relogin_target_id {
                    return match token.refresh_token {
                        Some(t) => Ok(LoginStep::Relogin(do_relogin_update(target, t))),
                        None => Ok(
                            LoginStep::Answer(
                                PollIdcLoginResponse::Success { credential_id: target },
                            ),
                        ),
                    };
                }
                let mut cred = q.cred_template;
                cred.access_token = Some(token.access_token);
                cred.refresh_token = token.refresh_token;
                if let Some(seconds) = token.expires_in {
                    cred.expires_at = Some(ends_at(now, seconds));
                }
                Ok(LoginStep::Add(cred))
            },
        }
    }

    /// Goes on with what the upstream has answered now. Nothing follows if the
    /// calendar cannot tell when the access token ends.
    pub fn idc_answered(&mut self, session_id: &str, q: IdcQuestion, answer: IdcAnswer) -> (r:
        Option<Result<LoginStep, AdminServiceError>>)
        requires
            old(self).wf(),
        ensures
            final(self).wf(),
            exists|now: Timestamp|
                now.wf() && #[trigger] tries_answer(
                    idc(*old(self)),
                    idc(*final(self)),
                    session_id@,
                    q,
                    answer,
                    now,
                    r,
                ),
            *final(self) == old(self).with_idc(*final(self)),
    {
        let now = utc_now();
        if q.relogin_target_id.is_none() {
            if let IdcAnswer::Success(token) = &answer {
                if let Some(seconds) = token.expires_in {
                    if now.plus_seconds(seconds).is_none() {
                        assert(tries_answer(
                            idc(*old(self)),
                            idc(*self),
                            session_id@,
                            q,
                            answer,
                            now,
                            None,
                        ));
                        return None;
                    }
                }
            }
        }
        let r = self.idc_answered_at(session_id, q, answer, &now);
        assert(tries_answer(
            idc(*old(self)),
            idc(*self),
            session_id@,
            q,
            answer,
            now,
            Some(r),
        ));
        Some(r)
    }
}

/// A login that was started asks the upstream with its client and its code until
/// its time is over, and not after.
pub proof fn started_login_asks_with_its_code(
    before: Map<Seq<char>, (Timestamp, IdcAuthSession)>,
    started: Map<Seq<char>, (Timestamp, IdcAuthSession)>,
    a: IdcAuthorization,
    device: DeviceAuthorization,
    id: Seq<char>,
    then: Timestamp,
    answer: StartIdcLoginResponse,
    now: Timestamp,
    r: Result<IdcPoll, AdminServiceError>,
)
    requires
        starts_idc(before, started, a, device, id, then, answer),
        asks(started, id, now, r),
    ensures
        if now.at_or_after(then.later(device.expires_in).unwrap()) {
            r == Ok::<IdcPoll, AdminServiceError>(IdcPoll::Expired)
        } else {
            r matches Ok(IdcPoll::Ask(q)) && {
                &&& q.region == a.login.region
                &&& q.client_id == a.client.client_id
                &&& q.client_secret == a.client.client_secret
                &&& q.device_code == device.device_code
            }
        },
{
}

/// The user is never asked to wait less than five seconds between two
/// questions, nor less than the upstream says.
pub proof fn questions_are_not_asked_too_often(interval: i64)
    ensures
        poll_interval(interval) >= 5,
        poll_interval(interval) >= interval,
{
}

/// After a login was granted its session is gone: the next question for it is
/// answered as if it had never been.
pub proof fn granted_login_is_over(
    before: Map<Seq<char>, (Timestamp, IdcAuthSession)>,
    after: Map<Seq<char>, (Timestamp, IdcAuthSession)>,
    id: Seq<char>,
    q: IdcQuestion,
    token: IdcToken,
    now: Timestamp,
    r: Result<LoginStep, AdminServiceError>,
    later: Timestamp,
    next: Result<IdcPoll, AdminServiceError>,
)
    requires
        answered(before, after, id, q, IdcAnswer::Success(token), now, r),
        asks(after, id, later, next),
    ensures
        next matches Err(e) && e@ == ErrorView::NotFound(0),
{
}

/// The start page is the one that the request names, whatever the default is; only
/// a request that names none takes the default. That holds for a login that adds a
/// credential and for one that gives a credential new tokens.
pub proof fn the_named_start_page_is_kept(
    service: AdminService,
    snapshot: ManagerSnapshot,
    target_id: u64,
    req: StartIdcLoginRequest,
    global_proxy: Option<ProxyConfig>,
    default_start_url: &str,
    login: IdcLogin,
    again: Result<IdcLogin, AdminServiceError>,
)
    requires
        call_ensures(
            AdminService::start_idc_login,
            (&service, req, global_proxy, default_start_url),
            login,
        ),
        call_ensures(
            AdminService::start_idc_relogin,
            (&service, &snapshot, target_id, req, global_proxy, default_start_url),
            again,
        ),
    ensures
        req.start_url matches Some(u) ==> login.start_url@ == u@,
        req.start_url is None ==> login.start_url@ == default_start_url@,
        login.region@ == req.region@,
        login.relogin_target_id is None,
        req.proxy_url matches Some(u) ==> (login.proxy matches Some(p) && p.url@ == u@
            && p.username is None && p.password is None),
        req.proxy_url is None ==> login.proxy == global_proxy,
        again is Ok <==> snapshot.knows(target_id),
        again matches Err(e) ==> e@ == ErrorView::NotFound(target_id),
        again matches Ok(l) ==> {
            &&& req.start_url matches Some(u) ==> l.start_url@ == u@
            &&& req.start_url is None ==> l.start_url@ == default_start_url@
            &&& l.region@ == req.region@
            &&& l.relogin_target_id == Some(target_id)
            &&& req.proxy_url matches Some(u) ==> (l.proxy matches Some(p) && p.url@ == u@
                && p.username is None && p.password is None)
            &&& req.proxy_url is None ==> l.proxy == global_proxy
        },
{
}

/// Registering the gateway as a client does not change what the login is about: the
/// code is asked for with the start page, the region and the proxy of the request.
pub proof fn registering_keeps_the_login(
    login: IdcLogin,
    client: ClientRegistration,
    message: String,
    registered: Result<IdcAuthorization, AdminServiceError>,
    refused: Result<IdcAuthorization, AdminServiceError>,
)
    requires
        call_ensures(idc_client_registered, (login, Ok(client)), registered),
        call_ensures(idc_client_registered, (login, Err(message)), refused),
    ensures
        registered matches Ok(a) && {
            &&& a.login.start_url@ == login.start_url@
            &&& a.login.region@ == login.region@
            &&& a.login.proxy == login.proxy
            &&& a.login == login
            &&& a.client == client
        },
        refused matches Err(e) && e@ == ErrorView::Internal(message@),
{
}

/// A login with a device code from the request to the new credential: what the
/// request says of the credential is what the credential has, with the client that
/// was registered for it, and the tokens come from the upstream. The upstream is
/// asked in the region and through the proxy of the request.
pub proof fn a_login_adds_the_credential_that_was_asked_for(
    service: AdminService,
    req: StartIdcLoginRequest,
    global_proxy: Option<ProxyConfig>,
    default_start_url: &str,
    login: IdcLogin,
    client: ClientRegistration,
    a: IdcAuthorization,
    before: AdminService,
    started: AdminService,
    after: AdminService,
    device: DeviceAuthorization,
    session_id: String,
    then: Timestamp,
    start: Result<StartIdcLoginResponse, AdminServiceError>,
    id: &str,
    asked: Timestamp,
    poll: Result<IdcPoll, AdminServiceError>,
    q: IdcQuestion,
    token: IdcToken,
    now: Timestamp,
    r: Result<LoginStep, AdminServiceError>,
)
    requires
        call_ensures(
            AdminService::start_idc_login,
            (&service, req, global_proxy, default_start_url),
            login,
        ),
        call_ensures(idc_client_registered, (login, Ok(client)), Ok(a)),
        then.wf() && then.later(device.expires_in) is Some,
        exists|s: &mut AdminService| #[trigger]
            call_ensures(
                AdminService::idc_device_authorized_at,
                (s, a, Ok(device), session_id, &then),
                start,
            ) && *s == before && *final(s) == started,
        id@ == session_id@,
        !asked.at_or_after(
            Timestamp { seconds: (then.seconds + device.expires_in) as i64, nanos: then.nanos },
        ),
        call_ensures(AdminService::poll_idc_login_at, (&started, id, &asked), poll),
        poll matches Ok(IdcPoll::Ask(question)) ==> q == question,
        exists|s: &mut AdminService| #[trigger]
            call_ensures(
                AdminService::idc_answered_at,
                (s, id, q, IdcAnswer::Success(token), &now),
                r,
            ) && *s == started && *final(s) == after,
    ensures
        start matches Ok(answer) && {
            &&& answer.session_id@ == session_id@
            &&& answer.user_code == device.user_code
            &&& answer.verification_uri == device.verification_uri
            &&& answer.verification_uri_complete == device.verification_uri_complete
            &&& answer.expires_at@ == rfc3339(
                (then.seconds + device.expires_in) as i64,
                then.nanos,
            )
            &&& answer.poll_interval == if device.interval > 5 { device.interval } else { 5 }
        },
        poll matches Ok(IdcPoll::Ask(question)) && {
            &&& question.region@ == req.region@
            &&& question.client_id == client.client_id
            &&& question.client_secret == client.client_secret
            &&& question.device_code == device.device_code
            &&& req.proxy_url matches Some(u) ==> (question.proxy matches Some(p) && p.url@ == u@
                && p.username is None && p.password is None)
            &&& req.proxy_url is None ==> question.proxy == global_proxy
        },
        r matches Ok(LoginStep::Add(cred)) && {
            &&& cred.auth_method matches Some(m) && m@ == "idc"@
            &&& cred.client_id == Some(client.client_id)
            &&& cred.client_secret == Some(client.client_secret)
            &&& cred.region matches Some(g) && g@ == req.region@
            &&& cred.priority == req.priority
            &&& cred.email == req.email
            &&& cred.proxy_url == req.proxy_url
            &&& cred.access_token == Some(token.access_token)
            &&& cred.refresh_token == token.refresh_token
            &&& token.expires_in is None ==> cred.expires_at is None
            &&& token.expires_in is Some && now.later(token.expires_in.unwrap()) is Some ==> (
            cred.expires_at matches Some(f) && f@ == rfc3339(
                (now.seconds + token.expires_in.unwrap()) as i64,
                now.nanos,
            ))
            &&& cred.id is None && !cred.disabled
            &&& cred.profile_arn is None && cred.provider is None
            &&& cred.auth_region is None && cred.api_region is None
            &&& cred.machine_id is None && cred.subscription_title is None
            &&& cred.proxy_username is None && cred.proxy_password is None
            &&& cred.kiro_api_key is None && cred.endpoint is None
        },
        idc(started) == idc(before).insert(session_id@, idc(started)[session_id@]),
        idc(started)[session_id@].0 == (Timestamp {
            seconds: (then.seconds + device.expires_in) as i64,
            nanos: then.nanos,
        }),
        idc(started)[session_id@].1.poll_interval == if device.interval > 5 {
            device.interval
        } else {
            5
        },
        idc(after) == idc(started).remove(session_id@),
        after.social_sessions == before.social_sessions && after.balance_cache
            == before.balance_cache && after.update_config == before.update_config,
{
    let end = then.later(device.expires_in).unwrap();
    assert(idc(started)[session_id@].0 == end);
}

/// A login that gives a credential new tokens never adds one: a refresh token that
/// was granted replaces that of the credential it was started for, and without one
/// the login has succeeded for that credential.
pub proof fn a_relogin_replaces_the_token_that_was_asked_for(
    service: AdminService,
    snapshot: ManagerSnapshot,
    target_id: u64,
    req: StartIdcLoginRequest,
    global_proxy: Option<ProxyConfig>,
    default_start_url: &str,
    login: IdcLogin,
    client: ClientRegistration,
    before: AdminService,
    started: AdminService,
    after: AdminService,
    device: DeviceAuthorization,
    session_id: String,
    then: Timestamp,
    start: Result<StartIdcLoginResponse, AdminServiceError>,
    id: &str,
    asked: Timestamp,
    q: IdcQuestion,
    token: IdcToken,
    now: Timestamp,
    r: Result<LoginStep, AdminServiceError>,
)
    requires
        call_ensures(
            AdminService::start_idc_relogin,
            (&service, &snapshot, target_id, req, global_proxy, default_start_url),
            Ok(login),
        ),
        exists|s: &mut AdminService| #[trigger]
            call_ensures(
                AdminService::idc_device_authorized_at,
                (s, IdcAuthorization { login, client }, Ok(device), session_id, &then),
                start,
            ) && *s == before && *final(s) == started,
        id@ == session_id@,
        call_ensures(
            AdminService::poll_idc_login_at,
            (&started, id, &asked),
            Ok(IdcPoll::Ask(q)),
        ),
        exists|s: &mut AdminService| #[trigger]
            call_ensures(
                AdminService::idc_answered_at,
                (s, id, q, IdcAnswer::Success(token), &now),
                r,
            ) && *s == started && *final(s) == after,
    ensures
        token.refresh_token matches Some(t) ==> (r matches Ok(LoginStep::Relogin(u)) && u.target_id
            == target_id && u.refresh_token == t && u.phase == ReloginPhase::Disabling),
        token.refresh_token is None ==> r == Ok::<LoginStep, AdminServiceError>(
            LoginStep::Answer(PollIdcLoginResponse::Success { credential_id: target_id }),
        ),
        !idc(after).dom().contains(session_id@),
{
}

/// A login goes on while the upstream has nothing new, also after a question that
/// has failed; it is over once the code has ended. Other logins are not touched.
pub proof fn a_login_goes_on_until_it_is_answered(
    before: AdminService,
    pending: AdminService,
    expired: AdminService,
    failed: AdminService,
    id: &str,
    q: IdcQuestion,
    message: String,
    now: Timestamp,
    waiting: Result<LoginStep, AdminServiceError>,
    over: Result<LoginStep, AdminServiceError>,
    error: Result<LoginStep, AdminServiceError>,
)
    requires
        exists|s: &mut AdminService| #[trigger]
            call_ensures(
                AdminService::idc_answered_at,
                (s, id, q, IdcAnswer::Pending, &now),
                waiting,
            ) && *s == before && *final(s) == pending,
        exists|s: &mut AdminService| #[trigger]
            call_ensures(
                AdminService::idc_answered_at,
                (s, id, q, IdcAnswer::Expired, &now),
                over,
            ) && *s == before && *final(s) == expired,
        exists|s: &mut AdminService| #[trigger]
            call_ensures(
                AdminService::idc_answered_at,
                (s, id, q, IdcAnswer::Error(message), &now),
                error,
            ) && *s == before && *final(s) == failed,
    ensures
        waiting == Ok::<LoginStep, AdminServiceError>(
            LoginStep::Answer(PollIdcLoginResponse::Pending),
        ),
        idc(pending) == idc(before),
        over == Ok::<LoginStep, AdminServiceError>(
            LoginStep::Answer(PollIdcLoginResponse::Expired),
        ),
        idc(expired) == idc(before).remove(id@),
        error matches Err(e) && e@ == ErrorView::Internal(message@),
        idc(failed) == idc(before),
        pending.social_sessions == before.social_sessions,
        expired.social_sessions == before.social_sessions,
        failed.social_sessions == before.social_sessions,
{
}

/// A login that is not there is not found, and one that has ended is not asked for
/// any more. A code that could not be had starts no login.
pub proof fn only_a_running_login_is_asked_for(
    service: AdminService,
    id: &str,
    now: Timestamp,
    r: Result<IdcPoll, AdminServiceError>,
    before: AdminService,
    after: AdminService,
    a: IdcAuthorization,
    message: String,
    session_id: String,
    refused: Result<StartIdcLoginResponse, AdminServiceError>,
)
    requires
        call_ensures(AdminService::poll_idc_login_at, (&service, id, &now), r),
        exists|s: &mut AdminService| #[trigger]
            call_ensures(
                AdminService::idc_device_authorized_at,
                (s, a, Err(message), session_id, &now),
                refused,
            ) && *s == before && *final(s) == after,
    ensures
        !idc(service).dom().contains(id@) ==> (r matches Err(e) && e@.status() == 404),
        idc(service).dom().contains(id@) && now.at_or_after(idc(service)[id@].0) ==> r == Ok::<
            IdcPoll,
            AdminServiceError,
        >(IdcPoll::Expired),
        idc(service).dom().contains(id@) && !now.at_or_after(idc(service)[id@].0) ==> (r matches Ok(
            IdcPoll::Ask(_),
        )),
        refused matches Err(e) && e@ == ErrorView::Internal(message@),
        idc(after) == idc(before),
{
}

/// At the moment of the call too a login starts with what the upstream has given, goes on
/// while it has nothing new, and ends with the credential that was asked for.
pub proof fn a_login_is_kept_up_now(
    before: AdminService,
    started: AdminService,
    a: IdcAuthorization,
    device: DeviceAuthorization,
    start: Option<Result<StartIdcLoginResponse, AdminServiceError>>,
    service: AdminService,
    id: &str,
    poll: Result<IdcPoll, AdminServiceError>,
    waiting: AdminService,
    q: IdcQuestion,
    pending: Option<Result<LoginStep, AdminServiceError>>,
    granted: AdminService,
    token: IdcToken,
    r: Option<Result<LoginStep, AdminServiceError>>,
)
    requires
        exists|s: &mut AdminService| #[trigger]
            call_ensures(AdminService::idc_device_authorized, (s, a, Ok(device)), start) && *s
                == before && *final(s) == started,
        call_ensures(AdminService::poll_idc_login, (&service, id), poll),
        exists|s: &mut AdminService| #[trigger]
            call_ensures(AdminService::idc_answered, (s, id, q, IdcAnswer::Pending), pending) && *s
                == service && *final(s) == waiting,
        exists|s: &mut AdminService| #[trigger]
            call_ensures(AdminService::idc_answered, (s, id, q, IdcAnswer::Success(token)), r) && *s
                == service && *final(s) == granted,
    ensures
        start is None ==> idc(started) == idc(before),
        start matches Some(s) ==> (s matches Ok(answer) && {
            &&& answer.user_code == device.user_code
            &&& answer.verification_uri == device.verification_uri
            &&& answer.verification_uri_complete == device.verification_uri_complete
            &&& is_uuid_v4(answer.session_id@)
            &&& idc(started).dom().contains(answer.session_id@)
            &&& idc(started)[answer.session_id@].1.device_code == device.device_code
            &&& idc(started)[answer.session_id@].1.client_id == a.client.client_id
            &&& idc(started)[answer.session_id@].1.proxy == a.login.proxy
            &&& idc(started) == idc(before).insert(
                answer.session_id@,
                idc(started)[answer.session_id@],
            )
        }),
        !idc(service).dom().contains(id@) ==> (poll matches Err(e) && e@.status() == 404),
        poll matches Ok(IdcPoll::Ask(question)) ==> question.device_code == idc(
            service,
        )[id@].1.device_code && question.region == idc(service)[id@].1.region,
        pending == Some(
            Ok::<LoginStep, AdminServiceError>(LoginStep::Answer(PollIdcLoginResponse::Pending)),
        ),
        idc(waiting) == idc(service),
        q.relogin_target_id is None && token.expires_in is None ==> (r matches Some(Ok(
            LoginStep::Add(cred),
        )) && cred.access_token == Some(token.access_token) && cred.refresh_token
            == token.refresh_token && cred.proxy_url == q.cred_template.proxy_url && cred.email
            == q.cred_template.email && cred.priority == q.cred_template.priority)
            && !idc(granted).dom().contains(id@),
        q.relogin_target_id matches Some(target) ==> token.refresh_token matches Some(t) ==> (
        r matches Some(Ok(LoginStep::Relogin(u))) && u.target_id == target && u.refresh_token == t),
{
}

} // verus!
