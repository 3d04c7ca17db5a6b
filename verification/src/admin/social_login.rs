//! Logins with a social account.
//!
//! The user logs in on a page of the upstream, which sends the browser back with
//! a code: to a local address that the gateway serves for the login, or to the
//! public address of the gateway if the request names one. The code is exchanged
//! for tokens, and these make a new credential or replace the tokens of one that
//! is there.

use vstd::prelude::*;
use vstd::utf8::encode_utf8;

use crate::admin::error::{AdminServiceError, ErrorView};
use crate::admin::relogin::{
    do_relogin_update, end_text, ends_at, starting_relogin, LoginStep, ReloginPhase,
};
use crate::admin::service::AdminService;
use crate::admin::types::{
    PollIdcLoginResponse, StartSocialLoginRequest, StartSocialLoginResponse,
};
use crate::clock::{rfc3339, utc_now, Timestamp};
use crate::encoding::{fresh_uuid, is_uuid_v4, percent_encode, percent_encoded};
use crate::http_client::{choose_proxy, is_proxy_for, ProxyConfig};
use crate::kiro::model::credentials::{blank_credentials, KiroCredentials};
use crate::kiro::token_manager::ManagerSnapshot;
use crate::numbers::{decimal, write_decimal};
use crate::text::{same_text, view_opt};

verus! {

/// How many seconds a login with a social account may take.
pub const SOCIAL_LOGIN_SECS: i64 = 600;

/// What a session of a login with a social account holds.
#[derive(Debug)]
pub struct SocialAuthSession {
    /// Where to log in.
    pub auth_endpoint: String,
    /// What the browser has to bring back.
    pub state: String,
    /// The secret that proves who started the login.
    pub code_verifier: String,
    /// The address that the browser is sent to.
    pub redirect_uri: String,
    /// Whether that address is a local one, served for this login alone.
    pub local_callback: bool,
    /// What is known of the new credential.
    pub cred_template: KiroCredentials,
    /// The proxy that the login goes through.
    pub proxy: Option<ProxyConfig>,
    /// The credential that gets the new tokens, if none is to be added.
    pub relogin_target_id: Option<u64>,
}

/// A secret, and what proves that one knows it.
#[derive(Debug)]
pub struct Pkce {
    /// The secret.
    pub code_verifier: String,
    /// What proves it.
    pub code_challenge: String,
}

/// A login with a social account that is about to start. The page to log in on
/// follows from the state, the challenge and the address that the browser is sent
/// to.
#[derive(Debug)]
pub struct SocialLogin {
    /// What the session will hold.
    pub session: SocialAuthSession,
    /// What proves the secret.
    pub code_challenge: String,
}

/// Where the browser is sent to.
#[derive(Debug)]
pub enum CallbackPlan {
    /// To the public address of the gateway: no port is opened.
    Remote(String),
    /// To a local address: a port is opened.
    Local,
}

/// What the browser brings back.
#[derive(Debug)]
pub struct OAuthCallbackData {
    /// The code.
    pub code: String,
    /// The way that the user has chosen.
    pub login_option: String,
    /// The path that the browser was sent to.
    pub path: String,
    /// What it had to bring back.
    pub state: String,
}

/// Whether the browser has come back.
#[derive(Debug)]
pub enum CallbackState {
    /// Not yet.
    Pending,
    /// Nobody waits for it any more.
    Closed,
    /// It has.
    Received(OAuthCallbackData),
}

/// What a question for the state of a login means.
#[derive(Debug, Clone, Copy, PartialEq, Eq, Structural)]
pub enum SocialPoll {
    /// The session has ended.
    Expired,
    /// Look whether the browser has come back to the local address.
    CheckCallback,
    /// The browser comes back to the public address, and what it brings is
    /// handed over by hand: until then nothing happens.
    AwaitCompletion,
}

/// The exchange of a code for tokens.
#[derive(Debug)]
pub struct SocialExchange {
    /// Where to exchange it.
    pub auth_endpoint: String,
    /// The code.
    pub code: String,
    /// The secret.
    pub code_verifier: String,
    /// The whole address that the browser was sent to.
    pub redirect_uri: String,
    /// The proxy that the exchange goes through.
    pub proxy: Option<ProxyConfig>,
    /// What is known of the new credential.
    pub cred_template: KiroCredentials,
    /// The credential that gets the new tokens, if none is to be added.
    pub relogin_target_id: Option<u64>,
}

/// What follows in a login with a social account.
#[derive(Debug)]
pub enum SocialStep {
    /// The answer is known.
    Answer(PollIdcLoginResponse),
    /// The code is exchanged for tokens.
    Exchange(SocialExchange),
}

/// The tokens of a social account.
#[derive(Debug)]
pub struct SocialToken {
    /// The access token.
    pub access_token: String,
    /// The refresh token.
    pub refresh_token: Option<String>,
    /// When the access token ends.
    pub expires_at: Option<String>,
    /// After how many seconds the access token ends.
    pub expires_in: Option<i64>,
    /// The profile.
    pub profile_arn: Option<String>,
}

/// Whether this is what is known of a credential before the login.
pub open spec fn is_social_template(cred: KiroCredentials, req: StartSocialLoginRequest) -> bool {
    &&& view_opt(cred.auth_method) == Some("social"@)
    &&& cred == (KiroCredentials {
        auth_method: cred.auth_method,
        priority: req.priority,
        email: req.email,
        proxy_url: req.proxy_url,
        ..blank_credentials()
    })
}

/// The address that the browser is sent to: the public address of the gateway,
/// or a local one on the port that was opened, if it could be.
pub open spec fn callback_address(base: Option<String>, port: Result<u16, String>) -> Result<
    Seq<char>,
    ErrorView,
> {
    match (base, port) {
        (Some(b), _) => Ok(b@),
        (None, Ok(p)) => Ok("http://127.0.0.1:"@ + decimal(p as nat)),
        (None, Err(e)) => Err(ErrorView::Internal(e@)),
    }
}

/// Whether this is the login that a request asks for.
pub open spec fn is_social_login(
    login: SocialLogin,
    req: StartSocialLoginRequest,
    global_proxy: Option<ProxyConfig>,
    default_endpoint: Seq<char>,
    pkce: Pkce,
    port: Result<u16, String>,
    target: Option<u64>,
) -> bool {
    let s = login.session;
    &&& s.auth_endpoint@ == match req.auth_endpoint {
        Some(e) => e@,
        None => default_endpoint,
    }
    &&& s.code_verifier == pkce.code_verifier
    &&& login.code_challenge == pkce.code_challenge
    &&& callback_address(req.callback_base_url, port) == Ok::<Seq<char>, ErrorView>(
        s.redirect_uri@,
    )
    &&& s.local_callback == (req.callback_base_url is None)
    &&& is_proxy_for(s.proxy, req.proxy_url, global_proxy)
    &&& s.relogin_target_id == target
    &&& match target {
        Some(_) => s.cred_template == blank_credentials(),
        None => is_social_template(s.cred_template, req),
    }
}

fn local_address(port: u16) -> (r: String)
    ensures
        r@ == "http://127.0.0.1:"@ + decimal(port as nat),
{
    let mut out = "http://127.0.0.1:".to_string();
    out.append(write_decimal(port as u64).as_str());
    out
}

fn prepare_login(
    req: StartSocialLoginRequest,
    global_proxy: Option<ProxyConfig>,
    default_endpoint: &str,
    pkce: Pkce,
    state: String,
    port: Result<u16, String>,
    target: Option<u64>,
) -> (r: Result<SocialLogin, AdminServiceError>)
    ensures
        match callback_address(req.callback_base_url, port) {
            Ok(_) => r matches Ok(login) && login.session.state == state && is_social_login(
                login,
                req,
                global_proxy,
                default_endpoint@,
                pkce,
                port,
                target,
            ),
            Err(e) => r matches Err(f) && f@ == e,
        },
{
    let local_callback = req.callback_base_url.is_none();
    let redirect_uri = match req.callback_base_url {
        Some(base) => base,
        None => match port {
            Ok(p) => local_address(p),
            Err(e) => return Err(AdminServiceError::InternalError(e)),
        },
    };
    let proxy = choose_proxy(&req.proxy_url, global_proxy);
    let auth_endpoint = match req.auth_endpoint {
        Some(e) => e,
        None => default_endpoint.to_string(),
    };
    let cred_template = match target {
        Some(_) => KiroCredentials::default(),
        None => KiroCredentials {
            auth_method: Some("social".to_string()),
            priority: req.priority,
            email: req.email,
            proxy_url: req.proxy_url,
            ..KiroCredentials::default()
        },
    };
    Ok(
        SocialLogin {
            session: SocialAuthSession {
                auth_endpoint,
                state,
                code_verifier: pkce.code_verifier,
                redirect_uri,
                local_callback,
                cred_template,
                proxy,
                relogin_target_id: target,
            },
            code_challenge: pkce.code_challenge,
        },
    )
}

/// The address that the browser was sent to, whole: with the path, and
/// with the way that the user has chosen.
pub open spec fn full_redirect(
    redirect_uri: Seq<char>,
    path: Seq<char>,
    login_option: Seq<char>,
) -> Seq<char> {
    if login_option.len() == 0 {
        redirect_uri + path
    } else {
        redirect_uri + path + "?login_option="@ + percent_encoded(encode_utf8(login_option))
    }
}

/// Whether this is the exchange that follows when the browser has come back to a
/// session.
pub open spec fn is_exchange(
    x: SocialExchange,
    s: SocialAuthSession,
    callback: OAuthCallbackData,
) -> bool {
    &&& x.auth_endpoint == s.auth_endpoint
    &&& x.code == callback.code
    &&& x.code_verifier == s.code_verifier
    &&& x.redirect_uri@ == full_redirect(s.redirect_uri@, callback.path@, callback.login_option@)
    &&& x.proxy == s.proxy
    &&& x.cred_template == s.cred_template
    &&& x.relogin_target_id == s.relogin_target_id
}

/// The sessions of a service.
pub open spec fn social(service: AdminService) -> Map<Seq<char>, (Timestamp, SocialAuthSession)> {
    service.social_sessions@
}

/// What a service answers, and what becomes of its sessions, when the browser
/// comes back. A session takes only what it was started with: anything else is
/// refused and leaves the session. A session that is taken is gone.
pub open spec fn completes(
    before: Map<Seq<char>, (Timestamp, SocialAuthSession)>,
    after: Map<Seq<char>, (Timestamp, SocialAuthSession)>,
    id: Seq<char>,
    callback: OAuthCallbackData,
    r: Result<SocialStep, AdminServiceError>,
) -> bool {
    if !before.dom().contains(id) {
        &&& r matches Err(e) && e@ == ErrorView::NotFound(0)
        &&& after == before
    } else if callback.state@ != before[id].1.state@ {
        &&& r matches Err(e) && e@ == ErrorView::Internal("OAuth state 不匹配，请重新发起登录"@)
        &&& after == before
    } else {
        &&& r matches Ok(SocialStep::Exchange(x)) && is_exchange(x, before[id].1, callback)
        &&& after == before.remove(id)
    }
}

/// What a service says, and what becomes of its sessions, when it is asked for
/// the state of a login. A session that has ended is gone.
pub open spec fn polls(
    before: Map<Seq<char>, (Timestamp, SocialAuthSession)>,
    after: Map<Seq<char>, (Timestamp, SocialAuthSession)>,
    id: Seq<char>,
    now: Timestamp,
    r: Result<SocialPoll, AdminServiceError>,
) -> bool {
    if !before.dom().contains(id) {
        &&& r matches Err(e) && e@ == ErrorView::NotFound(0)
        &&& after == before
    } else if now.at_or_after(before[id].0) {
        &&& r == Ok::<SocialPoll, AdminServiceError>(SocialPoll::Expired)
        &&& after == before.remove(id)
    } else {
        &&& r == Ok::<SocialPoll, AdminServiceError>(
            if before[id].1.local_callback {
                SocialPoll::CheckCallback
            } else {
                SocialPoll::AwaitCompletion
            },
        )
        &&& after == before
    }
}

/// What a service answers, and what becomes of its sessions, when a user brings
/// by hand what the browser has brought back. A session that has ended cannot be
/// taken.
pub open spec fn completes_by_hand(
    before: Map<Seq<char>, (Timestamp, SocialAuthSession)>,
    after: Map<Seq<char>, (Timestamp, SocialAuthSession)>,
    id: Seq<char>,
    callback: OAuthCallbackData,
    now: Timestamp,
    r: Result<SocialStep, AdminServiceError>,
) -> bool {
    if before.dom().contains(id) && now.at_or_after(before[id].0) {
        &&& r == Ok::<SocialStep, AdminServiceError>(
            SocialStep::Answer(PollIdcLoginResponse::Expired),
        )
        &&& after == before
    } else {
        completes(before, after, id, callback, r)
    }
}

/// What a service answers, and what becomes of its sessions, when a login
/// starts.
pub open spec fn starts_social(
    before: Map<Seq<char>, (Timestamp, SocialAuthSession)>,
    after: Map<Seq<char>, (Timestamp, SocialAuthSession)>,
    login: SocialLogin,
    portal_url: String,
    id: Seq<char>,
    now: Timestamp,
    r: StartSocialLoginResponse,
) -> bool {
    &&& after == before.insert(id, (now.later(SOCIAL_LOGIN_SECS).unwrap(), login.session))
    &&& r.session_id@ == id
    &&& r.portal_url == portal_url
    &&& r.expires_at@ == end_text(now, SOCIAL_LOGIN_SECS)
}

/// What a service answers, and what becomes of its sessions, when a login is to
/// start: nothing, if the calendar cannot tell when it ends.
pub open spec fn tries_social(
    before: Map<Seq<char>, (Timestamp, SocialAuthSession)>,
    after: Map<Seq<char>, (Timestamp, SocialAuthSession)>,
    login: SocialLogin,
    portal_url: String,
    id: Seq<char>,
    now: Timestamp,
    r: Option<StartSocialLoginResponse>,
) -> bool {
    match now.later(SOCIAL_LOGIN_SECS) {
        Some(_) => r matches Some(answer) && starts_social(
            before,
            after,
            login,
            portal_url,
            id,
            now,
            answer,
        ),
        None => r is None && after == before,
    }
}

/// Whether the end of a token can be told: it is given, or it follows from now.
pub open spec fn end_can_be_told(token: SocialToken, now: Timestamp) -> bool {
    token.expires_at is None && token.expires_in is Some ==> now.later(
        token.expires_in.unwrap(),
    ) is Some
}

/// Whether this is the credential that the tokens of a social account make.
pub open spec fn is_social_credential(
    cred: KiroCredentials,
    template: KiroCredentials,
    token: SocialToken,
    now: Timestamp,
) -> bool {
    &&& cred == (KiroCredentials {
        access_token: Some(token.access_token),
        refresh_token: token.refresh_token,
        expires_at: cred.expires_at,
        profile_arn: match token.profile_arn {
            Some(arn) => Some(arn),
            None => template.profile_arn,
        },
        ..template
    })
    &&& view_opt(cred.expires_at) == match token.expires_at {
        Some(e) => Some(e@),
        None => match token.expires_in {
            Some(seconds) => Some(end_text(now, seconds)),
            None => None,
        },
    }
}

/// What follows once a code was exchanged, or could not be.
pub open spec fn exchanged(
    x: SocialExchange,
    outcome: Result<SocialToken, String>,
    now: Timestamp,
    r: Result<LoginStep, AdminServiceError>,
) -> bool {
    match outcome {
        Err(e) => r matches Err(f) && f@ == ErrorView::Internal(e@),
        Ok(token) => match x.relogin_target_id {
            Some(target) => match token.refresh_token {
                Some(t) => r == Ok::<LoginStep, AdminServiceError>(
                    LoginStep::Relogin(starting_relogin(target, t)),
                ),
                None => r matches Err(f) && f@ == ErrorView::Internal(
                    "Social 登录未返回 refreshToken，无法更新凭据"@,
                ),
            },
            None => r matches Ok(LoginStep::Add(cred)) && is_social_credential(
                cred,
                x.cred_template,
                token,
                now,
            ),
        },
    }
}

/// Whether the end of the tokens of an exchange can be told, where it has to be.
pub open spec fn exchange_can_be_told(
    x: SocialExchange,
    outcome: Result<SocialToken, String>,
    now: Timestamp,
) -> bool {
    x.relogin_target_id is None && outcome is Ok ==> end_can_be_told(outcome->Ok_0, now)
}

/// Says what follows once a code was exchanged, or could not be.
pub fn social_token_received_at(
    x: SocialExchange,
    outcome: Result<SocialToken, String>,
    now: &Timestamp,
) -> (r: Result<LoginStep, AdminServiceError>)
    requires
        now.wf(),
        exchange_can_be_told(x, outcome, *now),
    ensures
        exchanged(x, outcome, *now, r),
{
    let token = match outcome {
        Ok(token) => token,
        Err(e) => return Err(AdminServiceError::InternalError(e)),
    };
    match x.relogin_target_id {
        Some(target) => match token.refresh_token {
            Some(t) => Ok(LoginStep::Relogin(do_relogin_update(target, t))),
            None => Err(
                AdminServiceError::InternalError(
                    "Social 登录未返回 refreshToken，无法更新凭据".to_string(),
                ),
            ),
        },
        None => {
            let mut cred = x.cred_template;
            cred.access_token = Some(token.access_token);
            cred.refresh_token = token.refresh_token;
            cred.expires_at = match token.expires_at {
                Some(e) => Some(e),
                None => match token.expires_in {
                    Some(seconds) => Some(ends_at(now, seconds)),
                    None => None,
                },
            };
            if let Some(arn) = token.profile_arn {
                cred.profile_arn = Some(arn);
            }
            Ok(LoginStep::Add(cred))
        },
    }
}

/// Says what follows now that a code was exchanged, or could not be. Nothing
/// follows if the calendar cannot tell when the access token ends.
pub fn social_token_received(x: SocialExchange, outcome: Result<SocialToken, String>) -> (r: Option<
    Result<LoginStep, AdminServiceError>,
>)
    ensures
        exists|now: Timestamp|
            now.wf() && #[trigger] exchange_can_be_told(x, outcome, now) == (r is Some) && (
            r matches Some(step) ==> exchanged(x, outcome, now, step)),
{
    let now = utc_now();
    if x.relogin_target_id.is_none() {
        if let Ok(token) = &outcome {
            if token.expires_at.is_none() {
                if let Some(seconds) = token.expires_in {
                    if now.plus_seconds(seconds).is_none() {
                        assert(!exchange_can_be_told(x, outcome, now));
                        return None;
                    }
                }
            }
        }
    }
    assert(exchange_can_be_told(x, outcome, now));
    Some(social_token_received_at(x, outcome, &now))
}

impl AdminService {
    /// The service with other sessions of social accounts.
    pub open spec fn with_social(self, other: AdminService) -> AdminService {
        AdminService { social_sessions: other.social_sessions, ..self }
    }

    /// Says where the browser is sent to, before a port is opened.
    pub fn social_callback(&self, req: &StartSocialLoginRequest) -> (r: CallbackPlan)
        ensures
            match req.callback_base_url {
                Some(b) => r matches CallbackPlan::Remote(u) && u@ == b@,
                None => r is Local,
            },
    {
        match &req.callback_base_url {
            Some(base) => CallbackPlan::Remote(base.clone()),
            None => CallbackPlan::Local,
        }
    }

    /// Prepares a login with a social account, with what the browser has to
    /// bring back. The port is that of the local address; where the request names
    /// the public address, it does not matter.
    pub fn start_social_login_with(
        &self,
        req: StartSocialLoginRequest,
        global_proxy: Option<ProxyConfig>,
        default_endpoint: &str,
        pkce: Pkce,
        state: String,
        port: Result<u16, String>,
    ) -> (r: Result<SocialLogin, AdminServiceError>)
        ensures
            match callback_address(req.callback_base_url, port) {
                Ok(_) => r matches Ok(login) && login.session.state == state && is_social_login(
                    login,
                    req,
                    global_proxy,
                    default_endpoint@,
                    pkce,
                    port,
                    None,
                ),
                Err(e) => r matches Err(f) && f@ == e,
            },
    {
        prepare_login(req, global_proxy, default_endpoint, pkce, state, port, None)
    }

    /// Prepares a login with a social account. What the browser has to bring
    /// back is a random number.
    pub fn start_social_login(
        &self,
        req: StartSocialLoginRequest,
        global_proxy: Option<ProxyConfig>,
        default_endpoint: &str,
        pkce: Pkce,
        port: Result<u16, String>,
    ) -> (r: Result<SocialLogin, AdminServiceError>)
        ensures
            match callback_address(req.callback_base_url, port) {
                Ok(_) => r matches Ok(login) && is_uuid_v4(login.session.state@)
                    && is_social_login(
                    login,
                    req,
                    global_proxy,
                    default_endpoint@,
                    pkce,
                    port,
                    None,
                ),
                Err(e) => r matches Err(f) && f@ == e,
            },
    {
        let state = fresh_uuid();
        self.start_social_login_with(req, global_proxy, default_endpoint, pkce, state, port)
    }

    /// Checks that there is a credential that can be logged in again.
    pub fn check_relogin_target(&self, snapshot: &ManagerSnapshot, target_id: u64) -> (r: Result<
        (),
        AdminServiceError,
    >)
        ensures
            if snapshot.knows(target_id) {
                r is Ok
            } else {
                r matches Err(e) && e@ == ErrorView::NotFound(target_id)
            },
    {
        if snapshot.has_credential(target_id) {
            Ok(())
        } else {
            Err(AdminServiceError::NotFound { id: target_id })
        }
    }

    /// Prepares a login with a social account that gives a credential new
    /// tokens, with what the browser has to bring back.
    pub fn start_social_relogin_with(
        &self,
        snapshot: &ManagerSnapshot,
        target_id: u64,
        req: StartSocialLoginRequest,
        global_proxy: Option<ProxyConfig>,
        default_endpoint: &str,
        pkce: Pkce,
        state: String,
        port: Result<u16, String>,
    ) -> (r: Result<SocialLogin, AdminServiceError>)
        ensures
            if !snapshot.knows(target_id) {
                r matches Err(e) && e@ == ErrorView::NotFound(target_id)
            } else {
                match callback_address(req.callback_base_url, port) {
                    Ok(_) => r matches Ok(login) && login.session.state == state
                        && is_social_login(
                        login,
                        req,
                        global_proxy,
                        default_endpoint@,
                        pkce,
                        port,
                        Some(target_id),
                    ),
                    Err(e) => r matches Err(f) && f@ == e,
                }
            },
    {
        match self.check_relogin_target(snapshot, target_id) {
            Ok(()) => {},
            Err(e) => return Err(e),
        }
        prepare_login(req, global_proxy, default_endpoint, pkce, state, port, Some(target_id))
    }

    /// Prepares a login with a social account that gives a credential new
    /// tokens. What the browser has to bring back is a random number.
    pub fn start_social_relogin(
        &self,
        snapshot: &ManagerSnapshot,
        target_id: u64,
        req: StartSocialLoginRequest,
        global_proxy: Option<ProxyConfig>,
        default_endpoint: &str,
        pkce: Pkce,
        port: Result<u16, String>,
    ) -> (r: Result<SocialLogin, AdminServiceError>)
        ensures
            if !snapshot.knows(target_id) {
                r matches Err(e) && e@ == ErrorView::NotFound(target_id)
            } else {
                match callback_address(req.callback_base_url, port) {
                    Ok(_) => r matches Ok(login) && is_uuid_v4(login.session.state@)
                        && is_social_login(
                        login,
                        req,
                        global_proxy,
                        default_endpoint@,
                        pkce,
                        port,
                        Some(target_id),
                    ),
                    Err(e) => r matches Err(f) && f@ == e,
                }
            },
    {
        let state = fresh_uuid();
        self.start_social_relogin_with(
            snapshot,
            target_id,
            req,
            global_proxy,
            default_endpoint,
            pkce,
            state,
            port,
        )
    }

    /// Starts a login with a social account under a name.
    pub fn social_login_started_at(
        &mut self,
        login: SocialLogin,
        portal_url: String,
        session_id: String,
        now: &Timestamp,
    ) -> (r: StartSocialLoginResponse)
        requires
            old(self).wf(),
            now.wf(),
            now.later(SOCIAL_LOGIN_SECS) is Some,
        ensures
            final(self).wf(),
            starts_social(
                social(*old(self)),
                social(*final(self)),
                login,
                portal_url,
                session_id@,
                *now,
                r,
            ),
            *final(self) == old(self).with_social(*final(self)),
    {
        let expires_at = match now.plus_seconds(SOCIAL_LOGIN_SECS) {
            Some(t) => t,
            None => {
                assert(false);
                *now
            },
        };
        let answer_id = session_id.clone();
        self.social_sessions.insert(session_id, expires_at, login.session);
        StartSocialLoginResponse {
            session_id: answer_id,
            portal_url,
            expires_at: expires_at.to_rfc3339(),
        }
    }

    /// Starts a login with a social account now, under a random name. Nothing
    /// starts if the calendar cannot tell when it ends.
    pub fn social_login_started(&mut self, login: SocialLogin, portal_url: String) -> (r: Option<
        StartSocialLoginResponse,
    >)
        requires
            old(self).wf(),
        ensures
            final(self).wf(),
            exists|now: Timestamp, id: Seq<char>|
                now.wf() && is_uuid_v4(id) && #[trigger] tries_social(
                    social(*old(self)),
                    social(*final(self)),
                    login,
                    portal_url,
                    id,
                    now,
                    r,
                ),
            *final(self) == old(self).with_social(*final(self)),
    {
        let now = utc_now();
        let session_id = fresh_uuid();
        let ghost id = session_id@;
        if now.plus_seconds(SOCIAL_LOGIN_SECS).is_none() {
            assert(tries_social(
                social(*old(self)),
                social(*self),
                login,
                portal_url,
                id,
                now,
                None,
            ));
            return None;
        }
        let answer = self.social_login_started_at(login, portal_url, session_id, &now);
        assert(tries_social(
            social(*old(self)),
            social(*self),
            login,
            portal_url,
            id,
            now,
            Some(answer),
        ));
        Some(answer)
    }

    /// Says what a question for the state of a login means at a point in time.
    pub fn poll_social_login_at(&mut self, session_id: &str, now: &Timestamp) -> (r: Result<
        SocialPoll,
        AdminServiceError,
    >)
        requires
            old(self).wf(),
        ensures
            final(self).wf(),
            polls(social(*old(self)), social(*final(self)), session_id@, *now, r),
            *final(self) == old(self).with_social(*final(self)),
    {
        let (ended, local) = match self.social_sessions.get(session_id) {
            Some(slot) => (now.is_at_or_after(&slot.expires_at), slot.session.local_callback),
            None => return Err(AdminServiceError::NotFound { id: 0 }),
        };
        if ended {
            let gone = self.social_sessions.remove(session_id);
            Ok(SocialPoll::Expired)
        } else if !local {
            Ok(SocialPoll::AwaitCompletion)
        } else {
            Ok(SocialPoll::CheckCallback)
        }
    }

    /// Says what a question for the state of a login means now.
    pub fn poll_social_login(&mut self, session_id: &str) -> (r: Result<
        SocialPoll,
        AdminServiceError,
    >)
        requires
            old(self).wf(),
        ensures
            final(self).wf(),
            exists|now: Timestamp|
                now.wf() && #[trigger] polls(
                    social(*old(self)),
                    social(*final(self)),
                    session_id@,
                    now,
                    r,
                ),
            *final(self) == old(self).with_social(*final(self)),
    {
        let now = utc_now();
        self.poll_social_login_at(session_id, &now)
    }

    /// Goes on with whether the browser has come back.
    pub fn social_callback_checked(&mut self, session_id: &str, callback: CallbackState) -> (r:
        Result<SocialStep, AdminServiceError>)
        requires
            old(self).wf(),
        ensures
            final(self).wf(),
            match callback {
                CallbackState::Pending => {
                    &&& r == Ok::<SocialStep, AdminServiceError>(
                        SocialStep::Answer(PollIdcLoginResponse::Pending),
                    )
                    &&& social(*final(self)) == social(*old(self))
                },
                CallbackState::Closed => {
                    &&& r matches Err(e) && e@ == ErrorView::Internal(
                        "Social 登录回调服务器已关闭，请重新发起登录"@,
                    )
                    &&& social(*final(self)) == social(*old(self)).remove(session_id@)
                },
                CallbackState::Received(data) => completes(
                    social(*old(self)),
                    social(*final(self)),
                    session_id@,
                    data,
                    r,
                ),
            },
            *final(self) == old(self).with_social(*final(self)),
    {
        match callback {
            CallbackState::Pending => Ok(SocialStep::Answer(PollIdcLoginResponse::Pending)),
            CallbackState::Closed => {
                let gone = self.social_sessions.remove(session_id);
                Err(
                    AdminServiceError::InternalError(
                        "Social 登录回调服务器已关闭，请重新发起登录".to_string(),
                    ),
                )
            },
            CallbackState::Received(data) => self.do_complete_social_login(session_id, data),
        }
    }

    /// Takes what the browser has brought back to a session.
    pub fn do_complete_social_login(&mut self, session_id: &str, callback: OAuthCallbackData) -> (r:
        Result<SocialStep, AdminServiceError>)
        requires
            old(self).wf(),
        ensures
            final(self).wf(),
            completes(social(*old(self)), social(*final(self)), session_id@, callback, r),
            *final(self) == old(self).with_social(*final(self)),
    {
        match self.social_sessions.get(session_id) {
            Some(slot) => {
                if !same_text(callback.state.as_str(), slot.session.state.as_str()) {
                    return Err(
                        AdminServiceError::InternalError(
                            "OAuth state 不匹配，请重新发起登录".to_string(),
                        ),
                    );
                }
            },
            None => return Err(AdminServiceError::NotFound { id: 0 }),
        }
        match self.social_sessions.remove(session_id) {
            Some(slot) => {
                let s = slot.session;
                let mut redirect_uri = s.redirect_uri;
                redirect_uri.append(callback.path.as_str());
                if !callback.login_option.as_str().is_empty() {
                    redirect_uri.append("?login_option=");
                    redirect_uri.append(percent_encode(callback.login_option.as_str()).as_str());
                }
                Ok(
                    SocialStep::Exchange(
                        SocialExchange {
                            auth_endpoint: s.auth_endpoint,
                            code: callback.code,
                            code_verifier: s.code_verifier,
                            redirect_uri,
                            proxy: s.proxy,
                            cred_template: s.cred_template,
                            relogin_target_id: s.relogin_target_id,
                        },
                    ),
                )
            },
            None => Err(AdminServiceError::NotFound { id: 0 }),
        }
    }

    /// Takes by hand, at a point in time, what the browser has brought back.
    pub fn complete_social_login_at(
        &mut self,
        session_id: &str,
        code: String,
        state: String,
        login_option: String,
        path: String,
        now: &Timestamp,
    ) -> (r: Result<SocialStep, AdminServiceError>)
        requires
            old(self).wf(),
        ensures
            final(self).wf(),
            completes_by_hand(
                social(*old(self)),
                social(*final(self)),
                session_id@,
                (OAuthCallbackData { code, login_option, path, state }),
                *now,
                r,
            ),
            *final(self) == old(self).with_social(*final(self)),
    {
        match self.social_sessions.get(session_id) {
            Some(slot) => {
                if now.is_at_or_after(&slot.expires_at) {
                    return Ok(SocialStep::Answer(PollIdcLoginResponse::Expired));
                }
            },
            None => return Err(AdminServiceError::NotFound { id: 0 }),
        }
        self.do_complete_social_login(
            session_id,
            OAuthCallbackData { code, login_option, path, state },
        )
    }

    /// Takes by hand what the browser has brought back.
    pub fn complete_social_login(
        &mut self,
        session_id: &str,
        code: String,
        state: String,
        login_option: String,
        path: String,
    ) -> (r: Result<SocialStep, AdminServiceError>)
        requires
            old(self).wf(),
        ensures
            final(self).wf(),
            exists|now: Timestamp|
                now.wf() && #[trigger] completes_by_hand(
                    social(*old(self)),
                    social(*final(self)),
                    session_id@,
                    (OAuthCallbackData { code, login_option, path, state }),
                    now,
                    r,
                ),
            *final(self) == old(self).with_social(*final(self)),
    {
        let now = utc_now();
        self.complete_social_login_at(session_id, code, state, login_option, path, &now)
    }
}

/// Bringing back something else than a session was started with never gets
/// tokens, and the login can still be completed.
pub proof fn forged_callback_is_refused(
    before: Map<Seq<char>, (Timestamp, SocialAuthSession)>,
    after: Map<Seq<char>, (Timestamp, SocialAuthSession)>,
    id: Seq<char>,
    callback: OAuthCallbackData,
    r: Result<SocialStep, AdminServiceError>,
)
    requires
        completes(before, after, id, callback, r),
        before.dom().contains(id),
        callback.state@ != before[id].1.state@,
    ensures
        r is Err,
        after == before,
{
}

/// A code is exchanged at most once per session: after that the session is gone,
/// and bringing something back to it is answered as if it had never been.
pub proof fn session_is_taken_once(
    before: Map<Seq<char>, (Timestamp, SocialAuthSession)>,
    after: Map<Seq<char>, (Timestamp, SocialAuthSession)>,
    last: Map<Seq<char>, (Timestamp, SocialAuthSession)>,
    id: Seq<char>,
    first: OAuthCallbackData,
    second: OAuthCallbackData,
    r1: Result<SocialStep, AdminServiceError>,
    r2: Result<SocialStep, AdminServiceError>,
)
    requires
        completes(before, after, id, first, r1),
        r1 is Ok,
        completes(after, last, id, second, r2),
    ensures
        r2 matches Err(e) && e@ == ErrorView::NotFound(0),
{
}

/// A login that was started can be completed with what it was started with until
/// its time is over, and not after.
pub proof fn started_login_can_be_completed(
    before: Map<Seq<char>, (Timestamp, SocialAuthSession)>,
    started: Map<Seq<char>, (Timestamp, SocialAuthSession)>,
    after: Map<Seq<char>, (Timestamp, SocialAuthSession)>,
    login: SocialLogin,
    portal_url: String,
    id: Seq<char>,
    then: Timestamp,
    answer: StartSocialLoginResponse,
    callback: OAuthCallbackData,
    now: Timestamp,
    r: Result<SocialStep, AdminServiceError>,
)
    requires
        starts_social(before, started, login, portal_url, id, then, answer),
        callback.state@ == login.session.state@,
        completes_by_hand(started, after, id, callback, now, r),
    ensures
        if now.at_or_after(then.later(SOCIAL_LOGIN_SECS).unwrap()) {
            r == Ok::<SocialStep, AdminServiceError>(
                SocialStep::Answer(PollIdcLoginResponse::Expired),
            )
        } else {
            r matches Ok(SocialStep::Exchange(x)) && x.code == callback.code && x.code_verifier
                == login.session.code_verifier
        },
{
}

/// A login that gives a credential new tokens never adds a credential.
pub proof fn relogin_adds_no_credential(
    x: SocialExchange,
    outcome: Result<SocialToken, String>,
    now: Timestamp,
    r: Result<LoginStep, AdminServiceError>,
)
    requires
        exchanged(x, outcome, now, r),
        x.relogin_target_id is Some,
    ensures
        !(r matches Ok(LoginStep::Add(_))),
        r matches Ok(LoginStep::Relogin(u)) ==> u.target_id == x.relogin_target_id.unwrap(),
{
}

/// A login whose request names the public address of the gateway sends the
/// browser there, whatever became of a local port, and exchanges the code with
/// that address. Until it is completed by hand it waits, as long as its time is
/// not over.
pub proof fn remote_login_uses_the_public_address(
    before: Map<Seq<char>, (Timestamp, SocialAuthSession)>,
    started: Map<Seq<char>, (Timestamp, SocialAuthSession)>,
    polled: Map<Seq<char>, (Timestamp, SocialAuthSession)>,
    after: Map<Seq<char>, (Timestamp, SocialAuthSession)>,
    login: SocialLogin,
    req: StartSocialLoginRequest,
    base: String,
    global_proxy: Option<ProxyConfig>,
    default_endpoint: Seq<char>,
    pkce: Pkce,
    port: Result<u16, String>,
    target: Option<u64>,
    portal_url: String,
    id: Seq<char>,
    then: Timestamp,
    answer: StartSocialLoginResponse,
    now: Timestamp,
    poll: Result<SocialPoll, AdminServiceError>,
    callback: OAuthCallbackData,
    r: Result<SocialStep, AdminServiceError>,
)
    requires
        req.callback_base_url == Some(base),
        is_social_login(login, req, global_proxy, default_endpoint, pkce, port, target),
        starts_social(before, started, login, portal_url, id, then, answer),
        !now.at_or_after(then.later(SOCIAL_LOGIN_SECS).unwrap()),
        polls(started, polled, id, now, poll),
        callback.state@ == login.session.state@,
        completes_by_hand(polled, after, id, callback, now, r),
    ensures
        login.session.redirect_uri@ == base@,
        poll == Ok::<SocialPoll, AdminServiceError>(SocialPoll::AwaitCompletion),
        r matches Ok(SocialStep::Exchange(x)) && x.redirect_uri@ == full_redirect(
            base@,
            callback.path@,
            callback.login_option@,
        ),
{
}

/// A login with a social account from the request to the new credential: what the
/// request says of the credential is what the credential has, and the tokens come
/// from the upstream. On the way the code is exchanged with the secret of this login,
/// at the endpoint and through the proxy that the request names; where it names none,
/// the default endpoint and the proxy of all requests are taken.
pub proof fn a_login_adds_the_credential_that_was_asked_for(
    service: AdminService,
    req: StartSocialLoginRequest,
    global_proxy: Option<ProxyConfig>,
    default_endpoint: &str,
    pkce: Pkce,
    port: Result<u16, String>,
    login: SocialLogin,
    before: AdminService,
    started: AdminService,
    after: AdminService,
    portal_url: String,
    session_id: String,
    then: Timestamp,
    answer: StartSocialLoginResponse,
    id: &str,
    callback: OAuthCallbackData,
    step: Result<SocialStep, AdminServiceError>,
    token: SocialToken,
    now: Timestamp,
    r: Result<LoginStep, AdminServiceError>,
)
    requires
        call_ensures(
            AdminService::start_social_login,
            (&service, req, global_proxy, default_endpoint, pkce, port),
            Ok(login),
        ),
        then.wf() && then.later(600) is Some,
        exists|s: &mut AdminService| #[trigger]
            call_ensures(
                AdminService::social_login_started_at,
                (s, login, portal_url, session_id, &then),
                answer,
            ) && *s == before && *final(s) == started,
        id@ == session_id@,
        callback.state@ == login.session.state@,
        exists|s: &mut AdminService| #[trigger]
            call_ensures(AdminService::do_complete_social_login, (s, id, callback), step) && *s
                == started && *final(s) == after,
        step matches Ok(SocialStep::Exchange(x)) ==> call_ensures(
            social_token_received_at,
            (x, Ok(token), &now),
            r,
        ),
    ensures
        is_uuid_v4(login.session.state@),
        login.code_challenge == pkce.code_challenge,
        answer.session_id@ == session_id@,
        answer.portal_url@ == portal_url@,
        answer.expires_at@ == rfc3339((then.seconds + 600) as i64, then.nanos),
        step matches Ok(SocialStep::Exchange(x)) && {
            &&& x.code == callback.code
            &&& x.code_verifier == pkce.code_verifier
            &&& req.auth_endpoint matches Some(e) ==> x.auth_endpoint@ == e@
            &&& req.auth_endpoint is None ==> x.auth_endpoint@ == default_endpoint@
            &&& req.proxy_url matches Some(u) ==> (x.proxy matches Some(p) && p.url@ == u@
                && p.username is None && p.password is None)
            &&& req.proxy_url is None ==> x.proxy == global_proxy
        },
        r matches Ok(LoginStep::Add(cred)) && {
            &&& cred.auth_method matches Some(m) && m@ == "social"@
            &&& cred.priority == req.priority
            &&& cred.email == req.email
            &&& cred.proxy_url == req.proxy_url
            &&& cred.access_token == Some(token.access_token)
            &&& cred.refresh_token == token.refresh_token
            &&& cred.profile_arn == token.profile_arn
            &&& token.expires_at matches Some(e) ==> (cred.expires_at matches Some(f) && f@ == e@)
            &&& token.expires_at is None && token.expires_in is None ==> cred.expires_at is None
            &&& token.expires_at is None && token.expires_in is Some && now.later(
                token.expires_in.unwrap(),
            ) is Some ==> (cred.expires_at matches Some(f) && f@ == rfc3339(
                (now.seconds + token.expires_in.unwrap()) as i64,
                now.nanos,
            ))
            &&& cred.id is None && !cred.disabled
            &&& cred.provider is None && cred.client_id is None && cred.client_secret is None
            &&& cred.region is None && cred.auth_region is None && cred.api_region is None
            &&& cred.machine_id is None && cred.subscription_title is None
            &&& cred.proxy_username is None && cred.proxy_password is None
            &&& cred.kiro_api_key is None && cred.endpoint is None
        },
        social(started) == social(before).insert(session_id@, social(started)[session_id@]),
        social(started)[session_id@].0 == (Timestamp {
            seconds: (then.seconds + 600) as i64,
            nanos: then.nanos,
        }),
        social(after) == social(started).remove(session_id@),
        after.idc_sessions == before.idc_sessions && after.balance_cache == before.balance_cache
            && after.update_config == before.update_config,
{
    assert(social(started)[session_id@].1 == login.session);
}

/// A login that gives a credential new tokens ends with the replacement of the
/// refresh token of that very credential, and nothing is added. Without a refresh
/// token it fails, and for a credential that is not there it does not start.
pub proof fn a_relogin_replaces_the_token_that_was_asked_for(
    service: AdminService,
    snapshot: ManagerSnapshot,
    target_id: u64,
    req: StartSocialLoginRequest,
    global_proxy: Option<ProxyConfig>,
    default_endpoint: &str,
    pkce: Pkce,
    port: Result<u16, String>,
    start: Result<SocialLogin, AdminServiceError>,
    x: SocialExchange,
    callback: OAuthCallbackData,
    token: SocialToken,
    now: Timestamp,
    r: Result<LoginStep, AdminServiceError>,
)
    requires
        call_ensures(
            AdminService::start_social_relogin,
            (&service, &snapshot, target_id, req, global_proxy, default_endpoint, pkce, port),
            start,
        ),
        start matches Ok(login) ==> is_exchange(x, login.session, callback),
        call_ensures(social_token_received_at, (x, Ok(token), &now), r),
    ensures
        (forall|i: int|
            0 <= i < snapshot.entries@.len() ==> (#[trigger] snapshot.entries@[i]).id != target_id)
            ==> (start matches Err(e) && e@.status() == 404),
        snapshot.knows(target_id) && (req.callback_base_url is Some || port is Ok) ==> start is Ok,
        start matches Ok(login) ==> {
            &&& snapshot.knows(target_id)
            &&& login.session.code_verifier == pkce.code_verifier
            &&& req.auth_endpoint matches Some(e) ==> login.session.auth_endpoint@ == e@
            &&& req.auth_endpoint is None ==> login.session.auth_endpoint@ == default_endpoint@
            &&& req.proxy_url matches Some(u) ==> (login.session.proxy matches Some(p) && p.url@
                == u@ && p.username is None && p.password is None)
            &&& req.proxy_url is None ==> login.session.proxy == global_proxy
            &&& token.refresh_token matches Some(t) ==> (r matches Ok(LoginStep::Relogin(u))
                && u.target_id == target_id && u.refresh_token == t && u.phase
                == ReloginPhase::Disabling)
            &&& token.refresh_token is None ==> (r matches Err(e) && e@ == ErrorView::Internal(
                "Social 登录未返回 refreshToken，无法更新凭据"@,
            ))
        },
{
}

/// The browser is sent to the address that the request names, or else to the local
/// port; where neither is there the login does not start. The exchange names that
/// address with the path, and with the option of the user if there is one.
pub proof fn the_browser_comes_back_where_it_was_sent(
    service: AdminService,
    req: StartSocialLoginRequest,
    global_proxy: Option<ProxyConfig>,
    default_endpoint: &str,
    pkce: Pkce,
    state: String,
    port: Result<u16, String>,
    plan: CallbackPlan,
    r: Result<SocialLogin, AdminServiceError>,
    random: Result<SocialLogin, AdminServiceError>,
    callback: OAuthCallbackData,
    x: SocialExchange,
)
    requires
        call_ensures(AdminService::social_callback, (&service, &req), plan),
        call_ensures(
            AdminService::start_social_login_with,
            (&service, req, global_proxy, default_endpoint, pkce, state, port),
            r,
        ),
        call_ensures(
            AdminService::start_social_login,
            (&service, req, global_proxy, default_endpoint, pkce, port),
            random,
        ),
        r matches Ok(login) ==> is_exchange(x, login.session, callback),
    ensures
        random is Ok <==> req.callback_base_url is Some || port is Ok,
        random matches Ok(login) ==> (r matches Ok(l) && login.session.redirect_uri@
            == l.session.redirect_uri@ && login.session.local_callback == l.session.local_callback),
        req.callback_base_url matches Some(b) ==> (plan matches CallbackPlan::Remote(u) && u@ == b@)
            && (r matches Ok(login) && login.session.redirect_uri@ == b@
            && !login.session.local_callback),
        req.callback_base_url is None ==> plan is Local,
        req.callback_base_url is None && port is Ok ==> (r matches Ok(login)
            && login.session.redirect_uri@ == "http://127.0.0.1:"@ + decimal(port->Ok_0 as nat)
            && login.session.local_callback),
        req.callback_base_url is None && port is Err ==> (r matches Err(e) && e@
            == ErrorView::Internal(port->Err_0@)),
        r matches Ok(login) ==> {
            &&& login.session.state == state
            &&& callback.login_option@.len() == 0 ==> x.redirect_uri@ == login.session.redirect_uri@
                + callback.path@
            &&& callback.login_option@.len() > 0 ==> x.redirect_uri@ == login.session.redirect_uri@
                + callback.path@ + "?login_option="@ + percent_encoded(
                encode_utf8(callback.login_option@),
            )
        },
{
}

/// What the browser brings back is taken only with the state of the login, whoever
/// brings it: another state, or a session that is not there, changes nothing. By hand
/// it is taken only before the session has ended.
pub proof fn only_the_state_of_the_login_is_taken(
    before: AdminService,
    after: AdminService,
    handed: AdminService,
    id: &str,
    callback: OAuthCallbackData,
    now: Timestamp,
    checked: Result<SocialStep, AdminServiceError>,
    by_hand: Result<SocialStep, AdminServiceError>,
)
    requires
        exists|s: &mut AdminService| #[trigger]
            call_ensures(
                AdminService::social_callback_checked,
                (s, id, CallbackState::Received(callback)),
                checked,
            ) && *s == before && *final(s) == after,
        exists|s: &mut AdminService| #[trigger]
            call_ensures(
                AdminService::complete_social_login_at,
                (
                    s,
                    id,
                    callback.code,
                    callback.state,
                    callback.login_option,
                    callback.path,
                    &now,
                ),
                by_hand,
            ) && *s == before && *final(s) == handed,
    ensures
        !social(before).dom().contains(id@) ==> {
            &&& checked matches Err(e) && e@.status() == 404
            &&& by_hand matches Err(e) && e@.status() == 404
            &&& social(after) == social(before) && social(handed) == social(before)
        },
        social(before).dom().contains(id@) && callback.state@ != social(before)[id@].1.state@ ==> {
            &&& checked matches Err(e) && e@ == ErrorView::Internal(
                "OAuth state 不匹配，请重新发起登录"@,
            )
            &&& social(after) == social(before) && social(handed) == social(before)
            &&& !(by_hand matches Ok(SocialStep::Exchange(_)))
        },
        social(before).dom().contains(id@) && callback.state@ == social(before)[id@].1.state@ ==> {
            &&& checked matches Ok(SocialStep::Exchange(x)) && {
                let session = social(before)[id@].1;
                &&& x.code == callback.code
                &&& x.code_verifier == session.code_verifier
                &&& x.auth_endpoint == session.auth_endpoint
                &&& x.proxy == session.proxy
                &&& x.cred_template == session.cred_template
                &&& x.relogin_target_id == session.relogin_target_id
            }
            &&& social(after) == social(before).remove(id@)
            &&& now.at_or_after(social(before)[id@].0) ==> by_hand == Ok::<
                SocialStep,
                AdminServiceError,
            >(SocialStep::Answer(PollIdcLoginResponse::Expired)) && social(handed) == social(before)
            &&& !now.at_or_after(social(before)[id@].0) ==> (by_hand matches Ok(
                SocialStep::Exchange(x),
            ) && (checked matches Ok(SocialStep::Exchange(y)) && x.code == y.code && x.code_verifier
                == y.code_verifier && x.auth_endpoint == y.auth_endpoint && x.redirect_uri@
                == y.redirect_uri@ && x.proxy == y.proxy && x.cred_template == y.cred_template
                && x.relogin_target_id == y.relogin_target_id)) && social(handed) == social(before).remove(id@)
        },
        after.idc_sessions == before.idc_sessions && handed.idc_sessions == before.idc_sessions,
        after.balance_cache == before.balance_cache,
        after.update_config == before.update_config,
{
}

/// Asking for the state of a login forgets it once it has ended, and otherwise says
/// where the browser is awaited; a login that is not there is not found. While the
/// browser has not come back the login goes on, and it is over if nobody waits.
pub proof fn asking_for_a_login_tells_how_it_stands(
    before: AdminService,
    after: AdminService,
    pending: AdminService,
    closed: AdminService,
    id: &str,
    now: Timestamp,
    r: Result<SocialPoll, AdminServiceError>,
    waiting: Result<SocialStep, AdminServiceError>,
    over: Result<SocialStep, AdminServiceError>,
)
    requires
        exists|s: &mut AdminService| #[trigger]
            call_ensures(AdminService::poll_social_login_at, (s, id, &now), r) && *s == before
                && *final(s) == after,
        exists|s: &mut AdminService| #[trigger]
            call_ensures(
                AdminService::social_callback_checked,
                (s, id, CallbackState::Pending),
                waiting,
            ) && *s == before && *final(s) == pending,
        exists|s: &mut AdminService| #[trigger]
            call_ensures(
                AdminService::social_callback_checked,
                (s, id, CallbackState::Closed),
                over,
            ) && *s == before && *final(s) == closed,
    ensures
        !social(before).dom().contains(id@) ==> (r matches Err(e) && e@.status() == 404) && social(
            after,
        ) == social(before),
        social(before).dom().contains(id@) ==> {
            let (end, session) = social(before)[id@];
            &&& now.at_or_after(end) ==> r == Ok::<SocialPoll, AdminServiceError>(
                SocialPoll::Expired,
            ) && social(after) == social(before).remove(id@)
            &&& !now.at_or_after(end) ==> social(after) == social(before)
            &&& !now.at_or_after(end) && session.local_callback ==> r == Ok::<
                SocialPoll,
                AdminServiceError,
            >(SocialPoll::CheckCallback)
            &&& !now.at_or_after(end) && !session.local_callback ==> r == Ok::<
                SocialPoll,
                AdminServiceError,
            >(SocialPoll::AwaitCompletion)
        },
        waiting == Ok::<SocialStep, AdminServiceError>(
            SocialStep::Answer(PollIdcLoginResponse::Pending),
        ),
        social(pending) == social(before),
        over matches Err(e) && e@ == ErrorView::Internal(
            "Social 登录回调服务器已关闭，请重新发起登录"@,
        ),
        social(closed) == social(before).remove(id@),
        after.idc_sessions == before.idc_sessions,
        pending.idc_sessions == before.idc_sessions,
        closed.idc_sessions == before.idc_sessions,
{
}

/// A code that could not be exchanged fails the login with what the upstream said.
pub proof fn a_failed_exchange_fails_the_login(
    x: SocialExchange,
    message: String,
    now: Timestamp,
    r: Result<LoginStep, AdminServiceError>,
)
    requires
        call_ensures(social_token_received_at, (x, Err(message), &now), r),
    ensures
        r matches Err(e) && e@ == ErrorView::Internal(message@),
{
}

/// At the moment of the call too a login starts under a random name with what it holds, is
/// asked for and completed under it, and ends with the credential that was asked for.
pub proof fn a_login_is_kept_up_now(
    before: AdminService,
    started: AdminService,
    login: SocialLogin,
    portal_url: String,
    start: Option<StartSocialLoginResponse>,
    service: AdminService,
    polled: AdminService,
    id: &str,
    poll: Result<SocialPoll, AdminServiceError>,
    completed: AdminService,
    callback: OAuthCallbackData,
    step: Result<SocialStep, AdminServiceError>,
    x: SocialExchange,
    token: SocialToken,
    r: Option<Result<LoginStep, AdminServiceError>>,
)
    requires
        exists|s: &mut AdminService| #[trigger]
            call_ensures(AdminService::social_login_started, (s, login, portal_url), start) && *s
                == before && *final(s) == started,
        exists|s: &mut AdminService| #[trigger]
            call_ensures(AdminService::poll_social_login, (s, id), poll) && *s == service && *final(s)
                == polled,
        exists|s: &mut AdminService| #[trigger]
            call_ensures(
                AdminService::complete_social_login,
                (s, id, callback.code, callback.state, callback.login_option, callback.path),
                step,
            ) && *s == service && *final(s) == completed,
        call_ensures(social_token_received, (x, Ok(token)), r),
    ensures
        start is None ==> social(started) == social(before),
        start matches Some(answer) ==> {
            &&& is_uuid_v4(answer.session_id@)
            &&& answer.portal_url == portal_url
            &&& social(started).dom().contains(answer.session_id@)
            &&& social(started)[answer.session_id@].1 == login.session
            &&& social(started) == social(before).insert(
                answer.session_id@,
                social(started)[answer.session_id@],
            )
        },
        !social(service).dom().contains(id@) ==> (poll matches Err(e) && e@.status() == 404) && (
        step matches Err(e) && e@.status() == 404) && social(polled) == social(service),
        social(service).dom().contains(id@) ==> poll is Ok && (social(polled) == social(service)
            || poll == Ok::<SocialPoll, AdminServiceError>(SocialPoll::Expired)),
        social(service).dom().contains(id@) && callback.state@ != social(service)[id@].1.state@
            ==> !(step matches Ok(SocialStep::Exchange(_))) && social(completed) == social(service),
        step matches Ok(SocialStep::Exchange(y)) ==> y.code == callback.code && y.code_verifier
            == social(service)[id@].1.code_verifier && y.cred_template == social(
            service,
        )[id@].1.cred_template && social(completed) == social(service).remove(id@),
        x.relogin_target_id is None && (token.expires_at is Some || token.expires_in is None) ==> (
        r matches Some(Ok(LoginStep::Add(cred))) && cred.access_token == Some(token.access_token)
            && cred.refresh_token == token.refresh_token && cred.proxy_url
            == x.cred_template.proxy_url && cred.email == x.cred_template.email && cred.priority
            == x.cred_template.priority && cred.auth_method == x.cred_template.auth_method),
        x.relogin_target_id matches Some(target) ==> token.refresh_token matches Some(t) ==> (
        r matches Some(Ok(LoginStep::Relogin(u))) && u.target_id == target && u.refresh_token == t),
{
}

} // verus!
