//! Changes of credentials.
//!
//! Each change has two halves: what the keeper of the credentials is asked to
//! do, and what its answer means. The keeper reports failures as text.

use vstd::prelude::*;

use crate::admin::endpoints::debug_list;
use crate::admin::error::{AdminServiceError, ErrorView};
use crate::admin::failures::{
    add_failure, balance_failure, change_failure, classify_add_error, classify_balance_error,
    classify_delete_error, classify_error, classify_token_error, delete_failure, token_failure,
};
use crate::admin::service::AdminService;
use crate::admin::types::{
    AddCredentialRequest, AddCredentialResponse, LoadBalancingModeResponse,
    SetLoadBalancingModeRequest, UpdateCredentialRequest, UpdateRefreshTokenRequest,
};
use crate::http_client::ProxyConfig;
use crate::kiro::model::credentials::KiroCredentials;
use crate::kiro::token_manager::ManagerCall;
use crate::model::config::Config;
use crate::numbers::{decimal, write_decimal};
use crate::text::{contains, parts_are_contained, same_text, starts_with, text_starts_with};

verus! {

/// The credential that a request asks for.
pub open spec fn requested_credential(req: AddCredentialRequest) -> KiroCredentials {
    KiroCredentials {
        id: None,
        access_token: req.access_token,
        refresh_token: req.refresh_token,
        profile_arn: req.profile_arn,
        expires_at: req.expires_at,
        auth_method: Some(req.auth_method),
        provider: req.provider,
        client_id: req.client_id,
        client_secret: req.client_secret,
        priority: req.priority,
        region: req.region,
        auth_region: req.auth_region,
        api_region: req.api_region,
        machine_id: req.machine_id,
        email: req.email,
        subscription_title: None,
        proxy_url: req.proxy_url,
        proxy_username: req.proxy_username,
        proxy_password: req.proxy_password,
        disabled: false,
        kiro_api_key: req.kiro_api_key,
        endpoint: req.endpoint,
    }
}

/// What is wrong with an endpoint that is none of the known ones, which are
/// listed.
pub open spec fn unknown_endpoint(name: Seq<char>, known: Seq<char>) -> ErrorView {
    ErrorView::Invalid("未知端点 \""@ + name + "\"，已注册端点: "@ + known)
}

/// Says that an endpoint is none of the known ones, which are listed.
pub fn refuse_endpoint(name: &str, known: &str) -> (r: AdminServiceError)
    ensures
        r@ == unknown_endpoint(name@, known@),
{
    let mut message = "未知端点 \"".to_string();
    message.append(name);
    message.append("\"，已注册端点: ");
    message.append(known);
    AdminServiceError::InvalidCredential(message)
}

/// What is wrong with an endpoint that a request names, if anything is.
pub open spec fn endpoint_problem(service: AdminService, endpoint: Option<String>) -> Option<
    ErrorView,
> {
    match endpoint {
        Some(name) => if service.known_endpoints@.contains(name@) {
            None
        } else {
            Some(unknown_endpoint(name@, debug_list(service.known_endpoints.in_order())))
        },
        None => None,
    }
}

/// What is done with a value that a request may change: an empty text clears
/// it.
pub open spec fn edited(value: Option<String>) -> Option<Option<String>> {
    match value {
        Some(v) => if v@.len() == 0 {
            Some(None)
        } else {
            Some(Some(v))
        },
        None => None,
    }
}

fn edit(value: Option<String>) -> (r: Option<Option<String>>)
    ensures
        r == edited(value),
{
    match value {
        Some(v) => if v.as_str().is_empty() {
            Some(None)
        } else {
            Some(Some(v))
        },
        None => None,
    }
}

/// Whether an address can be that of a proxy.
pub open spec fn is_proxy_address(url: Seq<char>) -> bool {
    ||| starts_with(url, "http://"@)
    ||| starts_with(url, "https://"@)
    ||| starts_with(url, "socks5://"@)
    ||| starts_with(url, "socks4://"@)
}

/// A change of the proxy that all requests go through.
#[derive(Debug)]
pub struct GlobalProxyChange {
    /// What the keeper of the credentials is asked to do.
    pub call: ManagerCall,
    /// The address to store.
    pub url: Option<String>,
}

impl AdminService {
    /// What is asked for to put a credential out of use, or into use again.
    pub fn set_disabled(&self, id: u64, disabled: bool) -> (r: ManagerCall)
        ensures
            r == (ManagerCall::SetDisabled { id, disabled }),
    {
        ManagerCall::SetDisabled { id, disabled }
    }

    /// What the answer means. If the credential in use was put out of use,
    /// another one is to be used.
    pub fn set_disabled_done(
        &self,
        current_id: u64,
        id: u64,
        disabled: bool,
        outcome: Result<(), String>,
    ) -> (r: Result<Option<ManagerCall>, AdminServiceError>)
        ensures
            match outcome {
                Ok(_) => r == Ok::<Option<ManagerCall>, AdminServiceError>(
                    if disabled && id == current_id {
                        Some(ManagerCall::SwitchToNext)
                    } else {
                        None
                    },
                ),
                Err(e) => r matches Err(f) && f@ == change_failure(e@, id),
            },
    {
        match outcome {
            Ok(_) => if disabled && id == current_id {
                Ok(Some(ManagerCall::SwitchToNext))
            } else {
                Ok(None)
            },
            Err(e) => Err(classify_error(e, id)),
        }
    }

    /// What is asked for to change the priority of a credential.
    pub fn set_priority(&self, id: u64, priority: u32) -> (r: ManagerCall)
        ensures
            r == (ManagerCall::SetPriority { id, priority }),
    {
        ManagerCall::SetPriority { id, priority }
    }

    /// What is asked for to forget the failures of a credential and put it into
    /// use again.
    pub fn reset_and_enable(&self, id: u64) -> (r: ManagerCall)
        ensures
            r == (ManagerCall::ResetAndEnable { id }),
    {
        ManagerCall::ResetAndEnable { id }
    }

    /// What the answer to a simple change of a credential means: of its
    /// priority, of its values, or that it is put into use again.
    pub fn change_done(&self, id: u64, outcome: Result<(), String>) -> (r: Result<
        (),
        AdminServiceError,
    >)
        ensures
            match outcome {
                Ok(_) => r is Ok,
                Err(e) => r matches Err(f) && f@ == change_failure(e@, id),
            },
    {
        match outcome {
            Ok(_) => Ok(()),
            Err(e) => Err(classify_error(e, id)),
        }
    }

    /// What is asked for to forget the successes of a credential, or of all.
    pub fn reset_success_count(&self, id: Option<u64>) -> (r: ManagerCall)
        ensures
            r == (ManagerCall::ResetSuccessCount { which: id }),
    {
        ManagerCall::ResetSuccessCount { which: id }
    }

    /// What the answer means: for how many credentials it was done.
    pub fn reset_success_count_done(&self, id: Option<u64>, outcome: Result<u32, String>) -> (r:
        Result<u32, AdminServiceError>)
        ensures
            match outcome {
                Ok(n) => r == Ok::<u32, AdminServiceError>(n),
                Err(e) => r matches Err(f) && f@ == change_failure(
                    e@,
                    match id {
                        Some(i) => i,
                        None => 0,
                    },
                ),
            },
    {
        match outcome {
            Ok(n) => Ok(n),
            Err(e) => Err(
                classify_error(
                    e,
                    match id {
                        Some(i) => i,
                        None => 0,
                    },
                ),
            ),
        }
    }

    /// Checks a request to add a credential, and says what is asked for.
    pub fn add_credential(&self, req: AddCredentialRequest) -> (r: Result<
        ManagerCall,
        AdminServiceError,
    >)
        ensures
            match endpoint_problem(*self, req.endpoint) {
                None => r == Ok::<ManagerCall, AdminServiceError>(
                    ManagerCall::AddCredential(requested_credential(req)),
                ),
                Some(problem) => r matches Err(e) && e@ == problem,
            },
    {
        if let Some(name) = &req.endpoint {
            if !self.known_endpoints.has_name(name.as_str()) {
                return Err(
                    refuse_endpoint(name.as_str(), self.known_endpoints.listed().as_str()),
                );
            }
        }
        Ok(
            ManagerCall::AddCredential(
                KiroCredentials {
                    id: None,
                    access_token: req.access_token,
                    refresh_token: req.refresh_token,
                    profile_arn: req.profile_arn,
                    expires_at: req.expires_at,
                    auth_method: Some(req.auth_method),
                    provider: req.provider,
                    client_id: req.client_id,
                    client_secret: req.client_secret,
                    priority: req.priority,
                    region: req.region,
                    auth_region: req.auth_region,
                    api_region: req.api_region,
                    machine_id: req.machine_id,
                    email: req.email,
                    subscription_title: None,
                    proxy_url: req.proxy_url,
                    proxy_username: req.proxy_username,
                    proxy_password: req.proxy_password,
                    disabled: false,
                    kiro_api_key: req.kiro_api_key,
                    endpoint: req.endpoint,
                },
            ),
        )
    }

    /// What the answer means. Once a credential was added, the upstream is asked
    /// what it may use; whether that succeeds does not matter.
    pub fn add_credential_done(&self, email: Option<String>, outcome: Result<u64, String>) -> (r:
        Result<(AddCredentialResponse, ManagerCall), AdminServiceError>)
        ensures
            match outcome {
                Ok(id) => r matches Ok((answer, call)) && {
                    &&& answer.success
                    &&& answer.message@ == "凭据添加成功，ID: "@ + decimal(id as nat)
                    &&& answer.credential_id == id
                    &&& answer.email == email
                    &&& call == (ManagerCall::UsageLimits { id })
                },
                Err(e) => r matches Err(f) && f@ == add_failure(e@),
            },
    {
        match outcome {
            Ok(id) => {
                let mut message = "凭据添加成功，ID: ".to_string();
                message.append(write_decimal(id).as_str());
                Ok(
                    (
                        AddCredentialResponse { success: true, message, credential_id: id, email },
                        ManagerCall::UsageLimits { id },
                    ),
                )
            },
            Err(e) => Err(classify_add_error(e)),
        }
    }

    /// What is asked for to change the values of a credential.
    pub fn update_credential(&self, id: u64, req: UpdateCredentialRequest) -> (r: ManagerCall)
        ensures
            r == (ManagerCall::UpdateCredential {
                id,
                email: edited(req.email),
                proxy_url: edited(req.proxy_url),
                proxy_username: edited(req.proxy_username),
                proxy_password: edited(req.proxy_password),
            }),
    {
        ManagerCall::UpdateCredential {
            id,
            email: edit(req.email),
            proxy_url: edit(req.proxy_url),
            proxy_username: edit(req.proxy_username),
            proxy_password: edit(req.proxy_password),
        }
    }

    /// What is asked for to delete a credential.
    pub fn delete_credential(&self, id: u64) -> (r: ManagerCall)
        ensures
            r == (ManagerCall::DeleteCredential { id }),
    {
        ManagerCall::DeleteCredential { id }
    }

    /// What the answer means. The balance of a deleted credential is forgotten,
    /// and the balances are to be stored; after a failure nothing has changed.
    pub fn delete_credential_done(&mut self, id: u64, outcome: Result<(), String>) -> (r: Result<
        (),
        AdminServiceError,
    >)
        ensures
            match outcome {
                Ok(_) => {
                    &&& r is Ok
                    &&& final(self).balance_cache@ == old(self).balance_cache@.remove(id)
                    &&& *final(self) == old(self).with_balances(*final(self))
                },
                Err(e) => {
                    &&& r matches Err(f) && f@ == delete_failure(e@, id)
                    &&& *final(self) == *old(self)
                },
            },
    {
        match outcome {
            Ok(_) => {
                self.balance_cache.remove(id);
                Ok(())
            },
            Err(e) => Err(classify_delete_error(e, id)),
        }
    }

    /// The address of the proxy that all requests go through.
    pub fn get_global_proxy(&self, proxy: &Option<ProxyConfig>) -> (r: Option<String>)
        ensures
            r == (match *proxy {
                Some(p) => Some(p.url),
                None => None,
            }),
    {
        match proxy {
            Some(p) => Some(p.url.clone()),
            None => None,
        }
    }

    /// Checks a change of the proxy that all requests go through, and says what
    /// is asked for and what is stored. No address clears it.
    pub fn set_global_proxy(&self, url: Option<String>) -> (r: Result<
        GlobalProxyChange,
        AdminServiceError,
    >)
        ensures
            match url {
                Some(u) => if is_proxy_address(u@) {
                    r matches Ok(change) && {
                        &&& change.url == url
                        &&& change.call matches ManagerCall::SetGlobalProxy(Some(p))
                            && p.is_plain(u@)
                    }
                } else {
                    r matches Err(e) && e@ == ErrorView::Invalid(
                        "代理 URL 格式无效，需以 http://、https://、socks5:// 或 socks4:// 开头"@,
                    )
                },
                None => r == Ok::<GlobalProxyChange, AdminServiceError>(
                    GlobalProxyChange { call: ManagerCall::SetGlobalProxy(None), url: None },
                ),
            },
    {
        match url {
            Some(u) => {
                let valid_prefix = text_starts_with(u.as_str(), "http://") || text_starts_with(
                    u.as_str(),
                    "https://",
                ) || text_starts_with(u.as_str(), "socks5://") || text_starts_with(
                    u.as_str(),
                    "socks4://",
                );
                if !valid_prefix {
                    return Err(
                        AdminServiceError::InvalidCredential(
                            "代理 URL 格式无效，需以 http://、https://、socks5:// 或 socks4:// 开头".to_string(),
                        ),
                    );
                }
                let proxy = ProxyConfig::new(u.as_str());
                Ok(
                    GlobalProxyChange {
                        call: ManagerCall::SetGlobalProxy(Some(proxy)),
                        url: Some(u),
                    },
                )
            },
            None => Ok(GlobalProxyChange { call: ManagerCall::SetGlobalProxy(None), url: None }),
        }
    }

    /// How credentials take turns.
    pub fn get_load_balancing_mode(&self, mode: String) -> (r: LoadBalancingModeResponse)
        ensures
            r.mode == mode,
    {
        LoadBalancingModeResponse { mode }
    }

    /// Checks a change of how credentials take turns, and says what is asked
    /// for.
    pub fn set_load_balancing_mode(&self, req: &SetLoadBalancingModeRequest) -> (r: Result<
        ManagerCall,
        AdminServiceError,
    >)
        ensures
            if req.mode@ == "priority"@ || req.mode@ == "balanced"@ {
                r == Ok::<ManagerCall, AdminServiceError>(
                    ManagerCall::SetLoadBalancingMode(req.mode),
                )
            } else {
                r matches Err(e) && e@ == ErrorView::Invalid(
                    "mode 必须是 'priority' 或 'balanced'"@,
                )
            },
    {
        if !same_text(req.mode.as_str(), "priority") && !same_text(req.mode.as_str(), "balanced") {
            return Err(
                AdminServiceError::InvalidCredential(
                    "mode 必须是 'priority' 或 'balanced'".to_string(),
                ),
            );
        }
        Ok(ManagerCall::SetLoadBalancingMode(req.mode.clone()))
    }

    /// What the answer means.
    pub fn set_load_balancing_mode_done(
        &self,
        req: SetLoadBalancingModeRequest,
        outcome: Result<(), String>,
    ) -> (r: Result<LoadBalancingModeResponse, AdminServiceError>)
        ensures
            match outcome {
                Ok(_) => r == Ok::<LoadBalancingModeResponse, AdminServiceError>(
                    LoadBalancingModeResponse { mode: req.mode },
                ),
                Err(e) => r matches Err(f) && f@ == ErrorView::Internal(e@),
            },
    {
        match outcome {
            Ok(_) => Ok(LoadBalancingModeResponse { mode: req.mode }),
            Err(e) => Err(AdminServiceError::InternalError(e)),
        }
    }

    /// What is asked for to replace the tokens of a credential.
    pub fn update_refresh_token(&self, id: u64, req: UpdateRefreshTokenRequest) -> (r: ManagerCall)
        ensures
            r == (ManagerCall::UpdateRefreshToken {
                id,
                refresh_token: req.refresh_token,
                access_token: req.access_token,
                expires_at: req.expires_at,
            }),
    {
        ManagerCall::UpdateRefreshToken {
            id,
            refresh_token: req.refresh_token,
            access_token: req.access_token,
            expires_at: req.expires_at,
        }
    }

    /// What the answer means.
    pub fn update_refresh_token_done(&self, id: u64, outcome: Result<(), String>) -> (r: Result<
        (),
        AdminServiceError,
    >)
        ensures
            match outcome {
                Ok(_) => r is Ok,
                Err(e) => r matches Err(f) && f@ == token_failure(e@, id),
            },
    {
        match outcome {
            Ok(_) => Ok(()),
            Err(e) => Err(classify_token_error(e, id)),
        }
    }

    /// What is asked for to get a new access token for a credential.
    pub fn force_refresh_token(&self, id: u64) -> (r: ManagerCall)
        ensures
            r == (ManagerCall::ForceRefreshToken { id }),
    {
        ManagerCall::ForceRefreshToken { id }
    }

    /// What the answer means.
    pub fn force_refresh_token_done(&self, id: u64, outcome: Result<(), String>) -> (r: Result<
        (),
        AdminServiceError,
    >)
        ensures
            match outcome {
                Ok(_) => r is Ok,
                Err(e) => r matches Err(f) && f@ == balance_failure(e@, id),
            },
    {
        match outcome {
            Ok(_) => Ok(()),
            Err(e) => Err(classify_balance_error(e, id)),
        }
    }

    /// Changes the key of the administration interface in the stored settings.
    pub fn persist_admin_key(&self, config: &mut Config, new_key: &str)
        ensures
            final(config).admin_api_key matches Some(key) && key@ == new_key@,
            *final(config) == (Config {
                admin_api_key: final(config).admin_api_key,
                ..*old(config)
            }),
    {
        config.admin_api_key = Some(new_key.to_string());
    }

    /// Changes the key of the gateway itself in the stored settings.
    pub fn persist_api_key(&self, config: &mut Config, new_key: &str)
        ensures
            final(config).api_key matches Some(key) && key@ == new_key@,
            *final(config) == (Config { api_key: final(config).api_key, ..*old(config) }),
    {
        config.api_key = Some(new_key.to_string());
    }
}

impl Config {
    /// Changes the proxy that all requests go through in the stored settings.
    pub fn store_proxy_url(&mut self, url: Option<String>)
        ensures
            *final(self) == (Config { proxy_url: url, ..*old(self) }),
    {
        self.proxy_url = url;
    }
}

/// A credential that is added is in use, has no number yet and no subscription,
/// whatever the request says.
pub proof fn added_credential_is_in_use(req: AddCredentialRequest)
    ensures
        !requested_credential(req).disabled,
        requested_credential(req).id is None,
        requested_credential(req).subscription_title is None,
{
}

/// A credential that is added has every value that the request gives, and is in use;
/// an endpoint that is not known is refused as a bad request.
pub proof fn a_credential_is_added_as_requested(
    service: AdminService,
    req: AddCredentialRequest,
    r: Result<ManagerCall, AdminServiceError>,
)
    requires
        call_ensures(AdminService::add_credential, (&service, req), r),
    ensures
        (req.endpoint matches Some(name) && !service.known_endpoints@.contains(name@)) ==> (
        r matches Err(e) && e@ == ErrorView::Invalid(
            "未知端点 \""@ + req.endpoint.unwrap()@ + "\"，已注册端点: "@ + debug_list(
                service.known_endpoints.in_order(),
            ),
        )),
        (req.endpoint matches Some(name) ==> service.known_endpoints@.contains(name@)) ==> (
        r matches Ok(ManagerCall::AddCredential(cred)) && {
            &&& cred.access_token == req.access_token
            &&& cred.refresh_token == req.refresh_token
            &&& cred.profile_arn == req.profile_arn
            &&& cred.expires_at == req.expires_at
            &&& cred.auth_method == Some(req.auth_method)
            &&& cred.provider == req.provider
            &&& cred.client_id == req.client_id
            &&& cred.client_secret == req.client_secret
            &&& cred.priority == req.priority
            &&& cred.region == req.region
            &&& cred.auth_region == req.auth_region
            &&& cred.api_region == req.api_region
            &&& cred.machine_id == req.machine_id
            &&& cred.email == req.email
            &&& cred.proxy_url == req.proxy_url
            &&& cred.proxy_username == req.proxy_username
            &&& cred.proxy_password == req.proxy_password
            &&& cred.kiro_api_key == req.kiro_api_key
            &&& cred.endpoint == req.endpoint
            &&& cred.id is None && cred.subscription_title is None && !cred.disabled
        }),
{
}

/// Once a credential was added the answer names it and its owner, and the upstream is
/// asked what it may use.
pub proof fn an_added_credential_is_told(
    service: AdminService,
    email: Option<String>,
    id: u64,
    r: Result<(AddCredentialResponse, ManagerCall), AdminServiceError>,
)
    requires
        call_ensures(AdminService::add_credential_done, (&service, email, Ok(id)), r),
    ensures
        r matches Ok((answer, call)) && answer.success && answer.credential_id == id && answer.email
            == email && answer.message@ == "凭据添加成功，ID: "@ + decimal(id as nat) && call == (
        ManagerCall::UsageLimits { id }),
{
}

/// A change of a credential touches the values that the request gives and no others:
/// a text sets a value, and an empty text clears it.
pub proof fn a_change_touches_what_is_given(
    service: AdminService,
    id: u64,
    req: UpdateCredentialRequest,
    r: ManagerCall,
)
    requires
        call_ensures(AdminService::update_credential, (&service, id, req), r),
    ensures
        r matches ManagerCall::UpdateCredential {
            id: i,
            email,
            proxy_url,
            proxy_username,
            proxy_password,
        } && {
            &&& i == id
            &&& email is None <==> req.email is None
            &&& req.email matches Some(v) ==> v@.len() > 0 ==> email == Some(Some(v))
            &&& req.email matches Some(v) ==> v@.len() == 0 ==> email == Some(None::<String>)
            &&& proxy_url is None <==> req.proxy_url is None
            &&& req.proxy_url matches Some(v) ==> v@.len() > 0 ==> proxy_url == Some(Some(v))
            &&& req.proxy_url matches Some(v) ==> v@.len() == 0 ==> proxy_url == Some(None::<String>)
            &&& proxy_username is None <==> req.proxy_username is None
            &&& req.proxy_username matches Some(v) ==> v@.len() > 0 ==> proxy_username == Some(
                Some(v),
            )
            &&& req.proxy_username matches Some(v) ==> v@.len() == 0 ==> proxy_username == Some(
                None::<String>,
            )
            &&& proxy_password is None <==> req.proxy_password is None
            &&& req.proxy_password matches Some(v) ==> v@.len() > 0 ==> proxy_password == Some(
                Some(v),
            )
            &&& req.proxy_password matches Some(v) ==> v@.len() == 0 ==> proxy_password == Some(
                None::<String>,
            )
        },
{
}

/// The keeper is asked for what the client asked for, of the credential that the client
/// named.
pub proof fn the_keeper_is_asked_for_the_same(
    service: AdminService,
    id: u64,
    disabled: bool,
    priority: u32,
    which: Option<u64>,
    tokens: UpdateRefreshTokenRequest,
    calls: Seq<ManagerCall>,
)
    requires
        calls.len() == 7,
        call_ensures(AdminService::set_disabled, (&service, id, disabled), calls[0]),
        call_ensures(AdminService::set_priority, (&service, id, priority), calls[1]),
        call_ensures(AdminService::reset_and_enable, (&service, id), calls[2]),
        call_ensures(AdminService::reset_success_count, (&service, which), calls[3]),
        call_ensures(AdminService::delete_credential, (&service, id), calls[4]),
        call_ensures(AdminService::update_refresh_token, (&service, id, tokens), calls[5]),
        call_ensures(AdminService::force_refresh_token, (&service, id), calls[6]),
    ensures
        calls[0] == (ManagerCall::SetDisabled { id, disabled }),
        calls[1] == (ManagerCall::SetPriority { id, priority }),
        calls[2] == (ManagerCall::ResetAndEnable { id }),
        calls[3] == (ManagerCall::ResetSuccessCount { which }),
        calls[4] == (ManagerCall::DeleteCredential { id }),
        calls[5] matches ManagerCall::UpdateRefreshToken {
            id: i,
            refresh_token,
            access_token,
            expires_at,
        } && i == id && refresh_token == tokens.refresh_token && access_token == tokens.access_token
            && expires_at == tokens.expires_at,
        calls[6] == (ManagerCall::ForceRefreshToken { id }),
{
}

/// Another credential is used after one was put out of use exactly if that was the one
/// in use; putting one into use again changes nothing of that.
pub proof fn another_is_used_if_the_current_one_is_put_out_of_use(
    service: AdminService,
    current_id: u64,
    id: u64,
    disabled: bool,
    r: Result<Option<ManagerCall>, AdminServiceError>,
)
    requires
        call_ensures(
            AdminService::set_disabled_done,
            (&service, current_id, id, disabled, Ok(())),
            r,
        ),
    ensures
        disabled && id == current_id ==> r == Ok::<Option<ManagerCall>, AdminServiceError>(
            Some(ManagerCall::SwitchToNext),
        ),
        !disabled || id != current_id ==> r == Ok::<Option<ManagerCall>, AdminServiceError>(None),
{
}

/// What the keeper has done is told as done, and what it could not do as an error: a
/// credential that is not there is not found, whatever was asked for.
pub proof fn what_the_keeper_did_is_told(
    service: AdminService,
    current_id: u64,
    id: u64,
    disabled: bool,
    which: Option<u64>,
    n: u32,
    message: String,
    done: Seq<Result<(), AdminServiceError>>,
    failed: Seq<Result<(), AdminServiceError>>,
    counted: Result<u32, AdminServiceError>,
    uncounted: Result<u32, AdminServiceError>,
    switched: Result<Option<ManagerCall>, AdminServiceError>,
)
    requires
        done.len() == 3 && failed.len() == 3,
        call_ensures(AdminService::change_done, (&service, id, Ok(())), done[0]),
        call_ensures(AdminService::update_refresh_token_done, (&service, id, Ok(())), done[1]),
        call_ensures(AdminService::force_refresh_token_done, (&service, id, Ok(())), done[2]),
        call_ensures(AdminService::change_done, (&service, id, Err(message)), failed[0]),
        call_ensures(
            AdminService::update_refresh_token_done,
            (&service, id, Err(message)),
            failed[1],
        ),
        call_ensures(
            AdminService::force_refresh_token_done,
            (&service, id, Err(message)),
            failed[2],
        ),
        call_ensures(AdminService::reset_success_count_done, (&service, which, Ok(n)), counted),
        call_ensures(
            AdminService::reset_success_count_done,
            (&service, which, Err(message)),
            uncounted,
        ),
        call_ensures(
            AdminService::set_disabled_done,
            (&service, current_id, id, disabled, Err(message)),
            switched,
        ),
    ensures
        done[0] is Ok && done[1] is Ok && done[2] is Ok,
        failed[0] is Err && failed[1] is Err && failed[2] is Err && switched is Err,
        counted == Ok::<u32, AdminServiceError>(n),
        uncounted is Err,
        contains(message@, "不存在"@) ==> {
            &&& failed[0]->Err_0@ == ErrorView::NotFound(id)
            &&& failed[1]->Err_0@ == ErrorView::NotFound(id)
            &&& failed[2]->Err_0@ == ErrorView::NotFound(id)
            &&& switched->Err_0@ == ErrorView::NotFound(id)
            &&& which matches Some(w) ==> uncounted->Err_0@ == ErrorView::NotFound(w)
        },
        !contains(message@, "不存在"@) ==> {
            &&& failed[0]->Err_0@ == ErrorView::Internal(message@)
            &&& switched->Err_0@ == ErrorView::Internal(message@)
            &&& uncounted->Err_0@ == ErrorView::Internal(message@)
        },
{
}

/// The balance of a credential that was deleted is forgotten, and no other; a credential
/// that could not be deleted keeps it.
pub proof fn a_deleted_credential_is_forgotten(
    before: AdminService,
    after: AdminService,
    refused: AdminService,
    id: u64,
    message: String,
    r: Result<(), AdminServiceError>,
    error: Result<(), AdminServiceError>,
)
    requires
        exists|s: &mut AdminService| #[trigger]
            call_ensures(AdminService::delete_credential_done, (s, id, Ok(())), r) && *s == before
                && *final(s) == after,
        exists|s: &mut AdminService| #[trigger]
            call_ensures(AdminService::delete_credential_done, (s, id, Err(message)), error) && *s
                == before && *final(s) == refused,
    ensures
        r is Ok,
        !after.balance_cache@.dom().contains(id),
        forall|other: u64|
            other != id ==> (#[trigger] after.balance_cache@.dom().contains(other)
                <==> before.balance_cache@.dom().contains(other)) && after.balance_cache@[other]
                == before.balance_cache@[other],
        after.known_endpoints == before.known_endpoints,
        after.update_config == before.update_config,
        after.update_check_cache == before.update_check_cache,
        after.idc_sessions == before.idc_sessions,
        after.social_sessions == before.social_sessions,
        error is Err,
        refused == before,
{
}

/// The proxy of all requests can be any address with one of four schemes; it is set
/// without a login and stored as it was given. No address clears it, and any other
/// text is refused as a bad request.
pub proof fn a_proxy_has_one_of_four_schemes(
    service: AdminService,
    url: String,
    rest: Seq<char>,
    r: Result<GlobalProxyChange, AdminServiceError>,
    cleared: Result<GlobalProxyChange, AdminServiceError>,
)
    requires
        call_ensures(AdminService::set_global_proxy, (&service, Some(url)), r),
        call_ensures(AdminService::set_global_proxy, (&service, None), cleared),
    ensures
        url@ == "http://"@ + rest || url@ == "https://"@ + rest || url@ == "socks5://"@ + rest || url@
            == "socks4://"@ + rest ==> (r matches Ok(change) && {
            &&& change.url matches Some(u) && u@ == url@
            &&& change.call matches ManagerCall::SetGlobalProxy(Some(p)) && p.url@ == url@
                && p.username is None && p.password is None
        }),
        !starts_with(url@, "http://"@) && !starts_with(url@, "https://"@) && !starts_with(
            url@,
            "socks5://"@,
        ) && !starts_with(url@, "socks4://"@) ==> (r matches Err(e) && e@ == ErrorView::Invalid(
            "代理 URL 格式无效，需以 http://、https://、socks5:// 或 socks4:// 开头"@,
        )),
        cleared matches Ok(change) && change.url is None && (change.call
            matches ManagerCall::SetGlobalProxy(None)),
{
    parts_are_contained(Seq::empty(), "http://"@, rest);
    parts_are_contained(Seq::empty(), "https://"@, rest);
    parts_are_contained(Seq::empty(), "socks5://"@, rest);
    parts_are_contained(Seq::empty(), "socks4://"@, rest);
}

/// Credentials take turns in one of two ways; the way is passed on and told back as it
/// was asked for, and any other is refused as a bad request.
pub proof fn credentials_take_turns_in_two_ways(
    service: AdminService,
    req: SetLoadBalancingModeRequest,
    r: Result<ManagerCall, AdminServiceError>,
    done: Result<LoadBalancingModeResponse, AdminServiceError>,
    told: LoadBalancingModeResponse,
)
    requires
        call_ensures(AdminService::set_load_balancing_mode, (&service, &req), r),
        call_ensures(AdminService::set_load_balancing_mode_done, (&service, req, Ok(())), done),
        call_ensures(AdminService::get_load_balancing_mode, (&service, req.mode), told),
    ensures
        r is Ok <==> req.mode@ == "priority"@ || req.mode@ == "balanced"@,
        r matches Ok(call) ==> (call matches ManagerCall::SetLoadBalancingMode(m) && m@ == req.mode@),
        r matches Err(e) ==> e@ == ErrorView::Invalid("mode 必须是 'priority' 或 'balanced'"@),
        done matches Ok(answer) && answer.mode == req.mode,
        told.mode == req.mode,
{
}

/// Each key and the proxy are stored in their own place, and nothing else of the stored
/// settings changes.
pub proof fn keys_are_stored_in_their_place(
    service: AdminService,
    before: Config,
    admin: Config,
    gateway: Config,
    proxied: Config,
    key: &str,
    url: Option<String>,
    proxy: Option<ProxyConfig>,
    told: Option<String>,
)
    requires
        exists|c: &mut Config| #[trigger]
            call_ensures(AdminService::persist_admin_key, (&service, c, key), ()) && *c == before
                && *final(c) == admin,
        exists|c: &mut Config| #[trigger]
            call_ensures(AdminService::persist_api_key, (&service, c, key), ()) && *c == before
                && *final(c) == gateway,
        exists|c: &mut Config| #[trigger]
            call_ensures(Config::store_proxy_url, (c, url), ()) && *c == before && *final(c)
                == proxied,
        call_ensures(AdminService::get_global_proxy, (&service, &proxy), told),
    ensures
        admin.admin_api_key matches Some(k) && k@ == key@,
        admin == (Config { admin_api_key: admin.admin_api_key, ..before }),
        gateway.api_key matches Some(k) && k@ == key@,
        gateway == (Config { api_key: gateway.api_key, ..before }),
        proxied.proxy_url == url,
        proxied == (Config { proxy_url: url, ..before }),
        proxy matches Some(p) ==> told == Some(p.url),
        proxy is None ==> told is None,
{
}

} // verus!
