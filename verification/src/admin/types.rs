//! Requests and answers of the administration interface.

use vstd::prelude::*;

use crate::admin::balance::BalanceResponse;
use crate::text::{copy_opt, view_opt};

verus! {

/// A request to change the settings of online updates.
#[derive(Debug)]
pub struct SetUpdateConfigRequest {
    /// The new image.
    pub image: Option<String>,
    /// Whether updates are to be applied without being asked for.
    pub auto_apply: Option<bool>,
    /// The new time.
    pub auto_apply_time: Option<String>,
}

/// The settings of online updates.
#[derive(Debug)]
pub struct UpdateConfigResponse {
    /// The image that updates come from.
    pub image: String,
    /// The image that was running before the last update.
    pub previous_image: Option<String>,
    /// Whether updates are applied without being asked for.
    pub auto_apply: bool,
    /// When updates are applied without being asked for.
    pub auto_apply_time: String,
}

/// What a look for updates has found.
#[derive(Debug)]
pub struct UpdateCheckInfo {
    /// The version that is running.
    pub current_version: String,
    /// The newest version; empty if none is known.
    pub latest_version: String,
    /// Whether the newest version is newer than the running one.
    pub has_update: bool,
    /// How the gateway is installed.
    pub build_type: String,
    /// The title of the release.
    pub release_name: Option<String>,
    /// The notes of the release.
    pub release_notes: Option<String>,
    /// A page about the release.
    pub release_url: Option<String>,
    /// When the release was published.
    pub published_at: Option<String>,
    /// When this was found.
    pub checked_at: String,
    /// Whether this was found earlier.
    pub cached: bool,
    /// What went wrong.
    pub warning: Option<String>,
}

impl Clone for UpdateCheckInfo {
    fn clone(&self) -> (r: Self)
        ensures
            r == *self,
    {
        UpdateCheckInfo {
            current_version: self.current_version.clone(),
            latest_version: self.latest_version.clone(),
            has_update: self.has_update,
            build_type: self.build_type.clone(),
            release_name: copy_opt(&self.release_name),
            release_notes: copy_opt(&self.release_notes),
            release_url: copy_opt(&self.release_url),
            published_at: copy_opt(&self.published_at),
            checked_at: self.checked_at.clone(),
            cached: self.cached,
            warning: copy_opt(&self.warning),
        }
    }
}

/// What an image operation has done.
#[derive(Debug)]
pub struct ImageUpdateResponse {
    /// Whether it succeeded.
    pub success: bool,
    /// A message for the client.
    pub message: String,
    /// The image.
    pub image: String,
    /// What the commands wrote.
    pub output: Option<String>,
    /// Whether the image was started.
    pub applied: bool,
    /// Whether the gateway is about to restart.
    pub need_restart: bool,
}

/// What an [`ImageUpdateResponse`] says.
#[verifier::ext_equal]
pub struct ImageUpdateView {
    /// Whether it succeeded.
    pub success: bool,
    /// A message for the client.
    pub message: Seq<char>,
    /// The image.
    pub image: Seq<char>,
    /// What the commands wrote.
    pub output: Option<Seq<char>>,
    /// Whether the image was started.
    pub applied: bool,
    /// Whether the gateway is about to restart.
    pub need_restart: bool,
}

impl View for ImageUpdateResponse {
    type V = ImageUpdateView;

    open spec fn view(&self) -> ImageUpdateView {
        ImageUpdateView {
            success: self.success,
            message: self.message@,
            image: self.image@,
            output: view_opt(self.output),
            applied: self.applied,
            need_restart: self.need_restart,
        }
    }
}

/// The state of a credential.
#[derive(Debug)]
pub struct CredentialStatusItem {
    /// Its number.
    pub id: u64,
    /// Its priority: lower numbers come first.
    pub priority: u32,
    /// Whether it is out of use.
    pub disabled: bool,
    /// How often it has failed in a row.
    pub failure_count: u32,
    /// Whether it is the one in use.
    pub is_current: bool,
    /// When its access token ends.
    pub expires_at: Option<String>,
    /// How it logs in.
    pub auth_method: Option<String>,
    /// Whether it names a profile.
    pub has_profile_arn: bool,
    /// A hash of its refresh token.
    pub refresh_token_hash: Option<String>,
    /// A hash of its key.
    pub api_key_hash: Option<String>,
    /// Its key with most characters hidden.
    pub masked_api_key: Option<String>,
    /// The address of its owner.
    pub email: Option<String>,
    /// How often it has succeeded.
    pub success_count: u64,
    /// When it was used last.
    pub last_used_at: Option<String>,
    /// Whether its requests go through a proxy of its own.
    pub has_proxy: bool,
    /// That proxy.
    pub proxy_url: Option<String>,
    /// How often its token could not be refreshed.
    pub refresh_failure_count: u32,
    /// Why it is out of use.
    pub disabled_reason: Option<String>,
    /// The endpoint that its requests go to.
    pub endpoint: String,
    /// Its balance, if that is known.
    pub balance: Option<BalanceResponse>,
    /// When its balance was learned, in seconds since the Unix epoch.
    pub balance_updated_at: Option<i64>,
}

/// The state of all credentials.
#[derive(Debug)]
pub struct CredentialsStatusResponse {
    /// How many there are.
    pub total: usize,
    /// How many of them can be used.
    pub available: usize,
    /// The one in use.
    pub current_id: u64,
    /// Their states.
    pub credentials: Vec<CredentialStatusItem>,
}

/// What became of the credentials that have used all they may.
#[derive(Debug)]
pub struct QuotaExceededResult {
    /// Those that were put out of use.
    pub disabled_ids: Vec<u64>,
    /// Those that could not be put out of use.
    pub skipped_ids: Vec<u64>,
}

/// What became of the credentials that could use more than their limit.
#[derive(Debug)]
pub struct EnableOverageAllResult {
    /// Those that may do so from now on.
    pub enabled_ids: Vec<u64>,
    /// Those that were left as they are.
    pub skipped_ids: Vec<u64>,
    /// Those for which it failed.
    pub failed_ids: Vec<u64>,
    /// What the failures were, in the same order.
    pub failure_messages: Vec<String>,
}

/// A request to add a credential.
#[derive(Debug)]
pub struct AddCredentialRequest {
    /// The token that requests carry.
    pub access_token: Option<String>,
    /// The token that gets new access tokens.
    pub refresh_token: Option<String>,
    /// The profile that requests name.
    pub profile_arn: Option<String>,
    /// When the access token ends.
    pub expires_at: Option<String>,
    /// How it logs in.
    pub auth_method: String,
    /// Who it logs in with.
    pub provider: Option<String>,
    /// The client that it logs in as.
    pub client_id: Option<String>,
    /// The secret of that client.
    pub client_secret: Option<String>,
    /// Its priority.
    pub priority: u32,
    /// Its region.
    pub region: Option<String>,
    /// The region that it logs in to.
    pub auth_region: Option<String>,
    /// The region that requests go to.
    pub api_region: Option<String>,
    /// The machine that requests name.
    pub machine_id: Option<String>,
    /// The address of its owner.
    pub email: Option<String>,
    /// The proxy that its requests go through.
    pub proxy_url: Option<String>,
    /// The user at that proxy.
    pub proxy_username: Option<String>,
    /// The password of that user.
    pub proxy_password: Option<String>,
    /// The key that stands in place of tokens.
    pub kiro_api_key: Option<String>,
    /// The endpoint that its requests go to.
    pub endpoint: Option<String>,
}

/// The answer to a credential that was added.
#[derive(Debug)]
pub struct AddCredentialResponse {
    /// Whether it was added.
    pub success: bool,
    /// A message for the client.
    pub message: String,
    /// The number of the credential.
    pub credential_id: u64,
    /// The address of its owner.
    pub email: Option<String>,
}

/// A request to change a credential. An empty text clears a value; a value that
/// is not there is left as it is.
#[derive(Debug)]
pub struct UpdateCredentialRequest {
    /// The address of its owner.
    pub email: Option<String>,
    /// The proxy that its requests go through.
    pub proxy_url: Option<String>,
    /// The user at that proxy.
    pub proxy_username: Option<String>,
    /// The password of that user.
    pub proxy_password: Option<String>,
}

/// A request to replace the tokens of a credential.
#[derive(Debug)]
pub struct UpdateRefreshTokenRequest {
    /// The new refresh token.
    pub refresh_token: String,
    /// The new access token.
    pub access_token: Option<String>,
    /// When the new access token ends.
    pub expires_at: Option<String>,
}

/// A request to change how credentials take turns.
#[derive(Debug)]
pub struct SetLoadBalancingModeRequest {
    /// The new way.
    pub mode: String,
}

/// How credentials take turns.
#[derive(Debug)]
pub struct LoadBalancingModeResponse {
    /// The way.
    pub mode: String,
}

/// A proxy of the pool.
#[derive(Debug)]
pub struct ProxyPoolEntry {
    /// Its number.
    pub id: u64,
    /// Its address.
    pub url: String,
    /// What it is called.
    pub label: Option<String>,
    /// Whether it can be given to credentials.
    pub enabled: bool,
    /// How many credentials use it.
    pub credential_count: u32,
}

/// The proxies of the pool.
#[derive(Debug)]
pub struct ProxyPoolResponse {
    /// How many there are.
    pub total: usize,
    /// The proxies.
    pub proxies: Vec<ProxyPoolEntry>,
}

/// A request to add proxies to the pool.
#[derive(Debug)]
pub struct BatchAddProxyRequest {
    /// Their addresses.
    pub urls: Vec<String>,
}

/// A request to give a credential a proxy of the pool.
#[derive(Debug)]
pub struct AssignProxyRequest {
    /// The proxy; none clears the one that the credential has.
    pub proxy_id: Option<u64>,
}

/// A request to log in with a social account.
#[derive(Debug)]
pub struct StartSocialLoginRequest {
    /// The proxy that the login goes through.
    pub proxy_url: Option<String>,
    /// Where to log in.
    pub auth_endpoint: Option<String>,
    /// The public address of the gateway that the browser is sent to; without
    /// it, the browser is sent to a local address.
    pub callback_base_url: Option<String>,
    /// The priority of the new credential.
    pub priority: u32,
    /// The address of the owner.
    pub email: Option<String>,
}

/// The answer to a login with a social account that was started.
#[derive(Debug)]
pub struct StartSocialLoginResponse {
    /// The name of the session.
    pub session_id: String,
    /// The page to log in on.
    pub portal_url: String,
    /// When the session ends.
    pub expires_at: String,
}

/// A request to log in with a device code.
#[derive(Debug)]
pub struct StartIdcLoginRequest {
    /// The region to log in to.
    pub region: String,
    /// The page of the organisation.
    pub start_url: Option<String>,
    /// The proxy that the login goes through.
    pub proxy_url: Option<String>,
    /// The priority of the new credential.
    pub priority: u32,
    /// The address of the owner.
    pub email: Option<String>,
}

/// The answer to a login with a device code that was started.
#[derive(Debug)]
pub struct StartIdcLoginResponse {
    /// The name of the session.
    pub session_id: String,
    /// The code to enter.
    pub user_code: String,
    /// The page to enter it on.
    pub verification_uri: String,
    /// That page with the code in its address.
    pub verification_uri_complete: String,
    /// When the session ends.
    pub expires_at: String,
    /// How many seconds to wait between two questions.
    pub poll_interval: i64,
}

/// How far a login has come.
#[derive(Debug, Clone, Copy, PartialEq, Eq, Structural)]
pub enum PollIdcLoginResponse {
    /// Nothing has happened yet.
    Pending,
    /// The session has ended.
    Expired,
    /// The login has succeeded.
    Success {
        /// The credential.
        credential_id: u64,
    },
}

} // verus!
