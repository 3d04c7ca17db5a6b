//! Credentials of the upstream.

use vstd::prelude::*;

use crate::text::copy_opt;

verus! {

/// A credential of the upstream.
#[derive(Debug)]
pub struct KiroCredentials {
    /// Its number, once it is stored.
    pub id: Option<u64>,
    /// The token that requests carry.
    pub access_token: Option<String>,
    /// The token that gets new access tokens.
    pub refresh_token: Option<String>,
    /// The profile that requests name.
    pub profile_arn: Option<String>,
    /// When the access token ends.
    pub expires_at: Option<String>,
    /// How it logs in.
    pub auth_method: Option<String>,
    /// Who it logs in with.
    pub provider: Option<String>,
    /// The client that it logs in as.
    pub client_id: Option<String>,
    /// The secret of that client.
    pub client_secret: Option<String>,
    /// Its priority: lower numbers come first.
    pub priority: u32,
    /// Its region.
    pub region: Option<String>,
    /// The region that it logs in to.
    pub auth_region: Option<String>,
    /// The region that requests go to.
    pub api_region: Option<String>,
    /// The machine that requests name.
    pub machine_id: Option<String>,
    /// The address of its owner.
    pub email: Option<String>,
    /// The name of its subscription.
    pub subscription_title: Option<String>,
    /// The proxy that its requests go through.
    pub proxy_url: Option<String>,
    /// The user at that proxy.
    pub proxy_username: Option<String>,
    /// The password of that user.
    pub proxy_password: Option<String>,
    /// Whether it is out of use.
    pub disabled: bool,
    /// The key that stands in place of tokens.
    pub kiro_api_key: Option<String>,
    /// The endpoint that its requests go to.
    pub endpoint: Option<String>,
}

/// A credential that says nothing.
pub open spec fn blank_credentials() -> KiroCredentials {
    KiroCredentials {
        id: None,
        access_token: None,
        refresh_token: None,
        profile_arn: None,
        expires_at: None,
        auth_method: None,
        provider: None,
        client_id: None,
        client_secret: None,
        priority: 0,
        region: None,
        auth_region: None,
        api_region: None,
        machine_id: None,
        email: None,
        subscription_title: None,
        proxy_url: None,
        proxy_username: None,
        proxy_password: None,
        disabled: false,
        kiro_api_key: None,
        endpoint: None,
    }
}

impl Default for KiroCredentials {
    fn default() -> (r: Self)
        ensures
            r == blank_credentials(),
    {
        KiroCredentials {
            id: None,
            access_token: None,
            refresh_token: None,
            profile_arn: None,
            expires_at: None,
            auth_method: None,
            provider: None,
            client_id: None,
            client_secret: None,
            priority: 0,
            region: None,
            auth_region: None,
            api_region: None,
            machine_id: None,
            email: None,
            subscription_title: None,
            proxy_url: None,
            proxy_username: None,
            proxy_password: None,
            disabled: false,
            kiro_api_key: None,
            endpoint: None,
        }
    }
}

impl Clone for KiroCredentials {
    fn clone(&self) -> (r: Self)
        ensures
            r == *self,
    {
        KiroCredentials {
            id: self.id,
            access_token: copy_opt(&self.access_token),
            refresh_token: copy_opt(&self.refresh_token),
            profile_arn: copy_opt(&self.profile_arn),
            expires_at: copy_opt(&self.expires_at),
            auth_method: copy_opt(&self.auth_method),
            provider: copy_opt(&self.provider),
            client_id: copy_opt(&self.client_id),
            client_secret: copy_opt(&self.client_secret),
            priority: self.priority,
            region: copy_opt(&self.region),
            auth_region: copy_opt(&self.auth_region),
            api_region: copy_opt(&self.api_region),
            machine_id: copy_opt(&self.machine_id),
            email: copy_opt(&self.email),
            subscription_title: copy_opt(&self.subscription_title),
            proxy_url: copy_opt(&self.proxy_url),
            proxy_username: copy_opt(&self.proxy_username),
            proxy_password: copy_opt(&self.proxy_password),
            disabled: self.disabled,
            kiro_api_key: copy_opt(&self.kiro_api_key),
            endpoint: copy_opt(&self.endpoint),
        }
    }
}

} // verus!
