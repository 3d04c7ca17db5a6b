//! What the keeper of the credentials is asked for, and what it tells.

use vstd::prelude::*;

use crate::http_client::ProxyConfig;
use crate::kiro::model::credentials::KiroCredentials;

verus! {

/// What is known of a credential.
#[derive(Debug)]
pub struct CredentialEntry {
    /// Its number.
    pub id: u64,
    /// Its priority: lower numbers come first.
    pub priority: u32,
    /// Whether it is out of use.
    pub disabled: bool,
    /// How often it has failed in a row.
    pub failure_count: u32,
    /// When its access token ends.
    pub expires_at: Option<String>,
    /// How it logs in.
    pub auth_method: Option<String>,
    /// Whether it names a profile.
    pub has_profile_arn: bool,
    /// A hash of its refresh token.
    pub refresh_token_hash: Option<String>,
    /// A hash of its key.
    pub api_key_hash: Option<String>,
    /// Its key with most characters hidden.
    pub masked_api_key: Option<String>,
    /// The address of its owner.
    pub email: Option<String>,
    /// How often it has succeeded.
    pub success_count: u64,
    /// When it was used last.
    pub last_used_at: Option<String>,
    /// Whether its requests go through a proxy of its own.
    pub has_proxy: bool,
    /// That proxy.
    pub proxy_url: Option<String>,
    /// How often its token could not be refreshed.
    pub refresh_failure_count: u32,
    /// Why it is out of use.
    pub disabled_reason: Option<String>,
    /// The endpoint that its requests go to, if it names one.
    pub endpoint: Option<String>,
}

/// What is known of all credentials at one moment.
#[derive(Debug)]
pub struct ManagerSnapshot {
    /// The credentials.
    pub entries: Vec<CredentialEntry>,
    /// The one in use.
    pub current_id: u64,
    /// How many there are.
    pub total: usize,
    /// How many of them can be used.
    pub available: usize,
}

impl ManagerSnapshot {
    /// Whether there is a credential with this number.
    pub open spec fn knows(self, id: u64) -> bool {
        exists|i: int| 0 <= i < self.entries@.len() && (#[trigger] self.entries@[i]).id == id
    }

    /// Whether there is a credential with this number.
    pub fn has_credential(&self, id: u64) -> (r: bool)
        ensures
            r == self.knows(id),
    {
        let mut i: usize = 0;
        while i < self.entries.len()
            invariant
                i <= self.entries@.len(),
                forall|j: int| 0 <= j < i ==> (#[trigger] self.entries@[j]).id != id,
            decreases self.entries@.len() - i,
        {
            if self.entries[i].id == id {
                return true;
            }
            i = i + 1;
        }
        false
    }
}

/// What the keeper of the credentials is asked to do.
#[derive(Debug)]
pub enum ManagerCall {
    /// Put a credential out of use, or into use again.
    SetDisabled {
        /// The credential.
        id: u64,
        /// Whether it is to be out of use.
        disabled: bool,
    },
    /// Put a credential out of use because it has used all it may.
    DisableQuotaExceeded {
        /// The credential.
        id: u64,
    },
    /// Use another credential from now on.
    SwitchToNext,
    /// Change the priority of a credential.
    SetPriority {
        /// The credential.
        id: u64,
        /// Its new priority.
        priority: u32,
    },
    /// Forget the failures of a credential and put it into use again.
    ResetAndEnable {
        /// The credential.
        id: u64,
    },
    /// Forget the successes of a credential, or of all of them.
    ResetSuccessCount {
        /// The credential; none stands for all.
        which: Option<u64>,
    },
    /// Ask the upstream what a credential has used and may use.
    UsageLimits {
        /// The credential.
        id: u64,
    },
    /// Add a credential.
    AddCredential(KiroCredentials),
    /// Change a credential. For each value: leave it, clear it or set it.
    UpdateCredential {
        /// The credential.
        id: u64,
        /// The address of its owner.
        email: Option<Option<String>>,
        /// The proxy that its requests go through.
        proxy_url: Option<Option<String>>,
        /// The user at that proxy.
        proxy_username: Option<Option<String>>,
        /// The password of that user.
        proxy_password: Option<Option<String>>,
    },
    /// Delete a credential.
    DeleteCredential {
        /// The credential.
        id: u64,
    },
    /// Change the proxy that all requests go through.
    SetGlobalProxy(Option<ProxyConfig>),
    /// Change how credentials take turns.
    SetLoadBalancingMode(String),
    /// Replace the tokens of a credential.
    UpdateRefreshToken {
        /// The credential.
        id: u64,
        /// The new refresh token.
        refresh_token: String,
        /// The new access token.
        access_token: Option<String>,
        /// When the new access token ends.
        expires_at: Option<String>,
    },
    /// Get a new access token for a credential.
    ForceRefreshToken {
        /// The credential.
        id: u64,
    },
    /// Tell the upstream whether a credential may use more than its limit.
    SetUserPreference {
        /// The credential.
        id: u64,
        /// Whether it may, in the words of the upstream.
        status: String,
    },
}

/// What a credential has used and may use. Amounts are IEEE 754 double precision
/// numbers, held as their bits.
#[derive(Debug)]
pub struct UsageLimits {
    /// The name of its subscription.
    pub subscription_title: Option<String>,
    /// The amount that was used.
    pub current_usage: u64,
    /// The amount that may be used.
    pub usage_limit: u64,
    /// The difference of the two.
    pub remaining: u64,
    /// The part that was used, in percent.
    pub usage_percentage: u64,
    /// Whether nothing is left, or all of it was used.
    pub exceeded: bool,
    /// When the usage starts again at nothing, as the bits of a number.
    pub next_date_reset: Option<u64>,
    /// Whether more may be used than the limit, if that is known.
    pub overage_enabled: Option<bool>,
    /// Whether that can be switched on, if that is known.
    pub overage_capable: Option<bool>,
    /// What the upstream said of that.
    pub overage_capability: Option<String>,
}

} // verus!
