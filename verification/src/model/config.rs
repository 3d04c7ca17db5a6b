//! The settings that the administration interface reads and writes.

use vstd::prelude::*;

verus! {

/// The settings of the gateway, as far as the administration interface uses
/// them.
#[derive(Debug)]
pub struct Config {
    /// The endpoint of credentials that name none.
    pub default_endpoint: String,
    /// The proxy of credentials that name none.
    pub proxy_url: Option<String>,
    /// The key of the administration interface.
    pub admin_api_key: Option<String>,
    /// The key of the gateway itself.
    pub api_key: Option<String>,
    /// The image that updates come from.
    pub update_image: String,
    /// The image that was running before the last update.
    pub update_previous_image: Option<String>,
    /// Whether updates are applied without being asked for.
    pub update_auto_apply: bool,
    /// When updates are applied without being asked for, as `HH:MM`.
    pub update_auto_apply_time: String,
}

} // verus!
