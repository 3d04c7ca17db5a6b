//! The settings of online updates.

use vstd::prelude::*;

use crate::admin::error::{AdminServiceError, ErrorView};
use crate::admin::images::{image_problem, validate_image_ref};
use crate::admin::schedule::{normal_time, normalize_auto_apply_time};
use crate::admin::types::{SetUpdateConfigRequest, UpdateConfigResponse};
use crate::model::config::Config;
use crate::text::{copy_opt, trim, trimmed, view_opt};

verus! {

/// The settings of online updates while the gateway runs.
#[derive(Debug)]
pub struct RuntimeUpdateConfig {
    /// The image that updates come from.
    pub image: String,
    /// The image that was running before the last update.
    pub previous_image: Option<String>,
    /// Whether updates are applied without being asked for.
    pub auto_apply: bool,
    /// When updates are applied without being asked for.
    pub auto_apply_time: String,
}

/// A change of the settings that has passed the checks.
#[derive(Debug)]
pub struct UpdateConfigChange {
    /// The new image, trimmed.
    pub image: Option<String>,
    /// Whether updates are to be applied without being asked for.
    pub auto_apply: Option<bool>,
    /// The new time, as `HH:MM`.
    pub auto_apply_time: Option<String>,
}

impl UpdateConfigChange {
    /// Whether this is the change that a request asks for.
    pub open spec fn comes_from(self, req: SetUpdateConfigRequest) -> bool {
        &&& view_opt(self.image) == (match req.image {
            Some(image) => Some(trim(image@)),
            None => None,
        })
        &&& self.auto_apply == req.auto_apply
        &&& view_opt(self.auto_apply_time) == (match req.auto_apply_time {
            Some(time) => Some(normal_time(time@)->Ok_0),
            None => None,
        })
    }
}

/// What is wrong with a request to change the settings, if anything is: first
/// the image, which may be empty, then the time.
pub open spec fn change_problem(req: SetUpdateConfigRequest) -> Option<ErrorView> {
    let image = match req.image {
        Some(image) => if trim(image@).len() > 0 {
            image_problem(trim(image@))
        } else {
            None
        },
        None => None,
    };
    let time = match req.auto_apply_time {
        Some(time) => match normal_time(time@) {
            Ok(_) => None,
            Err(message) => Some(message),
        },
        None => None,
    };
    if image is Some {
        Some(ErrorView::Invalid(image.unwrap()))
    } else if time is Some {
        Some(ErrorView::Invalid(time.unwrap()))
    } else {
        None
    }
}

/// Checks a request to change the settings.
pub fn check_update_config(req: &SetUpdateConfigRequest) -> (r: Result<
    UpdateConfigChange,
    AdminServiceError,
>)
    ensures
        match change_problem(*req) {
            None => r matches Ok(change) && change.comes_from(*req),
            Some(problem) => r matches Err(e) && e@ == problem,
        },
{
    let image = match &req.image {
        Some(image) => {
            let short = trimmed(image.as_str());
            if !short.as_str().is_empty() {
                match validate_image_ref(short.as_str()) {
                    Ok(()) => {},
                    Err(e) => return Err(e),
                }
            }
            Some(short)
        },
        None => None,
    };
    let auto_apply_time = match &req.auto_apply_time {
        Some(time) => match normalize_auto_apply_time(time.as_str()) {
            Ok(normal) => Some(normal),
            Err(e) => return Err(e),
        },
        None => None,
    };
    Ok(UpdateConfigChange { image, auto_apply: req.auto_apply, auto_apply_time })
}

impl RuntimeUpdateConfig {
    /// The settings as they are stored.
    pub fn from_config(config: &Config) -> (r: Self)
        ensures
            r.image == config.update_image,
            r.previous_image == config.update_previous_image,
            r.auto_apply == config.update_auto_apply,
            r.auto_apply_time == config.update_auto_apply_time,
    {
        RuntimeUpdateConfig {
            image: config.update_image.clone(),
            previous_image: copy_opt(&config.update_previous_image),
            auto_apply: config.update_auto_apply,
            auto_apply_time: config.update_auto_apply_time.clone(),
        }
    }

    /// The settings as a client sees them.
    pub open spec fn shown(self) -> UpdateConfigResponse {
        UpdateConfigResponse {
            image: self.image,
            previous_image: self.previous_image,
            auto_apply: self.auto_apply,
            auto_apply_time: self.auto_apply_time,
        }
    }

    /// The settings as a client sees them.
    pub fn response(&self) -> (r: UpdateConfigResponse)
        ensures
            r == self.shown(),
    {
        UpdateConfigResponse {
            image: self.image.clone(),
            previous_image: copy_opt(&self.previous_image),
            auto_apply: self.auto_apply,
            auto_apply_time: self.auto_apply_time.clone(),
        }
    }

    /// The settings after a change.
    pub open spec fn changed(self, change: UpdateConfigChange) -> RuntimeUpdateConfig {
        RuntimeUpdateConfig {
            image: match change.image {
                Some(image) => image,
                None => self.image,
            },
            previous_image: self.previous_image,
            auto_apply: match change.auto_apply {
                Some(b) => b,
                None => self.auto_apply,
            },
            auto_apply_time: match change.auto_apply_time {
                Some(time) => time,
                None => self.auto_apply_time,
            },
        }
    }

    /// Makes a change.
    pub fn apply(&mut self, change: &UpdateConfigChange)
        ensures
            *final(self) == old(self).changed(*change),
    {
        if let Some(image) = &change.image {
            self.image = image.clone();
        }
        if let Some(auto_apply) = change.auto_apply {
            self.auto_apply = auto_apply;
        }
        if let Some(time) = &change.auto_apply_time {
            self.auto_apply_time = time.clone();
        }
    }
}

impl Config {
    /// The stored settings after a change of the settings of online updates.
    pub open spec fn with_update_change(self, change: UpdateConfigChange) -> Config {
        Config {
            update_image: match change.image {
                Some(image) => image,
                None => self.update_image,
            },
            update_auto_apply: match change.auto_apply {
                Some(b) => b,
                None => self.update_auto_apply,
            },
            update_auto_apply_time: match change.auto_apply_time {
                Some(time) => time,
                None => self.update_auto_apply_time,
            },
            ..self
        }
    }

    /// Makes a change of the settings of online updates in the stored settings.
    pub fn apply_update_change(&mut self, change: UpdateConfigChange)
        ensures
            *final(self) == old(self).with_update_change(change),
    {
        if let Some(image) = change.image {
            self.update_image = image;
        }
        if let Some(auto_apply) = change.auto_apply {
            self.update_auto_apply = auto_apply;
        }
        if let Some(time) = change.auto_apply_time {
            self.update_auto_apply_time = time;
        }
    }
}

} // verus!
