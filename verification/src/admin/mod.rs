//! The administration interface.

pub mod balance;
pub mod commands;
pub mod compose;
pub mod credentials;
pub mod endpoints;
pub mod error;
pub mod failures;
pub mod idc_login;
pub mod image_update;
pub mod images;
pub mod listing;
pub mod proxies;
pub mod quota;
pub mod release;
pub mod relogin;
pub mod schedule;
pub mod service;
pub mod sessions;
pub mod social_login;
pub mod types;
pub mod update_config;
