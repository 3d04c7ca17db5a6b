//! Settings of the gateway.

pub mod config;
