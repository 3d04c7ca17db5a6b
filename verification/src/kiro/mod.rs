//! The Kiro side of the gateway.

pub mod error;
pub mod model;
pub mod token_manager;
