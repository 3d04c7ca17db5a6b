//! Decision logic of a Kiro API gateway.

pub mod admin;
pub mod anthropic;
pub mod clock;
pub mod encoding;
pub mod http_client;
pub mod kiro;
pub mod model;
pub mod numbers;
pub mod text;
