//! The interface that clients of the gateway use.

pub mod middleware;
