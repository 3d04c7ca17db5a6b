//! What Kiro sends and what it is given.

pub mod events;
pub mod credentials;
