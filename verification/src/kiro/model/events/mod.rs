//! The events of a Kiro response stream.

pub mod assistant;

pub use assistant::AssistantResponseEvent;
