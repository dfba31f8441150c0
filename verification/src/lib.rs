//! Elicitation over the Agent Client Protocol, and the completion calls that context compaction
//! makes.

pub mod cursor;
pub mod elicitation;
pub mod json;
pub mod messages;
pub mod model;
pub mod protocol;
