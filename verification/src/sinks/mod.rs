//! What the sinks compute before they write.

pub mod file;
pub mod kafka;
