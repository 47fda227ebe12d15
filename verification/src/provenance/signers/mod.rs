//! The signers that the relay can be configured with.

pub mod file_watch;
pub mod laws;
