//! Search for CREATE2 deployment salts whose derived contract address
//! matches user-supplied patterns, with the derivation, the matching, the
//! partition of the attempt budget, the progress accounting, the result
//! coordination and the checkpoint text all verified.

pub mod oracle;
pub mod text;
pub mod pattern;
pub mod budget;
pub mod progress;
pub mod worker;
pub mod summary;
pub mod coordinator;
pub mod duration;
pub mod config;
