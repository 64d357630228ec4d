//! Scan orchestration core of a recursive content-discovery scanner: wordlist
//! loading, target resolution, per-target task planning, the pause/resume
//! control step, the reporting consumers and the ordered shutdown of the
//! reporting channels.
pub mod controller;
pub mod error;
pub mod orchestrator;
pub mod reporter;
pub mod shutdown;
pub mod target;
pub mod wordlist;
