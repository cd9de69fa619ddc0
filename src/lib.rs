//! Position-tracking tail of an append-only log file.
//!
//! The library holds the decisions of a log watcher: which bytes of a delta
//! read form complete lines, how far the read cursor moves, how a watch
//! session reacts to filesystem signals and cancellation, and which session
//! occupies the single process-wide slot. Reading the file, registering with
//! the operating system and running the background task are left to callers.
use vstd::prelude::*;

pub mod lines;
pub mod cursor;
pub mod session;
pub mod registry;

verus! {

} // verus!
