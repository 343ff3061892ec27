//! Deferred-callback replay bridge for a single-threaded host runtime.
//!
//! Expensive hashing and verification work runs on background workers;
//! each completed job travels back over a result channel as a plain value
//! and is replayed into one of the currently loaded host contexts at the
//! single sanctioned execution point, the periodic dispatch tick.

pub mod args;
pub mod channel;
pub mod dispatch;
pub mod plugin;
