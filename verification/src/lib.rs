//! A single-session remote command-execution engine.
//!
//! The library establishes an authenticated secure-shell connection to one
//! target host at a time, executes command lines against it, captures both
//! output streams together with the exit status, and manages the connection's
//! lifecycle (connect, authenticate, execute, disconnect).  At most one live
//! session exists per engine; a registry slot guarded by the engine owns it
//! from successful authentication until explicit disconnect or replacement.

pub mod engine;
pub mod errors;
pub mod laws;
pub mod outcome;
pub mod registry;
pub mod session;
pub mod shared;
pub mod ssh;
pub mod target;
