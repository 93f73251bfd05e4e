//! The typed error taxonomy.
//!
//! Every operation returns a structured error rather than a bare message, so
//! that callers can branch on the kind of failure: network-level trouble is
//! retryable, credential trouble is not, and "command ran but failed" stays
//! apart from "could not run the command at all".

use vstd::prelude::*;

use crate::outcome::CommandResult;

verus! {

/// Why a connection attempt failed.
#[derive(Clone, Debug, PartialEq)]
pub enum ConnectError {
    /// The host could not be reached at the network level (resolution,
    /// refusal or timeout).  Retryable by the caller.
    Unreachable { message: String },
    /// The secure-shell protocol handshake on the open stream failed.
    HandshakeFailed { message: String },
    /// The handshake went through but the credential was not accepted, or
    /// the session did not report itself authenticated afterwards.
    AuthFailed { message: String },
    /// The registry's mutual-exclusion primitive could not be acquired.
    LockUnavailable,
}

/// Why a command execution failed.
#[derive(Clone, Debug, PartialEq)]
pub enum ExecError {
    /// No authenticated session is registered; no network traffic was
    /// attempted.
    NotAuthenticated,
    /// No command channel could be opened on the session.
    ChannelOpenFailed { message: String },
    /// The channel rejected the request to run the command line.
    ExecFailed { command: String, message: String },
    /// The bounded wait for the channel to close ran out; the channel was
    /// abandoned but the session itself stays usable.
    ExecutionTimedOut { command: String },
    /// The channel closed but no exit status could be retrieved, so the
    /// command's effect is indeterminate.
    ExitStatusUnavailable { message: String },
    /// The command ran to completion and returned a non-zero status; the
    /// full result is preserved for diagnosis.
    CommandNonZeroExit { command: String, result: CommandResult },
    /// The registry's mutual-exclusion primitive could not be acquired.
    LockUnavailable,
}

/// Why a disconnect request failed.
#[derive(Clone, Debug, PartialEq)]
pub enum DisconnectError {
    /// There was no session to disconnect.
    NoActiveSession,
    /// The protocol-level disconnect notification could not be sent; the
    /// registry slot is cleared regardless.
    DisconnectFailed { message: String },
    /// The registry's mutual-exclusion primitive could not be acquired.
    LockUnavailable,
}

} // verus!
