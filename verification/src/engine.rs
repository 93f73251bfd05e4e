//! The lifecycle controller: connect-or-replace, execute, disconnect.
//!
//! An engine owns one [`Registry`] slot for its authenticated session and
//! drives the session's whole life: a successful connect installs the new
//! session (explicitly telling a superseded one goodbye first), execute
//! runs one command against the current session and leaves the registry
//! as it was, and disconnect clears the slot unconditionally.
//!
//! The observable states are "slot empty" (disconnected) and "slot
//! occupied" (connected); the connecting state exists only for the
//! duration of a `connect` call, which settles into one of the two.
//!
//! The deterministic part of each operation's behaviour is captured by a
//! spec predicate (`connect_spec`, `execute_spec`, `disconnect_spec`), so
//! that laws relating several calls can be stated and proved from the
//! contracts alone.

use vstd::prelude::*;

use crate::errors::{ConnectError, DisconnectError, ExecError};
use crate::outcome::CommandResult;
use crate::registry::Registry;
use crate::session::ActiveSession;
use crate::target::Credential;

verus! {

/// The default bound, in milliseconds, on every blocking call of a
/// connection whose caller does not pick one.
pub const DEFAULT_TIMEOUT_MS: u32 = 30000;

/// A single-session remote command-execution engine.
pub struct Engine {
    registry: Registry<ActiveSession>,
    timeout_ms: u32,
}

/// What every `connect` call guarantees: on success the registry holds a
/// session (that it is exactly the installed one, with nothing else
/// reachable, is [`Registry::install`]'s contract); on failure the engine
/// is untouched and the error tells the failing phase apart.
pub open spec fn connect_spec(
    pre: Engine,
    post: Engine,
    r: Result<(), ConnectError>,
) -> bool {
    &&& post.timeout() == pre.timeout()
    &&& (r is Ok ==> post.active() is Some)
    &&& (r is Err ==> post.active() == pre.active())
    &&& (r matches Err(e) ==> (e matches ConnectError::HandshakeFailed { .. } || e matches
        ConnectError::AuthFailed { .. }))
}

/// What every `execute` call guarantees: the registry state is exactly
/// what it was; with no registered session the call fails as
/// `NotAuthenticated` before any network traffic; a success carries a
/// well-formed zero-status result, and a non-zero status carries the
/// command line, the exact status and both buffers.
pub open spec fn execute_spec(
    pre: Engine,
    post: Engine,
    command: Seq<char>,
    r: Result<CommandResult, ExecError>,
) -> bool {
    &&& post.timeout() == pre.timeout()
    &&& post.active() == pre.active()
    &&& (pre.active() is None ==> r == Err::<CommandResult, ExecError>(
        ExecError::NotAuthenticated,
    ))
    &&& (r matches Ok(res) ==> pre.active() is Some && res.wf() && res.succeeded
        && res.exit_code == 0)
    &&& (r matches Err(ExecError::CommandNonZeroExit { command: c, result: res }) ==> c@
        == command && res.wf() && !res.succeeded && res.exit_code != 0)
    &&& (r matches Err(ExecError::ExecFailed { command: c, .. }) ==> c@ == command)
    &&& (r matches Err(ExecError::ExecutionTimedOut { command: c }) ==> c@ == command)
    &&& !(r matches Err(ExecError::LockUnavailable))
}

/// What every `disconnect` call guarantees: afterwards the registry is
/// empty, whatever happened; `NoActiveSession` comes exactly when there
/// was nothing to disconnect; with a session present the call either
/// succeeds or surfaces the failed goodbye notification.
pub open spec fn disconnect_spec(
    pre: Engine,
    post: Engine,
    r: Result<(), DisconnectError>,
) -> bool {
    &&& post.timeout() == pre.timeout()
    &&& post.active() is None
    &&& ((pre.active() is None) <==> r == Err::<(), DisconnectError>(
        DisconnectError::NoActiveSession,
    ))
    &&& (r matches Err(e) ==> (e matches DisconnectError::NoActiveSession || e matches
        DisconnectError::DisconnectFailed { .. }))
}

impl Engine {
    /// The session the registry currently holds.
    pub closed spec fn active(&self) -> Option<ActiveSession> {
        self.registry@
    }

    /// The bound, in milliseconds, this engine puts on blocking calls.
    pub closed spec fn timeout(&self) -> u32 {
        self.timeout_ms
    }

    /// An engine is well formed when its timeout is a real bound.
    pub open spec fn wf(&self) -> bool {
        self.timeout() >= 1
    }

    /// A fresh engine with no session and the given bound on blocking
    /// calls.
    pub fn new(timeout_ms: u32) -> (r: Engine)
        requires
            timeout_ms >= 1,
        ensures
            r.active() is None,
            r.timeout() == timeout_ms,
    {
        Engine { registry: Registry::new(), timeout_ms }
    }

    /// A fresh engine with the default timeout.
    pub fn with_default_timeout() -> (r: Engine)
        ensures
            r.active() is None,
            r.timeout() == DEFAULT_TIMEOUT_MS,
    {
        Engine::new(DEFAULT_TIMEOUT_MS)
    }

    /// Whether an authenticated session is currently registered.
    pub fn is_connected(&self) -> (r: bool)
        ensures
            r == (self.active() is Some),
    {
        self.registry.is_occupied()
    }

    /// Authenticate over the given transport (a fresh secure-shell session
    /// whose stream is already attached) and install the result.
    ///
    /// On success the new session replaces whatever the registry held; a
    /// superseded session is told goodbye first, best-effort, and is then
    /// dropped.  On any failure the registry keeps its previous state.
    pub fn connect(
        &mut self,
        transport: ssh2::Session,
        username: &str,
        credential: &Credential,
    ) -> (r: Result<(), ConnectError>)
        requires
            old(self).wf(),
        ensures
            connect_spec(*old(self), *final(self), r),
    {
        match ActiveSession::authenticate(transport, username, credential, self.timeout_ms) {
            Ok(session) => {
                let displaced = self.registry.install(session);
                match displaced {
                    Some(previous) => {
                        let _ = previous.goodbye("superseded by a new connection");
                    },
                    None => {},
                }
                Ok(())
            },
            Err(e) => Err(e),
        }
    }

    /// Run one command line against the registered session.
    ///
    /// With no session registered this fails as `NotAuthenticated` without
    /// any network traffic.  The registry is left exactly as found: the
    /// session stays installed whatever the command's outcome.
    pub fn execute(&mut self, command: &str) -> (r: Result<CommandResult, ExecError>)
        ensures
            execute_spec(*old(self), *final(self), command@, r),
    {
        match self.registry.take_and_clear() {
            None => Err(ExecError::NotAuthenticated),
            Some(session) => {
                let r = session.run_command(command);
                let _ = self.registry.install(session);
                r
            },
        }
    }

    /// Take the session from the registry and send the protocol-level
    /// disconnect notification.
    ///
    /// The slot is emptied unconditionally: a failed goodbye is surfaced
    /// to the caller but never leaves a phantom "connected" state behind.
    pub fn disconnect(&mut self) -> (r: Result<(), DisconnectError>)
        ensures
            disconnect_spec(*old(self), *final(self), r),
    {
        match self.registry.take_and_clear() {
            None => Err(DisconnectError::NoActiveSession),
            Some(session) => session.goodbye("user initiated disconnect"),
        }
    }
}

} // verus!
