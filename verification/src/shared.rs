//! Mutual exclusion around an engine, for concurrent callers.
//!
//! Multiple threads may request operations at once; the verified lock
//! serializes them, so every operation completes atomically with respect
//! to the registry's state.  The lock is held for the whole operation,
//! remote round trip included: the underlying transport serializes calls
//! on one session internally anyway, so one command is in flight at a
//! time — a known throughput limitation, traded for the guarantee that
//! two concurrent executions never interleave their buffers.  Because the
//! lock is verified it cannot be poisoned, so no operation of this type
//! ever reports `LockUnavailable`.

use vstd::prelude::*;
use vstd::rwlock::{RwLock, RwLockPredicate};

use crate::engine::Engine;
use crate::errors::{ConnectError, DisconnectError, ExecError};
use crate::outcome::CommandResult;
use crate::target::Credential;

verus! {

/// What the lock guards: only well-formed engines are stored.
pub struct EngineInv {}

impl RwLockPredicate<Engine> for EngineInv {
    open spec fn inv(self, engine: Engine) -> bool {
        engine.wf()
    }
}

/// An engine behind a verified exclusive lock, shareable between
/// threads.
pub struct SharedEngine {
    lock: RwLock<Engine, EngineInv>,
}

impl SharedEngine {
    /// A fresh shared engine with no session and the given bound on
    /// blocking calls.
    pub fn new(timeout_ms: u32) -> SharedEngine
        requires
            timeout_ms >= 1,
    {
        let engine = Engine::new(timeout_ms);
        SharedEngine { lock: RwLock::new(engine, Ghost(EngineInv {})) }
    }

    /// A fresh shared engine with the default timeout.
    pub fn with_default_timeout() -> SharedEngine {
        SharedEngine::new(crate::engine::DEFAULT_TIMEOUT_MS)
    }

    /// Whether an authenticated session is currently registered.
    pub fn is_connected(&self) -> bool {
        let (engine, handle) = self.lock.acquire_write();
        let r = engine.is_connected();
        handle.release_write(engine);
        r
    }

    /// Serialized [`Engine::connect`]: authenticate over the transport
    /// and install the session, replacing and telling goodbye to a
    /// superseded one.
    pub fn connect(
        &self,
        transport: ssh2::Session,
        username: &str,
        credential: &Credential,
    ) -> (r: Result<(), ConnectError>)
        ensures
            r matches Err(e) ==> (e matches ConnectError::HandshakeFailed { .. } || e matches
                ConnectError::AuthFailed { .. }),
    {
        let (mut engine, handle) = self.lock.acquire_write();
        let r = engine.connect(transport, username, credential);
        handle.release_write(engine);
        r
    }

    /// Serialized [`Engine::execute`]: run one command line against the
    /// registered session, leaving the registry as it was.
    pub fn execute(&self, command: &str) -> (r: Result<CommandResult, ExecError>)
        ensures
            r matches Ok(res) ==> res.wf() && res.succeeded && res.exit_code == 0,
            r matches Err(ExecError::CommandNonZeroExit { command: c, result: res }) ==> c@
                == command@ && res.wf() && !res.succeeded && res.exit_code != 0,
            !(r matches Err(ExecError::LockUnavailable)),
    {
        let (mut engine, handle) = self.lock.acquire_write();
        let r = engine.execute(command);
        handle.release_write(engine);
        r
    }

    /// Serialized [`Engine::disconnect`]: empty the registry slot
    /// unconditionally and send the goodbye notification.
    pub fn disconnect(&self) -> (r: Result<(), DisconnectError>)
        ensures
            r matches Err(e) ==> (e matches DisconnectError::NoActiveSession || e matches
                DisconnectError::DisconnectFailed { .. }),
    {
        let (mut engine, handle) = self.lock.acquire_write();
        let r = engine.disconnect();
        handle.release_write(engine);
        r
    }
}

} // verus!
