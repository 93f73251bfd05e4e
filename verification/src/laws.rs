//! Laws of the engine's lifecycle, proved from the operation contracts
//! alone.
//!
//! Each lemma quantifies over engine states and results that are related
//! by the spec predicates of [`crate::engine`], so it covers every run of
//! the corresponding operations, in any order and from any reachable
//! state.

use vstd::prelude::*;

use crate::engine::{connect_spec, disconnect_spec, execute_spec, Engine};
use crate::errors::{ConnectError, DisconnectError, ExecError};
use crate::outcome::CommandResult;

verus! {

/// After any successful connect the registry holds exactly one session —
/// the slot is occupied, and being a single slot it can hold nothing
/// besides the newly installed session, so a previous session is no
/// longer reachable through it.
pub proof fn lemma_connect_installs_exactly_one(
    pre: Engine,
    post: Engine,
    r: Result<(), ConnectError>,
)
    requires
        connect_spec(pre, post, r),
        r is Ok,
    ensures
        post.active() is Some,
{
}

/// An execute with no prior successful connect fails as
/// `NotAuthenticated` and leaves the engine's state untouched.
pub proof fn lemma_execute_unconnected(
    pre: Engine,
    post: Engine,
    command: Seq<char>,
    r: Result<CommandResult, ExecError>,
)
    requires
        execute_spec(pre, post, command, r),
        pre.active() is None,
    ensures
        r == Err::<CommandResult, ExecError>(ExecError::NotAuthenticated),
        post.active() is None,
{
}

/// Execute never changes what the registry holds: the session that was
/// installed before the call is the one installed after it, whatever the
/// command's outcome.
pub proof fn lemma_execute_preserves_session(
    pre: Engine,
    post: Engine,
    command: Seq<char>,
    r: Result<CommandResult, ExecError>,
)
    requires
        execute_spec(pre, post, command, r),
    ensures
        post.active() == pre.active(),
{
}

/// A command that ran carries its exit status faithfully: a success means
/// status zero, and a non-zero status is reported with `succeeded` false,
/// the exact status, and the command line it came from.
pub proof fn lemma_exit_status_faithful(
    pre: Engine,
    post: Engine,
    command: Seq<char>,
    r: Result<CommandResult, ExecError>,
)
    requires
        execute_spec(pre, post, command, r),
    ensures
        r matches Ok(res) ==> res.succeeded && res.exit_code == 0,
        r matches Err(ExecError::CommandNonZeroExit { command: c, result: res }) ==> c@ == command
            && !res.succeeded && res.exit_code != 0,
{
}

/// Disconnect always leaves the registry empty, and fails as
/// `NoActiveSession` exactly when there was nothing to disconnect — even
/// a failed goodbye notification never leaves a phantom session behind.
pub proof fn lemma_disconnect_clears(
    pre: Engine,
    post: Engine,
    r: Result<(), DisconnectError>,
)
    requires
        disconnect_spec(pre, post, r),
    ensures
        post.active() is None,
        pre.active() is Some ==> r != Err::<(), DisconnectError>(DisconnectError::NoActiveSession),
        pre.active() is None ==> r == Err::<(), DisconnectError>(DisconnectError::NoActiveSession),
{
}

/// Disconnecting twice in a row: whatever the first call returned, the
/// second finds the registry empty and fails as `NoActiveSession`, with
/// the state left consistent (still empty).
pub proof fn lemma_disconnect_idempotent(
    e0: Engine,
    e1: Engine,
    r1: Result<(), DisconnectError>,
    e2: Engine,
    r2: Result<(), DisconnectError>,
)
    requires
        disconnect_spec(e0, e1, r1),
        disconnect_spec(e1, e2, r2),
    ensures
        r2 == Err::<(), DisconnectError>(DisconnectError::NoActiveSession),
        e2.active() is None,
{
}

} // verus!
