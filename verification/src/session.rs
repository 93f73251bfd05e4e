//! The authenticated session: its creation by handshake and credential
//! exchange, and command execution against it.

use vstd::prelude::*;

use crate::errors::{ConnectError, DisconnectError, ExecError};
use crate::outcome::{assemble_result, CommandResult};
use crate::ssh;
use crate::target::Credential;

verus! {

/// An opaque handle to an authenticated transport connection.
///
/// A value of this type is created only by [`ActiveSession::authenticate`]
/// succeeding, is never cloned, and is owned by a registry slot while
/// alive.  Dropping it closes the underlying socket.
pub struct ActiveSession {
    transport: ssh2::Session,
}

impl ActiveSession {
    /// Perform the protocol handshake on the attached stream and then the
    /// credential exchange, branching exhaustively on the credential kind.
    ///
    /// Host-key policy: every host key the server offers is accepted as
    /// presented; no known-hosts store is consulted.  The trust decision is
    /// left to the surrounding application.
    ///
    /// After the exchange the session must also report itself
    /// authenticated; if it does not, the attempt fails even though the
    /// underlying call succeeded.  Every failure path drops the transport,
    /// which closes its stream.  All blocking calls are bounded by
    /// `timeout_ms`.
    pub fn authenticate(
        transport: ssh2::Session,
        username: &str,
        credential: &Credential,
        timeout_ms: u32,
    ) -> (r: Result<ActiveSession, ConnectError>)
        requires
            timeout_ms >= 1,
        ensures
            r matches Err(e) ==> (e matches ConnectError::HandshakeFailed { .. } || e matches
                ConnectError::AuthFailed { .. }),
    {
        let mut transport = transport;
        transport.set_timeout(timeout_ms);
        match transport.handshake() {
            Ok(u) => u,
            Err(e) => {
                return Err(ConnectError::HandshakeFailed { message: ssh::error_message(&e) });
            },
        }
        let attempt = match credential {
            Credential::Password { secret } => transport.userauth_password(
                username,
                secret.as_str(),
            ),
            Credential::KeyFile { path } => ssh::auth_key_file(&transport, username, path.as_str()),
        };
        match attempt {
            Ok(u) => u,
            Err(e) => {
                return Err(ConnectError::AuthFailed { message: ssh::error_message(&e) });
            },
        }
        if !transport.authenticated() {
            return Err(ConnectError::AuthFailed {
                message: "the session did not report itself authenticated".to_owned(),
            });
        }
        Ok(ActiveSession { transport })
    }

    /// Whether the session still reports itself authenticated.
    pub fn is_authenticated(&self) -> bool {
        self.transport.authenticated()
    }

    /// Run one command line on the session: open a command channel, submit
    /// the line, drain both output streams to completion (best-effort),
    /// wait within the session's timeout for the channel to close, and
    /// retrieve the exit status.
    ///
    /// A zero exit status yields a successful [`CommandResult`]; any other
    /// status is reported as [`ExecError::CommandNonZeroExit`] carrying the
    /// command line, the exact status and both buffers.  A timeout while
    /// waiting for the close abandons the channel but leaves the session
    /// itself usable.
    pub fn run_command(&self, command: &str) -> (r: Result<CommandResult, ExecError>)
        ensures
            r matches Ok(res) ==> res.wf() && res.succeeded && res.exit_code == 0,
            r matches Err(ExecError::CommandNonZeroExit { command: c, result: res }) ==> c@
                == command@ && res.wf() && !res.succeeded && res.exit_code != 0,
            r matches Err(ExecError::ExecFailed { command: c, .. }) ==> c@ == command@,
            r matches Err(ExecError::ExecutionTimedOut { command: c }) ==> c@ == command@,
            !(r matches Err(ExecError::LockUnavailable)),
    {
        if !self.transport.authenticated() {
            return Err(ExecError::NotAuthenticated);
        }
        let mut channel = match self.transport.channel_session() {
            Ok(c) => c,
            Err(e) => {
                return Err(ExecError::ChannelOpenFailed { message: ssh::error_message(&e) });
            },
        };
        match channel.exec(command) {
            Ok(u) => u,
            Err(e) => {
                return Err(ExecError::ExecFailed {
                    command: command.to_owned(),
                    message: ssh::error_message(&e),
                });
            },
        }
        let (stdout, stdout_complete) = ssh::drain_stdout(&mut channel);
        let (stderr, stderr_complete) = ssh::drain_stderr(&mut channel);
        match channel.wait_close() {
            Ok(u) => u,
            Err(e) => {
                if ssh::is_timeout(&e) {
                    let _ = channel.close();
                    return Err(ExecError::ExecutionTimedOut { command: command.to_owned() });
                }
                // any other close trouble is best-effort, like the reads:
                // the exit status decides below
            },
        }
        match channel.exit_status() {
            Ok(code) => assemble_result(
                command,
                stdout,
                stdout_complete,
                stderr,
                stderr_complete,
                code,
            ),
            Err(e) => Err(ExecError::ExitStatusUnavailable { message: ssh::error_message(&e) }),
        }
    }

    /// Send the protocol-level disconnect notification with the given
    /// reason text.  The session should be dropped afterwards whatever the
    /// outcome; a failed notification is surfaced but changes nothing
    /// about the teardown.
    pub fn goodbye(&self, reason: &str) -> (r: Result<(), DisconnectError>)
        ensures
            r matches Err(e) ==> e matches DisconnectError::DisconnectFailed { .. },
    {
        match ssh::send_goodbye(&self.transport, reason) {
            Ok(u) => Ok(u),
            Err(e) => Err(DisconnectError::DisconnectFailed { message: ssh::error_message(&e) }),
        }
    }
}

} // verus!
