//! The trusted boundary around the secure-shell client library.
//!
//! Everything here either declares an outside type or gives a contract to
//! one outside call.  No outcome of a call is promised: whether a
//! handshake, an authentication exchange or a read succeeds depends on the
//! remote side, so the verified callers state what holds of every outcome
//! instead.

use vstd::prelude::*;

use std::io::Read;
use std::path::Path;

verus! {

/// Declares `ssh2::Session`, the handle to one transport connection.
#[verifier::external_type_specification]
#[verifier::external_body]
pub struct ExSshSession(ssh2::Session);

/// Declares `ssh2::Channel`, one command channel on a session.
#[verifier::external_type_specification]
#[verifier::external_body]
pub struct ExSshChannel(ssh2::Channel);

/// Declares `ssh2::Error`, the client library's error value.
#[verifier::external_type_specification]
#[verifier::external_body]
pub struct ExSshError(ssh2::Error);

/// Relies on `ssh2::Session::set_timeout`: bounds every subsequent blocking
/// call on the session to the given number of milliseconds.
pub assume_specification[ ssh2::Session::set_timeout ](s: &ssh2::Session, timeout_ms: u32);

/// Relies on `ssh2::Session::handshake`: performs the protocol handshake
/// (key exchange and host key acceptance) on the attached stream.
pub assume_specification[ ssh2::Session::handshake ](s: &mut ssh2::Session) -> Result<
    (),
    ssh2::Error,
>;

/// Relies on `ssh2::Session::userauth_password`: attempts password
/// authentication for the given account.
pub assume_specification[ ssh2::Session::userauth_password ](
    s: &ssh2::Session,
    username: &str,
    password: &str,
) -> Result<(), ssh2::Error>;

/// Relies on `ssh2::Session::authenticated`: whether the session reports
/// itself authenticated.
pub assume_specification[ ssh2::Session::authenticated ](s: &ssh2::Session) -> bool;

/// Relies on `ssh2::Session::channel_session`: opens one command channel on
/// the session.
pub assume_specification[ ssh2::Session::channel_session ](s: &ssh2::Session) -> Result<
    ssh2::Channel,
    ssh2::Error,
>;

/// Relies on `ssh2::Channel::exec`: submits the command line for execution
/// on the channel.
pub assume_specification[ ssh2::Channel::exec ](c: &mut ssh2::Channel, command: &str) -> Result<
    (),
    ssh2::Error,
>;

/// Relies on `ssh2::Channel::wait_close`: blocks until the remote end
/// closes the channel, within the session's configured timeout.
pub assume_specification[ ssh2::Channel::wait_close ](c: &mut ssh2::Channel) -> Result<
    (),
    ssh2::Error,
>;

/// Relies on `ssh2::Channel::close`: asks the remote end to close the
/// channel.
pub assume_specification[ ssh2::Channel::close ](c: &mut ssh2::Channel) -> Result<
    (),
    ssh2::Error,
>;

/// Relies on `ssh2::Channel::exit_status`: retrieves the exit status the
/// remote process reported.
pub assume_specification[ ssh2::Channel::exit_status ](c: &ssh2::Channel) -> Result<
    i32,
    ssh2::Error,
>;

/// Relies on `ssh2::Session::userauth_pubkey_file`: attempts public-key
/// authentication with the PEM-encoded private key stored at the given
/// path, without a separate public-key file or passphrase.
#[verifier::external_body]
pub(crate) fn auth_key_file(
    s: &ssh2::Session,
    username: &str,
    private_key: &str,
) -> Result<(), ssh2::Error> {
    s.userauth_pubkey_file(username, None, Path::new(private_key), None)
}

/// Relies on `ssh2::Session::disconnect`: sends the protocol-level
/// disconnect notification with the application-initiated reason symbol and
/// the given description.
#[verifier::external_body]
pub(crate) fn send_goodbye(s: &ssh2::Session, description: &str) -> Result<(), ssh2::Error> {
    s.disconnect(Some(ssh2::DisconnectCode::ByApplication), description, Some(""))
}

/// Relies on `std::io::Read::read_to_string` through `ssh2::Channel`'s
/// `Read` impl, which reads the channel's standard-output stream: drains
/// the stream to its end.  Best-effort: on a read error the partial buffer
/// read so far is returned and the flag is false.
#[verifier::external_body]
pub(crate) fn drain_stdout(c: &mut ssh2::Channel) -> (String, bool) {
    let mut buffer = String::new();
    match c.read_to_string(&mut buffer) {
        Ok(_) => (buffer, true),
        Err(_) => (buffer, false),
    }
}

/// Relies on `ssh2::Channel::stderr` and `std::io::Read::read_to_string`:
/// drains the channel's standard-error stream to its end.  Best-effort, as
/// [`drain_stdout`] is.
#[verifier::external_body]
pub(crate) fn drain_stderr(c: &mut ssh2::Channel) -> (String, bool) {
    let mut buffer = String::new();
    match c.stderr().read_to_string(&mut buffer) {
        Ok(_) => (buffer, true),
        Err(_) => (buffer, false),
    }
}

/// Relies on `ssh2::Error::message`: the human-readable text of the error.
#[verifier::external_body]
pub(crate) fn error_message(e: &ssh2::Error) -> String {
    e.message().to_owned()
}

/// Relies on `ssh2::Error::code`: whether the error carries the
/// transport library's session-level timeout code, which is -9.
#[verifier::external_body]
pub(crate) fn is_timeout(e: &ssh2::Error) -> bool {
    match e.code() {
        ssh2::ErrorCode::Session(code) => code == -9,
        ssh2::ErrorCode::SFTP(_) => false,
    }
}

} // verus!
