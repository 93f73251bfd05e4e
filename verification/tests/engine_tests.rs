use remote_exec::engine::Engine;
use remote_exec::errors::{ConnectError, DisconnectError, ExecError};
use remote_exec::shared::SharedEngine;
use remote_exec::target::Credential;

#[test]
fn execute_without_connect_is_not_authenticated() {
    // no transport exists anywhere in this test, so no connection attempt
    // can have been made when execute reports the state error
    let mut engine = Engine::new(30000);
    assert!(!engine.is_connected());
    match engine.execute("echo hello") {
        Err(ExecError::NotAuthenticated) => {}
        other => panic!("unexpected outcome: {:?}", other),
    }
    assert!(!engine.is_connected());
}

#[test]
fn disconnect_without_session_fails() {
    let mut engine = Engine::new(30000);
    match engine.disconnect() {
        Err(DisconnectError::NoActiveSession) => {}
        other => panic!("unexpected outcome: {:?}", other),
    }
}

#[test]
fn disconnect_twice_fails_the_second_time_too() {
    let mut engine = Engine::new(30000);
    assert_eq!(engine.disconnect(), Err(DisconnectError::NoActiveSession));
    assert_eq!(engine.disconnect(), Err(DisconnectError::NoActiveSession));
    assert!(!engine.is_connected());
}

#[test]
fn connect_over_a_dead_transport_reports_the_handshake() {
    let mut engine = Engine::new(30000);
    // a fresh secure-shell session with no stream attached: the handshake
    // must fail at once, and the registry must stay empty
    let transport = ssh2::Session::new().expect("allocating a session needs no connection");
    let credential = Credential::Password { secret: "p@ss".to_owned() };
    match engine.connect(transport, "alice", &credential) {
        Err(ConnectError::HandshakeFailed { .. }) => {}
        other => panic!("unexpected outcome: {:?}", other),
    }
    assert!(!engine.is_connected());
    assert!(matches!(engine.execute("echo hello"), Err(ExecError::NotAuthenticated)));
}

#[test]
fn failed_key_connect_leaves_the_engine_untouched() {
    let mut engine = Engine::new(30000);
    let transport = ssh2::Session::new().expect("allocating a session needs no connection");
    let credential = Credential::KeyFile { path: "/nowhere/id_rsa".to_owned() };
    match engine.connect(transport, "alice", &credential) {
        Err(ConnectError::HandshakeFailed { .. }) => {}
        Err(ConnectError::AuthFailed { .. }) => {}
        other => panic!("unexpected outcome: {:?}", other),
    }
    assert_eq!(engine.disconnect(), Err(DisconnectError::NoActiveSession));
}

#[test]
fn default_timeout_engine_starts_disconnected() {
    let mut engine = Engine::with_default_timeout();
    assert!(!engine.is_connected());
    assert!(matches!(engine.execute("true"), Err(ExecError::NotAuthenticated)));
}

#[test]
fn shared_engine_serializes_the_same_behaviour() {
    let shared = SharedEngine::new(30000);
    assert!(!shared.is_connected());
    assert!(matches!(shared.execute("echo hello"), Err(ExecError::NotAuthenticated)));
    assert!(matches!(shared.disconnect(), Err(DisconnectError::NoActiveSession)));
    assert!(matches!(shared.disconnect(), Err(DisconnectError::NoActiveSession)));

    let transport = ssh2::Session::new().expect("allocating a session needs no connection");
    let credential = Credential::Password { secret: "p@ss".to_owned() };
    match shared.connect(transport, "alice", &credential) {
        Err(ConnectError::HandshakeFailed { .. }) => {}
        other => panic!("unexpected outcome: {:?}", other),
    }
    assert!(!shared.is_connected());
}

#[test]
fn error_taxonomy_distinguishes_its_kinds() {
    let lock_exec: ExecError = ExecError::LockUnavailable;
    let lock_connect: ConnectError = ConnectError::LockUnavailable;
    let lock_disconnect: DisconnectError = DisconnectError::LockUnavailable;
    assert!(matches!(lock_exec, ExecError::LockUnavailable));
    assert!(matches!(lock_connect, ConnectError::LockUnavailable));
    assert!(matches!(lock_disconnect, DisconnectError::LockUnavailable));
    let unreachable = ConnectError::Unreachable { message: "refused".to_owned() };
    assert_ne!(unreachable, ConnectError::LockUnavailable);
    let auth_failed = ConnectError::AuthFailed { message: "wrong password".to_owned() };
    assert!(matches!(auth_failed, ConnectError::AuthFailed { .. }));
    let goodbye_failed = DisconnectError::DisconnectFailed { message: "stream gone".to_owned() };
    assert!(matches!(goodbye_failed, DisconnectError::DisconnectFailed { .. }));
    let timed_out = ExecError::ExecutionTimedOut { command: "sleep 99".to_owned() };
    assert!(matches!(timed_out, ExecError::ExecutionTimedOut { .. }));
    let status_gone = ExecError::ExitStatusUnavailable { message: "gone".to_owned() };
    assert!(matches!(status_gone, ExecError::ExitStatusUnavailable { .. }));
    let open_failed = ExecError::ChannelOpenFailed { message: "no channel".to_owned() };
    assert!(matches!(open_failed, ExecError::ChannelOpenFailed { .. }));
    let exec_failed = ExecError::ExecFailed {
        command: "ls".to_owned(),
        message: "rejected".to_owned(),
    };
    assert!(matches!(exec_failed, ExecError::ExecFailed { .. }));
}
