use remote_exec::target::{key_file_credential, private_key_path, Credential, TargetDescriptor};

#[test]
fn pub_suffix_is_trimmed() {
    assert_eq!(private_key_path("/home/alice/.ssh/id_rsa.pub"), "/home/alice/.ssh/id_rsa");
}

#[test]
fn path_without_suffix_is_unchanged() {
    assert_eq!(private_key_path("/home/alice/.ssh/id_rsa"), "/home/alice/.ssh/id_rsa");
}

#[test]
fn suffix_alone_trims_to_nothing() {
    assert_eq!(private_key_path(".pub"), "");
}

#[test]
fn suffix_in_the_middle_is_kept() {
    assert_eq!(private_key_path("a.pub.key"), "a.pub.key");
    assert_eq!(private_key_path("a.pubx"), "a.pubx");
}

#[test]
fn short_paths_are_unchanged() {
    assert_eq!(private_key_path("pub"), "pub");
    assert_eq!(private_key_path(""), "");
}

#[test]
fn suffix_is_trimmed_from_a_non_ascii_path() {
    assert_eq!(private_key_path("ключи/ключ.pub"), "ключи/ключ");
}

#[test]
fn key_file_credential_resolves_the_stored_path() {
    match key_file_credential("key.pub") {
        Credential::KeyFile { path } => assert_eq!(path, "key"),
        other => panic!("unexpected credential kind: {:?}", other),
    }
}

#[test]
fn descriptor_holds_its_fields() {
    let target = TargetDescriptor {
        host: "server.example".to_owned(),
        port: 22,
        username: "alice".to_owned(),
        credential: Credential::Password { secret: "p@ss".to_owned() },
    };
    let copy = target.clone();
    assert_eq!(copy, target);
    assert_eq!(copy.host, "server.example");
    assert_eq!(copy.port, 22);
    assert_eq!(copy.username, "alice");
    assert!(matches!(copy.credential, Credential::Password { .. }));
}
