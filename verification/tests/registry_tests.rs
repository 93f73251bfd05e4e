use remote_exec::registry::Registry;

#[test]
fn a_fresh_registry_is_empty() {
    let registry: Registry<u32> = Registry::new();
    assert!(!registry.is_occupied());
    assert!(registry.current().is_none());
}

#[test]
fn install_fills_the_slot() {
    let mut registry: Registry<u32> = Registry::new();
    let displaced = registry.install(7);
    assert!(displaced.is_none());
    assert!(registry.is_occupied());
    assert_eq!(registry.current(), Some(&7));
}

#[test]
fn install_displaces_the_previous_occupant() {
    let mut registry: Registry<u32> = Registry::new();
    assert_eq!(registry.install(1), None);
    assert_eq!(registry.install(2), Some(1));
    assert_eq!(registry.install(3), Some(2));
    // after the third install the slot holds exactly the third item; the
    // earlier ones are no longer reachable through the registry
    assert_eq!(registry.current(), Some(&3));
    assert_eq!(registry.take_and_clear(), Some(3));
}

#[test]
fn take_and_clear_empties_the_slot() {
    let mut registry: Registry<u32> = Registry::new();
    registry.install(9);
    assert_eq!(registry.take_and_clear(), Some(9));
    assert!(!registry.is_occupied());
    assert!(registry.current().is_none());
}

#[test]
fn taking_twice_finds_nothing_the_second_time() {
    let mut registry: Registry<u32> = Registry::new();
    registry.install(5);
    assert_eq!(registry.take_and_clear(), Some(5));
    assert_eq!(registry.take_and_clear(), None);
    assert!(!registry.is_occupied());
}
