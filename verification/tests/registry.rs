use robosock::registry::{SocketRegistry, SocketRegistryEntry};

#[test]
fn register_new_entry_reports_new() {
    let mut reg = SocketRegistry::new();
    let a = SocketRegistryEntry { dev: 1, ino: 2 };
    assert!(!reg.contains(a));
    assert!(reg.register(a));
    assert!(reg.contains(a));
}

#[test]
fn register_duplicate_reports_present() {
    let mut reg = SocketRegistry::new();
    let a = SocketRegistryEntry { dev: 3, ino: 4 };
    assert!(reg.register(a));
    assert!(!reg.register(a));
    assert!(reg.contains(a));
}

#[test]
fn entries_with_equal_fields_are_the_same_identity() {
    let mut reg = SocketRegistry::new();
    let a = SocketRegistryEntry { dev: 5, ino: 6 };
    let b = SocketRegistryEntry { dev: 5, ino: 6 };
    assert_eq!(a, b);
    assert!(reg.register(a));
    assert!(reg.contains(b));
    assert!(!reg.register(b));
}

#[test]
fn remove_present_entry_reports_present() {
    let mut reg = SocketRegistry::new();
    let a = SocketRegistryEntry { dev: 7, ino: 8 };
    let b = SocketRegistryEntry { dev: 7, ino: 9 };
    assert!(reg.register(a));
    assert!(reg.register(b));
    assert!(reg.remove(a));
    assert!(!reg.contains(a));
    assert!(reg.contains(b));
}

#[test]
fn remove_absent_entry_reports_absent() {
    let mut reg = SocketRegistry::new();
    let a = SocketRegistryEntry { dev: 10, ino: 11 };
    assert!(!reg.remove(a));
    assert!(reg.register(a));
    assert!(reg.remove(a));
    assert!(!reg.remove(a));
}
