use robosock::protocol::{begin, step, NewAction, NewEvent, NewStep};
use robosock::registry::{SocketRegistry, SocketRegistryEntry};
use robosock::sockets::{RoboSocket, RoboSocketNewError};

fn runtime() -> tokio::runtime::Runtime {
    tokio::runtime::Builder::new_current_thread().enable_io().build().unwrap()
}

fn bind_fresh(rt: &tokio::runtime::Runtime, path: &str) -> tokio::net::UnixDatagram {
    rt.block_on(async {
        let _ = tokio::fs::remove_file(path).await;
        tokio::net::UnixDatagram::bind(path).unwrap()
    })
}

fn construct(
    rt: &tokio::runtime::Runtime,
    reg: &mut SocketRegistry,
    path: &str,
    entry: SocketRegistryEntry,
) -> RoboSocket {
    let sock = bind_fresh(rt, path);
    let p = begin(path.to_string());
    let p = match step(p, NewEvent::BindSucceeded(sock), reg) {
        NewStep::Next(p, NewAction::Stat) => p,
        _ => panic!("a successful bind should be followed by a stat"),
    };
    match step(p, NewEvent::StatSucceeded(entry), reg) {
        NewStep::Done { outcome: Ok(h), registry_inconsistency: false } => h,
        _ => panic!("a fresh construction should succeed without inconsistency"),
    }
}

#[test]
fn fresh_bind_success_registers_identity() {
    let rt = runtime();
    let path = "/tmp/robosock_fresh.sock";
    let mut reg = SocketRegistry::new();
    let entry = SocketRegistryEntry { dev: 1, ino: 10 };
    let handle = construct(&rt, &mut reg, path, entry);
    assert!(reg.contains(entry));
    assert_eq!(handle.path, path);
    assert_eq!(handle.reg_entry, entry);
    assert!(!handle.is_unlinked);
    let d = handle.release(&mut reg);
    rt.block_on(async {
        tokio::fs::remove_file(&d.path).await.unwrap();
    });
}

#[test]
fn second_open_while_live_is_already_open() {
    let rt = runtime();
    let path = "/tmp/robosock_second.sock";
    let mut reg = SocketRegistry::new();
    let entry = SocketRegistryEntry { dev: 2, ino: 20 };
    let handle = construct(&rt, &mut reg, path, entry);

    // A second bind at the same path genuinely fails with AddrInUse.
    let err = rt
        .block_on(async { tokio::net::UnixDatagram::bind(path) })
        .expect_err("the path is occupied");
    assert_eq!(err.kind(), std::io::ErrorKind::AddrInUse);

    let p = begin(path.to_string());
    let p = match step(p, NewEvent::BindAddrInUse(err), &mut reg) {
        NewStep::Next(p, NewAction::Stat) => p,
        _ => panic!("an occupied path should be statted"),
    };
    match step(p, NewEvent::StatSucceeded(entry), &mut reg) {
        NewStep::Done {
            outcome: Err(RoboSocketNewError::AlreadyOpen),
            registry_inconsistency: false,
        } => {},
        _ => panic!("an owned identity should be rejected as already open"),
    }

    // The first handle remains usable: it can still exchange a datagram.
    assert!(reg.contains(entry));
    rt.block_on(async {
        handle.inner.send_to(b"x", path).await.unwrap();
        let mut buf = [0u8; 4];
        let (n, _) = handle.inner.recv_from(&mut buf).await.unwrap();
        assert_eq!(n, 1);
        assert_eq!(buf[0], b'x');
    });

    let d = handle.release(&mut reg);
    rt.block_on(async {
        tokio::fs::remove_file(&d.path).await.unwrap();
    });
}

#[test]
fn aliased_path_is_already_open() {
    let rt = runtime();
    rt.block_on(async {
        tokio::fs::create_dir_all("/tmp/robosock_alias").await.unwrap();
    });
    let path = "/tmp/robosock_alias/x.sock";
    let alias = "/tmp/robosock_alias/../robosock_alias/x.sock";
    let mut reg = SocketRegistry::new();
    let entry = SocketRegistryEntry { dev: 3, ino: 30 };
    let handle = construct(&rt, &mut reg, path, entry);

    // The differently spelled path reaches the same file: the bind fails.
    let err = rt
        .block_on(async { tokio::net::UnixDatagram::bind(alias) })
        .expect_err("the aliased path reaches the occupied file");
    assert_eq!(err.kind(), std::io::ErrorKind::AddrInUse);

    let p = begin(alias.to_string());
    let p = match step(p, NewEvent::BindAddrInUse(err), &mut reg) {
        NewStep::Next(p, NewAction::Stat) => p,
        _ => panic!("an occupied path should be statted"),
    };
    // Both spellings reach one file, so the stat yields the same identity.
    match step(p, NewEvent::StatSucceeded(entry), &mut reg) {
        NewStep::Done { outcome: Err(RoboSocketNewError::AlreadyOpen), .. } => {},
        _ => panic!("the aliased spelling should be rejected as already open"),
    }

    let d = handle.release(&mut reg);
    rt.block_on(async {
        tokio::fs::remove_file(&d.path).await.unwrap();
    });
}

#[test]
fn stale_file_is_recovered() {
    let rt = runtime();
    let path = "/tmp/robosock_stale.sock";
    let mut reg = SocketRegistry::new();

    // A previous run left a socket file behind: bind one and drop the
    // socket without removing the file.
    let leftover = bind_fresh(&rt, path);
    drop(leftover);

    let err = rt
        .block_on(async { tokio::net::UnixDatagram::bind(path) })
        .expect_err("the stale file still occupies the path");
    assert_eq!(err.kind(), std::io::ErrorKind::AddrInUse);

    let stale = SocketRegistryEntry { dev: 4, ino: 40 };
    let p = begin(path.to_string());
    let p = match step(p, NewEvent::BindAddrInUse(err), &mut reg) {
        NewStep::Next(p, NewAction::Stat) => p,
        _ => panic!("an occupied path should be statted"),
    };
    // The identity is owned by nobody in this process: the file is stale.
    let p = match step(p, NewEvent::StatSucceeded(stale), &mut reg) {
        NewStep::Next(p, NewAction::RemoveStaleFile) => p,
        _ => panic!("an unowned identity should be reclaimed"),
    };
    rt.block_on(async {
        tokio::fs::remove_file(path).await.unwrap();
    });
    let p = match step(p, NewEvent::RemoveSucceeded, &mut reg) {
        NewStep::Next(p, NewAction::Bind) => p,
        _ => panic!("a removed stale file should be followed by the retry bind"),
    };
    let sock = rt.block_on(async { tokio::net::UnixDatagram::bind(path).unwrap() });
    let p = match step(p, NewEvent::BindSucceeded(sock), &mut reg) {
        NewStep::Next(p, NewAction::Stat) => p,
        _ => panic!("a successful retry bind should be followed by a stat"),
    };
    let fresh = SocketRegistryEntry { dev: 4, ino: 41 };
    let handle = match step(p, NewEvent::StatSucceeded(fresh), &mut reg) {
        NewStep::Done { outcome: Ok(h), registry_inconsistency: false } => h,
        _ => panic!("the recovery should succeed"),
    };
    assert_eq!(handle.path, path);
    assert_eq!(handle.reg_entry, fresh);
    assert!(!handle.is_unlinked);
    assert!(reg.contains(fresh));

    let d = handle.release(&mut reg);
    rt.block_on(async {
        tokio::fs::remove_file(&d.path).await.unwrap();
    });
}

#[test]
fn failed_fresh_bind_is_io_error() {
    let mut reg = SocketRegistry::new();
    let e = std::io::Error::new(std::io::ErrorKind::PermissionDenied, "denied");
    let p = begin("/tmp/robosock_unwritable.sock".to_string());
    match step(p, NewEvent::BindFailed(e), &mut reg) {
        NewStep::Done {
            outcome: Err(RoboSocketNewError::IO { message, source }),
            registry_inconsistency: false,
        } => {
            assert_eq!(message, "failed to bind socket");
            assert_eq!(source.kind(), std::io::ErrorKind::PermissionDenied);
        },
        _ => panic!("a failed bind should be an I/O error"),
    }
}

#[test]
fn failed_stat_is_untagged_io_error() {
    let mut reg = SocketRegistry::new();
    let e = std::io::Error::new(std::io::ErrorKind::NotFound, "gone");
    let addr = std::io::Error::new(std::io::ErrorKind::AddrInUse, "in use");
    let p = begin("/tmp/robosock_vanishing.sock".to_string());
    let p = match step(p, NewEvent::BindAddrInUse(addr), &mut reg) {
        NewStep::Next(p, NewAction::Stat) => p,
        _ => panic!("an occupied path should be statted"),
    };
    match step(p, NewEvent::StatFailed(e), &mut reg) {
        NewStep::Done { outcome: Err(RoboSocketNewError::IO { message, .. }), .. } => {
            assert_eq!(message, "");
        },
        _ => panic!("a failed stat should be an I/O error"),
    }
}

#[test]
fn failed_stale_removal_is_tagged_io_error() {
    let mut reg = SocketRegistry::new();
    let addr = std::io::Error::new(std::io::ErrorKind::AddrInUse, "in use");
    let p = begin("/tmp/robosock_stuck.sock".to_string());
    let p = match step(p, NewEvent::BindAddrInUse(addr), &mut reg) {
        NewStep::Next(p, NewAction::Stat) => p,
        _ => panic!("an occupied path should be statted"),
    };
    let stale = SocketRegistryEntry { dev: 5, ino: 50 };
    let p = match step(p, NewEvent::StatSucceeded(stale), &mut reg) {
        NewStep::Next(p, NewAction::RemoveStaleFile) => p,
        _ => panic!("an unowned identity should be reclaimed"),
    };
    let e = std::io::Error::new(std::io::ErrorKind::PermissionDenied, "denied");
    match step(p, NewEvent::RemoveFailed(e), &mut reg) {
        NewStep::Done { outcome: Err(RoboSocketNewError::IO { message, .. }), .. } => {
            assert_eq!(message, "couldn't unlink previous socket");
        },
        _ => panic!("a failed removal should be an I/O error"),
    }
}

#[test]
fn failed_retry_bind_is_io_error() {
    let mut reg = SocketRegistry::new();
    let addr = std::io::Error::new(std::io::ErrorKind::AddrInUse, "in use");
    let p = begin("/tmp/robosock_contested.sock".to_string());
    let p = match step(p, NewEvent::BindAddrInUse(addr), &mut reg) {
        NewStep::Next(p, NewAction::Stat) => p,
        _ => panic!("an occupied path should be statted"),
    };
    let stale = SocketRegistryEntry { dev: 6, ino: 60 };
    let p = match step(p, NewEvent::StatSucceeded(stale), &mut reg) {
        NewStep::Next(p, NewAction::RemoveStaleFile) => p,
        _ => panic!("an unowned identity should be reclaimed"),
    };
    let p = match step(p, NewEvent::RemoveSucceeded, &mut reg) {
        NewStep::Next(p, NewAction::Bind) => p,
        _ => panic!("a removed stale file should be followed by the retry bind"),
    };
    // On the retry even AddrInUse is a plain bind failure: no second recovery.
    let e = std::io::Error::new(std::io::ErrorKind::AddrInUse, "in use again");
    match step(p, NewEvent::BindAddrInUse(e), &mut reg) {
        NewStep::Done { outcome: Err(RoboSocketNewError::IO { message, .. }), .. } => {
            assert_eq!(message, "failed to bind socket");
        },
        _ => panic!("a failed retry bind should be an I/O error"),
    }
}

#[test]
fn registration_of_present_identity_reports_inconsistency() {
    let rt = runtime();
    let path = "/tmp/robosock_inconsistent.sock";
    let mut reg = SocketRegistry::new();
    let entry = SocketRegistryEntry { dev: 7, ino: 70 };
    // The identity is somehow tracked already, with no file on disk for it.
    assert!(reg.register(entry));

    let sock = bind_fresh(&rt, path);
    let p = begin(path.to_string());
    let p = match step(p, NewEvent::BindSucceeded(sock), &mut reg) {
        NewStep::Next(p, NewAction::Stat) => p,
        _ => panic!("a successful bind should be followed by a stat"),
    };
    let handle = match step(p, NewEvent::StatSucceeded(entry), &mut reg) {
        NewStep::Done { outcome: Ok(h), registry_inconsistency: true } => h,
        _ => panic!("construction should succeed but report the inconsistency"),
    };
    let d = handle.release(&mut reg);
    rt.block_on(async {
        tokio::fs::remove_file(&d.path).await.unwrap();
    });
}

#[test]
fn io_error_converts_to_untagged_io_variant() {
    let e = std::io::Error::new(std::io::ErrorKind::NotFound, "gone");
    match RoboSocketNewError::from(e) {
        RoboSocketNewError::IO { message, source } => {
            assert_eq!(message, "");
            assert_eq!(source.kind(), std::io::ErrorKind::NotFound);
        },
        _ => panic!("the conversion should keep the error as an I/O error"),
    }
}
