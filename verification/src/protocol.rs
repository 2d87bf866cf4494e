//! The bind-or-recover construction protocol for a managed socket.
//!
//! Constructing a handle takes a short conversation with the filesystem:
//! bind a fresh datagram socket at the path; on success read the bound
//! file's identity and register it; if the address is already in use, read
//! the occupying file's identity and either reject (a live handle in this
//! process owns it) or treat the file as stale from a previous run, remove
//! it, and retry the bind once. The filesystem steps suspend, so they are
//! the caller's: the caller performs each [`NewAction`], reports its
//! outcome as a [`NewEvent`], and every decision in between is made, and
//! verified, by [`step`].
//!
//! The caller has no cross-process lock: between judging an occupied path
//! stale and removing it, an unrelated process could have created that very
//! file, and the protocol would remove it all the same. The only signals
//! are the bind failure and the file's identity; the ambiguity is inherent
//! and deliberate.

use vstd::prelude::*;

use crate::registry::{SocketRegistry, SocketRegistryEntry};
use crate::sockets::{RoboSocket, RoboSocketNewError};

verus! {

/// The filesystem step the caller must perform next, at the protocol's path.
pub enum NewAction {
    /// Bind a fresh datagram socket at the path.
    Bind,
    /// Read the identity (device id, inode number) of the file at the path.
    Stat,
    /// Remove the stale file at the path.
    RemoveStaleFile,
}

/// Where a construction run stands. The states after a successful bind
/// carry the bound socket until the handle is assembled.
pub enum NewState {
    /// The fresh bind is in flight.
    BindingFresh,
    /// The fresh bind succeeded; the bound file's identity is being read.
    StatingFresh(tokio::net::UnixDatagram),
    /// The bind found the address in use; the occupying file's identity is
    /// being read.
    StatingOccupied,
    /// The occupying file was judged stale and is being removed.
    RemovingStale,
    /// The stale file is gone; the one retry bind is in flight.
    BindingRetry,
    /// The retry bind succeeded; the bound file's identity is being read.
    StatingRetry(tokio::net::UnixDatagram),
}

/// One construction run: the requested path and where the run stands.
pub struct NewProtocol {
    pub path: String,
    pub state: NewState,
}

/// The outcome of the filesystem step the caller performed.
pub enum NewEvent {
    /// The bind succeeded and produced the bound socket.
    BindSucceeded(tokio::net::UnixDatagram),
    /// The bind failed because the address is already in use.
    BindAddrInUse(std::io::Error),
    /// The bind failed for any other reason.
    BindFailed(std::io::Error),
    /// The identity of the file at the path was read.
    StatSucceeded(SocketRegistryEntry),
    /// The file's identity could not be read.
    StatFailed(std::io::Error),
    /// The stale file was removed.
    RemoveSucceeded,
    /// The stale file could not be removed.
    RemoveFailed(std::io::Error),
}

/// What the protocol decided from the last event.
pub enum NewStep {
    /// Perform the action and report its outcome with another [`step`] call.
    Next(NewProtocol, NewAction),
    /// Construction finished.
    Done {
        outcome: Result<RoboSocket, RoboSocketNewError>,
        /// True when the new identity was unexpectedly present in the
        /// registry already (an on-disk file existed without a tracked
        /// owner); the caller is expected to log it, not to fail.
        registry_inconsistency: bool,
    },
}

/// Which event can answer which state: binds are answered by bind
/// outcomes, stats by stat outcomes, removals by removal outcomes.
pub open spec fn step_allowed(state: NewState, event: NewEvent) -> bool {
    match (state, event) {
        (NewState::BindingFresh, NewEvent::BindSucceeded(_)) => true,
        (NewState::BindingFresh, NewEvent::BindAddrInUse(_)) => true,
        (NewState::BindingFresh, NewEvent::BindFailed(_)) => true,
        (NewState::StatingFresh(_), NewEvent::StatSucceeded(_)) => true,
        (NewState::StatingFresh(_), NewEvent::StatFailed(_)) => true,
        (NewState::StatingOccupied, NewEvent::StatSucceeded(_)) => true,
        (NewState::StatingOccupied, NewEvent::StatFailed(_)) => true,
        (NewState::RemovingStale, NewEvent::RemoveSucceeded) => true,
        (NewState::RemovingStale, NewEvent::RemoveFailed(_)) => true,
        (NewState::BindingRetry, NewEvent::BindSucceeded(_)) => true,
        (NewState::BindingRetry, NewEvent::BindAddrInUse(_)) => true,
        (NewState::BindingRetry, NewEvent::BindFailed(_)) => true,
        (NewState::StatingRetry(_), NewEvent::StatSucceeded(_)) => true,
        (NewState::StatingRetry(_), NewEvent::StatFailed(_)) => true,
        _ => false,
    }
}

/// What [`step`] returns for a run `p`, an event, and a registry holding
/// `owned`.
pub open spec fn step_spec(p: NewProtocol, event: NewEvent, owned: Set<SocketRegistryEntry>) -> NewStep
    recommends
        step_allowed(p.state, event),
{
    match (p.state, event) {
        (NewState::BindingFresh, NewEvent::BindSucceeded(sock)) => NewStep::Next(
            NewProtocol { path: p.path, state: NewState::StatingFresh(sock) },
            NewAction::Stat,
        ),
        (NewState::BindingFresh, NewEvent::BindAddrInUse(_)) => NewStep::Next(
            NewProtocol { path: p.path, state: NewState::StatingOccupied },
            NewAction::Stat,
        ),
        (NewState::BindingFresh, NewEvent::BindFailed(source)) => NewStep::Done {
            outcome: Err(RoboSocketNewError::IO { source, message: "failed to bind socket" }),
            registry_inconsistency: false,
        },
        (NewState::StatingFresh(sock), NewEvent::StatSucceeded(entry)) => NewStep::Done {
            outcome: Ok(
                RoboSocket { inner: sock, path: p.path, reg_entry: entry, is_unlinked: false },
            ),
            registry_inconsistency: owned.contains(entry),
        },
        (NewState::StatingFresh(_), NewEvent::StatFailed(source)) => NewStep::Done {
            outcome: Err(RoboSocketNewError::IO { source, message: "" }),
            registry_inconsistency: false,
        },
        (NewState::StatingOccupied, NewEvent::StatSucceeded(entry)) => if owned.contains(entry) {
            NewStep::Done {
                outcome: Err(RoboSocketNewError::AlreadyOpen),
                registry_inconsistency: false,
            }
        } else {
            NewStep::Next(
                NewProtocol { path: p.path, state: NewState::RemovingStale },
                NewAction::RemoveStaleFile,
            )
        },
        (NewState::StatingOccupied, NewEvent::StatFailed(source)) => NewStep::Done {
            outcome: Err(RoboSocketNewError::IO { source, message: "" }),
            registry_inconsistency: false,
        },
        (NewState::RemovingStale, NewEvent::RemoveSucceeded) => NewStep::Next(
            NewProtocol { path: p.path, state: NewState::BindingRetry },
            NewAction::Bind,
        ),
        (NewState::RemovingStale, NewEvent::RemoveFailed(source)) => NewStep::Done {
            outcome: Err(
                RoboSocketNewError::IO { source, message: "couldn't unlink previous socket" },
            ),
            registry_inconsistency: false,
        },
        (NewState::BindingRetry, NewEvent::BindSucceeded(sock)) => NewStep::Next(
            NewProtocol { path: p.path, state: NewState::StatingRetry(sock) },
            NewAction::Stat,
        ),
        (NewState::BindingRetry, NewEvent::BindAddrInUse(source)) => NewStep::Done {
            outcome: Err(RoboSocketNewError::IO { source, message: "failed to bind socket" }),
            registry_inconsistency: false,
        },
        (NewState::BindingRetry, NewEvent::BindFailed(source)) => NewStep::Done {
            outcome: Err(RoboSocketNewError::IO { source, message: "failed to bind socket" }),
            registry_inconsistency: false,
        },
        (NewState::StatingRetry(sock), NewEvent::StatSucceeded(entry)) => NewStep::Done {
            outcome: Ok(
                RoboSocket { inner: sock, path: p.path, reg_entry: entry, is_unlinked: false },
            ),
            registry_inconsistency: owned.contains(entry),
        },
        (NewState::StatingRetry(_), NewEvent::StatFailed(source)) => NewStep::Done {
            outcome: Err(RoboSocketNewError::IO { source, message: "" }),
            registry_inconsistency: false,
        },
        _ => arbitrary(),
    }
}

/// The registry contents after [`step`]: construction completing
/// successfully registers the new identity; every other step leaves the
/// registry untouched.
pub open spec fn step_registry_after(
    p: NewProtocol,
    event: NewEvent,
    owned: Set<SocketRegistryEntry>,
) -> Set<SocketRegistryEntry> {
    match (p.state, event) {
        (NewState::StatingFresh(_), NewEvent::StatSucceeded(entry)) => owned.insert(entry),
        (NewState::StatingRetry(_), NewEvent::StatSucceeded(entry)) => owned.insert(entry),
        _ => owned,
    }
}

/// Starts a construction run for `path`. The first action is the fresh
/// bind: perform it and report the outcome with [`step`].
pub fn begin(path: String) -> (r: NewProtocol)
    ensures
        r == (NewProtocol { path, state: NewState::BindingFresh }),
{
    NewProtocol { path, state: NewState::BindingFresh }
}

/// Advances a construction run by one decision.
///
/// Registry visibility of a new identity is established here, before the
/// run reports success, so a concurrent run for the same file decided
/// after this step observes the ownership.
pub fn step(p: NewProtocol, event: NewEvent, reg: &mut SocketRegistry) -> (r: NewStep)
    requires
        step_allowed(p.state, event),
        old(reg).wf(),
    ensures
        final(reg).wf(),
        final(reg)@ == step_registry_after(p, event, old(reg)@),
        r == step_spec(p, event, old(reg)@),
{
    let NewProtocol { path, state } = p;
    match (state, event) {
        (NewState::BindingFresh, NewEvent::BindSucceeded(sock)) => NewStep::Next(
            NewProtocol { path, state: NewState::StatingFresh(sock) },
            NewAction::Stat,
        ),
        (NewState::BindingFresh, NewEvent::BindAddrInUse(_)) => NewStep::Next(
            NewProtocol { path, state: NewState::StatingOccupied },
            NewAction::Stat,
        ),
        (NewState::BindingFresh, NewEvent::BindFailed(source)) => NewStep::Done {
            outcome: Err(RoboSocketNewError::IO { source, message: "failed to bind socket" }),
            registry_inconsistency: false,
        },
        (NewState::StatingFresh(sock), NewEvent::StatSucceeded(entry)) => {
            let was_new = reg.register(entry);
            NewStep::Done {
                outcome: Ok(
                    RoboSocket { inner: sock, path, reg_entry: entry, is_unlinked: false },
                ),
                registry_inconsistency: !was_new,
            }
        },
        (NewState::StatingFresh(_), NewEvent::StatFailed(source)) => NewStep::Done {
            outcome: Err(RoboSocketNewError::IO { source, message: "" }),
            registry_inconsistency: false,
        },
        (NewState::StatingOccupied, NewEvent::StatSucceeded(entry)) => {
            if reg.contains(entry) {
                NewStep::Done {
                    outcome: Err(RoboSocketNewError::AlreadyOpen),
                    registry_inconsistency: false,
                }
            } else {
                NewStep::Next(
                    NewProtocol { path, state: NewState::RemovingStale },
                    NewAction::RemoveStaleFile,
                )
            }
        },
        (NewState::StatingOccupied, NewEvent::StatFailed(source)) => NewStep::Done {
            outcome: Err(RoboSocketNewError::IO { source, message: "" }),
            registry_inconsistency: false,
        },
        (NewState::RemovingStale, NewEvent::RemoveSucceeded) => NewStep::Next(
            NewProtocol { path, state: NewState::BindingRetry },
            NewAction::Bind,
        ),
        (NewState::RemovingStale, NewEvent::RemoveFailed(source)) => NewStep::Done {
            outcome: Err(
                RoboSocketNewError::IO { source, message: "couldn't unlink previous socket" },
            ),
            registry_inconsistency: false,
        },
        (NewState::BindingRetry, NewEvent::BindSucceeded(sock)) => NewStep::Next(
            NewProtocol { path, state: NewState::StatingRetry(sock) },
            NewAction::Stat,
        ),
        (NewState::BindingRetry, NewEvent::BindAddrInUse(source)) => NewStep::Done {
            outcome: Err(RoboSocketNewError::IO { source, message: "failed to bind socket" }),
            registry_inconsistency: false,
        },
        (NewState::BindingRetry, NewEvent::BindFailed(source)) => NewStep::Done {
            outcome: Err(RoboSocketNewError::IO { source, message: "failed to bind socket" }),
            registry_inconsistency: false,
        },
        (NewState::StatingRetry(sock), NewEvent::StatSucceeded(entry)) => {
            let was_new = reg.register(entry);
            NewStep::Done {
                outcome: Ok(
                    RoboSocket { inner: sock, path, reg_entry: entry, is_unlinked: false },
                ),
                registry_inconsistency: !was_new,
            }
        },
        (NewState::StatingRetry(_), NewEvent::StatFailed(source)) => NewStep::Done {
            outcome: Err(RoboSocketNewError::IO { source, message: "" }),
            registry_inconsistency: false,
        },
        // Excluded by the precondition: every bind, stat and removal is
        // answered by an outcome of its own kind.
        _ => unreached(),
    }
}

/// Uniqueness: while a live handle's identity stands in the registry, a
/// construction attempt whose occupied path resolves to that identity is
/// rejected with `AlreadyOpen`, and the registry is left unchanged: the
/// first handle remains the sole in-process owner, untouched.
pub proof fn lemma_live_owner_rejects_second_open(
    s: RoboSocket,
    p: NewProtocol,
    owned: Set<SocketRegistryEntry>,
)
    requires
        !s.is_unlinked,
        owned.contains(s.reg_entry),
        p.state == NewState::StatingOccupied,
    ensures
        step_spec(p, NewEvent::StatSucceeded(s.reg_entry), owned) == (NewStep::Done {
            outcome: Err::<RoboSocket, RoboSocketNewError>(RoboSocketNewError::AlreadyOpen),
            registry_inconsistency: false,
        }),
        step_registry_after(p, NewEvent::StatSucceeded(s.reg_entry), owned) == owned,
        step_registry_after(p, NewEvent::StatSucceeded(s.reg_entry), owned).contains(s.reg_entry),
{
}

/// Path aliasing: the rejection of an occupied path reads only the file's
/// on-disk identity, never the path's spelling, so a construction attempt
/// at a differently spelled path that resolves to a live handle's file is
/// rejected with `AlreadyOpen` all the same.
pub proof fn lemma_alias_rejected(s: RoboSocket, p: NewProtocol, owned: Set<SocketRegistryEntry>)
    requires
        !s.is_unlinked,
        owned.contains(s.reg_entry),
        p.state == NewState::StatingOccupied,
        p.path != s.path,
    ensures
        step_spec(p, NewEvent::StatSucceeded(s.reg_entry), owned) == (NewStep::Done {
            outcome: Err::<RoboSocket, RoboSocketNewError>(RoboSocketNewError::AlreadyOpen),
            registry_inconsistency: false,
        }),
{
}

/// A completing construction establishes ownership: the new identity is
/// registered the moment the run reports success, and the returned handle
/// is live, owns that identity, and carries the requested path.
pub proof fn lemma_construction_registers_owner(
    p: NewProtocol,
    sock: tokio::net::UnixDatagram,
    entry: SocketRegistryEntry,
    owned: Set<SocketRegistryEntry>,
)
    requires
        p.state == NewState::StatingFresh(sock),
    ensures
        step_spec(p, NewEvent::StatSucceeded(entry), owned) == (NewStep::Done {
            outcome: Ok::<RoboSocket, RoboSocketNewError>(
                RoboSocket { inner: sock, path: p.path, reg_entry: entry, is_unlinked: false },
            ),
            registry_inconsistency: owned.contains(entry),
        }),
        step_registry_after(p, NewEvent::StatSucceeded(entry), owned) == owned.insert(entry),
        step_registry_after(p, NewEvent::StatSucceeded(entry), owned).contains(entry),
{
}

/// Stale-file recovery: when a bind finds the path occupied but the
/// occupying file's identity is owned by no live handle in this process,
/// the protocol removes the file, retries the bind once, and construction
/// succeeds: the returned handle is live and its fresh identity is
/// registered, so the new handle owns the path.
pub proof fn lemma_stale_file_recovery(
    path: String,
    stale: SocketRegistryEntry,
    sock: tokio::net::UnixDatagram,
    fresh: SocketRegistryEntry,
    owned: Set<SocketRegistryEntry>,
)
    requires
        !owned.contains(stale),
        !owned.contains(fresh),
    ensures
        step_spec(
            NewProtocol { path, state: NewState::StatingOccupied },
            NewEvent::StatSucceeded(stale),
            owned,
        ) == NewStep::Next(
            NewProtocol { path, state: NewState::RemovingStale },
            NewAction::RemoveStaleFile,
        ),
        step_spec(
            NewProtocol { path, state: NewState::RemovingStale },
            NewEvent::RemoveSucceeded,
            owned,
        ) == NewStep::Next(NewProtocol { path, state: NewState::BindingRetry }, NewAction::Bind),
        step_spec(
            NewProtocol { path, state: NewState::BindingRetry },
            NewEvent::BindSucceeded(sock),
            owned,
        ) == NewStep::Next(
            NewProtocol { path, state: NewState::StatingRetry(sock) },
            NewAction::Stat,
        ),
        step_spec(
            NewProtocol { path, state: NewState::StatingRetry(sock) },
            NewEvent::StatSucceeded(fresh),
            owned,
        ) == (NewStep::Done {
            outcome: Ok::<RoboSocket, RoboSocketNewError>(
                RoboSocket { inner: sock, path, reg_entry: fresh, is_unlinked: false },
            ),
            registry_inconsistency: false,
        }),
        step_registry_after(
            NewProtocol { path, state: NewState::StatingRetry(sock) },
            NewEvent::StatSucceeded(fresh),
            owned,
        ).contains(fresh),
{
}

} // verus!
