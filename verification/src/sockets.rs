//! The managed socket handle and its two release paths.
//!
//! A handle owns the datagram socket bound at its path together with the
//! path's on-disk identity. While the handle is live its identity stands in
//! the process registry and the backing file exists on disk; releasing the
//! handle removes both. Release is cooperative (the caller removes the file
//! first, then hands the outcome to [`RoboSocket::unlink`]) or forced (the
//! caller retires the handle with [`RoboSocket::release`] and performs the
//! file removal the returned directive asks for). The filesystem work
//! itself is the caller's: every decision about it is made, and verified,
//! here.

use vstd::prelude::*;

use crate::registry::{SocketRegistry, SocketRegistryEntry};

verus! {

/// Verus-opaque declaration of tokio's Unix datagram socket, the OS
/// resource a managed socket wraps. The crate carries values of it through
/// and never looks inside.
#[verifier::external_type_specification]
#[verifier::external_body]
pub struct ExUnixDatagram(tokio::net::UnixDatagram);

/// Verus-opaque declaration of the standard library's I/O error, carried
/// through as the cause inside the error values below.
#[verifier::external_type_specification]
#[verifier::external_body]
pub struct ExIoError(std::io::Error);

/// A socket managed by this crate:
///
/// at most one live handle exists per file in this process, and the
/// backing file is removed from disk when the handle's lifetime ends,
/// cooperatively through [`RoboSocket::unlink`] or forcibly through the
/// directive [`RoboSocket::release`] returns.
#[derive(Debug)]
pub struct RoboSocket {
    /// The bound datagram socket itself.
    pub inner: tokio::net::UnixDatagram,
    /// The path the socket was bound at.
    pub path: String,
    /// The bound file's identity, as registered in the process registry.
    pub reg_entry: SocketRegistryEntry,
    /// Set once the backing file has been removed cooperatively, so that
    /// the destruction step does not try to remove it twice.
    pub is_unlinked: bool,
}

/// Why constructing a managed socket failed.
#[derive(Debug)]
pub enum RoboSocketNewError {
    /// The path's file is owned by another live handle in this process.
    AlreadyOpen,
    /// A filesystem or socket failure, tagged with the stage that failed.
    IO { source: std::io::Error, message: &'static str },
    /// The lock guarding the socket registry was poisoned by a prior panic.
    Poisoned,
}

impl From<std::io::Error> for RoboSocketNewError {
    fn from(source: std::io::Error) -> (r: Self) {
        RoboSocketNewError::IO { source, message: "" }
    }
}

impl vstd::std_specs::convert::FromSpecImpl<std::io::Error> for RoboSocketNewError {
    open spec fn obeys_from_spec() -> bool {
        true
    }

    open spec fn from_spec(source: std::io::Error) -> Self {
        RoboSocketNewError::IO { source, message: "" }
    }
}

/// A failed cooperative release: carries the filesystem error together with
/// the still-owned handle, so the caller may retry or fall back to forced
/// destruction instead of leaking the resource.
#[derive(Debug)]
pub struct RoboSocketUnlinkError {
    pub socket: RoboSocket,
    pub source: std::io::Error,
}

/// What a retired handle asks its caller to do.
pub struct ReleaseDirective {
    /// True unless the file was already removed cooperatively: the caller
    /// must now remove the file at `path`, best-effort but loud on error.
    pub unlink_needed: bool,
    /// Whether the identity stood in the registry; `false` is an invariant
    /// violation the caller is expected to log, not escalate.
    pub was_registered: bool,
    /// The path whose backing file the directive speaks of.
    pub path: String,
}

/// The handle as it stands after the backing file was removed
/// cooperatively: same socket, same path, same identity, marked released.
pub open spec fn marked_unlinked(s: RoboSocket) -> RoboSocket {
    RoboSocket { inner: s.inner, path: s.path, reg_entry: s.reg_entry, is_unlinked: true }
}

/// What [`RoboSocket::unlink`] returns for a handle `s` and a file-removal
/// outcome: the released handle on success, the error with the unchanged
/// handle inside on failure.
pub open spec fn unlink_spec(s: RoboSocket, removal: Result<(), std::io::Error>) -> Result<
    RoboSocket,
    RoboSocketUnlinkError,
> {
    match removal {
        Ok(_) => Ok(marked_unlinked(s)),
        Err(source) => Err(RoboSocketUnlinkError { socket: s, source }),
    }
}

/// What [`RoboSocket::release`] directs for a handle `s` retired while the
/// registry holds `owned`.
pub open spec fn release_directive_spec(s: RoboSocket, owned: Set<SocketRegistryEntry>) -> ReleaseDirective {
    ReleaseDirective {
        unlink_needed: !s.is_unlinked,
        was_registered: owned.contains(s.reg_entry),
        path: s.path,
    }
}

/// The registry contents after a handle `s` is retired: its identity is no
/// longer owned.
pub open spec fn release_registry_after(
    s: RoboSocket,
    owned: Set<SocketRegistryEntry>,
) -> Set<SocketRegistryEntry> {
    owned.remove(s.reg_entry)
}

impl RoboSocket {
    /// Finishes a cooperative release, given the outcome of the caller's
    /// removal of the backing file.
    ///
    /// On success the handle comes back marked released, ready to be
    /// retired with [`RoboSocket::release`], which will then direct no
    /// second removal. On failure the error carries the handle back
    /// unchanged, so ownership is never silently dropped.
    pub fn unlink(self, removal: Result<(), std::io::Error>) -> (r: Result<
        RoboSocket,
        RoboSocketUnlinkError,
    >)
        ensures
            r == unlink_spec(self, removal),
    {
        match removal {
            Ok(_) => {
                let RoboSocket { inner, path, reg_entry, is_unlinked } = self;
                Ok(RoboSocket { inner, path, reg_entry, is_unlinked: true })
            },
            Err(source) => Err(RoboSocketUnlinkError { socket: self, source }),
        }
    }

    /// Retires the handle: removes its identity from the registry, closes
    /// the socket, and tells the caller whether the backing file still has
    /// to be removed. This is the single destruction step both release
    /// paths end in.
    pub fn release(self, reg: &mut SocketRegistry) -> (d: ReleaseDirective)
        requires
            old(reg).wf(),
        ensures
            final(reg).wf(),
            final(reg)@ == release_registry_after(self, old(reg)@),
            d == release_directive_spec(self, old(reg)@),
    {
        let was_registered = reg.remove(self.reg_entry);
        let RoboSocket { inner, path, reg_entry, is_unlinked } = self;
        ReleaseDirective { unlink_needed: !is_unlinked, was_registered, path }
    }
}

/// Cleanup on destruction: retiring a handle that never went through a
/// cooperative release directs the removal of its backing file, and its
/// identity is absent from the registry afterwards. Nothing of the handle
/// outlives it.
pub proof fn lemma_forced_release_cleans_up(s: RoboSocket, owned: Set<SocketRegistryEntry>)
    requires
        !s.is_unlinked,
    ensures
        release_directive_spec(s, owned).unlink_needed,
        !release_registry_after(s, owned).contains(s.reg_entry),
        release_directive_spec(s, owned).path == s.path,
{
}

/// Cooperative release happens once: after a successful cooperative
/// removal the handle comes back marked released, so retiring it directs
/// no further removal attempt; and since every live handle's identity
/// stands in the registry, the retirement reports no invariant violation.
pub proof fn lemma_cooperative_release_idempotent(s: RoboSocket, owned: Set<SocketRegistryEntry>)
    requires
        !s.is_unlinked,
        owned.contains(s.reg_entry),
    ensures
        unlink_spec(s, Ok(())) == Ok::<RoboSocket, RoboSocketUnlinkError>(marked_unlinked(s)),
        !release_directive_spec(marked_unlinked(s), owned).unlink_needed,
        release_directive_spec(marked_unlinked(s), owned).was_registered,
        !release_registry_after(marked_unlinked(s), owned).contains(s.reg_entry),
{
}

/// A failed cooperative release preserves ownership: the error carries the
/// handle back unchanged and still unreleased, so retiring it later still
/// directs the forced removal of the backing file.
pub proof fn lemma_failed_release_preserves_ownership(
    s: RoboSocket,
    e: std::io::Error,
    owned: Set<SocketRegistryEntry>,
)
    requires
        !s.is_unlinked,
    ensures
        unlink_spec(s, Err(e)) == Err::<RoboSocket, RoboSocketUnlinkError>(
            RoboSocketUnlinkError { socket: s, source: e },
        ),
        release_directive_spec(s, owned).unlink_needed,
{
}

} // verus!
