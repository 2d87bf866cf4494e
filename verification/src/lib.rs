//! A managed handle over a Unix-domain datagram socket file.
//!
//! The crate guarantees that at most one live handle exists per filesystem
//! path within a process, recovers from socket files left behind by a
//! previous crashed run, and directs the removal of the socket's backing
//! file whenever the handle's lifetime ends, whether by explicit release or
//! by uncontrolled destruction.

pub mod events;
pub mod protocol;
pub mod registry;
pub mod sockets;
