//! Inter-thread event routing: the event type and the channel ends the
//! worker threads communicate through.

use vstd::prelude::*;

verus! {

/// A message routed to a running worker thread.
#[derive(Debug)]
pub enum Event {
    /// Ask the thread to finish its work and return.
    GracefulShutdown,
    /// A payload message forwarded to the thread.
    Message(u32),
}

/// Verus-opaque declaration of the standard library's bounded channel
/// sender, carried in [`AddressBook`] and never inspected here.
#[verifier::external_type_specification]
#[verifier::external_body]
#[verifier::reject_recursive_types(T)]
pub struct ExSyncSender<T>(std::sync::mpsc::SyncSender<T>);

/// Verus-opaque declaration of the standard library's channel receiver,
/// carried in [`Receivers`] and never inspected here.
#[verifier::external_type_specification]
#[verifier::external_body]
#[verifier::reject_recursive_types(T)]
pub struct ExReceiver<T>(std::sync::mpsc::Receiver<T>);

/// Relies on std::sync::mpsc::sync_channel: creates a bounded channel and
/// returns its two connected ends.
pub assume_specification<T>[ std::sync::mpsc::sync_channel::<T> ](bound: usize) -> (r: (
    std::sync::mpsc::SyncSender<T>,
    std::sync::mpsc::Receiver<T>,
));

/// Holds the sending ends for messages to the running threads.
pub struct AddressBook {
    pub usb_sender_thread: std::sync::mpsc::SyncSender<Event>,
    pub nng_receiver_thread: std::sync::mpsc::SyncSender<Event>,
}

/// Holds the receiving ends the worker threads read from.
pub struct Receivers {
    pub usb_sender_thread: std::sync::mpsc::Receiver<Event>,
    pub nng_receiver_thread: std::sync::mpsc::Receiver<Event>,
}

/// Creates one bounded channel per worker thread and hands out the two
/// bundles: the receiving ends for the threads, the sending ends for
/// whoever addresses them.
pub fn create_channels() -> (r: (Receivers, AddressBook)) {
    let (usb_sender_thread_sender, usb_sender_thread_receiver) = std::sync::mpsc::sync_channel(
        128,
    );
    let (nng_receiver_thread_sender, nng_receiver_thread_receiver) = std::sync::mpsc::sync_channel(
        128,
    );
    (
        Receivers {
            usb_sender_thread: usb_sender_thread_receiver,
            nng_receiver_thread: nng_receiver_thread_receiver,
        },
        AddressBook {
            usb_sender_thread: usb_sender_thread_sender,
            nng_receiver_thread: nng_receiver_thread_sender,
        },
    )
}

} // verus!
