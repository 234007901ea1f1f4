//! The one-shot signal by which the front end asks the program to shut down.

use std::sync::mpsc::{Receiver, Sender};
use vstd::prelude::*;

verus! {

/// The sending half of a channel of the standard library. Nothing is known
/// of what it holds.
#[verifier::external_type_specification]
#[verifier::external_body]
#[verifier::reject_recursive_types(T)]
pub struct ExSender<T>(Sender<T>);

/// The receiving half of a channel of the standard library. Nothing is known
/// of what it holds.
#[verifier::external_type_specification]
#[verifier::external_body]
#[verifier::reject_recursive_types(T)]
pub struct ExReceiver<T>(Receiver<T>);

/// What a look at the shutdown signal found.
#[derive(Clone, Copy, Debug, PartialEq, Eq, Structural)]
pub enum ShutdownPoll {
    /// The signal was raised.
    Signalled,
    /// The owner of the signal is gone.
    Disconnected,
    /// Nothing yet.
    Empty,
}

impl ShutdownPoll {
    /// Whether the one who looked has to stop: on a raised signal, and when
    /// nobody is left to raise it.
    pub open spec fn stops(self) -> bool {
        self != ShutdownPoll::Empty
    }

    /// Whether the one who looked has to stop.
    pub fn must_stop(&self) -> (stop: bool)
        ensures
            stop == self.stops(),
    {
        match self {
            ShutdownPoll::Empty => false,
            _ => true,
        }
    }
}

/// Opens the channel that carries the shutdown signal, by
/// `std::sync::mpsc::channel`. Nothing is claimed of the two halves.
#[verifier::external_body]
pub(crate) fn shutdown_channel() -> (halves: (Sender<()>, Receiver<()>)) {
    std::sync::mpsc::channel()
}

/// Raises the shutdown signal, by `Sender::send`. Whether it was taken
/// depends on whether the receiving half still exists, so nothing is
/// claimed of the answer.
#[verifier::external_body]
pub(crate) fn raise(shutdown: &Sender<()>) -> (taken: bool) {
    shutdown.send(()).is_ok()
}

/// Looks at the shutdown signal without waiting, by `Receiver::try_recv`.
/// What is found depends on the other half, so nothing is claimed of it.
#[verifier::external_body]
pub(crate) fn poll_shutdown(shutdown: &Receiver<()>) -> (found: ShutdownPoll) {
    match shutdown.try_recv() {
        Ok(()) => ShutdownPoll::Signalled,
        Err(std::sync::mpsc::TryRecvError::Disconnected) => ShutdownPoll::Disconnected,
        Err(std::sync::mpsc::TryRecvError::Empty) => ShutdownPoll::Empty,
    }
}

} // verus!
