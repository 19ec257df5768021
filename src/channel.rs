use vstd::prelude::*;

use std::sync::Mutex;

use crate::mutex::{inside, inside_mut, try_enter};
use crate::oneshot::{OneShot, RecvError, SendError};

verus! {

/// A one-shot channel as a single object shared by both sides.
///
/// The exchange sits inside a `Mutex`, which serves as the cell that both
/// sides may change through a shared reference: taking it is an acquire,
/// giving it back a release, so the value written by `send` is visible to the
/// `recieve` that finds it. Every decision is the exchange's own. No operation
/// waits: one that finds the other side holding the cell reports so and
/// changes nothing. Destroying the channel destroys a message that was sent
/// and never received.
#[verifier::reject_recursive_types(T)]
pub struct Channel<T> {
    state: Mutex<OneShot<T>>,
}

impl<T> Channel<T> {
    /// A channel on which nothing has been sent.
    pub fn new() -> (c: Self) {
        Channel { state: Mutex::new(OneShot::new()) }
    }

    /// Sends `value`. Only the first send on the channel succeeds; a later one
    /// hands `value` back and leaves the message in place. A send that finds
    /// the other side holding the channel hands `value` back as `Busy`.
    pub fn send(&self, value: T) -> (r: Result<(), SendError<T>>)
        ensures
            r is Ok || r == Err::<(), SendError<T>>(SendError::AlreadyUsed(value)) || r == Err::<
                (),
                SendError<T>,
            >(SendError::Busy(value)),
    {
        match try_enter(&self.state) {
            Some(mut held) => inside_mut(&mut held).send(value),
            None => Err(SendError::Busy(value)),
        }
    }

    /// Whether a message is published and not yet taken. Never waits: while a
    /// `send` or `recieve` holds the channel nothing is published yet, or the
    /// message is being taken, so the answer is then `false`.
    pub fn is_ready(&self) -> (r: bool) {
        match try_enter(&self.state) {
            Some(held) => inside(&held).is_ready(),
            None => false,
        }
    }

    /// Takes the message out; refused while none is published, and after it
    /// has been taken. Reports `Busy` if the other side holds the channel.
    pub fn recieve(&self) -> (r: Result<T, RecvError>) {
        match try_enter(&self.state) {
            Some(mut held) => inside_mut(&mut held).receive(),
            None => Err(RecvError::Busy),
        }
    }
}

} // verus!
