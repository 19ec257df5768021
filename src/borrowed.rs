use vstd::prelude::*;

use std::marker::PhantomData;
use std::rc::Rc;

use crate::channel::Channel as Exchange;
use crate::oneshot::{RecvError, SendError};

verus! {

/// Storage for a one-shot channel owned by the caller, split into a pair of
/// ends that borrow it; no allocation.
#[verifier::reject_recursive_types(T)]
pub struct Channel<T> {
    exchange: Exchange<T>,
}

/// The sending end of a split channel; sending consumes it.
#[verifier::reject_recursive_types(T)]
pub struct Sender<'a, T> {
    channel: &'a Exchange<T>,
}

/// The receiving end of a split channel. It stays on the thread that split
/// the channel, the one that a sender wakes.
#[verifier::reject_recursive_types(T)]
pub struct Receiver<'a, T> {
    channel: &'a Exchange<T>,
    _stays_on_thread: PhantomData<Rc<()>>,
}

impl<T> Channel<T> {
    /// The exchange this storage holds.
    pub closed spec fn exchange(&self) -> Exchange<T> {
        self.exchange
    }

    /// Storage on which nothing has been sent.
    pub fn new() -> Self {
        Channel { exchange: Exchange::new() }
    }

    /// Resets the storage to a fresh exchange, destroying whatever an earlier
    /// use left in it, and hands out one sender and one receiver over it.
    /// Both borrow the storage, so it cannot be split again while they live.
    pub fn split<'a>(&'a mut self) -> (r: (Sender<'a, T>, Receiver<'a, T>))
        ensures
            r.0.exchange() == final(self).exchange(),
            r.1.exchange() == final(self).exchange(),
    {
        self.exchange = Exchange::new();
        (Sender { channel: &self.exchange }, Receiver { channel: &self.exchange, _stays_on_thread: PhantomData })
    }
}

impl<'a, T> Sender<'a, T> {
    /// The exchange this end sends on.
    pub closed spec fn exchange(&self) -> Exchange<T> {
        *self.channel
    }

    /// Sends `message`, consuming the sender. A split hands out one sender per
    /// fresh exchange, so `AlreadyUsed` does not arise; it is kept because the
    /// contents of the shared cell are not visible to the proof here. On a
    /// refusal the sender comes back with the error, which hands `message`
    /// back: `Busy` if the receiver held the cell at that instant, and the
    /// send may then be tried again.
    pub fn send(self, message: T) -> (r: Result<(), (Sender<'a, T>, SendError<T>)>)
        ensures
            r is Err ==> r->Err_0.0 == self,
            r is Err ==> r->Err_0.1 == SendError::AlreadyUsed(message) || r->Err_0.1
                == SendError::Busy(message),
    {
        match self.channel.send(message) {
            Ok(()) => Ok(()),
            Err(e) => Err((self, e)),
        }
    }
}

impl<'a, T> Receiver<'a, T> {
    /// The exchange this end receives on.
    pub closed spec fn exchange(&self) -> Exchange<T> {
        *self.channel
    }

    /// Whether the message is published and not yet taken.
    pub fn is_ready(&self) -> bool {
        self.channel.is_ready()
    }

    /// Takes the message if it is published; reported `Busy` while the sender
    /// holds the channel. A caller that must have the message suspends between
    /// attempts until the sender resumes it.
    pub fn try_receive(&self) -> Result<T, RecvError> {
        self.channel.recieve()
    }
}

} // verus!
