use vstd::prelude::*;

use std::sync::Arc;

use crate::channel::Channel;
use crate::oneshot::{RecvError, SendError};

verus! {

/// The sending end of a guarded channel.
#[verifier::reject_recursive_types(T)]
pub struct Sender<T> {
    channel: Arc<Channel<T>>,
}

/// The receiving end of a guarded channel.
#[verifier::reject_recursive_types(T)]
pub struct Receiver<T> {
    channel: Arc<Channel<T>>,
}

/// Relies on `Arc::clone`: a second handle to the same allocation.
#[verifier::external_body]
fn share<T>(a: &Arc<Channel<T>>) -> (r: Arc<Channel<T>>)
    ensures
        *r == **a,
{
    Arc::clone(a)
}

/// A guarded channel: both ends share one heap-allocated exchange, which lives
/// as long as either end does.
pub fn channel<T>() -> (r: (Sender<T>, Receiver<T>))
    ensures
        r.0.channel() == r.1.channel(),
{
    let a = Arc::new(Channel::new());
    (Sender { channel: share(&a) }, Receiver { channel: a })
}

impl<T> Sender<T> {
    /// The channel this end sends on.
    pub closed spec fn channel(&self) -> Channel<T> {
        *self.channel
    }

    /// Sends `message`. A second send on the channel is refused and hands
    /// `message` back; the first message stays. `Busy` hands `message` back
    /// when the receiver held the channel at that instant.
    pub fn send(&self, message: T) -> (r: Result<(), SendError<T>>)
        ensures
            r is Ok || r == Err::<(), SendError<T>>(SendError::AlreadyUsed(message)) || r == Err::<
                (),
                SendError<T>,
            >(SendError::Busy(message)),
    {
        self.channel.send(message)
    }
}

impl<T> Receiver<T> {
    /// The channel this end receives on.
    pub closed spec fn channel(&self) -> Channel<T> {
        *self.channel
    }

    /// Whether the message is published and not yet taken.
    pub fn is_ready(&self) -> bool {
        self.channel.is_ready()
    }

    /// Takes the message; refused before it is published and after it was
    /// taken, and reported `Busy` while the sender holds the channel.
    pub fn receive(&self) -> Result<T, RecvError> {
        self.channel.recieve()
    }
}

} // verus!
