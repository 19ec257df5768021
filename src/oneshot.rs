use vstd::prelude::*;

use crate::slot::Slot;

verus! {

/// Where a one-shot exchange stands.
pub enum Stage<T> {
    /// Nothing has been sent.
    Empty,
    /// A value has been sent and not yet received.
    Written(T),
    /// The value has been received; nothing more can happen.
    Consumed,
}

/// Why a send was refused. The refused value is handed back untouched.
#[derive(PartialEq, Eq, Debug)]
pub enum SendError<T> {
    /// The channel has already carried a message.
    AlreadyUsed(T),
    /// The other side held the channel at that instant; nothing changed and
    /// the send may be tried again.
    Busy(T),
}

/// Why a receive was refused.
#[derive(PartialEq, Eq, Structural, Debug, Clone, Copy)]
pub enum RecvError {
    /// No message has been published yet, or it was already taken.
    NoMessage,
    /// The other side held the channel at that instant; nothing changed and
    /// the receive may be tried again.
    Busy,
}

/// The stage that a send of `v` leaves behind.
pub open spec fn after_send<T>(s: Stage<T>, v: T) -> Stage<T> {
    match s {
        Stage::Empty => Stage::Written(v),
        _ => s,
    }
}

/// What a send of `v` reports on stage `s`.
pub open spec fn send_outcome<T>(s: Stage<T>, v: T) -> Result<(), SendError<T>> {
    match s {
        Stage::Empty => Ok(()),
        _ => Err(SendError::AlreadyUsed(v)),
    }
}

/// The stage that a receive leaves behind.
pub open spec fn after_receive<T>(s: Stage<T>) -> Stage<T> {
    match s {
        Stage::Written(_) => Stage::Consumed,
        _ => s,
    }
}

/// What a receive reports on stage `s`.
pub open spec fn receive_outcome<T>(s: Stage<T>) -> Result<T, RecvError> {
    match s {
        Stage::Written(v) => Ok(v),
        _ => Err(RecvError::NoMessage),
    }
}

/// Whether a message is published and waiting.
pub open spec fn published<T>(s: Stage<T>) -> bool {
    s is Written
}

/// How many values the exchange holds that nobody has received: these are the
/// values that are destroyed along with it.
pub open spec fn pending<T>(s: Stage<T>) -> nat {
    if s is Written {
        1
    } else {
        0
    }
}

/// The state of a single-use exchange: a flag-gated slot and an `in_use` flag
/// that turns a second send into a reported failure.
///
/// Every operation replaces the whole value at once, so the flags and the
/// slot agree at every point where other code can see the exchange.
pub struct OneShot<T> {
    slot: Slot<T>,
    in_use: bool,
}

impl<T> OneShot<T> {
    /// Before any send the flag is down and the slot empty; once in use, the
    /// slot holds a value exactly while the flag is up.
    #[verifier::type_invariant]
    spec fn consistent(&self) -> bool {
        &&& !self.in_use ==> !self.slot.ready() && self.slot.message() is None
        &&& self.in_use && !self.slot.ready() ==> self.slot.message() is None
        &&& self.slot.ready() ==> self.slot.message() is Some
    }

    /// The stage of the exchange.
    pub closed spec fn stage(&self) -> Stage<T> {
        if !self.in_use {
            Stage::Empty
        } else if self.slot.ready() {
            Stage::Written(self.slot.message()->0)
        } else {
            Stage::Consumed
        }
    }

    /// A fresh exchange: nothing sent yet.
    pub fn new() -> (c: Self)
        ensures
            c.stage() == Stage::<T>::Empty,
    {
        OneShot { slot: Slot::new(), in_use: false }
    }

    /// Sends `value`. Succeeds only on a fresh exchange; otherwise the value is
    /// handed back and the stored one is left as it was.
    pub fn send(&mut self, value: T) -> (r: Result<(), SendError<T>>)
        ensures
            r == send_outcome(old(self).stage(), value),
            final(self).stage() == after_send(old(self).stage(), value),
    {
        proof {
            use_type_invariant(&*self);
        }
        if self.in_use {
            return Err(SendError::AlreadyUsed(value));
        }
        let mut slot = Slot::new();
        slot.write(value);
        slot.set_ready();
        *self = OneShot { slot, in_use: true };
        Ok(())
    }

    /// Whether a message is published and waiting. Never changes the exchange.
    pub fn is_ready(&self) -> (r: bool)
        ensures
            r == published(self.stage()),
    {
        proof {
            use_type_invariant(self);
        }
        self.slot.is_ready()
    }

    /// Takes the published message out, once.
    pub fn receive(&mut self) -> (r: Result<T, RecvError>)
        ensures
            r == receive_outcome(old(self).stage()),
            final(self).stage() == after_receive(old(self).stage()),
    {
        proof {
            use_type_invariant(&*self);
        }
        let mut current = OneShot::new();
        std::mem::swap(self, &mut current);
        proof {
            use_type_invariant(&current);
        }
        let OneShot { mut slot, in_use } = current;
        if !slot.take_ready_if_set() {
            *self = OneShot { slot, in_use };
            return Err(RecvError::NoMessage);
        }
        let v = slot.read();
        *self = OneShot { slot, in_use: true };
        Ok(v)
    }
}

/// A value sent on a fresh exchange is received exactly as it was sent, and
/// exactly once: a second receive is refused.
pub proof fn lemma_round_trip<T>(v: T)
    ensures
        send_outcome(Stage::Empty, v) is Ok,
        receive_outcome(after_send(Stage::Empty, v)) == Ok::<T, RecvError>(v),
        receive_outcome(after_receive(after_send(Stage::Empty, v))) == Err::<T, RecvError>(
            RecvError::NoMessage,
        ),
{
}

/// Once a send has happened, every further send is refused, hands its value
/// back, and leaves the exchange as it was; in particular the first value is
/// never overwritten.
pub proof fn lemma_second_send_refused<T>(first: T, s: Stage<T>, v: T)
    requires
        s == after_send(Stage::Empty, first) || s == after_receive(after_send(Stage::Empty, first)),
    ensures
        send_outcome(s, v) == Err::<(), SendError<T>>(SendError::AlreadyUsed(v)),
        after_send(s, v) == s,
        s is Written ==> receive_outcome(after_send(s, v)) == Ok::<T, RecvError>(first),
{
}

/// A receive before any send is refused, and changes nothing.
pub proof fn lemma_receive_before_send<T>()
    ensures
        receive_outcome(Stage::<T>::Empty) == Err::<T, RecvError>(RecvError::NoMessage),
        after_receive(Stage::<T>::Empty) == Stage::<T>::Empty,
{
}

/// Readiness is down until the send publishes and up from then until the
/// receive; polling it changes nothing, so any number of polls agree.
pub proof fn lemma_ready_after_publish<T>(v: T)
    ensures
        !published(Stage::<T>::Empty),
        published(after_send(Stage::Empty, v)),
        !published(after_receive(after_send(Stage::Empty, v))),
{
}

/// An exchange holds an undelivered value exactly when a send succeeded and
/// no receive followed: that is the one value that its destruction releases.
pub proof fn lemma_pending_accounting<T>(v: T)
    ensures
        pending(Stage::<T>::Empty) == 0,
        pending(after_send(Stage::Empty, v)) == 1,
        pending(after_receive(after_send(Stage::Empty, v))) == 0,
        pending(after_receive(Stage::<T>::Empty)) == 0,
{
}

} // verus!
