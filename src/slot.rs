use vstd::prelude::*;

verus! {

/// Storage for at most one value, paired with a `ready` flag.
///
/// The value is written only while the flag is down and is read only after the
/// flag has been seen up; the value is held in an `Option`, so a value that is
/// written and never read is still destroyed with the slot.
pub struct Slot<T> {
    message: Option<T>,
    ready: bool,
}

impl<T> Slot<T> {
    /// The value the slot holds, if any.
    pub closed spec fn message(&self) -> Option<T> {
        self.message
    }

    /// The `ready` flag.
    pub closed spec fn ready(&self) -> bool {
        self.ready
    }

    /// An empty slot whose flag is down.
    pub fn new() -> (s: Self)
        ensures
            s.message() is None,
            !s.ready(),
    {
        Slot { message: None, ready: false }
    }

    /// Stores `value`. The slot must hold no unread value and its flag must
    /// be down.
    pub fn write(&mut self, value: T)
        requires
            old(self).message() is None,
            !old(self).ready(),
        ensures
            final(self).message() == Some(value),
            final(self).ready() == old(self).ready(),
    {
        self.message = Some(value);
    }

    /// Raises the flag: the value written before is published.
    pub fn set_ready(&mut self)
        ensures
            final(self).ready(),
            final(self).message() == old(self).message(),
    {
        self.ready = true;
    }

    /// Whether the flag is up. Never changes the slot.
    pub fn is_ready(&self) -> (r: bool)
        ensures
            r == self.ready(),
    {
        self.ready
    }

    /// Whether the slot holds a value. Never changes the slot.
    pub fn has_message(&self) -> (r: bool)
        ensures
            r == self.message() is Some,
    {
        self.message.is_some()
    }

    /// Tests and lowers the flag in one step; returns whether it was up.
    pub fn take_ready_if_set(&mut self) -> (r: bool)
        ensures
            r == old(self).ready(),
            !final(self).ready(),
            final(self).message() == old(self).message(),
    {
        let r = self.ready;
        self.ready = false;
        r
    }

    /// Moves the stored value out. The slot must hold a value.
    pub fn read(&mut self) -> (v: T)
        requires
            old(self).message() is Some,
        ensures
            old(self).message() == Some(v),
            final(self).message() is None,
            final(self).ready() == old(self).ready(),
    {
        self.message.take().unwrap()
    }
}

} // verus!
