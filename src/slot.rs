//! A container that is empty until a capability is installed, and hands out
//! exclusive access to it afterwards.
use vstd::prelude::*;

verus! {

/// Holds at most one capability. Installing moves the value in; access is
/// through a mutable borrow of the slot, so at most one party uses the
/// capability at a time.
pub struct SharedSlot<T> {
    /// The installed capability, if any. Public so that a slot can be built
    /// in a constant initializer; use `put` and `with` to work on it.
    pub value: Option<T>,
}

impl<T> SharedSlot<T> {
    /// What the slot holds.
    pub open spec fn view(&self) -> Option<T> {
        self.value
    }

    /// An empty slot.
    pub fn new() -> (r: Self)
        ensures
            r@ is None,
    {
        SharedSlot { value: None }
    }

    /// Installs `value`, replacing whatever the slot held.
    pub fn put(&mut self, value: T)
        ensures
            final(self)@ == Some(value),
    {
        self.value = Some(value);
    }

    /// Whether a capability is installed.
    pub fn is_installed(&self) -> (r: bool)
        ensures
            r == self@ is Some,
    {
        self.value.is_some()
    }

    /// Exclusive access to the installed capability, or `None` when the slot
    /// is still empty. Whatever is written through the reference stays in the
    /// slot; an empty slot is left unchanged.
    pub fn with(&mut self) -> (r: Option<&mut T>)
        ensures
            old(self)@ is None ==> r is None && final(self)@ is None,
            old(self)@ is Some ==> r is Some && *r->0 == old(self)@->0 && final(self)@ == Some(
                *final(r->0),
            ),
    {
        match &mut self.value {
            Some(v) => Some(v),
            None => None,
        }
    }
}

} // verus!
