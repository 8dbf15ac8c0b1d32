//! An owned counter: one owner, set once and transferable, who alone may
//! move, set or reset the value.
//!
//! The host authenticates callers, and each owner-only operation takes
//! the authenticated caller and requires it to be the owner. Failure here
//! is an abort, not an error value, so the aborting inputs (a second
//! initialization, a counter at the ends of its range) are excluded by
//! preconditions.

use vstd::prelude::*;

verus! {

/// The owned counter's state.
pub struct OwnableCounter {
    owner: Option<u64>,
    counter: i128,
}

impl OwnableCounter {
    /// The owner, or `None` before initialization.
    pub closed spec fn spec_owner(&self) -> Option<u64> {
        self.owner
    }

    /// Whether `initialize` has run.
    pub open spec fn spec_initialized(&self) -> bool {
        self.spec_owner() is Some
    }

    /// The counter value.
    pub closed spec fn spec_counter(&self) -> i128 {
        self.counter
    }

    /// An uninitialized counter at zero.
    pub fn new() -> (c: OwnableCounter)
        ensures
            !c.spec_initialized(),
            c.spec_counter() == 0,
    {
        OwnableCounter { owner: None, counter: 0 }
    }

    /// One-time setup of the owner; the counter starts at zero.
    pub fn initialize(&mut self, owner: u64)
        requires
            !old(self).spec_initialized(),
        ensures
            final(self).spec_owner() == Some(owner),
            final(self).spec_counter() == 0,
    {
        self.owner = Some(owner);
        self.counter = 0;
    }

    /// The current owner.
    pub fn owner(&self) -> (r: u64)
        requires
            self.spec_initialized(),
        ensures
            Some(r) == self.spec_owner(),
    {
        match &self.owner {
            Some(o) => *o,
            None => 0,
        }
    }

    /// Hands the counter to a new owner; only the current owner may.
    pub fn transfer_ownership(&mut self, caller: u64, new_owner: u64)
        requires
            old(self).spec_owner() == Some(caller),
        ensures
            final(self).spec_owner() == Some(new_owner),
            final(self).spec_counter() == old(self).spec_counter(),
    {
        self.owner = Some(new_owner);
    }

    /// Raises the counter by one; only the owner may.
    pub fn increment(&mut self, caller: u64)
        requires
            old(self).spec_owner() == Some(caller),
            old(self).spec_counter() < i128::MAX,
        ensures
            final(self).spec_counter() == old(self).spec_counter() + 1,
            final(self).spec_owner() == old(self).spec_owner(),
    {
        self.counter = self.counter + 1;
    }

    /// Lowers the counter by one; only the owner may.
    pub fn decrement(&mut self, caller: u64)
        requires
            old(self).spec_owner() == Some(caller),
            old(self).spec_counter() > i128::MIN,
        ensures
            final(self).spec_counter() == old(self).spec_counter() - 1,
            final(self).spec_owner() == old(self).spec_owner(),
    {
        self.counter = self.counter - 1;
    }

    /// The counter value; zero before anything was ever stored.
    pub fn get_counter(&self) -> (r: i128)
        ensures
            r == self.spec_counter(),
    {
        self.counter
    }

    /// Puts the counter back to zero; only the owner may.
    pub fn reset(&mut self, caller: u64)
        requires
            old(self).spec_owner() == Some(caller),
        ensures
            final(self).spec_counter() == 0,
            final(self).spec_owner() == old(self).spec_owner(),
    {
        self.counter = 0;
    }

    /// Sets the counter to `value`; only the owner may.
    pub fn set_counter(&mut self, caller: u64, value: i128)
        requires
            old(self).spec_owner() == Some(caller),
        ensures
            final(self).spec_counter() == value,
            final(self).spec_owner() == old(self).spec_owner(),
    {
        self.counter = value;
    }
}

} // verus!
