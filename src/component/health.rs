//! An integer amount of health that can be lost, gained and restored.

use vstd::prelude::*;

verus! {

/// Health, counted from the amount it was created with.
#[derive(Clone, Copy, PartialEq, Eq, Debug, Structural)]
pub struct Health {
    original_hp: u32,
    current_hp: u32,
}

impl Health {
    /// The amount the health was created with.
    pub closed spec fn original(&self) -> nat {
        self.original_hp as nat
    }

    /// The amount of health left.
    pub closed spec fn current(&self) -> nat {
        self.current_hp as nat
    }

    /// Full health of `base_hp`.
    pub fn new(base_hp: u32) -> (r: Health)
        ensures
            r.original() == base_hp,
            r.current() == base_hp,
    {
        Health { original_hp: base_hp, current_hp: base_hp }
    }

    /// Loses `amount` of health, stopping at zero.
    pub fn take(&mut self, amount: u32)
        ensures
            final(self).original() == old(self).original(),
            final(self).current() == if old(self).current() >= amount {
                old(self).current() - amount
            } else {
                0
            },
    {
        self.current_hp = match self.current_hp.checked_sub(amount) {
            Some(hp) => hp,
            None => 0,
        };
    }

    /// Gains `amount` of health.
    pub fn add(&mut self, amount: u32)
        requires
            old(self).current() + amount <= u32::MAX,
        ensures
            final(self).original() == old(self).original(),
            final(self).current() == old(self).current() + amount,
    {
        self.current_hp = self.current_hp + amount;
    }

    /// Restores the health it was created with.
    pub fn reset(&mut self)
        ensures
            final(self).original() == old(self).original(),
            final(self).current() == old(self).original(),
    {
        self.current_hp = self.original_hp;
    }

    /// Whether no health is left.
    pub fn is_zero(&self) -> (r: bool)
        ensures
            r == (self.current() == 0),
    {
        self.current_hp == 0
    }

    /// The amount of health left.
    pub fn value(&self) -> (r: u32)
        ensures
            r == self.current(),
    {
        self.current_hp
    }

    /// The amount the health was created with.
    pub fn base(&self) -> (r: u32)
        ensures
            r == self.original(),
    {
        self.original_hp
    }
}

} // verus!
