//! Hit points of the core node and of tendril segments.

use vstd::prelude::*;

verus! {

/// Hit points: `current` stays within `0..=max` under damage and healing.
#[derive(Clone, Copy, PartialEq, Eq, Structural, Debug)]
pub struct Health {
    pub current: u64,
    pub max: u64,
}

/// The hit points that healing `current` by `amount` leads to, under `max`.
pub open spec fn healed(current: u64, amount: u64, max: u64) -> u64 {
    if current + amount >= max {
        max
    } else {
        (current + amount) as u64
    }
}

/// The hit points that damage of `amount` leaves of `current`.
pub open spec fn damaged(current: u64, amount: u64) -> u64 {
    if amount >= current {
        0
    } else {
        (current - amount) as u64
    }
}

impl Health {
    pub open spec fn wf(self) -> bool {
        self.current <= self.max
    }

    /// Full health of `max` hit points.
    pub fn new(max: u64) -> (r: Health)
        ensures
            r.current == max,
            r.max == max,
    {
        Health { current: max, max }
    }

    /// Take `amount` of damage; health stops at zero.
    pub fn damage(&mut self, amount: u64)
        ensures
            final(self).current == damaged(old(self).current, amount),
            final(self).max == old(self).max,
    {
        if amount >= self.current {
            self.current = 0;
        } else {
            self.current = self.current - amount;
        }
    }

    /// Heal by `amount`; health stops at `max`.
    pub fn heal(&mut self, amount: u64)
        ensures
            final(self).current == healed(old(self).current, amount, old(self).max),
            final(self).max == old(self).max,
    {
        if self.current >= self.max || amount >= self.max - self.current {
            self.current = self.max;
        } else {
            self.current = self.current + amount;
        }
    }

    /// Whether no hit point is left.
    pub fn is_dead(&self) -> (r: bool)
        ensures
            r == (self.current == 0),
    {
        self.current == 0
    }
}

} // verus!
