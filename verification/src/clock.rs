//! A running total of consumed T-cycles.

use vstd::prelude::*;

verus! {

/// Counts the T-cycles the machine has consumed since construction.
pub struct Clock {
    pub cycles: u128,
}

impl Clock {
    /// A clock at zero.
    pub fn init() -> (r: Clock)
        ensures
            r.cycles == 0,
    {
        Clock { cycles: 0 }
    }

    /// Add a step's cycles to the total, wrapping at 2^128.
    pub fn tick(&mut self, num: u32)
        ensures
            final(self).cycles == (old(self).cycles + num) % (u128::MAX + 1),
    {
        self.cycles = self.cycles.wrapping_add(num as u128);
    }
}

} // verus!
