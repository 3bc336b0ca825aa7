//! A cycle counter. It only ever moves forward; at the (unreachable in
//! practice) top of its range it saturates rather than wrap, so that the
//! count stays monotonic.

use vstd::prelude::*;

verus! {

/// Counts CPU cycles spent during execution.
#[derive(Copy, Clone, Debug, PartialEq, Eq, Structural)]
pub struct Clock {
    /// The number of cycles counted so far.
    pub cycles: u64,
}

impl Clock {
    /// A clock at zero cycles.
    pub fn new() -> (r: Clock)
        ensures
            r.cycles == 0,
    {
        Clock { cycles: 0 }
    }

    /// The number of cycles counted so far.
    pub fn get(&self) -> (r: u64)
        ensures
            r == self.cycles,
    {
        self.cycles
    }

    /// Counts `n` further cycles. The count never decreases.
    pub fn tick(&mut self, n: u64)
        ensures
            old(self).cycles + n <= u64::MAX ==> final(self).cycles == old(self).cycles + n,
            old(self).cycles + n > u64::MAX ==> final(self).cycles == u64::MAX,
            old(self).cycles <= final(self).cycles,
    {
        self.cycles = self.cycles.saturating_add(n);
    }
}

} // verus!
