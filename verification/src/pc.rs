//! The program counter: a 16-bit instruction pointer with absolute jumps and
//! signed advancement (used by branches). Arithmetic wraps modulo 2^16, as on
//! hardware.

use vstd::prelude::*;

verus! {

/// The value of the program counter after advancing it by `delta`.
pub open spec fn spec_advance(value: u16, delta: i16) -> u16 {
    vstd::wrapping::u16_specs::wrapping_add_signed(value, delta)
}

/// A 16-bit program counter.
#[derive(Copy, Clone, Debug, PartialEq, Eq, Structural)]
pub struct ProgramCounter {
    /// The current instruction address.
    pub value: u16,
}

impl ProgramCounter {
    /// A program counter at address 0.
    pub fn new() -> (r: ProgramCounter)
        ensures
            r.value == 0,
    {
        ProgramCounter { value: 0 }
    }

    /// The current address.
    pub fn get(&self) -> (r: u16)
        ensures
            r == self.value,
    {
        self.value
    }

    /// Jumps absolutely to `addr`.
    pub fn set(&mut self, addr: u16)
        ensures
            final(self).value == addr,
    {
        self.value = addr;
    }

    /// Adds a signed offset to the current address, wrapping modulo 2^16.
    pub fn advance(&mut self, delta: i16)
        ensures
            final(self).value == spec_advance(old(self).value, delta),
    {
        self.value = self.value.wrapping_add_signed(delta);
    }
}

} // verus!
