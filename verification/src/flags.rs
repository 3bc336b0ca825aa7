//! The processor status register: an 8-bit word of named flag bits with a
//! canonical setter (`replace`) that always re-asserts the RESERVED bit, and
//! derived setters built on it.

use vstd::prelude::*;

verus! {

/// The SIGN (negative) flag bit.
pub const SIGN_BIT: u8 = 0x80;
/// The OVERFLOW flag bit.
pub const OVERFLOW_BIT: u8 = 0x40;
/// The RESERVED flag bit, always set after a canonical write.
pub const RESERVED_BIT: u8 = 0x20;
/// The BREAK flag bit.
pub const BREAK_BIT: u8 = 0x10;
/// The BCD (decimal mode) flag bit.
pub const BCD_BIT: u8 = 0x08;
/// The INTERRUPT-disable flag bit.
pub const INTERRUPT_BIT: u8 = 0x04;
/// The ZERO flag bit.
pub const ZERO_BIT: u8 = 0x02;
/// The CARRY flag bit.
pub const CARRY_BIT: u8 = 0x01;

/// The canonical write: the given bits with RESERVED re-asserted.
pub open spec fn spec_replace(bits: u8) -> u8 {
    bits | RESERVED_BIT
}

/// The result of clearing the bits of `mask` (a canonical write).
pub open spec fn spec_clear(bits: u8, mask: u8) -> u8 {
    spec_replace(bits & !mask)
}

/// The result of setting the bits of `mask` (a canonical write).
pub open spec fn spec_set(bits: u8, mask: u8) -> u8 {
    spec_replace(bits | mask)
}

/// The result of clearing the bits of `mask` and setting them again when
/// `cond` holds.
pub open spec fn spec_set_if(bits: u8, mask: u8, cond: bool) -> u8 {
    if cond {
        spec_set(spec_clear(bits, mask), mask)
    } else {
        spec_clear(bits, mask)
    }
}

/// The result of deriving the ZERO and SIGN flags from a register value.
pub open spec fn spec_set_sign_and_zero(bits: u8, val: u8) -> u8 {
    spec_set_if(spec_set_if(bits, ZERO_BIT, val == 0), SIGN_BIT, val & 0x80 != 0)
}

/// Whether every bit of `other` is set in `bits`.
pub open spec fn spec_intersects(bits: u8, other: u8) -> bool {
    bits & other == other
}

/// The processor status flags.
#[derive(Copy, Clone, Debug, PartialEq, Eq, Structural)]
pub struct Flags {
    /// The raw 8-bit status word.
    pub bits: u8,
}

impl Flags {
    /// The SIGN (negative) flag.
    #[allow(non_snake_case)]
    pub fn SIGN() -> (r: Flags)
        ensures
            r.bits == SIGN_BIT,
    {
        Flags::new(SIGN_BIT)
    }

    /// The OVERFLOW flag.
    #[allow(non_snake_case)]
    pub fn OVERFLOW() -> (r: Flags)
        ensures
            r.bits == OVERFLOW_BIT,
    {
        Flags::new(OVERFLOW_BIT)
    }

    /// The RESERVED flag.
    #[allow(non_snake_case)]
    pub fn RESERVED() -> (r: Flags)
        ensures
            r.bits == RESERVED_BIT,
    {
        Flags::new(RESERVED_BIT)
    }

    /// The BREAK flag.
    #[allow(non_snake_case)]
    pub fn BREAK() -> (r: Flags)
        ensures
            r.bits == BREAK_BIT,
    {
        Flags::new(BREAK_BIT)
    }

    /// The BCD (decimal mode) flag.
    #[allow(non_snake_case)]
    pub fn BCD() -> (r: Flags)
        ensures
            r.bits == BCD_BIT,
    {
        Flags::new(BCD_BIT)
    }

    /// The INTERRUPT-disable flag.
    #[allow(non_snake_case)]
    pub fn INTERRUPT() -> (r: Flags)
        ensures
            r.bits == INTERRUPT_BIT,
    {
        Flags::new(INTERRUPT_BIT)
    }

    /// The ZERO flag.
    #[allow(non_snake_case)]
    pub fn ZERO() -> (r: Flags)
        ensures
            r.bits == ZERO_BIT,
    {
        Flags::new(ZERO_BIT)
    }

    /// The CARRY flag.
    #[allow(non_snake_case)]
    pub fn CARRY() -> (r: Flags)
        ensures
            r.bits == CARRY_BIT,
    {
        Flags::new(CARRY_BIT)
    }

    /// No flags at all.
    #[allow(non_snake_case)]
    pub fn NONE() -> (r: Flags)
        ensures
            r.bits == 0,
    {
        Flags::new(0)
    }

    /// Creates a flags value from the provided 8-bit word.
    pub fn new(bits: u8) -> (r: Flags)
        ensures
            r.bits == bits,
    {
        Flags { bits }
    }

    /// Whether every flag of `other` is set on this value.
    pub fn intersects(&self, other: Flags) -> (r: bool)
        ensures
            r == spec_intersects(self.bits, other.bits),
    {
        self.bits & other.bits == other.bits
    }

    /// Whether the CARRY flag is set.
    pub fn carry(&self) -> (r: bool)
        ensures
            r == spec_intersects(self.bits, CARRY_BIT),
    {
        self.intersects(Flags::CARRY())
    }

    /// The bitwise union of two flag sets.
    pub fn union(self, rhs: Flags) -> (r: Flags)
        ensures
            r.bits == self.bits | rhs.bits,
    {
        Flags::new(self.bits | rhs.bits)
    }

    /// Clears the given flags, leaving the others alone (canonical write).
    pub fn clear(&mut self, flags: Flags)
        ensures
            final(self).bits == spec_clear(old(self).bits, flags.bits),
            spec_intersects(final(self).bits, RESERVED_BIT),
    {
        let new_val = Flags::new(self.bits & !flags.bits);
        self.replace(new_val);
    }

    /// Sets the given flags, leaving the others alone (canonical write).
    pub fn set(&mut self, flags: Flags)
        ensures
            final(self).bits == spec_set(old(self).bits, flags.bits),
            spec_intersects(final(self).bits, RESERVED_BIT),
    {
        let new_val = Flags::new(self.bits | flags.bits);
        self.replace(new_val);
    }

    /// Clears the given flags, then sets them again when `condition` holds.
    /// Returns `condition`.
    pub fn set_if(&mut self, flag_selector: Flags, condition: bool) -> (r: bool)
        ensures
            final(self).bits == spec_set_if(old(self).bits, flag_selector.bits, condition),
            spec_intersects(final(self).bits, RESERVED_BIT),
            r == condition,
    {
        self.clear(flag_selector);
        if condition {
            self.set(flag_selector);
        }
        condition
    }

    /// Replaces the whole word with `flags`; RESERVED is re-asserted.
    pub fn replace(&mut self, flags: Flags)
        ensures
            final(self).bits == spec_replace(flags.bits),
            spec_intersects(final(self).bits, RESERVED_BIT),
    {
        proof {
            let b = flags.bits;
            assert(spec_intersects(b | RESERVED_BIT, RESERVED_BIT)) by (bit_vector);
        }
        self.bits = flags.bits | RESERVED_BIT;
    }

    /// Derives the ZERO and SIGN flags from a register value: ZERO is set
    /// exactly when `val` is zero, SIGN exactly when bit 7 of `val` is set.
    pub fn set_sign_and_zero(&mut self, val: u8)
        ensures
            final(self).bits == spec_set_sign_and_zero(old(self).bits, val),
            spec_intersects(final(self).bits, RESERVED_BIT),
    {
        self.set_if(Flags::ZERO(), val == 0);
        self.set_if(Flags::SIGN(), val & 0x80 != 0);
    }
}

/// Every canonical write leaves the RESERVED bit set, whatever was written:
/// this holds of `replace` itself and of each setter derived from it.
pub proof fn lemma_reserved_always_set(bits: u8, mask: u8, cond: bool)
    by (bit_vector)
    ensures
        spec_intersects(spec_replace(bits), RESERVED_BIT),
        spec_intersects(spec_clear(bits, mask), RESERVED_BIT),
        spec_intersects(spec_set(bits, mask), RESERVED_BIT),
        spec_intersects(spec_set_if(bits, mask, cond), RESERVED_BIT),
        spec_intersects(spec_set_sign_and_zero(bits, mask), RESERVED_BIT),
{
}

/// Deriving the sign and zero flags from a value sets ZERO exactly when the
/// value is zero and SIGN exactly when its bit 7 is one (that is, when the
/// value is at least 128), and touches no other flag except RESERVED.
pub proof fn lemma_sign_and_zero_exact(bits: u8, val: u8)
    by (bit_vector)
    ensures
        spec_intersects(spec_set_sign_and_zero(bits, val), ZERO_BIT) <==> val == 0,
        spec_intersects(spec_set_sign_and_zero(bits, val), SIGN_BIT) <==> val & 0x80 != 0,
        spec_intersects(spec_set_sign_and_zero(bits, val), SIGN_BIT) <==> val >= 128,
        spec_set_sign_and_zero(bits, val) & CARRY_BIT == bits & CARRY_BIT,
        spec_set_sign_and_zero(bits, val) & OVERFLOW_BIT == bits & OVERFLOW_BIT,
        spec_set_sign_and_zero(bits, val) & BCD_BIT == bits & BCD_BIT,
        spec_set_sign_and_zero(bits, val) & INTERRUPT_BIT == bits & INTERRUPT_BIT,
        spec_set_sign_and_zero(bits, val) & BREAK_BIT == bits & BREAK_BIT,
{
}

/// `set_if` sets the selected flags exactly when the condition holds, and
/// touches no other bit except RESERVED. (The selector must not itself name
/// the RESERVED bit, which every canonical write re-asserts.)
pub proof fn lemma_set_if_exact(bits: u8, mask: u8, cond: bool)
    by (bit_vector)
    requires
        mask & RESERVED_BIT == 0,
    ensures
        cond ==> spec_intersects(spec_set_if(bits, mask, cond), mask),
        !cond ==> spec_set_if(bits, mask, cond) & mask == 0,
        spec_set_if(bits, mask, cond) & !(mask | RESERVED_BIT) == bits & !(mask | RESERVED_BIT),
{
}


/// The eight-letter rendering of a flag word, highest bit first: each flag
/// shows as its letter, upper case when set, lower case when clear.
pub open spec fn spec_flags_str(bits: u8) -> Seq<char> {
    seq![
        if spec_intersects(bits, SIGN_BIT) { 'S' } else { 's' },
        if spec_intersects(bits, OVERFLOW_BIT) { 'O' } else { 'o' },
        if spec_intersects(bits, RESERVED_BIT) { 'R' } else { 'r' },
        if spec_intersects(bits, BREAK_BIT) { 'B' } else { 'b' },
        if spec_intersects(bits, BCD_BIT) { 'D' } else { 'd' },
        if spec_intersects(bits, INTERRUPT_BIT) { 'I' } else { 'i' },
        if spec_intersects(bits, ZERO_BIT) { 'Z' } else { 'z' },
        if spec_intersects(bits, CARRY_BIT) { 'C' } else { 'c' },
    ]
}

impl Flags {
    /// Renders the flag word as eight letters, highest bit first, each upper
    /// case exactly when its flag is set.
    pub fn to_string(&self) -> (r: String)
        ensures
            r@ == spec_flags_str(self.bits),
    {
        proof {
            reveal_strlit("S");
            reveal_strlit("s");
            reveal_strlit("O");
            reveal_strlit("o");
            reveal_strlit("R");
            reveal_strlit("r");
            reveal_strlit("B");
            reveal_strlit("b");
            reveal_strlit("D");
            reveal_strlit("d");
            reveal_strlit("I");
            reveal_strlit("i");
            reveal_strlit("Z");
            reveal_strlit("z");
            reveal_strlit("C");
            reveal_strlit("c");
        }
        let mut val = String::new();
        if self.intersects(Flags::SIGN()) {
            val.append("S");
        } else {
            val.append("s");
        }
        if self.intersects(Flags::OVERFLOW()) {
            val.append("O");
        } else {
            val.append("o");
        }
        if self.intersects(Flags::RESERVED()) {
            val.append("R");
        } else {
            val.append("r");
        }
        if self.intersects(Flags::BREAK()) {
            val.append("B");
        } else {
            val.append("b");
        }
        if self.intersects(Flags::BCD()) {
            val.append("D");
        } else {
            val.append("d");
        }
        if self.intersects(Flags::INTERRUPT()) {
            val.append("I");
        } else {
            val.append("i");
        }
        if self.intersects(Flags::ZERO()) {
            val.append("Z");
        } else {
            val.append("z");
        }
        if self.intersects(Flags::CARRY()) {
            val.append("C");
        } else {
            val.append("c");
        }
        proof {
            assert(val@ =~= spec_flags_str(self.bits));
        }
        val
    }
}

} // verus!
