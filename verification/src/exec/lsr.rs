//! LSR: shift the operand right by one bit. CARRY receives the bit shifted
//! out (bit 0); the shifted value is written back through the operand and
//! SIGN and ZERO are derived from it.

use vstd::prelude::*;
use crate::cpu::Mos6502;
use crate::exec::{Error, reserved_intact, with_flags, rmw_post};
use crate::flags::{Flags, CARRY_BIT, spec_set_if, spec_set_sign_and_zero};
use crate::mem::Memory;
use crate::operand::Operand;

verus! {

/// A byte shifted right by one, zero moving into the high bit.
pub open spec fn spec_lsr_val(v: u8) -> u8 {
    v / 2
}

/// The flag word after a logical shift right of `v`: CARRY takes bit 0 of
/// `v`, SIGN and ZERO are derived from the shifted value.
pub open spec fn spec_lsr_flags(bits: u8, v: u8) -> u8 {
    spec_set_sign_and_zero(spec_set_if(bits, CARRY_BIT, v % 2 == 1), spec_lsr_val(v))
}

/// Shifts the operand right by one bit in place.
pub fn exec<M: Memory>(cpu: &mut Mos6502, mem: &mut M, op: Operand) -> (r: Result<(), Error>)
    ensures
        reserved_intact(*old(cpu), *final(cpu)),
        final(mem).mem_size() == old(mem).mem_size(),
        forall|a: int| #[trigger] final(mem).can_read(a) == old(mem).can_read(a),
        forall|a: int| #[trigger] final(mem).can_write(a) == old(mem).can_write(a),
        forall|a: int| #[trigger] final(mem).read_err(a) == old(mem).read_err(a),
        forall|a: int| #[trigger] final(mem).write_err(a) == old(mem).write_err(a),
        forall|a: int, b: int| #[trigger] final(mem).aliases(a, b) == old(mem).aliases(a, b),
        rmw_post(
            op,
            *old(cpu),
            old(mem),
            *final(cpu),
            final(mem),
            r,
            |c: Mos6502, v: u8| (with_flags(c, spec_lsr_flags(c.flags.bits, v)), spec_lsr_val(v)),
        ),
{
    let v = match op.get_u8(cpu, mem) {
        Ok(v) => v,
        Err(e) => {
            return Err(Error::ErrorRetrievingOperand(e));
        },
    };
    let new_val = v / 2;
    cpu.flags.set_if(Flags::CARRY(), v % 2 == 1);
    cpu.flags.set_sign_and_zero(new_val);
    match op.set_u8(cpu, mem, new_val) {
        Ok(()) => Ok(()),
        Err(e) => Err(Error::ErrorRetrievingOperand(e)),
    }
}

} // verus!
