//! ROR: rotate the operand right by one bit through the carry. The old CARRY
//! moves into bit 7, CARRY receives the bit rotated out (bit 0), the rotated
//! value is written back through the operand, and SIGN and ZERO are derived
//! from it.

use vstd::prelude::*;
use crate::cpu::Mos6502;
use crate::exec::{Error, reserved_intact, carry_in, with_flags, rmw_post};
use crate::flags::{Flags, CARRY_BIT, spec_set_if, spec_set_sign_and_zero};
use crate::mem::Memory;
use crate::operand::Operand;

verus! {

/// A byte rotated right by one through the carry bit `c`.
pub open spec fn spec_ror_val(v: u8, c: int) -> u8 {
    (v / 2 + c * 128) as u8
}

/// The flag word after a rotate right of `v` with carry-in `c`: CARRY takes
/// bit 0 of `v`, SIGN and ZERO are derived from the rotated value.
pub open spec fn spec_ror_flags(bits: u8, v: u8, c: int) -> u8 {
    spec_set_sign_and_zero(spec_set_if(bits, CARRY_BIT, v % 2 == 1), spec_ror_val(v, c))
}

/// Rotates the operand right by one bit through the carry, in place.
pub fn exec<M: Memory>(cpu: &mut Mos6502, mem: &mut M, op: Operand) -> (r: Result<(), Error>)
    ensures
        reserved_intact(*old(cpu), *final(cpu)),
        final(mem).mem_size() == old(mem).mem_size(),
        forall|a: int| #[trigger] final(mem).can_read(a) == old(mem).can_read(a),
        forall|a: int| #[trigger] final(mem).can_write(a) == old(mem).can_write(a),
        forall|a: int| #[trigger] final(mem).read_err(a) == old(mem).read_err(a),
        forall|a: int| #[trigger] final(mem).write_err(a) == old(mem).write_err(a),
        forall|a: int, b: int| #[trigger] final(mem).aliases(a, b) == old(mem).aliases(a, b),
        rmw_post(
            op,
            *old(cpu),
            old(mem),
            *final(cpu),
            final(mem),
            r,
            |c: Mos6502, v: u8| (
                with_flags(c, spec_ror_flags(c.flags.bits, v, carry_in(c))),
                spec_ror_val(v, carry_in(c)),
            ),
        ),
{
    let v = match op.get_u8(cpu, mem) {
        Ok(v) => v,
        Err(e) => {
            return Err(Error::ErrorRetrievingOperand(e));
        },
    };
    let c: u8 = if cpu.flags.carry() {
        1
    } else {
        0
    };
    let new_val = v / 2 + c * 128;
    cpu.flags.set_if(Flags::CARRY(), v % 2 == 1);
    cpu.flags.set_sign_and_zero(new_val);
    match op.set_u8(cpu, mem, new_val) {
        Ok(()) => Ok(()),
        Err(e) => Err(Error::ErrorRetrievingOperand(e)),
    }
}

} // verus!
