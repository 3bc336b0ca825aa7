//! BIT: test the accumulator against a memory operand. SIGN and OVERFLOW
//! take bits 7 and 6 of the operand; ZERO reports whether the accumulator
//! masked by the operand is zero.

use vstd::prelude::*;
use crate::cpu::Mos6502;
use crate::exec::{Error, reserved_intact, with_flags, reads_operand_then};
use crate::flags::{Flags, OVERFLOW_BIT, SIGN_BIT, ZERO_BIT, spec_set_if};
use crate::mem::Memory;
use crate::operand::Operand;

verus! {

/// The CPU after testing the accumulator against `m`: SIGN is bit 7 of `m`,
/// OVERFLOW is bit 6 of `m`, and ZERO is set exactly when `a & m` is zero.
/// The accumulator itself is unchanged.
pub open spec fn spec_bit(cpu: Mos6502, m: u8) -> Mos6502 {
    let f1 = spec_set_if(cpu.flags.bits, SIGN_BIT, m & 0x80 != 0);
    let f2 = spec_set_if(f1, OVERFLOW_BIT, m & 0x40 != 0);
    let f3 = spec_set_if(f2, ZERO_BIT, cpu.registers.a & m == 0);
    with_flags(cpu, f3)
}

/// Tests the accumulator against the operand's value.
pub fn exec<M: Memory>(cpu: &mut Mos6502, mem: &M, op: Operand) -> (r: Result<(), Error>)
    ensures
        reserved_intact(*old(cpu), *final(cpu)),
        reads_operand_then(op, *old(cpu), mem, *final(cpu), r, |c: Mos6502, m: u8| spec_bit(c, m)),
{
    let m = match op.get_u8(cpu, mem) {
        Ok(v) => v,
        Err(e) => {
            return Err(Error::ErrorRetrievingOperand(e));
        },
    };
    cpu.flags.set_if(Flags::SIGN(), m & 0x80 != 0);
    cpu.flags.set_if(Flags::OVERFLOW(), m & 0x40 != 0);
    cpu.flags.set_if(Flags::ZERO(), cpu.registers.a & m == 0);
    Ok(())
}

} // verus!
