//! ORA: bitwise-or the operand into the accumulator.

use vstd::prelude::*;
use crate::cpu::Mos6502;
use crate::exec::{Error, reserved_intact, with_a_flags, reads_operand_then};
use crate::flags::spec_set_sign_and_zero;
use crate::mem::Memory;
use crate::operand::Operand;

verus! {

/// The CPU after or-ing `n` into the accumulator: the accumulator takes the
/// bitwise or, and SIGN and ZERO are derived from it.
pub open spec fn spec_ora(cpu: Mos6502, n: u8) -> Mos6502 {
    let v = cpu.registers.a | n;
    with_a_flags(cpu, v, spec_set_sign_and_zero(cpu.flags.bits, v))
}

/// Bitwise-ors the operand's value into the accumulator.
pub fn exec<M: Memory>(cpu: &mut Mos6502, mem: &M, op: Operand) -> (r: Result<(), Error>)
    ensures
        reserved_intact(*old(cpu), *final(cpu)),
        reads_operand_then(op, *old(cpu), mem, *final(cpu), r, |c: Mos6502, n: u8| spec_ora(c, n)),
{
    let n = match op.get_u8(cpu, mem) {
        Ok(v) => v,
        Err(e) => {
            return Err(Error::ErrorRetrievingOperand(e));
        },
    };
    let v = cpu.registers.a | n;
    cpu.flags.set_sign_and_zero(v);
    cpu.registers.a = v;
    Ok(())
}

} // verus!
