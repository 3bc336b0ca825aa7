//! LDA / LDX / LDY: load the operand into a register and derive SIGN and
//! ZERO from the loaded value.

use vstd::prelude::*;
use crate::cpu::{Mos6502, RegisterName, spec_reg_set};
use crate::exec::{Error, reserved_intact, with_flags, reads_operand_then};
use crate::flags::{SIGN_BIT, ZERO_BIT, spec_intersects, spec_set_sign_and_zero};
use crate::mem::Memory;
use crate::operand::Operand;

verus! {

/// The CPU after loading `n` into the named register: the register takes the
/// value and SIGN and ZERO are derived from it.
pub open spec fn spec_load(cpu: Mos6502, reg: RegisterName, n: u8) -> Mos6502 {
    spec_reg_set(reg, with_flags(cpu, spec_set_sign_and_zero(cpu.flags.bits, n)), n)
}

/// Loads the operand's value into the named register.
pub fn exec<M: Memory>(cpu: &mut Mos6502, mem: &M, reg: RegisterName, op: Operand) -> (r: Result<
    (),
    Error,
>)
    ensures
        reserved_intact(*old(cpu), *final(cpu)),
        reads_operand_then(
            op,
            *old(cpu),
            mem,
            *final(cpu),
            r,
            |c: Mos6502, n: u8| spec_load(c, reg, n),
        ),
{
    let n = match op.get_u8(cpu, mem) {
        Ok(v) => v,
        Err(e) => {
            return Err(Error::ErrorRetrievingOperand(e));
        },
    };
    cpu.flags.set_sign_and_zero(n);
    reg.set(cpu, n);
    Ok(())
}


/// A register-loading operation derives its flags from the loaded value
/// alone: afterwards ZERO is set exactly when the value is zero, SIGN
/// exactly when its bit 7 is one, and the register holds the value.
pub proof fn lemma_load_sets_sign_and_zero(cpu: Mos6502, reg: RegisterName, n: u8)
    requires
        reg is A || reg is X || reg is Y,
    ensures
        spec_intersects(spec_load(cpu, reg, n).flags.bits, ZERO_BIT) <==> n == 0,
        spec_intersects(spec_load(cpu, reg, n).flags.bits, SIGN_BIT) <==> n >= 128,
        crate::cpu::spec_reg_get(reg, spec_load(cpu, reg, n)) == n,
{
    crate::flags::lemma_sign_and_zero_exact(cpu.flags.bits, n);
}

} // verus!
