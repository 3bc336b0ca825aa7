//! CMP / CPX / CPY: compare a register against the operand by signed
//! subtraction. SIGN, CARRY and ZERO are first cleared; SIGN is set on a
//! negative difference, CARRY on a non-negative one, and ZERO on equality.

use vstd::prelude::*;
use crate::cpu::{Mos6502, RegisterName, spec_reg_get};
use crate::exec::{Error, reserved_intact, with_flags, reads_operand_then};
use crate::flags::{Flags, CARRY_BIT, SIGN_BIT, ZERO_BIT, spec_clear, spec_set};
use crate::mem::Memory;
use crate::operand::Operand;

verus! {

/// The CPU after comparing the named register's value against `n`.
pub open spec fn spec_compare(cpu: Mos6502, reg: RegisterName, n: u8) -> Mos6502 {
    let rv = spec_reg_get(reg, cpu);
    let f0 = spec_clear(cpu.flags.bits, SIGN_BIT | CARRY_BIT | ZERO_BIT);
    let f = if rv < n {
        spec_set(f0, SIGN_BIT)
    } else if rv == n {
        spec_set(spec_set(f0, CARRY_BIT), ZERO_BIT)
    } else {
        spec_set(f0, CARRY_BIT)
    };
    with_flags(cpu, f)
}

/// Compares the named register against the operand's value.
pub fn exec<M: Memory>(cpu: &mut Mos6502, mem: &M, reg: RegisterName, op: Operand) -> (r: Result<
    (),
    Error,
>)
    ensures
        reserved_intact(*old(cpu), *final(cpu)),
        reads_operand_then(
            op,
            *old(cpu),
            mem,
            *final(cpu),
            r,
            |c: Mos6502, n: u8| spec_compare(c, reg, n),
        ),
{
    let n = match op.get_u8(cpu, mem) {
        Ok(v) => v,
        Err(e) => {
            return Err(Error::ErrorRetrievingOperand(e));
        },
    };
    let rv = reg.get(cpu);
    cpu.flags.clear(Flags::SIGN().union(Flags::CARRY()).union(Flags::ZERO()));
    if rv < n {
        cpu.flags.set(Flags::SIGN());
    } else {
        cpu.flags.set(Flags::CARRY());
        if rv == n {
            cpu.flags.set(Flags::ZERO());
        }
    }
    Ok(())
}

} // verus!
