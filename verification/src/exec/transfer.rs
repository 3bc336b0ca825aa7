//! TAX / TAY / TXA / TYA / TSX / TXS: copy one register to another. The
//! destination's SIGN and ZERO are derived from the copied value, except
//! that a transfer into the stack pointer (TXS) does not affect flags.

use vstd::prelude::*;
use crate::cpu::{Mos6502, RegisterName, spec_reg_get, spec_reg_set};
use crate::exec::{Error, reserved_intact, with_flags};
use crate::flags::spec_set_sign_and_zero;

verus! {

/// The CPU after copying register `from` into register `to`.
pub open spec fn spec_transfer(cpu: Mos6502, from: RegisterName, to: RegisterName) -> Mos6502 {
    let v = spec_reg_get(from, cpu);
    if to is S {
        spec_reg_set(to, cpu, v)
    } else {
        spec_reg_set(to, with_flags(cpu, spec_set_sign_and_zero(cpu.flags.bits, v)), v)
    }
}

/// Copies register `from` into register `to`.
pub fn exec(cpu: &mut Mos6502, from: RegisterName, to: RegisterName) -> (r: Result<(), Error>)
    ensures
        reserved_intact(*old(cpu), *final(cpu)),
        r == Ok::<(), Error>(()),
        *final(cpu) == spec_transfer(*old(cpu), from, to),
{
    let v = from.get(cpu);
    match to {
        RegisterName::S => {},
        _ => {
            cpu.flags.set_sign_and_zero(v);
        },
    }
    to.set(cpu, v);
    Ok(())
}

} // verus!
