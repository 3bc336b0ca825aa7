//! DEC / DEX / DEY: decrement a memory operand or a register by one,
//! wrapping modulo 256, and derive SIGN and ZERO from the new value.

use vstd::prelude::*;
use crate::cpu::{Mos6502, RegisterName, spec_reg_get, spec_reg_set};
use crate::exec::{Error, reserved_intact, with_flags, rmw_post};
use crate::flags::spec_set_sign_and_zero;
use crate::mem::Memory;
use crate::operand::Operand;

verus! {

/// A byte decremented by one, wrapping modulo 256.
pub open spec fn spec_dec_val(v: u8) -> u8 {
    vstd::wrapping::u8_specs::wrapping_sub(v, 1)
}

/// Decrements the named register, deriving SIGN and ZERO from the new value.
pub fn reg(cpu: &mut Mos6502, name: RegisterName) -> (r: Result<(), Error>)
    ensures
        reserved_intact(*old(cpu), *final(cpu)),
        r == Ok::<(), Error>(()),
        *final(cpu) == ({
            let nv = spec_dec_val(spec_reg_get(name, *old(cpu)));
            spec_reg_set(
                name,
                with_flags(*old(cpu), spec_set_sign_and_zero(old(cpu).flags.bits, nv)),
                nv,
            )
        }),
{
    let new_val = name.get(cpu).wrapping_sub(1);
    cpu.flags.set_sign_and_zero(new_val);
    name.set(cpu, new_val);
    Ok(())
}

/// Decrements the operand in place, deriving SIGN and ZERO from the new
/// value.
pub fn mem<M: Memory>(cpu: &mut Mos6502, bus: &mut M, op: Operand) -> (r: Result<(), Error>)
    ensures
        reserved_intact(*old(cpu), *final(cpu)),
        final(bus).mem_size() == old(bus).mem_size(),
        forall|a: int| #[trigger] final(bus).can_read(a) == old(bus).can_read(a),
        forall|a: int| #[trigger] final(bus).can_write(a) == old(bus).can_write(a),
        forall|a: int| #[trigger] final(bus).read_err(a) == old(bus).read_err(a),
        forall|a: int| #[trigger] final(bus).write_err(a) == old(bus).write_err(a),
        forall|a: int, b: int| #[trigger] final(bus).aliases(a, b) == old(bus).aliases(a, b),
        rmw_post(
            op,
            *old(cpu),
            old(bus),
            *final(cpu),
            final(bus),
            r,
            |c: Mos6502, v: u8| (
                with_flags(c, spec_set_sign_and_zero(c.flags.bits, spec_dec_val(v))),
                spec_dec_val(v),
            ),
        ),
{
    let v = match op.get_u8(cpu, bus) {
        Ok(v) => v,
        Err(e) => {
            return Err(Error::ErrorRetrievingOperand(e));
        },
    };
    let new_val = v.wrapping_sub(1);
    cpu.flags.set_sign_and_zero(new_val);
    match op.set_u8(cpu, bus, new_val) {
        Ok(()) => Ok(()),
        Err(e) => Err(Error::ErrorRetrievingOperand(e)),
    }
}

} // verus!
