//! SBC: subtract the operand and the borrow (the complement of the carry
//! bit) from the accumulator, in binary or, when the CPU supports it and the
//! BCD flag is set, in binary-coded decimal.

use vstd::prelude::*;
use crate::cpu::Mos6502;
use crate::exec::{Error, reserved_intact, bit7, carry_in, with_a_flags, reads_operand_then};
use crate::exec::adc::{bcd_to_uint, uint_to_bcd, spec_bcd_to_uint, spec_uint_to_bcd};
use crate::flags::{
    Flags, BCD_BIT, CARRY_BIT, OVERFLOW_BIT, spec_intersects, spec_set_if, spec_set_sign_and_zero,
};
use crate::mem::Memory;
use crate::operand::Operand;

verus! {

/// The CPU after subtracting `n` and the borrow from the accumulator.
///
/// In BCD mode both sides are read as decimal byte pairs and the accumulator
/// takes the difference modulo 100 as a decimal byte pair; in binary mode it
/// takes the difference modulo 256. Either way CARRY reports that no borrow
/// out occurred (the raw difference was non-negative), OVERFLOW reports a
/// bit-7 difference between the old accumulator and the new one, and SIGN
/// and ZERO are derived from the new accumulator.
pub open spec fn spec_sbc(cpu: Mos6502, n: u8) -> Mos6502 {
    let a = cpu.registers.a;
    let borrow = 1 - carry_in(cpu);
    if cpu.bcd_enabled && spec_intersects(cpu.flags.bits, BCD_BIT) {
        let diff = spec_bcd_to_uint(a) - spec_bcd_to_uint(n) - borrow;
        let t = spec_uint_to_bcd((diff + 200) % 100);
        let f1 = spec_set_if(cpu.flags.bits, CARRY_BIT, diff >= 0);
        let f2 = spec_set_if(f1, OVERFLOW_BIT, bit7(a as int) != bit7(t as int));
        with_a_flags(cpu, t, spec_set_sign_and_zero(f2, t))
    } else {
        let diff = a - n - borrow;
        let t = ((diff + 512) % 256) as u8;
        let f1 = spec_set_if(cpu.flags.bits, CARRY_BIT, diff >= 0);
        let f2 = spec_set_if(f1, OVERFLOW_BIT, bit7(a as int) != bit7(t as int));
        with_a_flags(cpu, t, spec_set_sign_and_zero(f2, t))
    }
}

/// Subtracts the operand's value and the borrow from the accumulator.
#[verifier::rlimit(40)]
pub fn exec<M: Memory>(cpu: &mut Mos6502, mem: &M, op: Operand) -> (r: Result<(), Error>)
    ensures
        reserved_intact(*old(cpu), *final(cpu)),
        reads_operand_then(op, *old(cpu), mem, *final(cpu), r, |c: Mos6502, n: u8| spec_sbc(c, n)),
{
    let n = match op.get_u8(cpu, mem) {
        Ok(v) => v,
        Err(e) => {
            return Err(Error::ErrorRetrievingOperand(e));
        },
    };
    let a = cpu.registers.a;
    let borrow: u16 = if cpu.flags.carry() {
        0
    } else {
        1
    };

    if cpu.bcd_enabled && cpu.flags.intersects(Flags::BCD()) {
        let lhs: u16 = bcd_to_uint(a) as u16 + 200;
        let rhs: u16 = bcd_to_uint(n) as u16 + borrow;
        let t = uint_to_bcd((lhs - rhs) % 100);
        let no_borrow_out = lhs - rhs >= 200;
        cpu.flags.set_if(Flags::CARRY(), no_borrow_out);
        cpu.flags.set_if(Flags::OVERFLOW(), (a / 128) % 2 != (t / 128) % 2);
        cpu.registers.a = t;
        cpu.flags.set_sign_and_zero(t);
    } else {
        let lhs: u16 = a as u16 + 512;
        let rhs: u16 = n as u16 + borrow;
        let t = ((lhs - rhs) % 256) as u8;
        let no_borrow_out = lhs - rhs >= 512;
        cpu.flags.set_if(Flags::CARRY(), no_borrow_out);
        cpu.flags.set_if(Flags::OVERFLOW(), (a / 128) % 2 != (t / 128) % 2);
        cpu.registers.a = t;
        cpu.flags.set_sign_and_zero(t);
    }
    Ok(())
}

} // verus!
