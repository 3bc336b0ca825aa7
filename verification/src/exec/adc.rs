//! ADC: add the operand and the carry bit to the accumulator, in binary or,
//! when the CPU supports it and the BCD flag is set, in binary-coded decimal.

use vstd::prelude::*;
use crate::cpu::Mos6502;
use crate::exec::{Error, reserved_intact, bit7, carry_in, with_a_flags, reads_operand_then};
use crate::flags::{
    Flags, BCD_BIT, CARRY_BIT, OVERFLOW_BIT, spec_intersects, spec_set_if, spec_set_sign_and_zero,
};
use crate::mem::Memory;
use crate::operand::Operand;

verus! {

/// The plain integer a binary-coded-decimal byte stands for: ten times the
/// high nibble plus the low nibble.
pub open spec fn spec_bcd_to_uint(bcd: u8) -> int {
    (bcd / 16) * 10 + (bcd % 16)
}

/// The binary-coded-decimal byte for a plain integer 0..=99: the tens digit
/// in the high nibble, the ones digit in the low nibble.
pub open spec fn spec_uint_to_bcd(v: int) -> u8 {
    ((v / 10) * 16 + v % 10) as u8
}

/// Reads a binary-coded-decimal byte as the plain integer it stands for.
pub fn bcd_to_uint(bcd: u8) -> (r: u8)
    ensures
        r == spec_bcd_to_uint(bcd),
{
    ((bcd / 16) * 10) + (bcd % 16)
}

/// Writes a plain integer as a binary-coded-decimal byte. A value over 99
/// wraps past the two digits a byte can carry (as the decimal adder does on
/// a carry-out).
pub fn uint_to_bcd(v: u16) -> (r: u8)
    requires
        v <= 199,
    ensures
        r == spec_uint_to_bcd(v as int % 100),
{
    let w = if v > 99 {
        v - 100
    } else {
        v
    };
    ((w / 10) * 16) as u8 + (w % 10) as u8
}

/// The CPU after adding `n` (and the carry) to the accumulator.
///
/// In BCD mode (the CPU has BCD enabled and the BCD flag is set) both
/// addends are read as decimal byte pairs, CARRY reports a sum over 99, and
/// the accumulator takes the sum modulo 100 as a decimal byte pair. In
/// binary mode CARRY reports a sum over 255 and the accumulator takes the
/// low 8 bits. Either way OVERFLOW reports a bit-7 difference between the
/// old accumulator and the raw sum, and SIGN and ZERO are derived from the
/// new accumulator.
pub open spec fn spec_adc(cpu: Mos6502, n: u8) -> Mos6502 {
    let a = cpu.registers.a;
    let c = carry_in(cpu);
    if cpu.bcd_enabled && spec_intersects(cpu.flags.bits, BCD_BIT) {
        let sum = spec_bcd_to_uint(n) + spec_bcd_to_uint(a) + c;
        let t = spec_uint_to_bcd(sum % 100);
        let f1 = spec_set_if(cpu.flags.bits, CARRY_BIT, sum > 99);
        let f2 = spec_set_if(f1, OVERFLOW_BIT, bit7(a as int) != bit7(t as int));
        with_a_flags(cpu, t, spec_set_sign_and_zero(f2, t))
    } else {
        let sum = n + a + c;
        let t = (sum % 256) as u8;
        let f1 = spec_set_if(cpu.flags.bits, CARRY_BIT, sum > 255);
        let f2 = spec_set_if(f1, OVERFLOW_BIT, bit7(a as int) != bit7(sum));
        with_a_flags(cpu, t, spec_set_sign_and_zero(f2, t))
    }
}

/// Adds the operand's value and the carry bit to the accumulator.
pub fn exec<M: Memory>(cpu: &mut Mos6502, mem: &M, op: Operand) -> (r: Result<(), Error>)
    ensures
        reserved_intact(*old(cpu), *final(cpu)),
        reads_operand_then(op, *old(cpu), mem, *final(cpu), r, |c: Mos6502, n: u8| spec_adc(c, n)),
{
    let n = match op.get_u8(cpu, mem) {
        Ok(v) => v,
        Err(e) => {
            return Err(Error::ErrorRetrievingOperand(e));
        },
    };
    let a = cpu.registers.a;
    let c: u16 = if cpu.flags.carry() {
        1
    } else {
        0
    };

    if cpu.bcd_enabled && cpu.flags.intersects(Flags::BCD()) {
        let sum: u16 = bcd_to_uint(n) as u16 + bcd_to_uint(a) as u16 + c;
        let t = uint_to_bcd(sum % 100);
        cpu.flags.set_if(Flags::CARRY(), sum > 99);
        cpu.flags.set_if(Flags::OVERFLOW(), (a / 128) % 2 != (t / 128) % 2);
        cpu.registers.a = t;
        cpu.flags.set_sign_and_zero(t);
    } else {
        let sum: u16 = n as u16 + a as u16 + c;
        let t = (sum % 256) as u8;
        cpu.flags.set_if(Flags::CARRY(), sum > 255);
        cpu.flags.set_if(Flags::OVERFLOW(), (a as u16 / 128) % 2 != (sum / 128) % 2);
        cpu.registers.a = t;
        cpu.flags.set_sign_and_zero(t);
    }
    Ok(())
}

} // verus!
