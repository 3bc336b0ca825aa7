//! Branches: add a signed displacement to the program counter when the
//! branch's flag predicate holds. BCS/BEQ/BMI/BVS branch when their flag is
//! set; BCC/BNE/BPL/BVC when it is clear.

use vstd::prelude::*;
use crate::cpu::Mos6502;
use crate::exec::{Error, reserved_intact, with_pc};
use crate::flags::{Flags, spec_intersects};
use crate::pc::spec_advance;

verus! {

/// The CPU after a branch on `taken`: the program counter is advanced by the
/// signed displacement when the predicate held, else nothing changes.
pub open spec fn spec_branch(cpu: Mos6502, offset: i8, taken: bool) -> Mos6502 {
    if taken {
        with_pc(cpu, spec_advance(cpu.pc.value, offset as i16))
    } else {
        cpu
    }
}

/// Advances the program counter by `offset` when every flag of
/// `flag_selector` is set.
pub fn if_set(cpu: &mut Mos6502, offset: i8, flag_selector: Flags) -> (r: Result<(), Error>)
    ensures
        reserved_intact(*old(cpu), *final(cpu)),
        r == Ok::<(), Error>(()),
        *final(cpu) == spec_branch(
            *old(cpu),
            offset,
            spec_intersects(old(cpu).flags.bits, flag_selector.bits),
        ),
{
    if cpu.flags.intersects(flag_selector) {
        cpu.pc.advance(offset as i16);
    }
    Ok(())
}

/// Advances the program counter by `offset` unless every flag of
/// `flag_selector` is set.
pub fn if_clear(cpu: &mut Mos6502, offset: i8, flag_selector: Flags) -> (r: Result<(), Error>)
    ensures
        reserved_intact(*old(cpu), *final(cpu)),
        r == Ok::<(), Error>(()),
        *final(cpu) == spec_branch(
            *old(cpu),
            offset,
            !spec_intersects(old(cpu).flags.bits, flag_selector.bits),
        ),
{
    if !cpu.flags.intersects(flag_selector) {
        cpu.pc.advance(offset as i16);
    }
    Ok(())
}

} // verus!
