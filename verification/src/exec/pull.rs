//! PLA / PLP: pull a value from the stack into a register. A pull into the
//! accumulator derives SIGN and ZERO from the value; a pull into P replaces
//! the whole flag word through the canonical setter (RESERVED re-asserted).

use vstd::prelude::*;
use crate::cpu::{
    Mos6502, RegisterName, spec_reg_set, spec_stack_addr, spec_pull_sp, with_sp,
};
use crate::exec::{Error, reserved_intact, with_a_flags};
use crate::flags::spec_set_sign_and_zero;
use crate::mem::Memory;

verus! {

/// The pulled value `v` landing in the named register: into A it also
/// derives SIGN and ZERO; into any other register it is a plain register
/// write (a write of P re-asserts RESERVED).
pub open spec fn spec_pull_into(cpu: Mos6502, reg: RegisterName, v: u8) -> Mos6502 {
    if reg is A {
        with_a_flags(cpu, v, spec_set_sign_and_zero(cpu.flags.bits, v))
    } else {
        spec_reg_set(reg, cpu, v)
    }
}

/// The effect of a pull: the stack pointer is advanced, then the byte at its
/// stack address lands in the named register. The stack pointer is advanced
/// even when the read is denied (partial mutation is left in place).
pub open spec fn exec_post<M: Memory>(
    reg: RegisterName,
    pre: Mos6502,
    mem: &M,
    post: Mos6502,
    r: Result<(), Error>,
) -> bool {
    let sp1 = spec_pull_sp(pre.registers.sp);
    let addr = spec_stack_addr(sp1);
    &&& mem.can_read(addr) ==> {
        &&& r == Ok::<(), Error>(())
        &&& post == spec_pull_into(with_sp(pre, sp1), reg, mem.byte_at(addr))
    }
    &&& !mem.can_read(addr) ==> {
        &&& r == Err::<(), Error>(Error::ErrorReadingMemory(mem.read_err(addr)))
        &&& post == with_sp(pre, sp1)
    }
}

/// Pulls one byte off the stack into the named register.
pub fn exec<M: Memory>(cpu: &mut Mos6502, mem: &M, reg: RegisterName) -> (r: Result<(), Error>)
    ensures
        reserved_intact(*old(cpu), *final(cpu)),
        exec_post(reg, *old(cpu), mem, *final(cpu), r),
{
    let v = match cpu.pull(mem) {
        Ok(v) => v,
        Err(e) => {
            return Err(Error::ErrorReadingMemory(e));
        },
    };
    match reg {
        RegisterName::A => {
            cpu.registers.a = v;
            cpu.flags.set_sign_and_zero(v);
        },
        _ => {
            reg.set(cpu, v);
        },
    }
    Ok(())
}

} // verus!
