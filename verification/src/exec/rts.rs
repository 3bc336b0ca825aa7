//! RTS: pull the return address (low byte, then high byte) and resume one
//! past it.

use vstd::prelude::*;
use crate::cpu::{Mos6502, spec_stack_addr, spec_pull_sp, with_sp};
use crate::exec::{Error, reserved_intact, with_pc};
use crate::mem::{Memory, le16};

verus! {

/// The effect of RTS: the program counter is pulled, low byte first, and set
/// one past the pulled address (wrapping). A denied read leaves the stack
/// pointer where the pulls put it.
pub open spec fn exec_post<M: Memory>(
    pre: Mos6502,
    mem: &M,
    post: Mos6502,
    r: Result<(), Error>,
) -> bool {
    let sp1 = spec_pull_sp(pre.registers.sp);
    let sp2 = spec_pull_sp(sp1);
    let a1 = spec_stack_addr(sp1);
    let a2 = spec_stack_addr(sp2);
    &&& !mem.can_read(a1) ==> {
        &&& r == Err::<(), Error>(Error::ErrorReadingMemory(mem.read_err(a1)))
        &&& post == with_sp(pre, sp1)
    }
    &&& mem.can_read(a1) && !mem.can_read(a2) ==> {
        &&& r == Err::<(), Error>(Error::ErrorReadingMemory(mem.read_err(a2)))
        &&& post == with_sp(pre, sp2)
    }
    &&& mem.can_read(a1) && mem.can_read(a2) ==> {
        &&& r == Ok::<(), Error>(())
        &&& post == with_pc(
            with_sp(pre, sp2),
            vstd::wrapping::u16_specs::wrapping_add(le16(mem.byte_at(a1), mem.byte_at(a2)), 1),
        )
    }
}

/// Pulls the program counter and resumes one past it.
pub fn exec<M: Memory>(cpu: &mut Mos6502, mem: &M) -> (r: Result<(), Error>)
    ensures
        reserved_intact(*old(cpu), *final(cpu)),
        exec_post(*old(cpu), mem, *final(cpu), r),
{
    let lo = match cpu.pull(mem) {
        Ok(v) => v,
        Err(e) => {
            return Err(Error::ErrorReadingMemory(e));
        },
    };
    let hi = match cpu.pull(mem) {
        Ok(v) => v,
        Err(e) => {
            return Err(Error::ErrorReadingMemory(e));
        },
    };
    let addr = lo as u16 + hi as u16 * 256;
    cpu.pc.set(addr.wrapping_add(1));
    Ok(())
}

} // verus!
