//! RTI: pull the flag word (RESERVED re-asserted), then the program counter,
//! low byte first.

use vstd::prelude::*;
use crate::cpu::{Mos6502, spec_stack_addr, spec_pull_sp, with_sp};
use crate::exec::{Error, reserved_intact, with_flags, with_pc};
use crate::flags::{Flags, spec_replace};
use crate::mem::{Memory, le16};

verus! {

/// The effect of RTI: P is pulled (through the canonical setter), then the
/// program counter, low byte first. Each denied read leaves the mutation
/// made so far in place.
pub open spec fn exec_post<M: Memory>(
    pre: Mos6502,
    mem: &M,
    post: Mos6502,
    r: Result<(), Error>,
) -> bool {
    let sp1 = spec_pull_sp(pre.registers.sp);
    let sp2 = spec_pull_sp(sp1);
    let sp3 = spec_pull_sp(sp2);
    let a1 = spec_stack_addr(sp1);
    let a2 = spec_stack_addr(sp2);
    let a3 = spec_stack_addr(sp3);
    let flagged = with_flags(with_sp(pre, sp1), spec_replace(mem.byte_at(a1)));
    &&& !mem.can_read(a1) ==> {
        &&& r == Err::<(), Error>(Error::ErrorReadingMemory(mem.read_err(a1)))
        &&& post == with_sp(pre, sp1)
    }
    &&& mem.can_read(a1) && !mem.can_read(a2) ==> {
        &&& r == Err::<(), Error>(Error::ErrorReadingMemory(mem.read_err(a2)))
        &&& post == with_sp(flagged, sp2)
    }
    &&& mem.can_read(a1) && mem.can_read(a2) && !mem.can_read(a3) ==> {
        &&& r == Err::<(), Error>(Error::ErrorReadingMemory(mem.read_err(a3)))
        &&& post == with_sp(flagged, sp3)
    }
    &&& mem.can_read(a1) && mem.can_read(a2) && mem.can_read(a3) ==> {
        &&& r == Ok::<(), Error>(())
        &&& post == with_pc(with_sp(flagged, sp3), le16(mem.byte_at(a2), mem.byte_at(a3)))
    }
}

/// Pulls P and the program counter off the stack.
pub fn exec<M: Memory>(cpu: &mut Mos6502, mem: &M) -> (r: Result<(), Error>)
    ensures
        reserved_intact(*old(cpu), *final(cpu)),
        exec_post(*old(cpu), mem, *final(cpu), r),
{
    let p = match cpu.pull(mem) {
        Ok(v) => v,
        Err(e) => {
            return Err(Error::ErrorReadingMemory(e));
        },
    };
    cpu.flags.replace(Flags::new(p));
    let lo = match cpu.pull(mem) {
        Ok(v) => v,
        Err(e) => {
            return Err(Error::ErrorReadingMemory(e));
        },
    };
    let hi = match cpu.pull(mem) {
        Ok(v) => v,
        Err(e) => {
            return Err(Error::ErrorReadingMemory(e));
        },
    };
    cpu.pc.set(lo as u16 + hi as u16 * 256);
    Ok(())
}

} // verus!
