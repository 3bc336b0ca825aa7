//! JSR: push the address of the instruction's last byte (the current program
//! counter minus one), high byte first, then jump to the target.

use vstd::prelude::*;
use crate::cpu::{Mos6502, spec_stack_addr, spec_push_sp, with_sp};
use crate::exec::{Error, reserved_intact, with_pc};
use crate::mem::Memory;

verus! {

/// The return address JSR records: the program counter minus one, wrapping.
pub open spec fn spec_jsr_ret(pc: u16) -> u16 {
    vstd::wrapping::u16_specs::wrapping_sub(pc, 1)
}

/// The effect of JSR: the return address is pushed (high byte, then low
/// byte, each landing on every alias of its stack address) and the program
/// counter takes the target. A denied push leaves partial mutation in place:
/// after the first push the stack pointer and the pushed high byte stay.
pub open spec fn exec_post<M: Memory>(
    addr: u16,
    pre: Mos6502,
    pmem: &M,
    post: Mos6502,
    fmem: &M,
    r: Result<(), Error>,
) -> bool {
    let ret = spec_jsr_ret(pre.pc.value);
    let sp0 = pre.registers.sp;
    let a1 = spec_stack_addr(sp0);
    let sp1 = spec_push_sp(sp0);
    let a2 = spec_stack_addr(sp1);
    &&& !pmem.can_write(a1) ==> {
        &&& r == Err::<(), Error>(Error::ErrorReadingMemory(pmem.write_err(a1)))
        &&& post == pre
        &&& forall|a: int| #[trigger] fmem.byte_at(a) == pmem.byte_at(a)
    }
    &&& pmem.can_write(a1) && !pmem.can_write(a2) ==> {
        &&& r == Err::<(), Error>(Error::ErrorReadingMemory(pmem.write_err(a2)))
        &&& post == with_sp(pre, sp1)
        &&& fmem.byte_at(a1) == (ret / 256) as u8
        &&& forall|a: int| #[trigger] fmem.byte_at(a) == (
            if pmem.aliases(a1, a) {
                (ret / 256) as u8
            } else {
                pmem.byte_at(a)
            })
    }
    &&& pmem.can_write(a1) && pmem.can_write(a2) ==> {
        &&& r == Ok::<(), Error>(())
        &&& post == with_pc(with_sp(pre, spec_push_sp(sp1)), addr)
        &&& fmem.byte_at(a2) == (ret % 256) as u8
        &&& !pmem.aliases(a2, a1) ==> fmem.byte_at(a1) == (ret / 256) as u8
        &&& forall|a: int| #[trigger] fmem.byte_at(a) == (
            if pmem.aliases(a2, a) {
                (ret % 256) as u8
            } else if pmem.aliases(a1, a) {
                (ret / 256) as u8
            } else {
                pmem.byte_at(a)
            })
    }
}

/// Pushes the return address and jumps to `addr`.
pub fn exec<M: Memory>(cpu: &mut Mos6502, mem: &mut M, addr: u16) -> (r: Result<(), Error>)
    ensures
        reserved_intact(*old(cpu), *final(cpu)),
        final(mem).mem_size() == old(mem).mem_size(),
        forall|a: int| #[trigger] final(mem).can_read(a) == old(mem).can_read(a),
        forall|a: int| #[trigger] final(mem).can_write(a) == old(mem).can_write(a),
        forall|a: int| #[trigger] final(mem).read_err(a) == old(mem).read_err(a),
        forall|a: int| #[trigger] final(mem).write_err(a) == old(mem).write_err(a),
        forall|a: int, b: int| #[trigger] final(mem).aliases(a, b) == old(mem).aliases(a, b),
        exec_post(addr, *old(cpu), old(mem), *final(cpu), final(mem), r),
{
    let ret = cpu.pc.get().wrapping_sub(1);
    match cpu.push(mem, (ret / 256) as u8) {
        Ok(()) => {},
        Err(e) => {
            return Err(Error::ErrorReadingMemory(e));
        },
    }
    match cpu.push(mem, (ret % 256) as u8) {
        Ok(()) => {},
        Err(e) => {
            return Err(Error::ErrorReadingMemory(e));
        },
    }
    cpu.pc.set(addr);
    Ok(())
}

} // verus!
