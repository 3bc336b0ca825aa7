//! PHA / PHP: push a register on to the stack.

use vstd::prelude::*;
use crate::cpu::{Mos6502, RegisterName, spec_reg_get, spec_stack_addr, spec_push_sp, with_sp};
use crate::exec::{Error, reserved_intact};
use crate::mem::Memory;

verus! {

/// The effect of a push: the named register's value lands at the stack
/// address of the old stack pointer, which is then decremented. On a denied
/// write nothing changes.
pub open spec fn exec_post<M: Memory>(
    reg: RegisterName,
    pre: Mos6502,
    pmem: &M,
    post: Mos6502,
    fmem: &M,
    r: Result<(), Error>,
) -> bool {
    let addr = spec_stack_addr(pre.registers.sp);
    &&& pmem.can_write(addr) ==> {
        &&& r == Ok::<(), Error>(())
        &&& post == with_sp(pre, spec_push_sp(pre.registers.sp))
        &&& fmem.byte_at(addr) == spec_reg_get(reg, pre)
        &&& forall|a: int| #[trigger] fmem.byte_at(a) == (
            if pmem.aliases(addr, a) {
                spec_reg_get(reg, pre)
            } else {
                pmem.byte_at(a)
            })
    }
    &&& !pmem.can_write(addr) ==> {
        &&& r == Err::<(), Error>(Error::ErrorReadingMemory(pmem.write_err(addr)))
        &&& post == pre
        &&& forall|a: int| #[trigger] fmem.byte_at(a) == pmem.byte_at(a)
    }
}

/// Pushes the named register's value on to the stack.
pub fn exec<M: Memory>(cpu: &mut Mos6502, mem: &mut M, reg: RegisterName) -> (r: Result<(), Error>)
    ensures
        reserved_intact(*old(cpu), *final(cpu)),
        final(mem).mem_size() == old(mem).mem_size(),
        forall|a: int| #[trigger] final(mem).can_read(a) == old(mem).can_read(a),
        forall|a: int| #[trigger] final(mem).can_write(a) == old(mem).can_write(a),
        forall|a: int| #[trigger] final(mem).read_err(a) == old(mem).read_err(a),
        forall|a: int| #[trigger] final(mem).write_err(a) == old(mem).write_err(a),
        forall|a: int, b: int| #[trigger] final(mem).aliases(a, b) == old(mem).aliases(a, b),
        exec_post(reg, *old(cpu), old(mem), *final(cpu), final(mem), r),
{
    let v = reg.get(cpu);
    match cpu.push(mem, v) {
        Ok(()) => Ok(()),
        Err(e) => Err(Error::ErrorReadingMemory(e)),
    }
}

} // verus!
