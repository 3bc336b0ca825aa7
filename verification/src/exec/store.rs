//! STA / STX / STY: store a register through the operand. Flags are not
//! affected.

use vstd::prelude::*;
use crate::cpu::{Mos6502, RegisterName, spec_reg_get};
use crate::exec::{Error, reserved_intact, with_a};
use crate::mem::Memory;
use crate::operand::{self, Operand};

verus! {

/// The effect of a store: the named register's value lands where the operand
/// points (memory for `Absolute` and `Indexed`, the A register for
/// `Accumulator`); every other operand is read-only and fails with
/// `ReadOnlyOperand`, changing nothing. Flags are untouched.
pub open spec fn exec_post<M: Memory>(
    reg: RegisterName,
    op: Operand,
    pre: Mos6502,
    pmem: &M,
    post: Mos6502,
    fmem: &M,
    r: Result<(), Error>,
) -> bool {
    &&& op is Accumulator ==> {
        &&& r == Ok::<(), Error>(())
        &&& post == with_a(pre, spec_reg_get(reg, pre))
        &&& forall|a: int| #[trigger] fmem.byte_at(a) == pmem.byte_at(a)
    }
    &&& !(op is Accumulator) ==> post == pre
    &&& match operand::spec_write_addr(op, pre) {
        Some(addr) => {
            &&& pmem.can_write(addr as int) ==> {
                &&& r == Ok::<(), Error>(())
                &&& fmem.byte_at(addr as int) == spec_reg_get(reg, pre)
                &&& forall|a: int| #[trigger] fmem.byte_at(a) == (
                    if pmem.aliases(addr as int, a) {
                        spec_reg_get(reg, pre)
                    } else {
                        pmem.byte_at(a)
                    })
            }
            &&& !pmem.can_write(addr as int) ==> {
                &&& r == Err::<(), Error>(Error::ErrorRetrievingOperand(
                    operand::Error::ErrorAccessingMemory(pmem.write_err(addr as int))))
                &&& forall|a: int| #[trigger] fmem.byte_at(a) == pmem.byte_at(a)
            }
        },
        None => !(op is Accumulator) ==> {
            &&& r == Err::<(), Error>(Error::ErrorRetrievingOperand(
                operand::Error::ReadOnlyOperand))
            &&& forall|a: int| #[trigger] fmem.byte_at(a) == pmem.byte_at(a)
        },
    }
}

/// Stores the named register's value where the operand points.
pub fn exec<M: Memory>(cpu: &mut Mos6502, mem: &mut M, reg: RegisterName, op: Operand) -> (r:
    Result<(), Error>)
    ensures
        reserved_intact(*old(cpu), *final(cpu)),
        final(mem).mem_size() == old(mem).mem_size(),
        forall|a: int| #[trigger] final(mem).can_read(a) == old(mem).can_read(a),
        forall|a: int| #[trigger] final(mem).can_write(a) == old(mem).can_write(a),
        forall|a: int| #[trigger] final(mem).read_err(a) == old(mem).read_err(a),
        forall|a: int| #[trigger] final(mem).write_err(a) == old(mem).write_err(a),
        forall|a: int, b: int| #[trigger] final(mem).aliases(a, b) == old(mem).aliases(a, b),
        exec_post(reg, op, *old(cpu), old(mem), *final(cpu), final(mem), r),
{
    let v = reg.get(cpu);
    match op.set_u8(cpu, mem, v) {
        Ok(()) => Ok(()),
        Err(e) => Err(Error::ErrorRetrievingOperand(e)),
    }
}

} // verus!
