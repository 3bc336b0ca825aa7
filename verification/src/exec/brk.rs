//! BRK: advance the program counter by one, push it (high byte, low byte),
//! push the flag word with BREAK set in the pushed copy only, set the
//! INTERRUPT flag on the live flag word, and jump through the interrupt
//! vector at $FFFE. BREAK is never set on the live flag word.

use vstd::prelude::*;
use crate::cpu::{Mos6502, spec_stack_addr, spec_push_sp, with_sp};
use crate::exec::{Error, reserved_intact, with_flags, with_pc};
use crate::flags::{Flags, BREAK_BIT, INTERRUPT_BIT, spec_set};
use crate::mem::{Memory, le16, get_u16_le};
use crate::pc::spec_advance;

verus! {

/// The address of the BRK/IRQ vector.
pub const BRK_VECTOR: u64 = 0xFFFE;

/// The effect of BRK: the incremented program counter is pushed (high byte,
/// low byte), then the flag word with BREAK set in the pushed copy only;
/// once the pushes have succeeded the INTERRUPT flag is set on the live flag
/// word (through the canonical setter), and the program counter takes the
/// word at the vector. Each denied access leaves the mutation made so far in
/// place: the program counter is advanced by one even on failure, and
/// INTERRUPT is set on the live flags exactly when all three pushes went
/// through (a denied vector fetch comes after it).
pub open spec fn exec_post<M: Memory>(
    pre: Mos6502,
    pmem: &M,
    post: Mos6502,
    fmem: &M,
    r: Result<(), Error>,
) -> bool {
    ({
            let pcv = spec_advance(pre.pc.value, 1);
            let hi = (pcv / 256) as u8;
            let lo = (pcv % 256) as u8;
            let pushed_p = pre.flags.bits | BREAK_BIT;
            let sp0 = pre.registers.sp;
            let sp1 = spec_push_sp(sp0);
            let sp2 = spec_push_sp(sp1);
            let sp3 = spec_push_sp(sp2);
            let a1 = spec_stack_addr(sp0);
            let a2 = spec_stack_addr(sp1);
            let a3 = spec_stack_addr(sp2);
            &&& !pmem.can_write(a1) ==> {
                &&& r == Err::<(), Error>(Error::ErrorReadingMemory(pmem.write_err(a1)))
                &&& post == with_pc(pre, pcv)
                &&& forall|a: int| #[trigger] fmem.byte_at(a) == pmem.byte_at(a)
            }
            &&& pmem.can_write(a1) && !pmem.can_write(a2) ==> {
                &&& r == Err::<(), Error>(Error::ErrorReadingMemory(pmem.write_err(a2)))
                &&& post == with_pc(with_sp(pre, sp1), pcv)
                &&& fmem.byte_at(a1) == hi
                &&& forall|a: int| #[trigger] fmem.byte_at(a) == (
                    if pmem.aliases(a1, a) {
                        hi
                    } else {
                        pmem.byte_at(a)
                    })
            }
            &&& pmem.can_write(a1) && pmem.can_write(a2) && !pmem.can_write(a3) ==> {
                &&& r == Err::<(), Error>(Error::ErrorReadingMemory(pmem.write_err(a3)))
                &&& post == with_pc(with_sp(pre, sp2), pcv)
                &&& fmem.byte_at(a2) == lo
                &&& !pmem.aliases(a2, a1) ==> fmem.byte_at(a1) == hi
                &&& forall|a: int| #[trigger] fmem.byte_at(a) == (
                    if pmem.aliases(a2, a) {
                        lo
                    } else if pmem.aliases(a1, a) {
                        hi
                    } else {
                        pmem.byte_at(a)
                    })
            }
            &&& pmem.can_write(a1) && pmem.can_write(a2) && pmem.can_write(a3) ==> {
                let inted = with_flags(
                    with_sp(pre, sp3),
                    spec_set(pre.flags.bits, INTERRUPT_BIT),
                );
                &&& fmem.byte_at(a3) == pushed_p
                &&& !pmem.aliases(a3, a2) ==> fmem.byte_at(a2) == lo
                &&& !pmem.aliases(a3, a1) && !pmem.aliases(a2, a1) ==> fmem.byte_at(a1) == hi
                &&& forall|a: int| #[trigger] fmem.byte_at(a) == (
                    if pmem.aliases(a3, a) {
                        pushed_p
                    } else if pmem.aliases(a2, a) {
                        lo
                    } else if pmem.aliases(a1, a) {
                        hi
                    } else {
                        pmem.byte_at(a)
                    })
                &&& !pmem.can_read(BRK_VECTOR as int) ==> {
                    &&& r == Err::<(), Error>(Error::ErrorReadingMemory(
                        pmem.read_err(BRK_VECTOR as int)))
                    &&& post == with_pc(inted, pcv)
                }
                &&& pmem.can_read(BRK_VECTOR as int)
                    && !pmem.can_read(BRK_VECTOR + 1) ==> {
                    &&& r == Err::<(), Error>(Error::ErrorReadingMemory(
                        pmem.read_err(BRK_VECTOR + 1)))
                    &&& post == with_pc(inted, pcv)
                }
                &&& pmem.can_read(BRK_VECTOR as int) && pmem.can_read(BRK_VECTOR + 1) ==> {
                    &&& r == Ok::<(), Error>(())
                    &&& post == with_pc(
                        inted,
                        le16(
                            fmem.byte_at(BRK_VECTOR as int),
                            fmem.byte_at(BRK_VECTOR + 1),
                        ),
                    )
                }
            }
    })
}

/// Pushes the incremented program counter and the flag word, sets the
/// INTERRUPT flag, then jumps through the vector at $FFFE.
pub fn exec<M: Memory>(cpu: &mut Mos6502, mem: &mut M) -> (r: Result<(), Error>)
    ensures
        reserved_intact(*old(cpu), *final(cpu)),
        final(mem).mem_size() == old(mem).mem_size(),
        forall|a: int| #[trigger] final(mem).can_read(a) == old(mem).can_read(a),
        forall|a: int| #[trigger] final(mem).can_write(a) == old(mem).can_write(a),
        forall|a: int| #[trigger] final(mem).read_err(a) == old(mem).read_err(a),
        forall|a: int| #[trigger] final(mem).write_err(a) == old(mem).write_err(a),
        forall|a: int, b: int| #[trigger] final(mem).aliases(a, b) == old(mem).aliases(a, b),
        exec_post(*old(cpu), old(mem), *final(cpu), final(mem), r),
{
    cpu.pc.advance(1);
    let pcv = cpu.pc.get();
    match cpu.push(mem, (pcv / 256) as u8) {
        Ok(()) => {},
        Err(e) => {
            return Err(Error::ErrorReadingMemory(e));
        },
    }
    match cpu.push(mem, (pcv % 256) as u8) {
        Ok(()) => {},
        Err(e) => {
            return Err(Error::ErrorReadingMemory(e));
        },
    }
    let pushed_p = cpu.flags.union(Flags::BREAK());
    match cpu.push(mem, pushed_p.bits) {
        Ok(()) => {},
        Err(e) => {
            return Err(Error::ErrorReadingMemory(e));
        },
    }
    cpu.flags.set(Flags::INTERRUPT());
    let vector = match get_u16_le(mem, BRK_VECTOR) {
        Ok(v) => v,
        Err(e) => {
            return Err(Error::ErrorReadingMemory(e));
        },
    };
    cpu.pc.set(vector);
    Ok(())
}

} // verus!
