//! JMP: jump to the operand's effective address (absolute or indirect).

use vstd::prelude::*;
use crate::cpu::Mos6502;
use crate::exec::{Error, reserved_intact, with_pc};
use crate::mem::Memory;
use crate::operand::{Operand, spec_addr};

verus! {

/// The effect of a jump: the program counter takes the operand's effective
/// address; on a resolution failure nothing changes.
pub open spec fn exec_post<M: Memory>(
    op: Operand,
    pre: Mos6502,
    mem: &M,
    post: Mos6502,
    r: Result<(), Error>,
) -> bool {
    match spec_addr(op, pre, mem) {
        Ok(a) => r == Ok::<(), Error>(()) && post == with_pc(pre, a),
        Err(e) => r == Err::<(), Error>(Error::ErrorRetrievingOperand(e)) && post == pre,
    }
}

/// Sets the program counter to the operand's effective address.
pub fn exec<M: Memory>(cpu: &mut Mos6502, mem: &M, op: Operand) -> (r: Result<(), Error>)
    ensures
        reserved_intact(*old(cpu), *final(cpu)),
        exec_post(op, *old(cpu), mem, *final(cpu), r),
{
    let addr = match op.get_addr(cpu, mem) {
        Ok(a) => a,
        Err(e) => {
            return Err(Error::ErrorRetrievingOperand(e));
        },
    };
    cpu.pc.set(addr);
    Ok(())
}

} // verus!
