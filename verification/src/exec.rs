//! The instruction executor: one handler per opcode family, and a dispatcher
//! that routes a decoded instruction to its handler. Each handler states its
//! exact effect on the CPU (and, where it writes, on the bus) as a spec-level
//! transition.

use vstd::prelude::*;
use crate::cpu::{Mos6502, Registers, RegisterName};
use crate::flags::{
    Flags, BCD_BIT, CARRY_BIT, INTERRUPT_BIT, OVERFLOW_BIT, RESERVED_BIT, SIGN_BIT, ZERO_BIT,
    spec_intersects, spec_set, spec_clear,
};
use crate::instr::Instruction;
use crate::mem::{Memory, MemoryError, same_bytes};
use crate::operand::{self, Operand, spec_value};

pub mod adc;
pub mod and;
pub mod asl;
pub mod bit;
pub mod branch;
pub mod brk;
pub mod clear_flag;
pub mod compare;
pub mod dec;
pub mod eor;
pub mod inc;
pub mod jmp;
pub mod jsr;
pub mod load;
pub mod lsr;
pub mod ora;
pub mod pull;
pub mod push;
pub mod rol;
pub mod ror;
pub mod rti;
pub mod rts;
pub mod sbc;
pub mod set_flag;
pub mod store;
pub mod transfer;

verus! {

/// An error that occurred while executing an instruction.
#[derive(Copy, Clone, Debug, PartialEq, Eq, Structural)]
pub enum Error {
    /// The instruction's operand could not be read or written.
    ErrorRetrievingOperand(operand::Error),
    /// Memory could not be read or written.
    ErrorReadingMemory(MemoryError),
}

/// 1 when the CARRY flag is set, else 0.
pub open spec fn carry_in(cpu: Mos6502) -> int {
    if spec_intersects(cpu.flags.bits, CARRY_BIT) {
        1
    } else {
        0
    }
}

/// `cpu` with its accumulator and flag word replaced.
pub open spec fn with_a_flags(cpu: Mos6502, a: u8, bits: u8) -> Mos6502 {
    Mos6502 {
        registers: Registers { a, ..cpu.registers },
        flags: Flags { bits },
        ..cpu
    }
}

/// `cpu` with its flag word replaced.
pub open spec fn with_flags(cpu: Mos6502, bits: u8) -> Mos6502 {
    Mos6502 { flags: Flags { bits }, ..cpu }
}

/// Bit 7 of a (non-negative) integer.
pub open spec fn bit7(v: int) -> bool {
    (v / 128) % 2 == 1
}

/// The effect, on the CPU alone, of an instruction that reads its operand
/// and then steps by `step`: when the operand resolves to a value `n` the
/// instruction succeeds and the CPU steps to `step(pre, n)`; when resolution
/// fails the error is reported and the CPU is unchanged.
pub open spec fn reads_operand_then<M: Memory>(
    op: Operand,
    pre: Mos6502,
    mem: &M,
    post: Mos6502,
    r: Result<(), Error>,
    step: spec_fn(Mos6502, u8) -> Mos6502,
) -> bool {
    match spec_value(op, pre, mem) {
        Ok(n) => r == Ok::<(), Error>(()) && post == step(pre, n),
        Err(e) => r == Err::<(), Error>(Error::ErrorRetrievingOperand(e)) && post == pre,
    }
}

/// Whatever a handler did to the flag word, it went through the canonical
/// setter: after any instruction the flags are either untouched or carry the
/// RESERVED bit.
pub open spec fn reserved_intact(pre: Mos6502, post: Mos6502) -> bool {
    post.flags == pre.flags || spec_intersects(post.flags.bits, RESERVED_BIT)
}

/// `cpu` with its accumulator replaced.
pub open spec fn with_a(cpu: Mos6502, a: u8) -> Mos6502 {
    Mos6502 { registers: Registers { a, ..cpu.registers }, ..cpu }
}

/// `cpu` with its program counter replaced.
pub open spec fn with_pc(cpu: Mos6502, pc: u16) -> Mos6502 {
    Mos6502 { pc: crate::pc::ProgramCounter { value: pc }, ..cpu }
}

/// The effect of a read-modify-write instruction: the operand's value `v` is
/// read, the CPU steps to flags given by `step(pre, v).0`, and the new byte
/// `step(pre, v).1` is written back through the operand (the accumulator for
/// the `Accumulator` operand, memory for `Absolute` and `Indexed`). On a
/// failure partial mutation is left in place: a write into a read-only
/// operand or denied memory still carries the flag updates.
pub open spec fn rmw_post<M: Memory>(
    op: Operand,
    pre: Mos6502,
    pmem: &M,
    post: Mos6502,
    fmem: &M,
    r: Result<(), Error>,
    step: spec_fn(Mos6502, u8) -> (Mos6502, u8),
) -> bool {
    match spec_value(op, pre, pmem) {
        Err(e) => {
            &&& r == Err::<(), Error>(Error::ErrorRetrievingOperand(e))
            &&& post == pre
            &&& forall|a: int| #[trigger] fmem.byte_at(a) == pmem.byte_at(a)
        },
        Ok(v) => {
            let (cpu1, nv) = step(pre, v);
            if op is Accumulator {
                &&& r == Ok::<(), Error>(())
                &&& post == with_a(cpu1, nv)
                &&& forall|a: int| #[trigger] fmem.byte_at(a) == pmem.byte_at(a)
            } else {
                match operand::spec_write_addr(op, cpu1) {
                    Some(addr) => {
                        &&& post == cpu1
                        &&& pmem.can_write(addr as int) ==> {
                            &&& r == Ok::<(), Error>(())
                            &&& fmem.byte_at(addr as int) == nv
                            &&& forall|a: int| #[trigger] fmem.byte_at(a) == (
                                if pmem.aliases(addr as int, a) {
                                    nv
                                } else {
                                    pmem.byte_at(a)
                                })
                        }
                        &&& !pmem.can_write(addr as int) ==> {
                            &&& r == Err::<(), Error>(Error::ErrorRetrievingOperand(
                                operand::Error::ErrorAccessingMemory(pmem.write_err(addr as int))))
                            &&& forall|a: int| #[trigger] fmem.byte_at(a) == pmem.byte_at(a)
                        }
                    },
                    None => {
                        &&& r == Err::<(), Error>(Error::ErrorRetrievingOperand(
                            operand::Error::ReadOnlyOperand))
                        &&& post == cpu1
                        &&& forall|a: int| #[trigger] fmem.byte_at(a) == pmem.byte_at(a)
                    },
                }
            }
        },
    }
}

/// The exact effect of one instruction: the relation between the CPU and
/// memory before (`pre`, `pmem`) and after (`post`, `fmem`) that each
/// opcode's handler establishes.
#[verifier::opaque]
pub open spec fn dispatch_post<M: Memory>(
    inst: Instruction,
    pre: Mos6502,
    pmem: &M,
    post: Mos6502,
    fmem: &M,
    r: Result<(), Error>,
) -> bool {
    match inst {
        Instruction::ADC(op) => reads_operand_then(op, pre, pmem, post, r,
            |c: Mos6502, n: u8| adc::spec_adc(c, n)) && same_bytes(pmem, fmem),
        Instruction::AND(op) => reads_operand_then(op, pre, pmem, post, r,
            |c: Mos6502, n: u8| and::spec_and(c, n)) && same_bytes(pmem, fmem),
        Instruction::ASL(op) => rmw_post(op, pre, pmem, post, fmem, r,
            |c: Mos6502, v: u8| (
                with_flags(c, asl::spec_asl_flags(c.flags.bits, v)),
                asl::spec_asl_val(v),
            )),
        Instruction::BCC(o) => r == Ok::<(), Error>(()) && same_bytes(pmem, fmem)
            && post == branch::spec_branch(pre, o, !spec_intersects(pre.flags.bits, CARRY_BIT)),
        Instruction::BCS(o) => r == Ok::<(), Error>(()) && same_bytes(pmem, fmem)
            && post == branch::spec_branch(pre, o, spec_intersects(pre.flags.bits, CARRY_BIT)),
        Instruction::BEQ(o) => r == Ok::<(), Error>(()) && same_bytes(pmem, fmem)
            && post == branch::spec_branch(pre, o, spec_intersects(pre.flags.bits, ZERO_BIT)),
        Instruction::BIT(op) => reads_operand_then(op, pre, pmem, post, r,
            |c: Mos6502, m: u8| bit::spec_bit(c, m)) && same_bytes(pmem, fmem),
        Instruction::BMI(o) => r == Ok::<(), Error>(()) && same_bytes(pmem, fmem)
            && post == branch::spec_branch(pre, o, spec_intersects(pre.flags.bits, SIGN_BIT)),
        Instruction::BNE(o) => r == Ok::<(), Error>(()) && same_bytes(pmem, fmem)
            && post == branch::spec_branch(pre, o, !spec_intersects(pre.flags.bits, ZERO_BIT)),
        Instruction::BPL(o) => r == Ok::<(), Error>(()) && same_bytes(pmem, fmem)
            && post == branch::spec_branch(pre, o, !spec_intersects(pre.flags.bits, SIGN_BIT)),
        Instruction::BRK => brk::exec_post(pre, pmem, post, fmem, r),
        Instruction::BVC(o) => r == Ok::<(), Error>(()) && same_bytes(pmem, fmem)
            && post == branch::spec_branch(pre, o, !spec_intersects(pre.flags.bits, OVERFLOW_BIT)),
        Instruction::BVS(o) => r == Ok::<(), Error>(()) && same_bytes(pmem, fmem)
            && post == branch::spec_branch(pre, o, spec_intersects(pre.flags.bits, OVERFLOW_BIT)),
        Instruction::CLC => r == Ok::<(), Error>(()) && same_bytes(pmem, fmem)
            && post == with_flags(pre, spec_clear(pre.flags.bits, CARRY_BIT)),
        Instruction::CLD => r == Ok::<(), Error>(()) && same_bytes(pmem, fmem)
            && post == with_flags(pre, spec_clear(pre.flags.bits, BCD_BIT)),
        Instruction::CLI => r == Ok::<(), Error>(()) && same_bytes(pmem, fmem)
            && post == with_flags(pre, spec_clear(pre.flags.bits, INTERRUPT_BIT)),
        Instruction::CLV => r == Ok::<(), Error>(()) && same_bytes(pmem, fmem)
            && post == with_flags(pre, spec_clear(pre.flags.bits, OVERFLOW_BIT)),
        Instruction::CMP(op) => reads_operand_then(op, pre, pmem, post, r,
            |c: Mos6502, n: u8| compare::spec_compare(c, RegisterName::A, n))
            && same_bytes(pmem, fmem),
        Instruction::CPX(op) => reads_operand_then(op, pre, pmem, post, r,
            |c: Mos6502, n: u8| compare::spec_compare(c, RegisterName::X, n))
            && same_bytes(pmem, fmem),
        Instruction::CPY(op) => reads_operand_then(op, pre, pmem, post, r,
            |c: Mos6502, n: u8| compare::spec_compare(c, RegisterName::Y, n))
            && same_bytes(pmem, fmem),
        Instruction::DEC(op) => rmw_post(op, pre, pmem, post, fmem, r,
            |c: Mos6502, v: u8| (
                with_flags(c, crate::flags::spec_set_sign_and_zero(c.flags.bits,
                    dec::spec_dec_val(v))),
                dec::spec_dec_val(v),
            )),
        Instruction::DEX => r == Ok::<(), Error>(()) && same_bytes(pmem, fmem)
            && post == spec_reg_step(pre, RegisterName::X, dec::spec_dec_val(pre.registers.x)),
        Instruction::DEY => r == Ok::<(), Error>(()) && same_bytes(pmem, fmem)
            && post == spec_reg_step(pre, RegisterName::Y, dec::spec_dec_val(pre.registers.y)),
        Instruction::EOR(op) => reads_operand_then(op, pre, pmem, post, r,
            |c: Mos6502, n: u8| eor::spec_eor(c, n)) && same_bytes(pmem, fmem),
        Instruction::INC(op) => rmw_post(op, pre, pmem, post, fmem, r,
            |c: Mos6502, v: u8| (
                with_flags(c, crate::flags::spec_set_sign_and_zero(c.flags.bits,
                    inc::spec_inc_val(v))),
                inc::spec_inc_val(v),
            )),
        Instruction::INX => r == Ok::<(), Error>(()) && same_bytes(pmem, fmem)
            && post == spec_reg_step(pre, RegisterName::X, inc::spec_inc_val(pre.registers.x)),
        Instruction::INY => r == Ok::<(), Error>(()) && same_bytes(pmem, fmem)
            && post == spec_reg_step(pre, RegisterName::Y, inc::spec_inc_val(pre.registers.y)),
        Instruction::JMP(op) => jmp::exec_post(op, pre, pmem, post, r) && same_bytes(pmem, fmem),
        Instruction::JSR(addr) => jsr::exec_post(addr, pre, pmem, post, fmem, r),
        Instruction::LDA(op) => reads_operand_then(op, pre, pmem, post, r,
            |c: Mos6502, n: u8| load::spec_load(c, RegisterName::A, n)) && same_bytes(pmem, fmem),
        Instruction::LDX(op) => reads_operand_then(op, pre, pmem, post, r,
            |c: Mos6502, n: u8| load::spec_load(c, RegisterName::X, n)) && same_bytes(pmem, fmem),
        Instruction::LDY(op) => reads_operand_then(op, pre, pmem, post, r,
            |c: Mos6502, n: u8| load::spec_load(c, RegisterName::Y, n)) && same_bytes(pmem, fmem),
        Instruction::LSR(op) => rmw_post(op, pre, pmem, post, fmem, r,
            |c: Mos6502, v: u8| (
                with_flags(c, lsr::spec_lsr_flags(c.flags.bits, v)),
                lsr::spec_lsr_val(v),
            )),
        Instruction::NOP => r == Ok::<(), Error>(()) && post == pre && same_bytes(pmem, fmem),
        Instruction::ORA(op) => reads_operand_then(op, pre, pmem, post, r,
            |c: Mos6502, n: u8| ora::spec_ora(c, n)) && same_bytes(pmem, fmem),
        Instruction::PHA => push::exec_post(RegisterName::A, pre, pmem, post, fmem, r),
        Instruction::PHP => push::exec_post(RegisterName::P, pre, pmem, post, fmem, r),
        Instruction::PLA => pull::exec_post(RegisterName::A, pre, pmem, post, r)
            && same_bytes(pmem, fmem),
        Instruction::PLP => pull::exec_post(RegisterName::P, pre, pmem, post, r)
            && same_bytes(pmem, fmem),
        Instruction::ROL(op) => rmw_post(op, pre, pmem, post, fmem, r,
            |c: Mos6502, v: u8| (
                with_flags(c, rol::spec_rol_flags(c.flags.bits, v, carry_in(c))),
                rol::spec_rol_val(v, carry_in(c)),
            )),
        Instruction::ROR(op) => rmw_post(op, pre, pmem, post, fmem, r,
            |c: Mos6502, v: u8| (
                with_flags(c, ror::spec_ror_flags(c.flags.bits, v, carry_in(c))),
                ror::spec_ror_val(v, carry_in(c)),
            )),
        Instruction::RTI => rti::exec_post(pre, pmem, post, r) && same_bytes(pmem, fmem),
        Instruction::RTS => rts::exec_post(pre, pmem, post, r) && same_bytes(pmem, fmem),
        Instruction::SBC(op) => reads_operand_then(op, pre, pmem, post, r,
            |c: Mos6502, n: u8| sbc::spec_sbc(c, n)) && same_bytes(pmem, fmem),
        Instruction::SEC => r == Ok::<(), Error>(()) && same_bytes(pmem, fmem)
            && post == with_flags(pre, spec_set(pre.flags.bits, CARRY_BIT)),
        Instruction::SED => r == Ok::<(), Error>(()) && same_bytes(pmem, fmem)
            && post == with_flags(pre, spec_set(pre.flags.bits, BCD_BIT)),
        Instruction::SEI => r == Ok::<(), Error>(()) && same_bytes(pmem, fmem)
            && post == with_flags(pre, spec_set(pre.flags.bits, INTERRUPT_BIT)),
        Instruction::STA(op) => store::exec_post(RegisterName::A, op, pre, pmem, post, fmem, r),
        Instruction::STX(op) => store::exec_post(RegisterName::X, op, pre, pmem, post, fmem, r),
        Instruction::STY(op) => store::exec_post(RegisterName::Y, op, pre, pmem, post, fmem, r),
        Instruction::TAX => r == Ok::<(), Error>(()) && same_bytes(pmem, fmem)
            && post == transfer::spec_transfer(pre, RegisterName::A, RegisterName::X),
        Instruction::TAY => r == Ok::<(), Error>(()) && same_bytes(pmem, fmem)
            && post == transfer::spec_transfer(pre, RegisterName::A, RegisterName::Y),
        Instruction::TSX => r == Ok::<(), Error>(()) && same_bytes(pmem, fmem)
            && post == transfer::spec_transfer(pre, RegisterName::S, RegisterName::X),
        Instruction::TXA => r == Ok::<(), Error>(()) && same_bytes(pmem, fmem)
            && post == transfer::spec_transfer(pre, RegisterName::X, RegisterName::A),
        Instruction::TXS => r == Ok::<(), Error>(()) && same_bytes(pmem, fmem)
            && post == transfer::spec_transfer(pre, RegisterName::X, RegisterName::S),
        Instruction::TYA => r == Ok::<(), Error>(()) && same_bytes(pmem, fmem)
            && post == transfer::spec_transfer(pre, RegisterName::Y, RegisterName::A),
    }
}

/// The CPU after a register takes the value `nv` with SIGN and ZERO derived
/// from it (the increment and decrement register forms).
pub open spec fn spec_reg_step(cpu: Mos6502, reg: RegisterName, nv: u8) -> Mos6502 {
    crate::cpu::spec_reg_set(
        reg,
        with_flags(cpu, crate::flags::spec_set_sign_and_zero(cpu.flags.bits, nv)),
        nv,
    )
}

/// Executes one decoded instruction against the CPU and the memory bus,
/// establishing that instruction's exact transition (`dispatch_post`). After
/// any instruction the flag word is either untouched or carries the RESERVED
/// bit.
pub fn dispatch<M: Memory>(inst: Instruction, cpu: &mut Mos6502, mem: &mut M) -> (r: Result<
    (),
    Error,
>)
    ensures
        reserved_intact(*old(cpu), *final(cpu)),
        final(cpu).clock == old(cpu).clock,
        final(cpu).bcd_enabled == old(cpu).bcd_enabled,
        final(mem).mem_size() == old(mem).mem_size(),
        forall|a: int| #[trigger] final(mem).can_read(a) == old(mem).can_read(a),
        forall|a: int| #[trigger] final(mem).can_write(a) == old(mem).can_write(a),
        forall|a: int| #[trigger] final(mem).read_err(a) == old(mem).read_err(a),
        forall|a: int| #[trigger] final(mem).write_err(a) == old(mem).write_err(a),
        forall|a: int, b: int| #[trigger] final(mem).aliases(a, b) == old(mem).aliases(a, b),
        dispatch_post(inst, *old(cpu), old(mem), *final(cpu), final(mem), r),
{
    proof {
        reveal(dispatch_post);
    }
    match inst {
        Instruction::ADC(op) => adc::exec(cpu, mem, op),
        Instruction::AND(op) => and::exec(cpu, mem, op),
        Instruction::ASL(op) => asl::exec(cpu, mem, op),
        Instruction::BCC(o) => branch::if_clear(cpu, o, Flags::CARRY()),
        Instruction::BCS(o) => branch::if_set(cpu, o, Flags::CARRY()),
        Instruction::BEQ(o) => branch::if_set(cpu, o, Flags::ZERO()),
        Instruction::BIT(op) => bit::exec(cpu, mem, op),
        Instruction::BMI(o) => branch::if_set(cpu, o, Flags::SIGN()),
        Instruction::BNE(o) => branch::if_clear(cpu, o, Flags::ZERO()),
        Instruction::BPL(o) => branch::if_clear(cpu, o, Flags::SIGN()),
        Instruction::BRK => brk::exec(cpu, mem),
        Instruction::BVC(o) => branch::if_clear(cpu, o, Flags::OVERFLOW()),
        Instruction::BVS(o) => branch::if_set(cpu, o, Flags::OVERFLOW()),
        Instruction::CLC => clear_flag::exec(cpu, Flags::CARRY()),
        Instruction::CLD => clear_flag::exec(cpu, Flags::BCD()),
        Instruction::CLI => clear_flag::exec(cpu, Flags::INTERRUPT()),
        Instruction::CLV => clear_flag::exec(cpu, Flags::OVERFLOW()),
        Instruction::CMP(op) => compare::exec(cpu, mem, RegisterName::A, op),
        Instruction::CPX(op) => compare::exec(cpu, mem, RegisterName::X, op),
        Instruction::CPY(op) => compare::exec(cpu, mem, RegisterName::Y, op),
        Instruction::DEC(op) => dec::mem(cpu, mem, op),
        Instruction::DEX => dec::reg(cpu, RegisterName::X),
        Instruction::DEY => dec::reg(cpu, RegisterName::Y),
        Instruction::EOR(op) => eor::exec(cpu, mem, op),
        Instruction::INC(op) => inc::mem(cpu, mem, op),
        Instruction::INX => inc::reg(cpu, RegisterName::X),
        Instruction::INY => inc::reg(cpu, RegisterName::Y),
        Instruction::JMP(op) => jmp::exec(cpu, mem, op),
        Instruction::JSR(addr) => jsr::exec(cpu, mem, addr),
        Instruction::LDA(op) => load::exec(cpu, mem, RegisterName::A, op),
        Instruction::LDX(op) => load::exec(cpu, mem, RegisterName::X, op),
        Instruction::LDY(op) => load::exec(cpu, mem, RegisterName::Y, op),
        Instruction::LSR(op) => lsr::exec(cpu, mem, op),
        Instruction::NOP => Ok(()),
        Instruction::ORA(op) => ora::exec(cpu, mem, op),
        Instruction::PHA => push::exec(cpu, mem, RegisterName::A),
        Instruction::PHP => push::exec(cpu, mem, RegisterName::P),
        Instruction::PLA => pull::exec(cpu, mem, RegisterName::A),
        Instruction::PLP => pull::exec(cpu, mem, RegisterName::P),
        Instruction::ROL(op) => rol::exec(cpu, mem, op),
        Instruction::ROR(op) => ror::exec(cpu, mem, op),
        Instruction::RTI => rti::exec(cpu, mem),
        Instruction::RTS => rts::exec(cpu, mem),
        Instruction::SBC(op) => sbc::exec(cpu, mem, op),
        Instruction::SEC => set_flag::exec(cpu, Flags::CARRY()),
        Instruction::SED => set_flag::exec(cpu, Flags::BCD()),
        Instruction::SEI => set_flag::exec(cpu, Flags::INTERRUPT()),
        Instruction::STA(op) => store::exec(cpu, mem, RegisterName::A, op),
        Instruction::STX(op) => store::exec(cpu, mem, RegisterName::X, op),
        Instruction::STY(op) => store::exec(cpu, mem, RegisterName::Y, op),
        Instruction::TAX => transfer::exec(cpu, RegisterName::A, RegisterName::X),
        Instruction::TAY => transfer::exec(cpu, RegisterName::A, RegisterName::Y),
        Instruction::TSX => transfer::exec(cpu, RegisterName::S, RegisterName::X),
        Instruction::TXA => transfer::exec(cpu, RegisterName::X, RegisterName::A),
        Instruction::TXS => transfer::exec(cpu, RegisterName::X, RegisterName::S),
        Instruction::TYA => transfer::exec(cpu, RegisterName::Y, RegisterName::A),
    }
}

} // verus!
