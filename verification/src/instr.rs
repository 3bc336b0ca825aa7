//! The decoded instruction: a closed sum over the 56 documented opcodes of
//! the 6502, each carrying an operand, a signed branch displacement, a 16-bit
//! target, or no payload.

use vstd::prelude::*;
use crate::operand::Operand;

verus! {

/// One decoded 6502 instruction.
#[derive(Copy, Clone, Debug, PartialEq, Eq, Structural)]
#[allow(missing_docs)]
pub enum Instruction {
    ADC(Operand),
    AND(Operand),
    ASL(Operand),
    BCC(i8),
    BCS(i8),
    BEQ(i8),
    BIT(Operand),
    BMI(i8),
    BNE(i8),
    BPL(i8),
    BRK,
    BVC(i8),
    BVS(i8),
    CLC,
    CLD,
    CLI,
    CLV,
    CMP(Operand),
    CPX(Operand),
    CPY(Operand),
    DEC(Operand),
    DEX,
    DEY,
    EOR(Operand),
    INC(Operand),
    INX,
    INY,
    JMP(Operand),
    JSR(u16),
    LDA(Operand),
    LDX(Operand),
    LDY(Operand),
    LSR(Operand),
    NOP,
    ORA(Operand),
    PHA,
    PHP,
    PLA,
    PLP,
    ROL(Operand),
    ROR(Operand),
    RTI,
    RTS,
    SBC(Operand),
    SEC,
    SED,
    SEI,
    STA(Operand),
    STX(Operand),
    STY(Operand),
    TAX,
    TAY,
    TSX,
    TXA,
    TXS,
    TYA,
}

} // verus!
