//! The instruction decoder: reads the opcode byte at the program counter,
//! consults the opcode table for the addressing mode, byte length and cycle
//! cost, reads the argument bytes that follow (little-endian), and produces
//! a decoded instruction, advancing the program counter past it.

use vstd::prelude::*;
use crate::cpu::RegisterName;
use crate::instr::Instruction;
use crate::mem::{Memory, MemoryError, le16};
use crate::operand::Operand;
use crate::pc::{ProgramCounter, spec_advance};

verus! {

/// An error raised while decoding an instruction.
#[derive(Copy, Clone, Debug, PartialEq, Eq, Structural)]
pub enum Error {
    /// The opcode byte is not part of the documented instruction set.
    UnknownOpcode(u8),
    /// The opcode or an argument byte could not be fetched.
    ErrorReadingMemory(MemoryError),
}

/// The mnemonic of a documented opcode.
#[derive(Copy, Clone, Debug, PartialEq, Eq, Structural)]
#[allow(missing_docs)]
pub enum Mnemonic {
    ADC,
    AND,
    ASL,
    BCC,
    BCS,
    BEQ,
    BIT,
    BMI,
    BNE,
    BPL,
    BRK,
    BVC,
    BVS,
    CLC,
    CLD,
    CLI,
    CLV,
    CMP,
    CPX,
    CPY,
    DEC,
    DEX,
    DEY,
    EOR,
    INC,
    INX,
    INY,
    JMP,
    JSR,
    LDA,
    LDX,
    LDY,
    LSR,
    NOP,
    ORA,
    PHA,
    PHP,
    PLA,
    PLP,
    ROL,
    ROR,
    RTI,
    RTS,
    SBC,
    SEC,
    SED,
    SEI,
    STA,
    STX,
    STY,
    TAX,
    TAY,
    TSX,
    TXA,
    TXS,
    TYA,
}

/// The addressing mode an opcode fetches its argument with.
#[derive(Copy, Clone, Debug, PartialEq, Eq, Structural)]
pub enum Mode {
    /// No argument bytes.
    Implied,
    /// The accumulator.
    Accumulator,
    /// A literal byte.
    Immediate,
    /// One address byte into page zero.
    ZeroPage,
    /// One address byte into page zero, indexed by X.
    ZeroPageX,
    /// One address byte into page zero, indexed by Y.
    ZeroPageY,
    /// A two-byte address.
    Absolute,
    /// A two-byte address indexed by X.
    AbsoluteX,
    /// A two-byte address indexed by Y.
    AbsoluteY,
    /// A two-byte address holding the target address.
    Indirect,
    /// A zero-page pointer, pre-indexed by X.
    IndirectX,
    /// A zero-page pointer, post-indexed by Y.
    IndirectY,
    /// A signed branch displacement.
    Relative,
}

/// The opcode table: for each documented opcode byte, its mnemonic, its
/// addressing mode, and its base cycle cost.
pub open spec fn spec_op_entry(b: u8) -> Option<(Mnemonic, Mode, u8)> {
    match b {
        0x00 => Some((Mnemonic::BRK, Mode::Implied, 7)),
        0x01 => Some((Mnemonic::ORA, Mode::IndirectX, 6)),
        0x05 => Some((Mnemonic::ORA, Mode::ZeroPage, 3)),
        0x06 => Some((Mnemonic::ASL, Mode::ZeroPage, 5)),
        0x08 => Some((Mnemonic::PHP, Mode::Implied, 3)),
        0x09 => Some((Mnemonic::ORA, Mode::Immediate, 2)),
        0x0A => Some((Mnemonic::ASL, Mode::Accumulator, 2)),
        0x0D => Some((Mnemonic::ORA, Mode::Absolute, 4)),
        0x0E => Some((Mnemonic::ASL, Mode::Absolute, 6)),
        0x10 => Some((Mnemonic::BPL, Mode::Relative, 2)),
        0x11 => Some((Mnemonic::ORA, Mode::IndirectY, 5)),
        0x15 => Some((Mnemonic::ORA, Mode::ZeroPageX, 4)),
        0x16 => Some((Mnemonic::ASL, Mode::ZeroPageX, 6)),
        0x18 => Some((Mnemonic::CLC, Mode::Implied, 2)),
        0x19 => Some((Mnemonic::ORA, Mode::AbsoluteY, 4)),
        0x1D => Some((Mnemonic::ORA, Mode::AbsoluteX, 4)),
        0x1E => Some((Mnemonic::ASL, Mode::AbsoluteX, 7)),
        0x20 => Some((Mnemonic::JSR, Mode::Absolute, 6)),
        0x21 => Some((Mnemonic::AND, Mode::IndirectX, 6)),
        0x24 => Some((Mnemonic::BIT, Mode::ZeroPage, 3)),
        0x25 => Some((Mnemonic::AND, Mode::ZeroPage, 3)),
        0x26 => Some((Mnemonic::ROL, Mode::ZeroPage, 5)),
        0x28 => Some((Mnemonic::PLP, Mode::Implied, 4)),
        0x29 => Some((Mnemonic::AND, Mode::Immediate, 2)),
        0x2A => Some((Mnemonic::ROL, Mode::Accumulator, 2)),
        0x2C => Some((Mnemonic::BIT, Mode::Absolute, 4)),
        0x2D => Some((Mnemonic::AND, Mode::Absolute, 4)),
        0x2E => Some((Mnemonic::ROL, Mode::Absolute, 6)),
        0x30 => Some((Mnemonic::BMI, Mode::Relative, 2)),
        0x31 => Some((Mnemonic::AND, Mode::IndirectY, 5)),
        0x35 => Some((Mnemonic::AND, Mode::ZeroPageX, 4)),
        0x36 => Some((Mnemonic::ROL, Mode::ZeroPageX, 6)),
        0x38 => Some((Mnemonic::SEC, Mode::Implied, 2)),
        0x39 => Some((Mnemonic::AND, Mode::AbsoluteY, 4)),
        0x3D => Some((Mnemonic::AND, Mode::AbsoluteX, 4)),
        0x3E => Some((Mnemonic::ROL, Mode::AbsoluteX, 7)),
        0x40 => Some((Mnemonic::RTI, Mode::Implied, 6)),
        0x41 => Some((Mnemonic::EOR, Mode::IndirectX, 6)),
        0x45 => Some((Mnemonic::EOR, Mode::ZeroPage, 3)),
        0x46 => Some((Mnemonic::LSR, Mode::ZeroPage, 5)),
        0x48 => Some((Mnemonic::PHA, Mode::Implied, 3)),
        0x49 => Some((Mnemonic::EOR, Mode::Immediate, 2)),
        0x4A => Some((Mnemonic::LSR, Mode::Accumulator, 2)),
        0x4C => Some((Mnemonic::JMP, Mode::Absolute, 3)),
        0x4D => Some((Mnemonic::EOR, Mode::Absolute, 4)),
        0x4E => Some((Mnemonic::LSR, Mode::Absolute, 6)),
        0x50 => Some((Mnemonic::BVC, Mode::Relative, 2)),
        0x51 => Some((Mnemonic::EOR, Mode::IndirectY, 5)),
        0x55 => Some((Mnemonic::EOR, Mode::ZeroPageX, 4)),
        0x56 => Some((Mnemonic::LSR, Mode::ZeroPageX, 6)),
        0x58 => Some((Mnemonic::CLI, Mode::Implied, 2)),
        0x59 => Some((Mnemonic::EOR, Mode::AbsoluteY, 4)),
        0x5D => Some((Mnemonic::EOR, Mode::AbsoluteX, 4)),
        0x5E => Some((Mnemonic::LSR, Mode::AbsoluteX, 7)),
        0x60 => Some((Mnemonic::RTS, Mode::Implied, 6)),
        0x61 => Some((Mnemonic::ADC, Mode::IndirectX, 6)),
        0x65 => Some((Mnemonic::ADC, Mode::ZeroPage, 3)),
        0x66 => Some((Mnemonic::ROR, Mode::ZeroPage, 5)),
        0x68 => Some((Mnemonic::PLA, Mode::Implied, 4)),
        0x69 => Some((Mnemonic::ADC, Mode::Immediate, 2)),
        0x6A => Some((Mnemonic::ROR, Mode::Accumulator, 2)),
        0x6C => Some((Mnemonic::JMP, Mode::Indirect, 5)),
        0x6D => Some((Mnemonic::ADC, Mode::Absolute, 4)),
        0x6E => Some((Mnemonic::ROR, Mode::Absolute, 6)),
        0x70 => Some((Mnemonic::BVS, Mode::Relative, 2)),
        0x71 => Some((Mnemonic::ADC, Mode::IndirectY, 5)),
        0x75 => Some((Mnemonic::ADC, Mode::ZeroPageX, 4)),
        0x76 => Some((Mnemonic::ROR, Mode::ZeroPageX, 6)),
        0x78 => Some((Mnemonic::SEI, Mode::Implied, 2)),
        0x79 => Some((Mnemonic::ADC, Mode::AbsoluteY, 4)),
        0x7D => Some((Mnemonic::ADC, Mode::AbsoluteX, 4)),
        0x7E => Some((Mnemonic::ROR, Mode::AbsoluteX, 7)),
        0x81 => Some((Mnemonic::STA, Mode::IndirectX, 6)),
        0x84 => Some((Mnemonic::STY, Mode::ZeroPage, 3)),
        0x85 => Some((Mnemonic::STA, Mode::ZeroPage, 3)),
        0x86 => Some((Mnemonic::STX, Mode::ZeroPage, 3)),
        0x88 => Some((Mnemonic::DEY, Mode::Implied, 2)),
        0x8A => Some((Mnemonic::TXA, Mode::Implied, 2)),
        0x8C => Some((Mnemonic::STY, Mode::Absolute, 4)),
        0x8D => Some((Mnemonic::STA, Mode::Absolute, 4)),
        0x8E => Some((Mnemonic::STX, Mode::Absolute, 4)),
        0x90 => Some((Mnemonic::BCC, Mode::Relative, 2)),
        0x91 => Some((Mnemonic::STA, Mode::IndirectY, 6)),
        0x94 => Some((Mnemonic::STY, Mode::ZeroPageX, 4)),
        0x95 => Some((Mnemonic::STA, Mode::ZeroPageX, 4)),
        0x96 => Some((Mnemonic::STX, Mode::ZeroPageY, 4)),
        0x98 => Some((Mnemonic::TYA, Mode::Implied, 2)),
        0x99 => Some((Mnemonic::STA, Mode::AbsoluteY, 5)),
        0x9A => Some((Mnemonic::TXS, Mode::Implied, 2)),
        0x9D => Some((Mnemonic::STA, Mode::AbsoluteX, 5)),
        0xA0 => Some((Mnemonic::LDY, Mode::Immediate, 2)),
        0xA1 => Some((Mnemonic::LDA, Mode::IndirectX, 6)),
        0xA2 => Some((Mnemonic::LDX, Mode::Immediate, 2)),
        0xA4 => Some((Mnemonic::LDY, Mode::ZeroPage, 3)),
        0xA5 => Some((Mnemonic::LDA, Mode::ZeroPage, 3)),
        0xA6 => Some((Mnemonic::LDX, Mode::ZeroPage, 3)),
        0xA8 => Some((Mnemonic::TAY, Mode::Implied, 2)),
        0xA9 => Some((Mnemonic::LDA, Mode::Immediate, 2)),
        0xAA => Some((Mnemonic::TAX, Mode::Implied, 2)),
        0xAC => Some((Mnemonic::LDY, Mode::Absolute, 4)),
        0xAD => Some((Mnemonic::LDA, Mode::Absolute, 4)),
        0xAE => Some((Mnemonic::LDX, Mode::Absolute, 4)),
        0xB0 => Some((Mnemonic::BCS, Mode::Relative, 2)),
        0xB1 => Some((Mnemonic::LDA, Mode::IndirectY, 5)),
        0xB4 => Some((Mnemonic::LDY, Mode::ZeroPageX, 4)),
        0xB5 => Some((Mnemonic::LDA, Mode::ZeroPageX, 4)),
        0xB6 => Some((Mnemonic::LDX, Mode::ZeroPageY, 4)),
        0xB8 => Some((Mnemonic::CLV, Mode::Implied, 2)),
        0xB9 => Some((Mnemonic::LDA, Mode::AbsoluteY, 4)),
        0xBA => Some((Mnemonic::TSX, Mode::Implied, 2)),
        0xBC => Some((Mnemonic::LDY, Mode::AbsoluteX, 4)),
        0xBD => Some((Mnemonic::LDA, Mode::AbsoluteX, 4)),
        0xBE => Some((Mnemonic::LDX, Mode::AbsoluteY, 4)),
        0xC0 => Some((Mnemonic::CPY, Mode::Immediate, 2)),
        0xC1 => Some((Mnemonic::CMP, Mode::IndirectX, 6)),
        0xC4 => Some((Mnemonic::CPY, Mode::ZeroPage, 3)),
        0xC5 => Some((Mnemonic::CMP, Mode::ZeroPage, 3)),
        0xC6 => Some((Mnemonic::DEC, Mode::ZeroPage, 5)),
        0xC8 => Some((Mnemonic::INY, Mode::Implied, 2)),
        0xC9 => Some((Mnemonic::CMP, Mode::Immediate, 2)),
        0xCA => Some((Mnemonic::DEX, Mode::Implied, 2)),
        0xCC => Some((Mnemonic::CPY, Mode::Absolute, 4)),
        0xCD => Some((Mnemonic::CMP, Mode::Absolute, 4)),
        0xCE => Some((Mnemonic::DEC, Mode::Absolute, 6)),
        0xD0 => Some((Mnemonic::BNE, Mode::Relative, 2)),
        0xD1 => Some((Mnemonic::CMP, Mode::IndirectY, 5)),
        0xD5 => Some((Mnemonic::CMP, Mode::ZeroPageX, 4)),
        0xD6 => Some((Mnemonic::DEC, Mode::ZeroPageX, 6)),
        0xD8 => Some((Mnemonic::CLD, Mode::Implied, 2)),
        0xD9 => Some((Mnemonic::CMP, Mode::AbsoluteY, 4)),
        0xDD => Some((Mnemonic::CMP, Mode::AbsoluteX, 4)),
        0xDE => Some((Mnemonic::DEC, Mode::AbsoluteX, 7)),
        0xE0 => Some((Mnemonic::CPX, Mode::Immediate, 2)),
        0xE1 => Some((Mnemonic::SBC, Mode::IndirectX, 6)),
        0xE4 => Some((Mnemonic::CPX, Mode::ZeroPage, 3)),
        0xE5 => Some((Mnemonic::SBC, Mode::ZeroPage, 3)),
        0xE6 => Some((Mnemonic::INC, Mode::ZeroPage, 5)),
        0xE8 => Some((Mnemonic::INX, Mode::Implied, 2)),
        0xE9 => Some((Mnemonic::SBC, Mode::Immediate, 2)),
        0xEA => Some((Mnemonic::NOP, Mode::Implied, 2)),
        0xEC => Some((Mnemonic::CPX, Mode::Absolute, 4)),
        0xED => Some((Mnemonic::SBC, Mode::Absolute, 4)),
        0xEE => Some((Mnemonic::INC, Mode::Absolute, 6)),
        0xF0 => Some((Mnemonic::BEQ, Mode::Relative, 2)),
        0xF1 => Some((Mnemonic::SBC, Mode::IndirectY, 5)),
        0xF5 => Some((Mnemonic::SBC, Mode::ZeroPageX, 4)),
        0xF6 => Some((Mnemonic::INC, Mode::ZeroPageX, 6)),
        0xF8 => Some((Mnemonic::SED, Mode::Implied, 2)),
        0xF9 => Some((Mnemonic::SBC, Mode::AbsoluteY, 4)),
        0xFD => Some((Mnemonic::SBC, Mode::AbsoluteX, 4)),
        0xFE => Some((Mnemonic::INC, Mode::AbsoluteX, 7)),
        _ => None,
    }
}

/// Looks an opcode byte up in the opcode table.
pub fn op_entry(b: u8) -> (r: Option<(Mnemonic, Mode, u8)>)
    ensures
        r == spec_op_entry(b),
{
    match b {
        0x00 => Some((Mnemonic::BRK, Mode::Implied, 7)),
        0x01 => Some((Mnemonic::ORA, Mode::IndirectX, 6)),
        0x05 => Some((Mnemonic::ORA, Mode::ZeroPage, 3)),
        0x06 => Some((Mnemonic::ASL, Mode::ZeroPage, 5)),
        0x08 => Some((Mnemonic::PHP, Mode::Implied, 3)),
        0x09 => Some((Mnemonic::ORA, Mode::Immediate, 2)),
        0x0A => Some((Mnemonic::ASL, Mode::Accumulator, 2)),
        0x0D => Some((Mnemonic::ORA, Mode::Absolute, 4)),
        0x0E => Some((Mnemonic::ASL, Mode::Absolute, 6)),
        0x10 => Some((Mnemonic::BPL, Mode::Relative, 2)),
        0x11 => Some((Mnemonic::ORA, Mode::IndirectY, 5)),
        0x15 => Some((Mnemonic::ORA, Mode::ZeroPageX, 4)),
        0x16 => Some((Mnemonic::ASL, Mode::ZeroPageX, 6)),
        0x18 => Some((Mnemonic::CLC, Mode::Implied, 2)),
        0x19 => Some((Mnemonic::ORA, Mode::AbsoluteY, 4)),
        0x1D => Some((Mnemonic::ORA, Mode::AbsoluteX, 4)),
        0x1E => Some((Mnemonic::ASL, Mode::AbsoluteX, 7)),
        0x20 => Some((Mnemonic::JSR, Mode::Absolute, 6)),
        0x21 => Some((Mnemonic::AND, Mode::IndirectX, 6)),
        0x24 => Some((Mnemonic::BIT, Mode::ZeroPage, 3)),
        0x25 => Some((Mnemonic::AND, Mode::ZeroPage, 3)),
        0x26 => Some((Mnemonic::ROL, Mode::ZeroPage, 5)),
        0x28 => Some((Mnemonic::PLP, Mode::Implied, 4)),
        0x29 => Some((Mnemonic::AND, Mode::Immediate, 2)),
        0x2A => Some((Mnemonic::ROL, Mode::Accumulator, 2)),
        0x2C => Some((Mnemonic::BIT, Mode::Absolute, 4)),
        0x2D => Some((Mnemonic::AND, Mode::Absolute, 4)),
        0x2E => Some((Mnemonic::ROL, Mode::Absolute, 6)),
        0x30 => Some((Mnemonic::BMI, Mode::Relative, 2)),
        0x31 => Some((Mnemonic::AND, Mode::IndirectY, 5)),
        0x35 => Some((Mnemonic::AND, Mode::ZeroPageX, 4)),
        0x36 => Some((Mnemonic::ROL, Mode::ZeroPageX, 6)),
        0x38 => Some((Mnemonic::SEC, Mode::Implied, 2)),
        0x39 => Some((Mnemonic::AND, Mode::AbsoluteY, 4)),
        0x3D => Some((Mnemonic::AND, Mode::AbsoluteX, 4)),
        0x3E => Some((Mnemonic::ROL, Mode::AbsoluteX, 7)),
        0x40 => Some((Mnemonic::RTI, Mode::Implied, 6)),
        0x41 => Some((Mnemonic::EOR, Mode::IndirectX, 6)),
        0x45 => Some((Mnemonic::EOR, Mode::ZeroPage, 3)),
        0x46 => Some((Mnemonic::LSR, Mode::ZeroPage, 5)),
        0x48 => Some((Mnemonic::PHA, Mode::Implied, 3)),
        0x49 => Some((Mnemonic::EOR, Mode::Immediate, 2)),
        0x4A => Some((Mnemonic::LSR, Mode::Accumulator, 2)),
        0x4C => Some((Mnemonic::JMP, Mode::Absolute, 3)),
        0x4D => Some((Mnemonic::EOR, Mode::Absolute, 4)),
        0x4E => Some((Mnemonic::LSR, Mode::Absolute, 6)),
        0x50 => Some((Mnemonic::BVC, Mode::Relative, 2)),
        0x51 => Some((Mnemonic::EOR, Mode::IndirectY, 5)),
        0x55 => Some((Mnemonic::EOR, Mode::ZeroPageX, 4)),
        0x56 => Some((Mnemonic::LSR, Mode::ZeroPageX, 6)),
        0x58 => Some((Mnemonic::CLI, Mode::Implied, 2)),
        0x59 => Some((Mnemonic::EOR, Mode::AbsoluteY, 4)),
        0x5D => Some((Mnemonic::EOR, Mode::AbsoluteX, 4)),
        0x5E => Some((Mnemonic::LSR, Mode::AbsoluteX, 7)),
        0x60 => Some((Mnemonic::RTS, Mode::Implied, 6)),
        0x61 => Some((Mnemonic::ADC, Mode::IndirectX, 6)),
        0x65 => Some((Mnemonic::ADC, Mode::ZeroPage, 3)),
        0x66 => Some((Mnemonic::ROR, Mode::ZeroPage, 5)),
        0x68 => Some((Mnemonic::PLA, Mode::Implied, 4)),
        0x69 => Some((Mnemonic::ADC, Mode::Immediate, 2)),
        0x6A => Some((Mnemonic::ROR, Mode::Accumulator, 2)),
        0x6C => Some((Mnemonic::JMP, Mode::Indirect, 5)),
        0x6D => Some((Mnemonic::ADC, Mode::Absolute, 4)),
        0x6E => Some((Mnemonic::ROR, Mode::Absolute, 6)),
        0x70 => Some((Mnemonic::BVS, Mode::Relative, 2)),
        0x71 => Some((Mnemonic::ADC, Mode::IndirectY, 5)),
        0x75 => Some((Mnemonic::ADC, Mode::ZeroPageX, 4)),
        0x76 => Some((Mnemonic::ROR, Mode::ZeroPageX, 6)),
        0x78 => Some((Mnemonic::SEI, Mode::Implied, 2)),
        0x79 => Some((Mnemonic::ADC, Mode::AbsoluteY, 4)),
        0x7D => Some((Mnemonic::ADC, Mode::AbsoluteX, 4)),
        0x7E => Some((Mnemonic::ROR, Mode::AbsoluteX, 7)),
        0x81 => Some((Mnemonic::STA, Mode::IndirectX, 6)),
        0x84 => Some((Mnemonic::STY, Mode::ZeroPage, 3)),
        0x85 => Some((Mnemonic::STA, Mode::ZeroPage, 3)),
        0x86 => Some((Mnemonic::STX, Mode::ZeroPage, 3)),
        0x88 => Some((Mnemonic::DEY, Mode::Implied, 2)),
        0x8A => Some((Mnemonic::TXA, Mode::Implied, 2)),
        0x8C => Some((Mnemonic::STY, Mode::Absolute, 4)),
        0x8D => Some((Mnemonic::STA, Mode::Absolute, 4)),
        0x8E => Some((Mnemonic::STX, Mode::Absolute, 4)),
        0x90 => Some((Mnemonic::BCC, Mode::Relative, 2)),
        0x91 => Some((Mnemonic::STA, Mode::IndirectY, 6)),
        0x94 => Some((Mnemonic::STY, Mode::ZeroPageX, 4)),
        0x95 => Some((Mnemonic::STA, Mode::ZeroPageX, 4)),
        0x96 => Some((Mnemonic::STX, Mode::ZeroPageY, 4)),
        0x98 => Some((Mnemonic::TYA, Mode::Implied, 2)),
        0x99 => Some((Mnemonic::STA, Mode::AbsoluteY, 5)),
        0x9A => Some((Mnemonic::TXS, Mode::Implied, 2)),
        0x9D => Some((Mnemonic::STA, Mode::AbsoluteX, 5)),
        0xA0 => Some((Mnemonic::LDY, Mode::Immediate, 2)),
        0xA1 => Some((Mnemonic::LDA, Mode::IndirectX, 6)),
        0xA2 => Some((Mnemonic::LDX, Mode::Immediate, 2)),
        0xA4 => Some((Mnemonic::LDY, Mode::ZeroPage, 3)),
        0xA5 => Some((Mnemonic::LDA, Mode::ZeroPage, 3)),
        0xA6 => Some((Mnemonic::LDX, Mode::ZeroPage, 3)),
        0xA8 => Some((Mnemonic::TAY, Mode::Implied, 2)),
        0xA9 => Some((Mnemonic::LDA, Mode::Immediate, 2)),
        0xAA => Some((Mnemonic::TAX, Mode::Implied, 2)),
        0xAC => Some((Mnemonic::LDY, Mode::Absolute, 4)),
        0xAD => Some((Mnemonic::LDA, Mode::Absolute, 4)),
        0xAE => Some((Mnemonic::LDX, Mode::Absolute, 4)),
        0xB0 => Some((Mnemonic::BCS, Mode::Relative, 2)),
        0xB1 => Some((Mnemonic::LDA, Mode::IndirectY, 5)),
        0xB4 => Some((Mnemonic::LDY, Mode::ZeroPageX, 4)),
        0xB5 => Some((Mnemonic::LDA, Mode::ZeroPageX, 4)),
        0xB6 => Some((Mnemonic::LDX, Mode::ZeroPageY, 4)),
        0xB8 => Some((Mnemonic::CLV, Mode::Implied, 2)),
        0xB9 => Some((Mnemonic::LDA, Mode::AbsoluteY, 4)),
        0xBA => Some((Mnemonic::TSX, Mode::Implied, 2)),
        0xBC => Some((Mnemonic::LDY, Mode::AbsoluteX, 4)),
        0xBD => Some((Mnemonic::LDA, Mode::AbsoluteX, 4)),
        0xBE => Some((Mnemonic::LDX, Mode::AbsoluteY, 4)),
        0xC0 => Some((Mnemonic::CPY, Mode::Immediate, 2)),
        0xC1 => Some((Mnemonic::CMP, Mode::IndirectX, 6)),
        0xC4 => Some((Mnemonic::CPY, Mode::ZeroPage, 3)),
        0xC5 => Some((Mnemonic::CMP, Mode::ZeroPage, 3)),
        0xC6 => Some((Mnemonic::DEC, Mode::ZeroPage, 5)),
        0xC8 => Some((Mnemonic::INY, Mode::Implied, 2)),
        0xC9 => Some((Mnemonic::CMP, Mode::Immediate, 2)),
        0xCA => Some((Mnemonic::DEX, Mode::Implied, 2)),
        0xCC => Some((Mnemonic::CPY, Mode::Absolute, 4)),
        0xCD => Some((Mnemonic::CMP, Mode::Absolute, 4)),
        0xCE => Some((Mnemonic::DEC, Mode::Absolute, 6)),
        0xD0 => Some((Mnemonic::BNE, Mode::Relative, 2)),
        0xD1 => Some((Mnemonic::CMP, Mode::IndirectY, 5)),
        0xD5 => Some((Mnemonic::CMP, Mode::ZeroPageX, 4)),
        0xD6 => Some((Mnemonic::DEC, Mode::ZeroPageX, 6)),
        0xD8 => Some((Mnemonic::CLD, Mode::Implied, 2)),
        0xD9 => Some((Mnemonic::CMP, Mode::AbsoluteY, 4)),
        0xDD => Some((Mnemonic::CMP, Mode::AbsoluteX, 4)),
        0xDE => Some((Mnemonic::DEC, Mode::AbsoluteX, 7)),
        0xE0 => Some((Mnemonic::CPX, Mode::Immediate, 2)),
        0xE1 => Some((Mnemonic::SBC, Mode::IndirectX, 6)),
        0xE4 => Some((Mnemonic::CPX, Mode::ZeroPage, 3)),
        0xE5 => Some((Mnemonic::SBC, Mode::ZeroPage, 3)),
        0xE6 => Some((Mnemonic::INC, Mode::ZeroPage, 5)),
        0xE8 => Some((Mnemonic::INX, Mode::Implied, 2)),
        0xE9 => Some((Mnemonic::SBC, Mode::Immediate, 2)),
        0xEA => Some((Mnemonic::NOP, Mode::Implied, 2)),
        0xEC => Some((Mnemonic::CPX, Mode::Absolute, 4)),
        0xED => Some((Mnemonic::SBC, Mode::Absolute, 4)),
        0xEE => Some((Mnemonic::INC, Mode::Absolute, 6)),
        0xF0 => Some((Mnemonic::BEQ, Mode::Relative, 2)),
        0xF1 => Some((Mnemonic::SBC, Mode::IndirectY, 5)),
        0xF5 => Some((Mnemonic::SBC, Mode::ZeroPageX, 4)),
        0xF6 => Some((Mnemonic::INC, Mode::ZeroPageX, 6)),
        0xF8 => Some((Mnemonic::SED, Mode::Implied, 2)),
        0xF9 => Some((Mnemonic::SBC, Mode::AbsoluteY, 4)),
        0xFD => Some((Mnemonic::SBC, Mode::AbsoluteX, 4)),
        0xFE => Some((Mnemonic::INC, Mode::AbsoluteX, 7)),
        _ => None,
    }
}

/// The total byte length of an instruction with the given addressing mode,
/// opcode byte included.
pub open spec fn spec_mode_len(mode: Mode) -> u8 {
    match mode {
        Mode::Implied => 1,
        Mode::Accumulator => 1,
        Mode::Immediate => 2,
        Mode::ZeroPage => 2,
        Mode::ZeroPageX => 2,
        Mode::ZeroPageY => 2,
        Mode::Absolute => 3,
        Mode::AbsoluteX => 3,
        Mode::AbsoluteY => 3,
        Mode::Indirect => 3,
        Mode::IndirectX => 2,
        Mode::IndirectY => 2,
        Mode::Relative => 2,
    }
}

/// The total byte length of an instruction with the given addressing mode.
pub fn mode_len(mode: Mode) -> (r: u8)
    ensures
        r == spec_mode_len(mode),
{
    match mode {
        Mode::Implied => 1,
        Mode::Accumulator => 1,
        Mode::Immediate => 2,
        Mode::ZeroPage => 2,
        Mode::ZeroPageX => 2,
        Mode::ZeroPageY => 2,
        Mode::Absolute => 3,
        Mode::AbsoluteX => 3,
        Mode::AbsoluteY => 3,
        Mode::Indirect => 3,
        Mode::IndirectX => 2,
        Mode::IndirectY => 2,
        Mode::Relative => 2,
    }
}

/// The operand an addressing mode names, given the argument bytes `lo` and
/// `hi`. The Implied and Relative modes carry their payload outside the
/// operand model; they map to the accumulator here and are never read
/// through it.
pub open spec fn spec_mode_operand(mode: Mode, lo: u8, hi: u8) -> Operand {
    match mode {
        Mode::Implied => Operand::Accumulator,
        Mode::Accumulator => Operand::Accumulator,
        Mode::Immediate => Operand::Immediate(lo),
        Mode::ZeroPage => Operand::Absolute(lo as u16),
        Mode::ZeroPageX => Operand::Indexed(lo as u16, RegisterName::X),
        Mode::ZeroPageY => Operand::Indexed(lo as u16, RegisterName::Y),
        Mode::Absolute => Operand::Absolute(le16(lo, hi)),
        Mode::AbsoluteX => Operand::Indexed(le16(lo, hi), RegisterName::X),
        Mode::AbsoluteY => Operand::Indexed(le16(lo, hi), RegisterName::Y),
        Mode::Indirect => Operand::Indirect(le16(lo, hi)),
        Mode::IndirectX => Operand::PreIndexedIndirect(lo),
        Mode::IndirectY => Operand::PostIndexedIndirect(lo),
        Mode::Relative => Operand::Offset(lo as i8),
    }
}

/// The operand an addressing mode names.
pub fn mode_operand(mode: Mode, lo: u8, hi: u8) -> (r: Operand)
    ensures
        r == spec_mode_operand(mode, lo, hi),
{
    match mode {
        Mode::Implied => Operand::Accumulator,
        Mode::Accumulator => Operand::Accumulator,
        Mode::Immediate => Operand::Immediate(lo),
        Mode::ZeroPage => Operand::Absolute(lo as u16),
        Mode::ZeroPageX => Operand::Indexed(lo as u16, RegisterName::X),
        Mode::ZeroPageY => Operand::Indexed(lo as u16, RegisterName::Y),
        Mode::Absolute => Operand::Absolute(lo as u16 + hi as u16 * 256),
        Mode::AbsoluteX => Operand::Indexed(lo as u16 + hi as u16 * 256, RegisterName::X),
        Mode::AbsoluteY => Operand::Indexed(lo as u16 + hi as u16 * 256, RegisterName::Y),
        Mode::Indirect => Operand::Indirect(lo as u16 + hi as u16 * 256),
        Mode::IndirectX => Operand::PreIndexedIndirect(lo),
        Mode::IndirectY => Operand::PostIndexedIndirect(lo),
        Mode::Relative => Operand::Offset(lo as i8),
    }
}

/// The decoded instruction for a mnemonic, given the operand, the raw first
/// argument byte (the signed displacement of a branch) and the two-byte
/// target its argument bytes encode.
pub open spec fn spec_build(m: Mnemonic, op: Operand, lo: u8, target: u16) -> Instruction {
    match m {
        Mnemonic::ADC => Instruction::ADC(op),
        Mnemonic::AND => Instruction::AND(op),
        Mnemonic::ASL => Instruction::ASL(op),
        Mnemonic::BCC => Instruction::BCC(lo as i8),
        Mnemonic::BCS => Instruction::BCS(lo as i8),
        Mnemonic::BEQ => Instruction::BEQ(lo as i8),
        Mnemonic::BIT => Instruction::BIT(op),
        Mnemonic::BMI => Instruction::BMI(lo as i8),
        Mnemonic::BNE => Instruction::BNE(lo as i8),
        Mnemonic::BPL => Instruction::BPL(lo as i8),
        Mnemonic::BRK => Instruction::BRK,
        Mnemonic::BVC => Instruction::BVC(lo as i8),
        Mnemonic::BVS => Instruction::BVS(lo as i8),
        Mnemonic::CLC => Instruction::CLC,
        Mnemonic::CLD => Instruction::CLD,
        Mnemonic::CLI => Instruction::CLI,
        Mnemonic::CLV => Instruction::CLV,
        Mnemonic::CMP => Instruction::CMP(op),
        Mnemonic::CPX => Instruction::CPX(op),
        Mnemonic::CPY => Instruction::CPY(op),
        Mnemonic::DEC => Instruction::DEC(op),
        Mnemonic::DEX => Instruction::DEX,
        Mnemonic::DEY => Instruction::DEY,
        Mnemonic::EOR => Instruction::EOR(op),
        Mnemonic::INC => Instruction::INC(op),
        Mnemonic::INX => Instruction::INX,
        Mnemonic::INY => Instruction::INY,
        Mnemonic::JMP => Instruction::JMP(op),
        Mnemonic::JSR => Instruction::JSR(target),
        Mnemonic::LDA => Instruction::LDA(op),
        Mnemonic::LDX => Instruction::LDX(op),
        Mnemonic::LDY => Instruction::LDY(op),
        Mnemonic::LSR => Instruction::LSR(op),
        Mnemonic::NOP => Instruction::NOP,
        Mnemonic::ORA => Instruction::ORA(op),
        Mnemonic::PHA => Instruction::PHA,
        Mnemonic::PHP => Instruction::PHP,
        Mnemonic::PLA => Instruction::PLA,
        Mnemonic::PLP => Instruction::PLP,
        Mnemonic::ROL => Instruction::ROL(op),
        Mnemonic::ROR => Instruction::ROR(op),
        Mnemonic::RTI => Instruction::RTI,
        Mnemonic::RTS => Instruction::RTS,
        Mnemonic::SBC => Instruction::SBC(op),
        Mnemonic::SEC => Instruction::SEC,
        Mnemonic::SED => Instruction::SED,
        Mnemonic::SEI => Instruction::SEI,
        Mnemonic::STA => Instruction::STA(op),
        Mnemonic::STX => Instruction::STX(op),
        Mnemonic::STY => Instruction::STY(op),
        Mnemonic::TAX => Instruction::TAX,
        Mnemonic::TAY => Instruction::TAY,
        Mnemonic::TSX => Instruction::TSX,
        Mnemonic::TXA => Instruction::TXA,
        Mnemonic::TXS => Instruction::TXS,
        Mnemonic::TYA => Instruction::TYA,
    }
}

/// Builds the decoded instruction for a mnemonic.
pub fn build(m: Mnemonic, op: Operand, lo: u8, target: u16) -> (r: Instruction)
    ensures
        r == spec_build(m, op, lo, target),
{
    match m {
        Mnemonic::ADC => Instruction::ADC(op),
        Mnemonic::AND => Instruction::AND(op),
        Mnemonic::ASL => Instruction::ASL(op),
        Mnemonic::BCC => Instruction::BCC(lo as i8),
        Mnemonic::BCS => Instruction::BCS(lo as i8),
        Mnemonic::BEQ => Instruction::BEQ(lo as i8),
        Mnemonic::BIT => Instruction::BIT(op),
        Mnemonic::BMI => Instruction::BMI(lo as i8),
        Mnemonic::BNE => Instruction::BNE(lo as i8),
        Mnemonic::BPL => Instruction::BPL(lo as i8),
        Mnemonic::BRK => Instruction::BRK,
        Mnemonic::BVC => Instruction::BVC(lo as i8),
        Mnemonic::BVS => Instruction::BVS(lo as i8),
        Mnemonic::CLC => Instruction::CLC,
        Mnemonic::CLD => Instruction::CLD,
        Mnemonic::CLI => Instruction::CLI,
        Mnemonic::CLV => Instruction::CLV,
        Mnemonic::CMP => Instruction::CMP(op),
        Mnemonic::CPX => Instruction::CPX(op),
        Mnemonic::CPY => Instruction::CPY(op),
        Mnemonic::DEC => Instruction::DEC(op),
        Mnemonic::DEX => Instruction::DEX,
        Mnemonic::DEY => Instruction::DEY,
        Mnemonic::EOR => Instruction::EOR(op),
        Mnemonic::INC => Instruction::INC(op),
        Mnemonic::INX => Instruction::INX,
        Mnemonic::INY => Instruction::INY,
        Mnemonic::JMP => Instruction::JMP(op),
        Mnemonic::JSR => Instruction::JSR(target),
        Mnemonic::LDA => Instruction::LDA(op),
        Mnemonic::LDX => Instruction::LDX(op),
        Mnemonic::LDY => Instruction::LDY(op),
        Mnemonic::LSR => Instruction::LSR(op),
        Mnemonic::NOP => Instruction::NOP,
        Mnemonic::ORA => Instruction::ORA(op),
        Mnemonic::PHA => Instruction::PHA,
        Mnemonic::PHP => Instruction::PHP,
        Mnemonic::PLA => Instruction::PLA,
        Mnemonic::PLP => Instruction::PLP,
        Mnemonic::ROL => Instruction::ROL(op),
        Mnemonic::ROR => Instruction::ROR(op),
        Mnemonic::RTI => Instruction::RTI,
        Mnemonic::RTS => Instruction::RTS,
        Mnemonic::SBC => Instruction::SBC(op),
        Mnemonic::SEC => Instruction::SEC,
        Mnemonic::SED => Instruction::SED,
        Mnemonic::SEI => Instruction::SEI,
        Mnemonic::STA => Instruction::STA(op),
        Mnemonic::STX => Instruction::STX(op),
        Mnemonic::STY => Instruction::STY(op),
        Mnemonic::TAX => Instruction::TAX,
        Mnemonic::TAY => Instruction::TAY,
        Mnemonic::TSX => Instruction::TSX,
        Mnemonic::TXA => Instruction::TXA,
        Mnemonic::TXS => Instruction::TXS,
        Mnemonic::TYA => Instruction::TYA,
    }
}

/// The result of decoding one instruction at address `pc`: the instruction,
/// the program counter advanced past it, and its base cycle cost; or the
/// error met fetching or classifying the bytes. Argument addresses wrap
/// modulo 2^16.
pub open spec fn spec_decode<M: Memory>(mem: &M, pc: u16) -> Result<(Instruction, u16, u8), Error> {
    if !mem.can_read(pc as int) {
        Err(Error::ErrorReadingMemory(mem.read_err(pc as int)))
    } else {
        let b = mem.byte_at(pc as int);
        match spec_op_entry(b) {
            None => Err(Error::UnknownOpcode(b)),
            Some(entry) => {
                let len = spec_mode_len(entry.1);
                let a1 = vstd::wrapping::u16_specs::wrapping_add(pc, 1);
                let a2 = vstd::wrapping::u16_specs::wrapping_add(pc, 2);
                if len >= 2 && !mem.can_read(a1 as int) {
                    Err(Error::ErrorReadingMemory(mem.read_err(a1 as int)))
                } else if len == 3 && !mem.can_read(a2 as int) {
                    Err(Error::ErrorReadingMemory(mem.read_err(a2 as int)))
                } else {
                    let lo = if len >= 2 {
                        mem.byte_at(a1 as int)
                    } else {
                        0
                    };
                    let hi = if len == 3 {
                        mem.byte_at(a2 as int)
                    } else {
                        0
                    };
                    let op = spec_mode_operand(entry.1, lo, hi);
                    Ok((
                        spec_build(entry.0, op, lo, le16(lo, hi)),
                        spec_advance(pc, len as i16),
                        entry.2,
                    ))
                }
            },
        }
    }
}

/// Decodes the instruction at the program counter and advances the counter
/// past it. Returns the instruction together with its base cycle cost. On
/// any failure the program counter is unchanged.
pub fn decode<M: Memory>(pc: &mut ProgramCounter, mem: &M) -> (r: Result<(Instruction, u8), Error>)
    ensures
        match spec_decode(mem, old(pc).value) {
            Ok(d) => {
                &&& r == Ok::<(Instruction, u8), Error>((d.0, d.2))
                &&& final(pc).value == d.1
            },
            Err(e) => {
                &&& r == Err::<(Instruction, u8), Error>(e)
                &&& *final(pc) == *old(pc)
            },
        },
{
    let base = pc.get();
    let b = match mem.get_u8(base as u64) {
        Ok(v) => v,
        Err(e) => {
            return Err(Error::ErrorReadingMemory(e));
        },
    };
    let (mnemonic, mode, cycles) = match op_entry(b) {
        Some(entry) => entry,
        None => {
            return Err(Error::UnknownOpcode(b));
        },
    };
    let len = mode_len(mode);
    let lo: u8 = if len >= 2 {
        match mem.get_u8(base.wrapping_add(1) as u64) {
            Ok(v) => v,
            Err(e) => {
                return Err(Error::ErrorReadingMemory(e));
            },
        }
    } else {
        0
    };
    let hi: u8 = if len == 3 {
        match mem.get_u8(base.wrapping_add(2) as u64) {
            Ok(v) => v,
            Err(e) => {
                return Err(Error::ErrorReadingMemory(e));
            },
        }
    } else {
        0
    };
    let op = mode_operand(mode, lo, hi);
    let target = lo as u16 + hi as u16 * 256;
    let inst = build(mnemonic, op, lo, target);
    pc.advance(len as i16);
    Ok((inst, cycles))
}

} // verus!
