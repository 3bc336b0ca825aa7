use remy::cpu::RegisterName;
use remy::decoder::{decode, Error, Mnemonic, Mode, mode_len, op_entry};
use remy::instr::Instruction;
use remy::mem::{self, Memory};
use remy::operand::Operand;
use remy::pc::ProgramCounter;

fn program(bytes: &[u8]) -> mem::Fixed {
    let mut m = mem::Fixed::new(bytes.len());
    for (i, b) in bytes.iter().enumerate() {
        m.set_u8(i as u64, *b).unwrap();
    }
    m
}

#[test]
pub fn decodes_an_immediate_instruction_and_advances_the_counter() {
    let m = program(&[0xA9, 0x42]); // LDA #$42
    let mut pc = ProgramCounter::new();
    let (inst, cycles) = decode(&mut pc, &m).unwrap();
    assert_eq!(Instruction::LDA(Operand::Immediate(0x42)), inst);
    assert_eq!(2, cycles);
    assert_eq!(2, pc.get());
}

#[test]
pub fn decodes_absolute_arguments_little_endian() {
    let m = program(&[0x8D, 0xCD, 0xAB]); // STA $ABCD
    let mut pc = ProgramCounter::new();
    let (inst, _) = decode(&mut pc, &m).unwrap();
    assert_eq!(Instruction::STA(Operand::Absolute(0xABCD)), inst);
    assert_eq!(3, pc.get());
}

#[test]
pub fn decodes_indexed_indirect_and_relative_modes() {
    let m = program(&[0xA1, 0x20, 0xB1, 0x30, 0xD0, 0xFE]);
    let mut pc = ProgramCounter::new();
    assert_eq!(
        Instruction::LDA(Operand::PreIndexedIndirect(0x20)),
        decode(&mut pc, &m).unwrap().0
    );
    assert_eq!(
        Instruction::LDA(Operand::PostIndexedIndirect(0x30)),
        decode(&mut pc, &m).unwrap().0
    );
    assert_eq!(Instruction::BNE(-2), decode(&mut pc, &m).unwrap().0);
    assert_eq!(6, pc.get());
}

#[test]
pub fn decodes_jsr_with_a_two_byte_target() {
    let m = program(&[0x20, 0xEF, 0xBE]); // JSR $BEEF
    let mut pc = ProgramCounter::new();
    let (inst, cycles) = decode(&mut pc, &m).unwrap();
    assert_eq!(Instruction::JSR(0xBEEF), inst);
    assert_eq!(6, cycles);
}

#[test]
pub fn decodes_implied_accumulator_and_indirect_modes() {
    let m = program(&[0x00, 0x0A, 0x6C, 0x34, 0x12]);
    let mut pc = ProgramCounter::new();
    assert_eq!(Instruction::BRK, decode(&mut pc, &m).unwrap().0);
    assert_eq!(Instruction::ASL(Operand::Accumulator), decode(&mut pc, &m).unwrap().0);
    assert_eq!(Instruction::JMP(Operand::Indirect(0x1234)), decode(&mut pc, &m).unwrap().0);
}

#[test]
pub fn an_undocumented_opcode_is_an_unknown_opcode_error() {
    let m = program(&[0x02]);
    let mut pc = ProgramCounter::new();
    assert_eq!(
        Err::<(Instruction, u8), Error>(Error::UnknownOpcode(0x02)),
        decode(&mut pc, &m)
    );
    assert_eq!(0, pc.get());
}

#[test]
pub fn a_fetch_past_the_mapped_space_reports_the_memory_error() {
    let m = program(&[0xA9]); // LDA immediate, but its argument is missing
    let mut pc = ProgramCounter::new();
    assert_eq!(
        Err::<(Instruction, u8), Error>(Error::ErrorReadingMemory(
            mem::MemoryError::OutOfBounds(1)
        )),
        decode(&mut pc, &m)
    );
    assert_eq!(0, pc.get());
}

#[test]
pub fn the_opcode_table_lists_the_documented_set() {
    assert_eq!(Some((Mnemonic::ADC, Mode::Immediate, 2)), op_entry(0x69));
    assert_eq!(Some((Mnemonic::ROR, Mode::AbsoluteX, 7)), op_entry(0x7E));
    assert_eq!(Some((Mnemonic::LDX, Mode::ZeroPageY, 4)), op_entry(0xB6));
    assert_eq!(None, op_entry(0xFF));
    assert_eq!(1, mode_len(Mode::Implied));
    assert_eq!(2, mode_len(Mode::Immediate));
    assert_eq!(3, mode_len(Mode::Indirect));
}

#[test]
pub fn zero_page_indexed_modes_decode_to_indexed_operands() {
    let m = program(&[0xB5, 0x10, 0xB6, 0x20]);
    let mut pc = ProgramCounter::new();
    assert_eq!(
        Instruction::LDA(Operand::Indexed(0x10, RegisterName::X)),
        decode(&mut pc, &m).unwrap().0
    );
    assert_eq!(
        Instruction::LDX(Operand::Indexed(0x20, RegisterName::Y)),
        decode(&mut pc, &m).unwrap().0
    );
}
