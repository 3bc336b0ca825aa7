use remy::cpu::{self, Mos6502};
use remy::mem::{self, Memory, set_u16_le};
use remy::operand::{Error, Operand};

#[test]
pub fn to_string_test() {
    assert_eq!("#$AB", Operand::Immediate(0xAB).to_string());
    assert_eq!("A", Operand::Accumulator.to_string());
    assert_eq!("$ABCD", Operand::Absolute(0xABCD).to_string());
    assert_eq!("$0BCD", Operand::Absolute(0x0BCD).to_string());
    assert_eq!("$AB", Operand::Absolute(0x00AB).to_string());
    assert_eq!("$ABCD,X", Operand::Indexed(0xABCD, cpu::RegisterName::X).to_string());
    assert_eq!("$ABCD,Y", Operand::Indexed(0xABCD, cpu::RegisterName::Y).to_string());
    assert_eq!("$0BCD,X", Operand::Indexed(0xBCD, cpu::RegisterName::X).to_string());
    assert_eq!("$0BCD,Y", Operand::Indexed(0xBCD, cpu::RegisterName::Y).to_string());
    assert_eq!("$AB,X", Operand::Indexed(0x00AB, cpu::RegisterName::X).to_string());
    assert_eq!("$AB,Y", Operand::Indexed(0x00AB, cpu::RegisterName::Y).to_string());
    assert_eq!("$ABCD", Operand::Indirect(0xABCD).to_string());
    assert_eq!("($AB,X)", Operand::PreIndexedIndirect(0xAB).to_string());
    assert_eq!("($AB),Y", Operand::PostIndexedIndirect(0xAB).to_string());
}

#[test]
pub fn set_absolute_puts_value_in_memory_location() {
    let mut mem = mem::Fixed::new(10);
    let mut cpu = Mos6502::new();
    assert!(Operand::Absolute(2).set_u8(&mut cpu, &mut mem, 24).is_ok());
    let val = mem.get_u8(2).unwrap();
    assert_eq!(val, 24);
}

#[test]
pub fn set_indexed_x_puts_value_in_memory_location() {
    let mut mem = mem::Fixed::new(10);
    let mut cpu = Mos6502::new();
    cpu.registers.x = 1;
    assert!(Operand::Indexed(2, cpu::RegisterName::X).set_u8(&mut cpu, &mut mem, 24).is_ok());
    let val = mem.get_u8(3).unwrap();
    assert_eq!(val, 24);
}

#[test]
pub fn set_indexed_y_puts_value_in_memory_location() {
    let mut mem = mem::Fixed::new(10);
    let mut cpu = Mos6502::new();
    cpu.registers.y = 1;
    assert!(Operand::Indexed(2, cpu::RegisterName::Y).set_u8(&mut cpu, &mut mem, 24).is_ok());
    let val = mem.get_u8(3).unwrap();
    assert_eq!(val, 24);
}

#[test]
pub fn set_accumulator_puts_value_in_accumulator() {
    let mut mem = mem::Fixed::new(10);
    let mut cpu = Mos6502::new();
    cpu.registers.a = 24;
    Operand::Accumulator.set_u8(&mut cpu, &mut mem, 42).unwrap();
    assert_eq!(cpu.registers.a, 42);
}

#[test]
pub fn get_accumulator_returns_value_from_accumulator() {
    let mut cpu = Mos6502::new();
    cpu.registers.a = 42;
    assert_eq!(Ok(42), Operand::Accumulator.get_u8(&mut cpu, &mem::Empty));
}

#[test]
pub fn get_immediate_returns_immediate_value() {
    let cpu = Mos6502::new();
    let val = Operand::Immediate(42).get_u8(&cpu, &mem::Empty).unwrap();
    assert_eq!(val, 42);
}

#[test]
pub fn get_absolute_returns_value_from_memory_address() {
    let mut mem = mem::Fixed::new(10);
    let cpu = Mos6502::new();
    assert!(mem.set_u8(4, 42).is_ok());
    let val = Operand::Absolute(4).get_u8(&cpu, &mem).unwrap();
    assert_eq!(val, 42);
}

#[test]
pub fn get_indexed_x_adds_x_to_address() {
    let mut mem = mem::Fixed::new(10);
    let mut cpu = Mos6502::new();
    assert!(mem.set_u8(4, 42).is_ok());
    cpu.registers.x = 2;
    let val = Operand::Indexed(2, cpu::RegisterName::X).get_u8(&cpu, &mem).unwrap();
    assert_eq!(val, 42);
}

#[test]
pub fn get_indexed_y_adds_y_to_address() {
    let mut mem = mem::Fixed::new(10);
    let mut cpu = Mos6502::new();
    assert!(mem.set_u8(4, 42).is_ok());
    cpu.registers.y = 2;
    let val = Operand::Indexed(2, cpu::RegisterName::Y).get_u8(&cpu, &mem).unwrap();
    assert_eq!(val, 42);
}

#[test]
pub fn get_preindexed_indirect_works() {
    let mut mem = mem::Fixed::new(10);
    let mut cpu = Mos6502::new();
    assert!(mem.set_u8(8, 42).is_ok()); // Value
    assert!(set_u16_le(&mut mem, 6, 8).is_ok()); // Indirect Memory Address
    cpu.registers.x = 2;
    let val = Operand::PreIndexedIndirect(4).get_u8(&cpu, &mem).unwrap();
    assert_eq!(val, 42);
}

#[test]
pub fn get_postindexed_indirect_works() {
    let mut mem = mem::Fixed::new(10);
    let mut cpu = Mos6502::new();
    assert!(mem.set_u8(8, 42).is_ok()); // Value
    assert!(set_u16_le(&mut mem, 2, 6).is_ok()); // Indirect Memory Address
    cpu.registers.y = 2;
    let val = Operand::PostIndexedIndirect(2).get_u8(&cpu, &mem).unwrap();
    assert_eq!(val, 42);
}

#[test]
pub fn get_addr_of_immediate_is_a_non_address_operand_error() {
    let cpu = Mos6502::new();
    assert_eq!(
        Err(Error::NonAddressOperand),
        Operand::Immediate(42).get_addr(&cpu, &mem::Empty)
    );
}

#[test]
pub fn set_immediate_is_a_read_only_operand_error() {
    let mut mem = mem::Fixed::new(10);
    let mut cpu = Mos6502::new();
    assert_eq!(
        Err(Error::ReadOnlyOperand),
        Operand::Immediate(42).set_u8(&mut cpu, &mut mem, 1)
    );
    assert_eq!(Ok(0), mem.get_u8(0));
}
