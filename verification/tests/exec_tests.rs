use remy::cpu::{Mos6502, RegisterName, STACK_START};
use remy::exec::{adc, dec, dispatch, jmp, jsr, ora, set_flag};
use remy::flags::Flags;
use remy::instr::Instruction;
use remy::mem::{self, Memory, set_u16_le};
use remy::operand::Operand;
use remy::virt::Virtual;

fn init_cpu() -> (Mos6502, Virtual<mem::Fixed>) {
    let base_memory = mem::Fixed::new(32);
    let stack_memory = mem::Fixed::new(32);
    let vector_memory = mem::Fixed::new(6);
    let mut vm = Virtual::new();
    vm.attach(0, base_memory).unwrap();
    vm.attach(STACK_START, stack_memory).unwrap();
    vm.attach(0xFFFA, vector_memory).unwrap();

    let mut cpu = Mos6502::new();
    cpu.registers.a = 42;
    cpu.registers.sp = 16;
    cpu.pc.set(0xABCD);
    set_u16_le(&mut vm, 0xFFFE, 0xBEEF).unwrap();

    (cpu, vm)
}

#[test]
pub fn bcs_does_not_modify_pc_if_carry_flag_clear() {
    let (mut cpu, mut vm) = init_cpu();
    dispatch(Instruction::BCS(1), &mut cpu, &mut vm).unwrap();
    assert_eq!(cpu.pc.get(), 0xABCD);
}

#[test]
pub fn bcs_advances_pc_by_specified_amount_if_carry_flag_set() {
    let (mut cpu, mut vm) = init_cpu();
    cpu.flags.set(Flags::CARRY());
    dispatch(Instruction::BCS(1), &mut cpu, &mut vm).unwrap();
    assert_eq!(cpu.pc.get(), 0xABCE);
}

#[test]
pub fn beq_advances_pc_by_specified_amount_if_zero_flag_set() {
    let (mut cpu, mut vm) = init_cpu();
    cpu.flags.set(Flags::ZERO());
    dispatch(Instruction::BEQ(1), &mut cpu, &mut vm).unwrap();
    assert_eq!(cpu.pc.get(), 0xABCE);
}

#[test]
pub fn beq_does_not_modify_pc_if_zero_flag_clear() {
    let (mut cpu, mut vm) = init_cpu();
    dispatch(Instruction::BEQ(1), &mut cpu, &mut vm).unwrap();
    assert_eq!(cpu.pc.get(), 0xABCD);
}

#[test]
pub fn bit_sets_sign_bit_if_bit_7_of_operand_is_set() {
    let (mut cpu, mut vm) = init_cpu();
    cpu.registers.a = 0xFF;
    dispatch(Instruction::BIT(Operand::Immediate(0x80)), &mut cpu, &mut vm).unwrap();
    assert_eq!(cpu.flags, Flags::SIGN().union(Flags::RESERVED()));
}

#[test]
pub fn bit_clears_sign_bit_if_bit_7_of_operand_is_not_set() {
    let (mut cpu, mut vm) = init_cpu();
    cpu.registers.a = 0xFF;
    cpu.flags.set(Flags::SIGN().union(Flags::RESERVED()));
    dispatch(Instruction::BIT(Operand::Immediate(0x01)), &mut cpu, &mut vm).unwrap();
    assert_eq!(cpu.flags, Flags::RESERVED());
}

#[test]
pub fn bit_sets_overflow_bit_if_bit_6_of_operand_is_set() {
    let (mut cpu, mut vm) = init_cpu();
    cpu.registers.a = 0xFF;
    dispatch(Instruction::BIT(Operand::Immediate(0x40)), &mut cpu, &mut vm).unwrap();
    assert_eq!(cpu.flags, Flags::OVERFLOW().union(Flags::RESERVED()));
}

#[test]
pub fn bit_clears_overflow_bit_if_bit_6_of_operand_is_not_set() {
    let (mut cpu, mut vm) = init_cpu();
    cpu.registers.a = 0xFF;
    cpu.flags.set(Flags::OVERFLOW().union(Flags::RESERVED()));
    dispatch(Instruction::BIT(Operand::Immediate(0x01)), &mut cpu, &mut vm).unwrap();
    assert_eq!(cpu.flags, Flags::RESERVED());
}

#[test]
pub fn bit_sets_zero_flag_if_result_of_masking_operand_with_a_is_zero() {
    let (mut cpu, mut vm) = init_cpu();
    cpu.registers.a = 0x02;
    dispatch(Instruction::BIT(Operand::Immediate(0x01)), &mut cpu, &mut vm).unwrap();
    assert_eq!(cpu.flags, Flags::ZERO().union(Flags::RESERVED()));
}

#[test]
pub fn bit_clears_zero_flag_if_result_of_masking_operand_with_a_is_nonzero() {
    let (mut cpu, mut vm) = init_cpu();
    cpu.registers.a = 0x02;
    cpu.flags.set(Flags::ZERO().union(Flags::RESERVED()));
    dispatch(Instruction::BIT(Operand::Immediate(0x03)), &mut cpu, &mut vm).unwrap();
    assert_eq!(cpu.flags, Flags::RESERVED());
}

#[test]
pub fn mod_bmi_advances_pc_by_specified_amount_if_sign_flag_set() {
    let (mut cpu, mut vm) = init_cpu();
    cpu.flags.set(Flags::SIGN());
    dispatch(Instruction::BMI(1), &mut cpu, &mut vm).unwrap();
    assert_eq!(cpu.pc.get(), 0xABCE);
}

#[test]
pub fn mod_bmi_does_not_modify_pc_if_sign_flag_clear() {
    let (mut cpu, mut vm) = init_cpu();
    dispatch(Instruction::BMI(1), &mut cpu, &mut vm).unwrap();
    assert_eq!(cpu.pc.get(), 0xABCD);
}

#[test]
pub fn bne_advances_pc_by_specified_amount_if_zero_flag_clear() {
    let (mut cpu, mut vm) = init_cpu();
    dispatch(Instruction::BNE(1), &mut cpu, &mut vm).unwrap();
    assert_eq!(cpu.pc.get(), 0xABCE);
}

#[test]
pub fn bne_does_not_modify_pc_if_zero_flag_set() {
    let (mut cpu, mut vm) = init_cpu();
    cpu.flags.set(Flags::ZERO());
    dispatch(Instruction::BNE(1), &mut cpu, &mut vm).unwrap();
    assert_eq!(cpu.pc.get(), 0xABCD);
}

#[test]
pub fn bpl_advances_pc_by_specified_amount_if_sign_flag_clear() {
    let (mut cpu, mut vm) = init_cpu();
    dispatch(Instruction::BPL(1), &mut cpu, &mut vm).unwrap();
    assert_eq!(cpu.pc.get(), 0xABCE);
}

#[test]
pub fn bpl_does_not_modify_pc_if_sign_flag_set() {
    let (mut cpu, mut vm) = init_cpu();
    cpu.flags.set(Flags::SIGN());
    dispatch(Instruction::BPL(1), &mut cpu, &mut vm).unwrap();
    assert_eq!(cpu.pc.get(), 0xABCD);
}

#[test]
pub fn brk_increments_and_pushes_pc_on_to_stack() {
    let (mut cpu, mut vm) = init_cpu();
    dispatch(Instruction::BRK, &mut cpu, &mut vm).unwrap();

    assert_eq!(Ok(0xAB), vm.get_u8(STACK_START + 16));
    assert_eq!(Ok(0xCE), vm.get_u8(STACK_START + 15));
}

#[test]
pub fn brk_sets_break_flag_and_pushes_flags_on_to_stack() {
    let (mut cpu, mut vm) = init_cpu();
    let flags = Flags::SIGN().union(Flags::OVERFLOW()).union(Flags::RESERVED());
    cpu.flags.set(flags);
    dispatch(Instruction::BRK, &mut cpu, &mut vm).unwrap();

    assert_eq!(Ok(flags.union(Flags::BREAK()).bits), vm.get_u8(STACK_START + 14));
}

#[test]
pub fn brk_does_not_set_break_flag_on_current_flags() {
    let (mut cpu, mut vm) = init_cpu();
    let flags = Flags::SIGN().union(Flags::OVERFLOW()).union(Flags::RESERVED());
    cpu.flags.set(flags);
    dispatch(Instruction::BRK, &mut cpu, &mut vm).unwrap();

    // BREAK is set only in the pushed copy; the live flags take INTERRUPT.
    assert!(!cpu.flags.intersects(Flags::BREAK()));
    assert_eq!(flags.union(Flags::INTERRUPT()), cpu.flags);
}

#[test]
pub fn brk_sets_interrupt_on_the_live_flags_after_the_pushes() {
    let (mut cpu, mut vm) = init_cpu();
    dispatch(Instruction::BRK, &mut cpu, &mut vm).unwrap();
    assert!(cpu.flags.intersects(Flags::INTERRUPT()));
    // the pushed copy predates it: BREAK set, INTERRUPT still clear there
    assert_eq!(
        Ok(Flags::RESERVED().union(Flags::BREAK()).bits),
        vm.get_u8(STACK_START + 14)
    );
}

#[test]
pub fn brk_sets_pc_to_address_at_vector() {
    let (mut cpu, mut vm) = init_cpu();
    dispatch(Instruction::BRK, &mut cpu, &mut vm).unwrap();

    assert_eq!(0xBEEF, cpu.pc.get());
}

#[test]
pub fn bvc_advances_pc_by_specified_amount_if_overflow_flag_clear() {
    let (mut cpu, mut vm) = init_cpu();
    dispatch(Instruction::BVC(1), &mut cpu, &mut vm).unwrap();
    assert_eq!(cpu.pc.get(), 0xABCE);
}

#[test]
pub fn bvc_does_not_modify_pc_if_overflow_flag_set() {
    let (mut cpu, mut vm) = init_cpu();
    cpu.flags.set(Flags::OVERFLOW());
    dispatch(Instruction::BVC(1), &mut cpu, &mut vm).unwrap();
    assert_eq!(cpu.pc.get(), 0xABCD);
}

#[test]
pub fn mod_bvs_advances_pc_by_specified_amount_if_overflow_flag_set() {
    let (mut cpu, mut vm) = init_cpu();
    cpu.flags.set(Flags::OVERFLOW());
    dispatch(Instruction::BVS(1), &mut cpu, &mut vm).unwrap();
    assert_eq!(cpu.pc.get(), 0xABCE);
}

#[test]
pub fn bvc_does_not_modify_pc_if_overflow_flag_clear() {
    let (mut cpu, mut vm) = init_cpu();
    dispatch(Instruction::BVS(1), &mut cpu, &mut vm).unwrap();
    assert_eq!(cpu.pc.get(), 0xABCD);
}

#[test]
pub fn mod_clc_clears_carry_flag() {
    let (mut cpu, mut vm) = init_cpu();
    cpu.flags.set(Flags::CARRY());
    dispatch(Instruction::CLC, &mut cpu, &mut vm).unwrap();
    assert!(!cpu.flags.intersects(Flags::CARRY()));
}

#[test]
pub fn cld_clears_bcd_flag() {
    let (mut cpu, mut vm) = init_cpu();
    cpu.flags.set(Flags::BCD());
    dispatch(Instruction::CLD, &mut cpu, &mut vm).unwrap();
    assert!(!cpu.flags.intersects(Flags::BCD()));
}

#[test]
pub fn cli_clears_interrupt_flag() {
    let (mut cpu, mut vm) = init_cpu();
    cpu.flags.set(Flags::INTERRUPT());
    dispatch(Instruction::CLI, &mut cpu, &mut vm).unwrap();
    assert!(!cpu.flags.intersects(Flags::INTERRUPT()));
}

#[test]
pub fn clv_clears_overflow_flag() {
    let (mut cpu, mut vm) = init_cpu();
    cpu.flags.set(Flags::OVERFLOW());
    dispatch(Instruction::CLV, &mut cpu, &mut vm).unwrap();
    assert!(!cpu.flags.intersects(Flags::OVERFLOW()));
}

#[test]
pub fn cmp_sets_sign_bit_if_operand_greater_than_a() {
    let (mut cpu, mut vm) = init_cpu();
    dispatch(Instruction::CMP(Operand::Immediate(43)), &mut cpu, &mut vm).unwrap();
    assert!(cpu.flags.intersects(Flags::SIGN()));
}

#[test]
pub fn cmp_clears_sign_bit_if_operand_less_than_a() {
    let (mut cpu, mut vm) = init_cpu();
    cpu.flags.set(Flags::SIGN());
    dispatch(Instruction::CMP(Operand::Immediate(41)), &mut cpu, &mut vm).unwrap();
    assert!(!cpu.flags.intersects(Flags::SIGN()));
}

#[test]
pub fn cmp_sets_carry_bit_if_a_greater_than_operand() {
    let (mut cpu, mut vm) = init_cpu();
    dispatch(Instruction::CMP(Operand::Immediate(41)), &mut cpu, &mut vm).unwrap();
    assert!(cpu.flags.intersects(Flags::CARRY()));
}

#[test]
pub fn cmp_sets_carry_bit_if_a_equal_to_operand() {
    let (mut cpu, mut vm) = init_cpu();
    dispatch(Instruction::CMP(Operand::Immediate(42)), &mut cpu, &mut vm).unwrap();
    assert!(cpu.flags.intersects(Flags::CARRY()));
}

#[test]
pub fn cmp_clears_carry_bit_if_a_less_than_operand() {
    let (mut cpu, mut vm) = init_cpu();
    cpu.flags.set(Flags::CARRY());
    dispatch(Instruction::CMP(Operand::Immediate(43)), &mut cpu, &mut vm).unwrap();
    assert!(!cpu.flags.intersects(Flags::CARRY()));
}

#[test]
pub fn cmp_sets_zero_bit_if_a_equal_to_operand() {
    let (mut cpu, mut vm) = init_cpu();
    dispatch(Instruction::CMP(Operand::Immediate(42)), &mut cpu, &mut vm).unwrap();
    assert!(cpu.flags.intersects(Flags::ZERO()));
}

#[test]
pub fn cmp_clears_zero_bit_if_a_less_than_operand() {
    let (mut cpu, mut vm) = init_cpu();
    cpu.flags.set(Flags::ZERO());
    dispatch(Instruction::CMP(Operand::Immediate(43)), &mut cpu, &mut vm).unwrap();
    assert!(!cpu.flags.intersects(Flags::ZERO()));
}

#[test]
pub fn cmp_clears_zero_bit_if_a_greater_than_operand() {
    let (mut cpu, mut vm) = init_cpu();
    cpu.flags.set(Flags::ZERO());
    dispatch(Instruction::CMP(Operand::Immediate(41)), &mut cpu, &mut vm).unwrap();
    assert!(!cpu.flags.intersects(Flags::ZERO()));
}

fn init_adc_cpu() -> Mos6502 {
    let mut cpu = Mos6502::new();
    cpu.registers.a = 42;
    cpu
}

#[test]
pub fn adc_adds_regularly_when_carry_not_set() {
    let mut cpu = init_adc_cpu();
    adc::exec(&mut cpu, &mem::Empty, Operand::Immediate(1)).unwrap();
    assert_eq!(cpu.registers.a, 43);
}

#[test]
pub fn adc_adds_carry_value_when_carry_flag_is_set() {
    let mut cpu = init_adc_cpu();
    cpu.flags.set(Flags::CARRY());
    adc::exec(&mut cpu, &mem::Empty, Operand::Immediate(1)).unwrap();
    assert_eq!(cpu.registers.a, 44);
}

#[test]
pub fn adc_sets_flags_when_overflow() {
    let mut cpu = init_adc_cpu();
    adc::exec(&mut cpu, &mem::Empty, Operand::Immediate(255)).unwrap();
    assert_eq!(cpu.registers.a, 41);
    assert_eq!(cpu.flags, Flags::CARRY().union(Flags::RESERVED()));
}

#[test]
pub fn adc_does_regular_addition_when_bcd_disabled_even_when_bcd_flag_set() {
    let mut cpu = Mos6502::without_bcd();
    cpu.flags.set(Flags::BCD());
    cpu.registers.a = 0xAB;
    adc::exec(&mut cpu, &mem::Empty, Operand::Immediate(0xCD)).unwrap();
    assert_eq!(0x78, cpu.registers.a);
    assert!(cpu.flags.intersects(Flags::CARRY()));
}

#[test]
pub fn adc_adds_bcd_when_bcd_flag_set() {
    let mut cpu = init_adc_cpu();
    cpu.flags.set(Flags::BCD());
    cpu.registers.a = 0x25;
    adc::exec(&mut cpu, &mem::Empty, Operand::Immediate(0x24)).unwrap();
    assert_eq!(0x49, cpu.registers.a); // 49 in bcd
}

#[test]
pub fn adc_sets_carry_when_bcd_addition_overflows() {
    let mut cpu = init_adc_cpu();
    cpu.flags.set(Flags::BCD());
    cpu.registers.a = 0x90;
    adc::exec(&mut cpu, &mem::Empty, Operand::Immediate(0x12)).unwrap();
    assert_eq!(0x02, cpu.registers.a);
    assert!(cpu.flags.intersects(Flags::CARRY()));
}

fn init_dec_cpu() -> (Mos6502, Virtual<mem::Fixed>) {
    let base_memory = mem::Fixed::new(10);
    let mut vm = Virtual::new();
    vm.attach(0, base_memory).unwrap();
    let cpu = Mos6502::new();
    (cpu, vm)
}

#[test]
fn dec_sets_sign_flag_if_new_value_is_negative() {
    let (mut cpu, mut vm) = init_dec_cpu();
    vm.set_u8(0, 0).unwrap();
    dec::mem(&mut cpu, &mut vm, Operand::Absolute(0)).unwrap();
    assert!(cpu.flags.intersects(Flags::SIGN()));
}

#[test]
fn dec_clears_sign_flag_if_new_value_is_non_negative() {
    let (mut cpu, mut vm) = init_dec_cpu();
    vm.set_u8(0, 2).unwrap();
    cpu.flags.set(Flags::SIGN());
    dec::mem(&mut cpu, &mut vm, Operand::Absolute(0)).unwrap();
    assert!(!cpu.flags.intersects(Flags::SIGN()));
}

#[test]
fn dec_sets_zero_flag_if_new_value_is_zero() {
    let (mut cpu, mut vm) = init_dec_cpu();
    vm.set_u8(0, 1).unwrap();
    dec::mem(&mut cpu, &mut vm, Operand::Absolute(0)).unwrap();
    assert!(cpu.flags.intersects(Flags::ZERO()));
}

#[test]
fn dec_clears_zero_flag_if_new_value_is_nonzero() {
    let (mut cpu, mut vm) = init_dec_cpu();
    vm.set_u8(0, 2).unwrap();
    cpu.flags.set(Flags::ZERO());
    dec::mem(&mut cpu, &mut vm, Operand::Absolute(0)).unwrap();
    assert!(!cpu.flags.intersects(Flags::ZERO()));
}

#[test]
fn dec_sets_operand_to_original_value_minus_one() {
    let (mut cpu, mut vm) = init_dec_cpu();
    vm.set_u8(0, 42).unwrap();
    dec::mem(&mut cpu, &mut vm, Operand::Absolute(0)).unwrap();
    assert_eq!(Ok(41), vm.get_u8(0));
}

#[test]
pub fn jmp_sets_pc_to_address_if_absolute_argument() {
    let vm: Virtual<mem::Fixed> = Virtual::new();
    let mut cpu = Mos6502::new();

    jmp::exec(&mut cpu, &vm, Operand::Absolute(0xBEEF)).unwrap();

    assert_eq!(0xBEEF, cpu.pc.get());
}

#[test]
pub fn jmp_sets_pc_to_value_at_address_if_indirect_argument() {
    let mut vm = Virtual::new();
    let mut m = mem::Fixed::new(10);
    set_u16_le(&mut m, 5, 0xBEEF).unwrap();
    vm.attach(0, m).unwrap();
    let mut cpu = Mos6502::new();

    jmp::exec(&mut cpu, &vm, Operand::Indirect(5)).unwrap();

    assert_eq!(0xBEEF, cpu.pc.get());
}

fn init_jsr_cpu() -> (Mos6502, Virtual<mem::Fixed>) {
    let stack_memory = mem::Fixed::new(32);
    let mut vm = Virtual::new();
    vm.attach(STACK_START, stack_memory).unwrap();

    let mut cpu = Mos6502::new();
    cpu.registers.a = 42;
    cpu.registers.sp = 16;
    cpu.pc.set(0xABCD);
    (cpu, vm)
}

#[test]
pub fn jsr_sets_pc_to_address() {
    let (mut cpu, mut vm) = init_jsr_cpu();

    jsr::exec(&mut cpu, &mut vm, 0xBEEF).unwrap();

    assert_eq!(0xBEEF, cpu.pc.get());
}

#[test]
pub fn jsr_pushes_old_pc_minus_one_to_stack() {
    let (mut cpu, mut vm) = init_jsr_cpu();

    jsr::exec(&mut cpu, &mut vm, 0xBEEF).unwrap();

    assert_eq!(Ok(0xCC), cpu.pull(&vm));
    assert_eq!(Ok(0xAB), cpu.pull(&vm));
}

fn init_ora_cpu() -> (Mos6502, Virtual<mem::Fixed>) {
    let base_memory = mem::Fixed::new(10);
    let mut vm = Virtual::new();
    vm.attach(0, base_memory).unwrap();
    let cpu = Mos6502::new();
    (cpu, vm)
}

#[test]
fn ora_sets_sign_bit_if_result_is_negative() {
    let (mut cpu, mut vm) = init_ora_cpu();
    vm.set_u8(0, 0b11111000).unwrap();
    cpu.registers.a = 0b00001111;
    ora::exec(&mut cpu, &vm, Operand::Absolute(0)).unwrap();
    assert!(cpu.flags.intersects(Flags::SIGN()));
}

#[test]
fn ora_sets_zero_bit_if_result_is_zero() {
    let (mut cpu, mut vm) = init_ora_cpu();
    vm.set_u8(0, 0b00000000).unwrap();
    cpu.registers.a = 0b00000000;
    ora::exec(&mut cpu, &vm, Operand::Absolute(0)).unwrap();
    assert!(cpu.flags.intersects(Flags::ZERO()));
}

#[test]
fn ora_sets_a_to_result_of_or() {
    let (mut cpu, mut vm) = init_ora_cpu();
    vm.set_u8(0, 0b11111000).unwrap();
    cpu.registers.a = 0b00001111;
    ora::exec(&mut cpu, &vm, Operand::Absolute(0)).unwrap();
    assert_eq!(0b11111111, cpu.registers.a);
}

#[test]
pub fn set_flag_sets_flag() {
    let mut cpu = Mos6502::new();
    cpu.pc.set(0xABCD);
    cpu.flags.set(Flags::SIGN());
    set_flag::exec(&mut cpu, Flags::CARRY()).unwrap();
    assert!(cpu.flags.intersects(Flags::CARRY()));
    assert!(cpu.flags.intersects(Flags::SIGN()));
}

#[test]
pub fn set_flag_set_flag_sets_flag() {
    let mut cpu = Mos6502::new();
    cpu.pc.set(0xABCD);
    cpu.flags.set(Flags::SIGN());
    set_flag::exec(&mut cpu, Flags::CARRY()).unwrap();
    assert!(cpu.flags.intersects(Flags::CARRY()));
    assert!(cpu.flags.intersects(Flags::SIGN()));
}

#[test]
pub fn cmp_flag_pattern_against_equal_lesser_and_greater_operands() {
    for (operand, zero, carry, sign) in
        [(42u8, true, true, false), (41, false, true, false), (43, false, false, true)]
    {
        let (mut cpu, mut vm) = init_cpu();
        cpu.registers.a = 42;
        dispatch(Instruction::CMP(Operand::Immediate(operand)), &mut cpu, &mut vm).unwrap();
        assert_eq!(zero, cpu.flags.intersects(Flags::ZERO()));
        assert_eq!(carry, cpu.flags.intersects(Flags::CARRY()));
        assert_eq!(sign, cpu.flags.intersects(Flags::SIGN()));
    }
}

#[test]
pub fn reg_loading_ops_derive_zero_and_sign_from_the_loaded_value() {
    for (value, zero, sign) in [(0u8, true, false), (0x7F, false, false), (0x80, false, true)] {
        let (mut cpu, mut vm) = init_cpu();
        dispatch(Instruction::LDA(Operand::Immediate(value)), &mut cpu, &mut vm).unwrap();
        assert_eq!(value, cpu.registers.a);
        assert_eq!(zero, cpu.flags.intersects(Flags::ZERO()));
        assert_eq!(sign, cpu.flags.intersects(Flags::SIGN()));
        assert!(cpu.flags.intersects(Flags::RESERVED()));
    }
}

#[test]
pub fn every_flag_mutating_op_leaves_reserved_set() {
    let ops = [
        Instruction::ADC(Operand::Immediate(1)),
        Instruction::AND(Operand::Immediate(1)),
        Instruction::ASL(Operand::Accumulator),
        Instruction::BIT(Operand::Immediate(1)),
        Instruction::CMP(Operand::Immediate(1)),
        Instruction::DEX,
        Instruction::INX,
        Instruction::LDA(Operand::Immediate(1)),
        Instruction::LSR(Operand::Accumulator),
        Instruction::ORA(Operand::Immediate(1)),
        Instruction::PLP,
        Instruction::ROL(Operand::Accumulator),
        Instruction::SBC(Operand::Immediate(1)),
        Instruction::SEC,
        Instruction::CLC,
        Instruction::TAX,
    ];
    for inst in ops {
        let (mut cpu, mut vm) = init_cpu();
        cpu.flags = remy::flags::Flags::new(0);
        dispatch(inst, &mut cpu, &mut vm).unwrap();
        assert!(
            cpu.flags.intersects(Flags::RESERVED()),
            "RESERVED clear after {:?}",
            inst
        );
    }
}

#[test]
pub fn sbc_subtracts_with_borrow_when_carry_clear() {
    let mut cpu = Mos6502::new();
    cpu.registers.a = 10;
    remy::exec::sbc::exec(&mut cpu, &mem::Empty, Operand::Immediate(3)).unwrap();
    assert_eq!(6, cpu.registers.a);
    assert!(cpu.flags.intersects(Flags::CARRY()));
}

#[test]
pub fn sbc_wraps_and_clears_carry_on_borrow_out() {
    let mut cpu = Mos6502::new();
    cpu.flags.set(Flags::CARRY());
    cpu.registers.a = 3;
    remy::exec::sbc::exec(&mut cpu, &mem::Empty, Operand::Immediate(5)).unwrap();
    assert_eq!(0xFE, cpu.registers.a);
    assert!(!cpu.flags.intersects(Flags::CARRY()));
}

#[test]
pub fn shifts_move_the_edge_bit_into_carry() {
    let (mut cpu, mut vm) = init_cpu();
    cpu.registers.a = 0x81;
    dispatch(Instruction::ASL(Operand::Accumulator), &mut cpu, &mut vm).unwrap();
    assert_eq!(0x02, cpu.registers.a);
    assert!(cpu.flags.intersects(Flags::CARRY()));

    let (mut cpu, mut vm) = init_cpu();
    cpu.registers.a = 0x81;
    dispatch(Instruction::LSR(Operand::Accumulator), &mut cpu, &mut vm).unwrap();
    assert_eq!(0x40, cpu.registers.a);
    assert!(cpu.flags.intersects(Flags::CARRY()));
}

#[test]
pub fn rotates_move_carry_through_the_operand() {
    let (mut cpu, mut vm) = init_cpu();
    cpu.flags.set(Flags::CARRY());
    cpu.registers.a = 0x80;
    dispatch(Instruction::ROL(Operand::Accumulator), &mut cpu, &mut vm).unwrap();
    assert_eq!(0x01, cpu.registers.a);
    assert!(cpu.flags.intersects(Flags::CARRY()));

    let (mut cpu, mut vm) = init_cpu();
    cpu.flags.set(Flags::CARRY());
    cpu.registers.a = 0x01;
    dispatch(Instruction::ROR(Operand::Accumulator), &mut cpu, &mut vm).unwrap();
    assert_eq!(0x80, cpu.registers.a);
    assert!(cpu.flags.intersects(Flags::CARRY()));
}

#[test]
pub fn rts_resumes_one_past_the_pulled_address() {
    let (mut cpu, mut vm) = init_jsr_cpu();
    jsr::exec(&mut cpu, &mut vm, 0xBEEF).unwrap();
    remy::exec::rts::exec(&mut cpu, &vm).unwrap();
    assert_eq!(0xABCD, cpu.pc.get());
    assert_eq!(16, cpu.registers.sp);
}

#[test]
pub fn rti_restores_flags_and_pc_from_the_stack() {
    let (mut cpu, mut vm) = init_cpu();
    cpu.push(&mut vm, 0xAB).unwrap();
    cpu.push(&mut vm, 0xCD).unwrap();
    cpu.push(&mut vm, 0x81).unwrap();
    remy::exec::rti::exec(&mut cpu, &vm).unwrap();
    assert_eq!(0xABCD, cpu.pc.get());
    assert_eq!(0x81 | 0x20, cpu.flags.bits);
}

#[test]
pub fn transfers_copy_registers_and_txs_leaves_flags_alone() {
    let (mut cpu, mut vm) = init_cpu();
    cpu.registers.x = 0x80;
    let before = cpu.flags;
    dispatch(Instruction::TXS, &mut cpu, &mut vm).unwrap();
    assert_eq!(0x80, cpu.registers.sp);
    assert_eq!(before, cpu.flags);

    dispatch(Instruction::TXA, &mut cpu, &mut vm).unwrap();
    assert_eq!(0x80, cpu.registers.a);
    assert!(cpu.flags.intersects(Flags::SIGN()));
}

#[test]
pub fn stores_write_the_register_through_the_operand() {
    let (mut cpu, mut vm) = init_dec_cpu();
    cpu.registers.a = 0x5A;
    dispatch(Instruction::STA(Operand::Absolute(3)), &mut cpu, &mut vm).unwrap();
    assert_eq!(Ok(0x5A), vm.get_u8(3));
}

#[test]
pub fn pha_and_pla_round_trip_the_accumulator() {
    let (mut cpu, mut vm) = init_cpu();
    cpu.registers.a = 0x77;
    dispatch(Instruction::PHA, &mut cpu, &mut vm).unwrap();
    cpu.registers.a = 0;
    dispatch(Instruction::PLA, &mut cpu, &mut vm).unwrap();
    assert_eq!(0x77, cpu.registers.a);
    assert_eq!(16, cpu.registers.sp);
}

#[test]
pub fn inc_and_iny_wrap_at_the_byte_boundary() {
    let (mut cpu, mut vm) = init_dec_cpu();
    vm.set_u8(0, 0xFF).unwrap();
    dispatch(Instruction::INC(Operand::Absolute(0)), &mut cpu, &mut vm).unwrap();
    assert_eq!(Ok(0), vm.get_u8(0));
    assert!(cpu.flags.intersects(Flags::ZERO()));

    cpu.registers.y = 0xFF;
    dispatch(Instruction::INY, &mut cpu, &mut vm).unwrap();
    assert_eq!(0, cpu.registers.y);
}

#[test]
pub fn asl_on_a_read_only_operand_reports_the_error() {
    let (mut cpu, mut vm) = init_cpu();
    let r = dispatch(Instruction::ASL(Operand::Immediate(1)), &mut cpu, &mut vm);
    assert_eq!(
        Err(remy::exec::Error::ErrorRetrievingOperand(
            remy::operand::Error::ReadOnlyOperand
        )),
        r
    );
}

#[test]
pub fn register_name_indexes_through_x_and_y() {
    let (mut cpu, mut vm) = init_cpu();
    vm.set_u8(7, 0x44).unwrap();
    cpu.registers.x = 2;
    dispatch(Instruction::LDA(Operand::Indexed(5, RegisterName::X)), &mut cpu, &mut vm).unwrap();
    assert_eq!(0x44, cpu.registers.a);
}
