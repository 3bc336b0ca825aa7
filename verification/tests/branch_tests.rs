use remy::cpu::Mos6502;
use remy::exec::{branch, clear_flag};
use remy::flags::Flags;

fn init_cpu() -> Mos6502 {
    let mut cpu = Mos6502::new();
    cpu.pc.set(0xABCD);
    cpu
}

#[test]
pub fn bmi_advances_pc_by_specified_amount_if_sign_flag_set() {
    let mut cpu = init_cpu();
    cpu.flags.set(Flags::SIGN());
    branch::if_set(&mut cpu, 1, Flags::SIGN()).unwrap();
    assert_eq!(cpu.pc.get(), 0xABCE);
}

#[test]
pub fn bmi_does_not_modify_pc_if_sign_flag_clear() {
    let mut cpu = init_cpu();
    branch::if_set(&mut cpu, 1, Flags::SIGN()).unwrap();
    assert_eq!(cpu.pc.get(), 0xABCD);
}

#[test]
pub fn bvs_advances_pc_by_specified_amount_if_overflow_flag_set() {
    let mut cpu = init_cpu();
    cpu.flags.set(Flags::OVERFLOW());
    branch::if_set(&mut cpu, 1, Flags::OVERFLOW()).unwrap();
    assert_eq!(cpu.pc.get(), 0xABCE);
}

#[test]
pub fn bvs_does_not_modify_pc_if_overflow_flag_clear() {
    let mut cpu = init_cpu();
    branch::if_set(&mut cpu, 1, Flags::OVERFLOW()).unwrap();
    assert_eq!(cpu.pc.get(), 0xABCD);
}

#[test]
pub fn clc_clears_carry_flag() {
    let mut cpu = init_cpu();
    cpu.flags.set(Flags::CARRY());
    clear_flag::exec(&mut cpu, Flags::CARRY()).unwrap();
    assert!(!cpu.flags.intersects(Flags::CARRY()));
}

#[test]
pub fn branches_take_negative_displacements_backwards() {
    let mut cpu = init_cpu();
    cpu.flags.set(Flags::SIGN());
    branch::if_set(&mut cpu, -2, Flags::SIGN()).unwrap();
    assert_eq!(cpu.pc.get(), 0xABCB);
}
