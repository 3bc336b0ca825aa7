use remy::cpu::{self, Mos6502, STACK_START, RegisterName};
use remy::flags::Flags;
use remy::mem::{self, Memory};
use remy::virt::Virtual;

pub fn setup_cpu() -> (Mos6502, Virtual<mem::Fixed>) {
    let m = mem::Fixed::new(10);
    let mut vm = Virtual::new();
    vm.attach(STACK_START, m).unwrap();

    let mut cpu = Mos6502::new();
    cpu.registers.sp = 5;
    (cpu, vm)
}

#[test]
pub fn push_places_value_at_current_sp_location() {
    let (mut cpu, mut mem) = setup_cpu();
    cpu.push(&mut mem, 42).unwrap();
    assert_eq!(Ok(42), mem.get_u8(STACK_START + 5));
}

#[test]
pub fn push_decrements_sp() {
    let (mut cpu, mut mem) = setup_cpu();
    cpu.push(&mut mem, 42).unwrap();
    assert_eq!(4, cpu.registers.sp);
}

#[test]
pub fn pull_gets_value_at_sp_plus_one() {
    let (mut cpu, mut mem) = setup_cpu();
    mem.set_u8(STACK_START + 6, 24).unwrap();
    assert_eq!(Ok(24), cpu.pull(&mem));
}

#[test]
pub fn pull_increments_sp() {
    let (mut cpu, mut mem) = setup_cpu();
    mem.set_u8(STACK_START + 6, 24).unwrap();
    cpu.pull(&mem).unwrap();
    assert_eq!(6, cpu.registers.sp);
}

#[test]
pub fn peek_reads_top_of_stack_without_moving_sp() {
    let (mut cpu, mut mem) = setup_cpu();
    mem.set_u8(STACK_START + 6, 77).unwrap();
    assert_eq!(Ok(77), cpu.peek(&mem));
    assert_eq!(5, cpu.registers.sp);
}

#[test]
pub fn pull_after_push_returns_pushed_value_and_restores_sp() {
    let (mut cpu, mut mem) = setup_cpu();
    cpu.push(&mut mem, 0xA7).unwrap();
    assert_eq!(Ok(0xA7), cpu.pull(&mem));
    assert_eq!(5, cpu.registers.sp);
}

#[test]
pub fn sp_wraps_past_the_bottom_of_the_stack_page() {
    let mut cpu = Mos6502::new();
    let m = mem::Fixed::new(0x100);
    let mut vm: Virtual<mem::Fixed> = Virtual::new();
    vm.attach(STACK_START, m).unwrap();
    cpu.registers.sp = 0;
    cpu.push(&mut vm, 9).unwrap();
    assert_eq!(0xFF, cpu.registers.sp);
    assert_eq!(Ok(9), vm.get_u8(STACK_START));
}

#[test]
pub fn gets_a() {
    let mut cpu = Mos6502::new();
    cpu.registers.a = 42;
    assert_eq!(cpu::RegisterName::A.get(&cpu), 42);
}

#[test]
pub fn gets_x() {
    let mut cpu = Mos6502::new();
    cpu.registers.x = 42;
    assert_eq!(cpu::RegisterName::X.get(&cpu), 42);
}

#[test]
pub fn gets_y() {
    let mut cpu = Mos6502::new();
    cpu.registers.y = 42;
    assert_eq!(cpu::RegisterName::Y.get(&cpu), 42);
}

#[test]
pub fn gets_p() {
    let mut cpu = Mos6502::new();
    cpu.flags.set(Flags::SIGN().union(Flags::CARRY()));
    assert_eq!(cpu::RegisterName::P.get(&cpu), cpu.flags.bits);
}

#[test]
pub fn sets_a() {
    let mut cpu = Mos6502::new();
    cpu::RegisterName::A.set(&mut cpu, 42);
    assert_eq!(cpu.registers.a, 42);
}

#[test]
pub fn sets_x() {
    let mut cpu = Mos6502::new();
    cpu::RegisterName::X.set(&mut cpu, 42);
    assert_eq!(cpu.registers.x, 42);
}

#[test]
pub fn sets_y() {
    let mut cpu = Mos6502::new();
    cpu::RegisterName::Y.set(&mut cpu, 42);
    assert_eq!(cpu.registers.y, 42);
}

#[test]
pub fn sets_p() {
    let mut cpu = Mos6502::new();
    cpu::RegisterName::P.set(&mut cpu, Flags::SIGN().union(Flags::CARRY()).bits);
    assert_eq!(Flags::SIGN().union(Flags::CARRY()).union(Flags::RESERVED()), cpu.flags);
}

#[test]
pub fn register_names_render_as_one_letter() {
    assert_eq!(RegisterName::A.name(), "A");
    assert_eq!(RegisterName::X.name(), "X");
    assert_eq!(RegisterName::Y.name(), "Y");
    assert_eq!(RegisterName::S.name(), "S");
    assert_eq!(RegisterName::P.name(), "P");
}
