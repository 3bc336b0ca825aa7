//! The MOS 6502 CPU object: registers, status flags, program counter, BCD
//! capability and cycle counter, together with the hardware stack operations
//! over a caller-provided memory bus.

use vstd::prelude::*;
use crate::clock::Clock;
use crate::flags::{Flags, RESERVED_BIT, spec_replace};
use crate::mem::{Memory, MemResult};
use crate::pc::ProgramCounter;

verus! {

/// The lowest address of the hardware stack page ($0100 - $01FF).
pub const STACK_START: u64 = 0x0100;

/// The 8-bit registers of the MOS 6502 processor.
#[derive(Copy, Clone, Debug, PartialEq, Eq, Structural)]
pub struct Registers {
    /// The accumulator (`A` register).
    pub a: u8,
    /// The `X` index register.
    pub x: u8,
    /// The `Y` index register.
    pub y: u8,
    /// The stack pointer (`S` register).
    pub sp: u8,
}

impl Registers {
    /// Registers at power-on: all zero but for the stack pointer at $FD.
    pub fn new() -> (r: Registers)
        ensures
            r == (Registers { a: 0, x: 0, y: 0, sp: 0xFD }),
    {
        Registers { a: 0, x: 0, y: 0, sp: 0xFD }
    }
}

/// A MOS 6502 central processing unit.
///
/// Supports binary-coded-decimal arithmetic when constructed with `new`;
/// a unit constructed with `without_bcd` always computes in binary.
#[derive(Copy, Clone, Debug, PartialEq, Eq, Structural)]
pub struct Mos6502 {
    /// The registers contained in the cpu.
    pub registers: Registers,
    /// The processor status flags.
    pub flags: Flags,
    /// The program counter.
    pub pc: ProgramCounter,
    /// Whether BCD arithmetic is enabled on this instance.
    pub bcd_enabled: bool,
    /// Tracks CPU cycles spent during execution.
    pub clock: Clock,
}

/// `cpu` with its stack pointer replaced by `sp`.
pub open spec fn with_sp(cpu: Mos6502, sp: u8) -> Mos6502 {
    Mos6502 { registers: Registers { sp, ..cpu.registers }, ..cpu }
}

/// The stack page address indexed by `sp`.
pub open spec fn spec_stack_addr(sp: u8) -> int {
    STACK_START + sp
}

/// The stack pointer after a push.
pub open spec fn spec_push_sp(sp: u8) -> u8 {
    vstd::wrapping::u8_specs::wrapping_sub(sp, 1)
}

/// The stack pointer after a pull.
pub open spec fn spec_pull_sp(sp: u8) -> u8 {
    vstd::wrapping::u8_specs::wrapping_add(sp, 1)
}

impl Mos6502 {
    /// Creates a CPU with BCD arithmetic enabled.
    ///
    /// Use of BCD arithmetic still requires that the BCD flag be set.
    pub fn new() -> (r: Mos6502)
        ensures
            r.registers == (Registers { a: 0, x: 0, y: 0, sp: 0xFD }),
            r.flags.bits == RESERVED_BIT,
            r.pc.value == 0,
            r.bcd_enabled,
            r.clock.cycles == 0,
    {
        Mos6502 {
            registers: Registers::new(),
            flags: Flags::RESERVED(),
            pc: ProgramCounter::new(),
            bcd_enabled: true,
            clock: Clock::new(),
        }
    }

    /// Creates a CPU with BCD arithmetic disabled, whatever the BCD flag.
    pub fn without_bcd() -> (r: Mos6502)
        ensures
            r.registers == (Registers { a: 0, x: 0, y: 0, sp: 0xFD }),
            r.flags.bits == RESERVED_BIT,
            r.pc.value == 0,
            !r.bcd_enabled,
            r.clock.cycles == 0,
    {
        Mos6502 {
            registers: Registers::new(),
            flags: Flags::RESERVED(),
            pc: ProgramCounter::new(),
            bcd_enabled: false,
            clock: Clock::new(),
        }
    }

    /// Pushes a value on to the stack: writes at `STACK_START + sp` (and
    /// every alias of it), then decrements the stack pointer (wrapping
    /// modulo 256). On a denied write the CPU and the memory are unchanged.
    pub fn push<M: Memory>(&mut self, mem: &mut M, val: u8) -> (r: MemResult<()>)
        ensures
            final(mem).mem_size() == old(mem).mem_size(),
            forall|a: int| #[trigger] final(mem).can_read(a) == old(mem).can_read(a),
            forall|a: int| #[trigger] final(mem).can_write(a) == old(mem).can_write(a),
            forall|a: int| #[trigger] final(mem).read_err(a) == old(mem).read_err(a),
            forall|a: int| #[trigger] final(mem).write_err(a) == old(mem).write_err(a),
            forall|a: int, b: int| #[trigger] final(mem).aliases(a, b) == old(mem).aliases(a, b),
            old(mem).can_write(spec_stack_addr(old(self).registers.sp)) ==> {
                &&& r == MemResult::<()>::Ok(())
                &&& *final(self) == with_sp(*old(self), spec_push_sp(old(self).registers.sp))
                &&& final(mem).byte_at(spec_stack_addr(old(self).registers.sp)) == val
                &&& forall|a: int| #[trigger] final(mem).byte_at(a) == (
                    if old(mem).aliases(spec_stack_addr(old(self).registers.sp), a) {
                        val
                    } else {
                        old(mem).byte_at(a)
                    })
            },
            !old(mem).can_write(spec_stack_addr(old(self).registers.sp)) ==> {
                &&& r == MemResult::<()>::Err(
                    old(mem).write_err(spec_stack_addr(old(self).registers.sp)))
                &&& *final(self) == *old(self)
                &&& forall|a: int| #[trigger] final(mem).byte_at(a) == old(mem).byte_at(a)
            },
    {
        let addr = (self.registers.sp as u64) + STACK_START;
        mem.set_u8(addr, val)?;
        self.registers.sp = self.registers.sp.wrapping_sub(1);
        Ok(())
    }

    /// Pulls a value from the stack: increments the stack pointer (wrapping
    /// modulo 256), then reads at `STACK_START + sp`. The stack pointer is
    /// advanced even when the read is denied (partial mutation is left in
    /// place).
    pub fn pull<M: Memory>(&mut self, mem: &M) -> (r: MemResult<u8>)
        ensures
            *final(self) == with_sp(*old(self), spec_pull_sp(old(self).registers.sp)),
            mem.can_read(spec_stack_addr(spec_pull_sp(old(self).registers.sp))) ==>
                r == MemResult::<u8>::Ok(
                    mem.byte_at(spec_stack_addr(spec_pull_sp(old(self).registers.sp)))),
            !mem.can_read(spec_stack_addr(spec_pull_sp(old(self).registers.sp))) ==>
                r == MemResult::<u8>::Err(
                    mem.read_err(spec_stack_addr(spec_pull_sp(old(self).registers.sp)))),
    {
        self.registers.sp = self.registers.sp.wrapping_add(1);
        let addr = (self.registers.sp as u64) + STACK_START;
        mem.get_u8(addr)
    }

    /// Reads the value on top of the stack without advancing the stack
    /// pointer.
    pub fn peek<M: Memory>(&mut self, mem: &M) -> (r: MemResult<u8>)
        ensures
            *final(self) == *old(self),
            mem.can_read(STACK_START + old(self).registers.sp + 1) ==>
                r == MemResult::<u8>::Ok(mem.byte_at(STACK_START + old(self).registers.sp + 1)),
            !mem.can_read(STACK_START + old(self).registers.sp + 1) ==>
                r == MemResult::<u8>::Err(mem.read_err(STACK_START + old(self).registers.sp + 1)),
    {
        let addr = (self.registers.sp as u64 + 1) + STACK_START;
        mem.get_u8(addr)
    }
}

/// Pulling immediately after pushing, with no stack operation in between,
/// yields exactly the pushed value and restores the stack pointer: the push
/// leaves the value at the stack address of the old pointer, and the pull
/// advances the pointer back and reads that same address.
pub proof fn lemma_push_pull_round_trip(sp: u8, val: u8, bytes: Seq<u8>)
    requires
        0 <= spec_stack_addr(sp) < bytes.len(),
    ensures
        spec_pull_sp(spec_push_sp(sp)) == sp,
        spec_stack_addr(spec_pull_sp(spec_push_sp(sp))) == spec_stack_addr(sp),
        bytes.update(spec_stack_addr(sp), val)[spec_stack_addr(spec_pull_sp(spec_push_sp(sp)))]
            == val,
{
}

/// Names a particular register.
#[derive(Copy, Clone, Debug, PartialEq, Eq, Structural)]
pub enum RegisterName {
    /// The accumulator ("A" register).
    A,
    /// The "X" register.
    X,
    /// The "Y" register.
    Y,
    /// The flags register.
    P,
    /// The stack pointer.
    S,
}

/// The value of the named register on `cpu`.
pub open spec fn spec_reg_get(name: RegisterName, cpu: Mos6502) -> u8 {
    match name {
        RegisterName::A => cpu.registers.a,
        RegisterName::X => cpu.registers.x,
        RegisterName::Y => cpu.registers.y,
        RegisterName::P => cpu.flags.bits,
        RegisterName::S => cpu.registers.sp,
    }
}

/// `cpu` with the named register set to `val`; writing P goes through the
/// canonical flags setter, so RESERVED is re-asserted.
pub open spec fn spec_reg_set(name: RegisterName, cpu: Mos6502, val: u8) -> Mos6502 {
    match name {
        RegisterName::A => Mos6502 { registers: Registers { a: val, ..cpu.registers }, ..cpu },
        RegisterName::X => Mos6502 { registers: Registers { x: val, ..cpu.registers }, ..cpu },
        RegisterName::Y => Mos6502 { registers: Registers { y: val, ..cpu.registers }, ..cpu },
        RegisterName::P => Mos6502 { flags: Flags { bits: spec_replace(val) }, ..cpu },
        RegisterName::S => Mos6502 { registers: Registers { sp: val, ..cpu.registers }, ..cpu },
    }
}

impl RegisterName {
    /// Retrieves the value of this register from the provided cpu.
    pub fn get(self, cpu: &Mos6502) -> (r: u8)
        ensures
            r == spec_reg_get(self, *cpu),
    {
        match self {
            RegisterName::A => cpu.registers.a,
            RegisterName::X => cpu.registers.x,
            RegisterName::Y => cpu.registers.y,
            RegisterName::P => cpu.flags.bits,
            RegisterName::S => cpu.registers.sp,
        }
    }

    /// Sets the value of this register on the provided cpu. The flag word is
    /// either untouched or (for a write of P) carries the RESERVED bit.
    pub fn set(self, cpu: &mut Mos6502, val: u8)
        ensures
            *final(cpu) == spec_reg_set(self, *old(cpu), val),
            final(cpu).flags == old(cpu).flags
                || crate::flags::spec_intersects(final(cpu).flags.bits, RESERVED_BIT),
    {
        match self {
            RegisterName::A => cpu.registers.a = val,
            RegisterName::X => cpu.registers.x = val,
            RegisterName::Y => cpu.registers.y = val,
            RegisterName::P => cpu.flags.replace(Flags::new(val)),
            RegisterName::S => cpu.registers.sp = val,
        }
    }

    /// The conventional one-letter name of the register.
    pub fn name(self) -> (r: &'static str)
        ensures
            r@ == spec_reg_name(self),
    {
        proof {
            reveal_strlit("A");
            reveal_strlit("X");
            reveal_strlit("Y");
            reveal_strlit("S");
            reveal_strlit("P");
        }
        match self {
            RegisterName::A => "A",
            RegisterName::X => "X",
            RegisterName::Y => "Y",
            RegisterName::S => "S",
            RegisterName::P => "P",
        }
    }
}

/// The conventional one-letter name of each register.
pub open spec fn spec_reg_name(name: RegisterName) -> Seq<char> {
    match name {
        RegisterName::A => seq!['A'],
        RegisterName::X => seq!['X'],
        RegisterName::Y => seq!['Y'],
        RegisterName::P => seq!['P'],
        RegisterName::S => seq!['S'],
    }
}

} // verus!
