//! The operand of an instruction: the value of an instruction argument,
//! resolved through one of the 6502 addressing modes against the CPU state
//! and the memory bus.

use vstd::prelude::*;
use crate::cpu::{Mos6502, Registers, RegisterName, spec_reg_get};
use crate::mem::{Memory, MemoryError, le16, get_u16_le};

verus! {

/// An operand provided to an instruction.
#[derive(Copy, Clone, Debug, PartialEq, Eq, Structural)]
pub enum Operand {
    /// An inline 8-bit unsigned value; it has no address and is read-only.
    Immediate(u8),
    /// The value held in the accumulator (A register).
    Accumulator,
    /// The value at the given memory address `m`: `*m`.
    Absolute(u16),
    /// The value at the given base address indexed by a register: `*(m+x)`
    /// or `*(m+y)`. Address arithmetic is 16-bit, wrapping modulo 2^16.
    Indexed(u16, RegisterName),
    /// The value at the address stored at the given address: `**m`.
    Indirect(u16),
    /// The value at the address stored at `m + X`: `**(m+x)`.
    PreIndexedIndirect(u8),
    /// The value at `Y` past the address stored at `m`: `*(*m+y)`.
    PostIndexedIndirect(u8),
    /// An inline signed offset applied to the program counter by branches;
    /// never routed through the generic get/set.
    Offset(i8),
    /// An inline 16-bit unsigned value (JSR/JMP targets); never routed
    /// through the generic get/set.
    TwoByteImmediate(u16),
}

/// An error that occurred while accessing an operand.
#[derive(Copy, Clone, Debug, PartialEq, Eq, Structural)]
pub enum Error {
    /// An error occurred reading or writing memory.
    ErrorAccessingMemory(MemoryError),
    /// A request was made to write to a read-only operand.
    ReadOnlyOperand,
    /// A request was made to take the address of a non-addressable operand.
    NonAddressOperand,
}

/// The little-endian 16-bit read of `addr` and `addr + 1`, or the error of
/// the first denied byte.
pub open spec fn spec_read16<M: Memory>(mem: &M, addr: int) -> Result<u16, Error> {
    if !mem.can_read(addr) {
        Err(Error::ErrorAccessingMemory(mem.read_err(addr)))
    } else if !mem.can_read(addr + 1) {
        Err(Error::ErrorAccessingMemory(mem.read_err(addr + 1)))
    } else {
        Ok(le16(mem.byte_at(addr), mem.byte_at(addr + 1)))
    }
}

/// 16-bit wrapping address addition.
pub open spec fn spec_wrap16(a: u16, b: u16) -> u16 {
    vstd::wrapping::u16_specs::wrapping_add(a, b)
}

/// The effective address an operand resolves to, or the error resolving it:
/// `Immediate`, `Accumulator`, `Offset` and `TwoByteImmediate` name no
/// address.
pub open spec fn spec_addr<M: Memory>(op: Operand, cpu: Mos6502, mem: &M) -> Result<u16, Error> {
    match op {
        Operand::Absolute(addr) => Ok(addr),
        Operand::Indirect(addr) => spec_read16(mem, addr as int),
        Operand::Indexed(addr, r) => Ok(spec_wrap16(addr, spec_reg_get(r, cpu) as u16)),
        Operand::PreIndexedIndirect(addr) => spec_read16(mem, addr + cpu.registers.x),
        Operand::PostIndexedIndirect(addr) => match spec_read16(mem, addr as int) {
            Ok(p) => Ok(spec_wrap16(p, cpu.registers.y as u16)),
            Err(e) => Err(e),
        },
        _ => Err(Error::NonAddressOperand),
    }
}

/// The byte an operand names, or the error resolving it. `Immediate` and
/// `Accumulator` bypass the bus; every other variant resolves its effective
/// address and reads one byte there.
pub open spec fn spec_value<M: Memory>(op: Operand, cpu: Mos6502, mem: &M) -> Result<u8, Error> {
    match op {
        Operand::Immediate(n) => Ok(n),
        Operand::Accumulator => Ok(cpu.registers.a),
        _ => match spec_addr(op, cpu, mem) {
            Ok(a) => if mem.can_read(a as int) {
                Ok(mem.byte_at(a as int))
            } else {
                Err(Error::ErrorAccessingMemory(mem.read_err(a as int)))
            },
            Err(e) => Err(e),
        },
    }
}

/// The memory address a write through the operand goes to: only `Absolute`
/// and `Indexed` operands write to memory. (`Accumulator` writes to the A
/// register; everything else is read-only.)
pub open spec fn spec_write_addr(op: Operand, cpu: Mos6502) -> Option<u16> {
    match op {
        Operand::Absolute(addr) => Some(addr),
        Operand::Indexed(addr, r) => Some(spec_wrap16(addr, spec_reg_get(r, cpu) as u16)),
        _ => None,
    }
}

/// An `Immediate` operand names no address and accepts no write: asking for
/// its address fails with `NonAddressOperand`, and a write through it goes
/// nowhere, failing with `ReadOnlyOperand`.
pub proof fn lemma_immediate_has_no_address<M: Memory>(n: u8, cpu: Mos6502, mem: &M)
    ensures
        spec_addr(Operand::Immediate(n), cpu, mem) == Err::<u16, Error>(Error::NonAddressOperand),
        spec_write_addr(Operand::Immediate(n), cpu) is None,
{
}

impl Operand {
    /// Retrieves the effective address of the operand.
    pub fn get_addr<M: Memory>(&self, cpu: &Mos6502, mem: &M) -> (r: Result<u16, Error>)
        ensures
            r == spec_addr(*self, *cpu, mem),
    {
        match self {
            Operand::Absolute(addr) => Ok(*addr),
            Operand::Indirect(addr) => match get_u16_le(mem, *addr as u64) {
                Ok(v) => Ok(v),
                Err(e) => Err(Error::ErrorAccessingMemory(e)),
            },
            Operand::Indexed(addr, r) => Ok(addr.wrapping_add(r.get(cpu) as u16)),
            Operand::PreIndexedIndirect(addr) => {
                match get_u16_le(mem, *addr as u64 + cpu.registers.x as u64) {
                    Ok(v) => Ok(v),
                    Err(e) => Err(Error::ErrorAccessingMemory(e)),
                }
            },
            Operand::PostIndexedIndirect(addr) => match get_u16_le(mem, *addr as u64) {
                Ok(p) => Ok(p.wrapping_add(cpu.registers.y as u16)),
                Err(e) => Err(Error::ErrorAccessingMemory(e)),
            },
            _ => Err(Error::NonAddressOperand),
        }
    }

    /// Retrieves the operand's value.
    pub fn get_u8<M: Memory>(&self, cpu: &Mos6502, mem: &M) -> (r: Result<u8, Error>)
        ensures
            r == spec_value(*self, *cpu, mem),
    {
        match self {
            Operand::Immediate(n) => Ok(*n),
            Operand::Accumulator => Ok(cpu.registers.a),
            _ => {
                let addr = self.get_addr(cpu, mem)?;
                match mem.get_u8(addr as u64) {
                    Ok(v) => Ok(v),
                    Err(e) => Err(Error::ErrorAccessingMemory(e)),
                }
            },
        }
    }

    /// Sets the value the operand names: memory for `Absolute` and
    /// `Indexed` (the byte lands on every alias of the effective address),
    /// the A register for `Accumulator`. Every other variant is read-only
    /// and fails with `ReadOnlyOperand`, changing nothing.
    pub fn set_u8<M: Memory>(&self, cpu: &mut Mos6502, mem: &mut M, val: u8) -> (r: Result<
        (),
        Error,
    >)
        ensures
            final(mem).mem_size() == old(mem).mem_size(),
            forall|a: int| #[trigger] final(mem).can_read(a) == old(mem).can_read(a),
            forall|a: int| #[trigger] final(mem).can_write(a) == old(mem).can_write(a),
            forall|a: int| #[trigger] final(mem).read_err(a) == old(mem).read_err(a),
            forall|a: int| #[trigger] final(mem).write_err(a) == old(mem).write_err(a),
            forall|a: int, b: int| #[trigger] final(mem).aliases(a, b) == old(mem).aliases(a, b),
            *self is Accumulator ==> {
                &&& r == Result::<(), Error>::Ok(())
                &&& *final(cpu) == (Mos6502 {
                    registers: Registers { a: val, ..old(cpu).registers },
                    ..*old(cpu)
                })
                &&& forall|a: int| #[trigger] final(mem).byte_at(a) == old(mem).byte_at(a)
            },
            !(*self is Accumulator) ==> *final(cpu) == *old(cpu),
            match spec_write_addr(*self, *old(cpu)) {
                Some(addr) => {
                    &&& old(mem).can_write(addr as int) ==> {
                        &&& r == Result::<(), Error>::Ok(())
                        &&& final(mem).byte_at(addr as int) == val
                        &&& forall|a: int| #[trigger] final(mem).byte_at(a) == (
                            if old(mem).aliases(addr as int, a) {
                                val
                            } else {
                                old(mem).byte_at(a)
                            })
                    }
                    &&& !old(mem).can_write(addr as int) ==> {
                        &&& r == Result::<(), Error>::Err(
                            Error::ErrorAccessingMemory(old(mem).write_err(addr as int)))
                        &&& forall|a: int| #[trigger] final(mem).byte_at(a) == old(mem).byte_at(a)
                    }
                },
                None => !(*self is Accumulator) ==> {
                    &&& r == Result::<(), Error>::Err(Error::ReadOnlyOperand)
                    &&& forall|a: int| #[trigger] final(mem).byte_at(a) == old(mem).byte_at(a)
                },
            },
    {
        match self {
            Operand::Absolute(addr) => match mem.set_u8(*addr as u64, val) {
                Ok(()) => Ok(()),
                Err(e) => Err(Error::ErrorAccessingMemory(e)),
            },
            Operand::Indexed(addr, r) => {
                let eaddr = addr.wrapping_add(r.get(cpu) as u16);
                match mem.set_u8(eaddr as u64, val) {
                    Ok(()) => Ok(()),
                    Err(e) => Err(Error::ErrorAccessingMemory(e)),
                }
            },
            Operand::Accumulator => {
                cpu.registers.a = val;
                Ok(())
            },
            _ => Err(Error::ReadOnlyOperand),
        }
    }
}


/// The character for a hexadecimal digit.
pub open spec fn spec_hex_digit(n: u8) -> char {
    if n == 0 { '0' } else if n == 1 { '1' } else if n == 2 { '2' } else if n == 3 { '3' }
    else if n == 4 { '4' } else if n == 5 { '5' } else if n == 6 { '6' } else if n == 7 { '7' }
    else if n == 8 { '8' } else if n == 9 { '9' } else if n == 10 { 'A' } else if n == 11 { 'B' }
    else if n == 12 { 'C' } else if n == 13 { 'D' } else if n == 14 { 'E' } else { 'F' }
}

/// The two hexadecimal digits of a byte, high nibble first.
pub open spec fn spec_hex2(v: u8) -> Seq<char> {
    seq![spec_hex_digit(v / 16), spec_hex_digit(v % 16)]
}

/// The four hexadecimal digits of a 16-bit word, high nibble first.
pub open spec fn spec_hex4(v: u16) -> Seq<char> {
    seq![
        spec_hex_digit((v / 4096) as u8),
        spec_hex_digit(((v / 256) % 16) as u8),
        spec_hex_digit(((v / 16) % 16) as u8),
        spec_hex_digit((v % 16) as u8),
    ]
}

/// Appends the character for one hexadecimal digit.
fn push_hex_digit(s: &mut String, n: u8)
    requires
        n < 16,
    ensures
        final(s)@ == old(s)@.push(spec_hex_digit(n)),
{
    proof {
        reveal_strlit("0");
        reveal_strlit("1");
        reveal_strlit("2");
        reveal_strlit("3");
        reveal_strlit("4");
        reveal_strlit("5");
        reveal_strlit("6");
        reveal_strlit("7");
        reveal_strlit("8");
        reveal_strlit("9");
        reveal_strlit("A");
        reveal_strlit("B");
        reveal_strlit("C");
        reveal_strlit("D");
        reveal_strlit("E");
        reveal_strlit("F");
    }
    match n {
        0 => s.append("0"),
        1 => s.append("1"),
        2 => s.append("2"),
        3 => s.append("3"),
        4 => s.append("4"),
        5 => s.append("5"),
        6 => s.append("6"),
        7 => s.append("7"),
        8 => s.append("8"),
        9 => s.append("9"),
        10 => s.append("A"),
        11 => s.append("B"),
        12 => s.append("C"),
        13 => s.append("D"),
        14 => s.append("E"),
        _ => s.append("F"),
    }
    proof {
        assert(s@ =~= old(s)@.push(spec_hex_digit(n)));
    }
}

/// Appends the two hexadecimal digits of a byte.
fn push_hex2(s: &mut String, v: u8)
    ensures
        final(s)@ == old(s)@ + spec_hex2(v),
{
    push_hex_digit(s, v / 16);
    push_hex_digit(s, v % 16);
    proof {
        assert(s@ =~= old(s)@ + spec_hex2(v));
    }
}

/// Appends the four hexadecimal digits of a 16-bit word.
fn push_hex4(s: &mut String, v: u16)
    ensures
        final(s)@ == old(s)@ + spec_hex4(v),
{
    push_hex_digit(s, (v / 4096) as u8);
    push_hex_digit(s, ((v / 256) % 16) as u8);
    push_hex_digit(s, ((v / 16) % 16) as u8);
    push_hex_digit(s, (v % 16) as u8);
    proof {
        assert(s@ =~= old(s)@ + spec_hex4(v));
    }
}

/// The assembly-style rendering of an operand: `#$nn` for an immediate, `A`
/// for the accumulator, `$nn` or `$nnnn` for direct addresses (two digits
/// for a zero-page address), `,X` or `,Y` suffixes for indexing, and
/// parentheses for indirection. A branch displacement shows as `#` and two
/// digits of its raw byte; a two-byte immediate as `#$nnnn`.
pub open spec fn spec_operand_str(op: Operand) -> Seq<char> {
    match op {
        Operand::Immediate(v) => seq!['#', '$'] + spec_hex2(v),
        Operand::Accumulator => seq!['A'],
        Operand::Absolute(v) => if v <= 0xFF {
            seq!['$'] + spec_hex2(v as u8)
        } else {
            seq!['$'] + spec_hex4(v)
        },
        Operand::Indexed(v, r) => (if v <= 0xFF {
            seq!['$'] + spec_hex2(v as u8)
        } else {
            seq!['$'] + spec_hex4(v)
        }) + seq![','] + crate::cpu::spec_reg_name(r),
        Operand::Indirect(v) => seq!['$'] + spec_hex4(v),
        Operand::PreIndexedIndirect(v) => seq!['(', '$'] + spec_hex2(v) + seq![',', 'X', ')'],
        Operand::PostIndexedIndirect(v) => seq!['(', '$'] + spec_hex2(v) + seq![')', ',', 'Y'],
        Operand::Offset(o) => seq!['#'] + spec_hex2(o as u8),
        Operand::TwoByteImmediate(v) => seq!['#', '$'] + spec_hex4(v),
    }
}

impl Operand {
    /// Renders the operand in assembly style.
    pub fn to_string(&self) -> (r: String)
        ensures
            r@ == spec_operand_str(*self),
    {
        proof {
            reveal_strlit("#$");
            reveal_strlit("A");
            reveal_strlit("$");
            reveal_strlit(",");
            reveal_strlit("($");
            reveal_strlit(",X)");
            reveal_strlit("),Y");
            reveal_strlit("#");
        }
        let mut s = String::new();
        match self {
            Operand::Immediate(v) => {
                s.append("#$");
                push_hex2(&mut s, *v);
            },
            Operand::Accumulator => {
                s.append("A");
            },
            Operand::Absolute(v) => {
                s.append("$");
                if *v <= 0xFF {
                    push_hex2(&mut s, *v as u8);
                } else {
                    push_hex4(&mut s, *v);
                }
            },
            Operand::Indexed(v, r) => {
                s.append("$");
                if *v <= 0xFF {
                    push_hex2(&mut s, *v as u8);
                } else {
                    push_hex4(&mut s, *v);
                }
                s.append(",");
                s.append(r.name());
            },
            Operand::Indirect(v) => {
                s.append("$");
                push_hex4(&mut s, *v);
            },
            Operand::PreIndexedIndirect(v) => {
                s.append("($");
                push_hex2(&mut s, *v);
                s.append(",X)");
            },
            Operand::PostIndexedIndirect(v) => {
                s.append("($");
                push_hex2(&mut s, *v);
                s.append("),Y");
            },
            Operand::Offset(o) => {
                s.append("#");
                push_hex2(&mut s, *o as u8);
            },
            Operand::TwoByteImmediate(v) => {
                s.append("#$");
                push_hex4(&mut s, *v);
            },
        }
        proof {
            assert(s@ =~= spec_operand_str(*self));
        }
        s
    }
}

} // verus!
