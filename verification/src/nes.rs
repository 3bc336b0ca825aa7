//! The system facade: wires a 2A03-style CPU (BCD disabled), a memory map
//! with RAM, a picture-processor register window, an I/O register window and
//! a PRG ROM slot, and a separate video-memory slot for CHR, and drives one
//! instruction per step.

use vstd::prelude::*;
use crate::cpu::Mos6502;
use crate::clock::Clock;
use crate::decoder::{self, spec_decode};
use crate::exec::{dispatch, dispatch_post, reserved_intact, with_pc};
use crate::exec::Error as ExecError;
use crate::flags::Flags;
use crate::mem::{Fixed, Memory, MemoryError, Mirrored, ReadOnlyMemory, read_only};
use crate::rom::{Rom, RomHeader};
use crate::virt::{self, Virtual};

verus! {

/// One kind of backing a segment of the system memory map can hold.
pub enum Region {
    /// Plain readable and writable memory.
    Ram(Fixed),
    /// Read-only memory (a PRG ROM bank).
    Rom(ReadOnlyMemory<Fixed>),
    /// A small readable and writable window mirrored over a larger range.
    MirroredRam(Mirrored<Fixed>),
}

impl Memory for Region {
    open spec fn mem_size(&self) -> nat {
        match self {
            Region::Ram(f) => f.mem_size(),
            Region::Rom(f) => f.mem_size(),
            Region::MirroredRam(f) => f.mem_size(),
        }
    }

    open spec fn can_read(&self, addr: int) -> bool {
        match self {
            Region::Ram(f) => f.can_read(addr),
            Region::Rom(f) => f.can_read(addr),
            Region::MirroredRam(f) => f.can_read(addr),
        }
    }

    open spec fn can_write(&self, addr: int) -> bool {
        match self {
            Region::Ram(f) => f.can_write(addr),
            Region::Rom(f) => f.can_write(addr),
            Region::MirroredRam(f) => f.can_write(addr),
        }
    }

    open spec fn byte_at(&self, addr: int) -> u8 {
        match self {
            Region::Ram(f) => f.byte_at(addr),
            Region::Rom(f) => f.byte_at(addr),
            Region::MirroredRam(f) => f.byte_at(addr),
        }
    }

    open spec fn read_err(&self, addr: int) -> MemoryError {
        match self {
            Region::Ram(f) => f.read_err(addr),
            Region::Rom(f) => f.read_err(addr),
            Region::MirroredRam(f) => f.read_err(addr),
        }
    }

    open spec fn write_err(&self, addr: int) -> MemoryError {
        match self {
            Region::Ram(f) => f.write_err(addr),
            Region::Rom(f) => f.write_err(addr),
            Region::MirroredRam(f) => f.write_err(addr),
        }
    }

    open spec fn aliases(&self, a: int, b: int) -> bool {
        match self {
            Region::Ram(f) => f.aliases(a, b),
            Region::Rom(f) => f.aliases(a, b),
            Region::MirroredRam(f) => f.aliases(a, b),
        }
    }

    fn len(&self) -> (r: u64) {
        match self {
            Region::Ram(f) => f.len(),
            Region::Rom(f) => f.len(),
            Region::MirroredRam(f) => f.len(),
        }
    }

    fn get_u8(&self, addr: u64) -> (r: crate::mem::MemResult<u8>) {
        match self {
            Region::Ram(f) => f.get_u8(addr),
            Region::Rom(f) => f.get_u8(addr),
            Region::MirroredRam(f) => f.get_u8(addr),
        }
    }

    fn set_u8(&mut self, addr: u64, val: u8) -> (r: crate::mem::MemResult<()>) {
        match self {
            Region::Ram(f) => f.set_u8(addr, val),
            Region::Rom(f) => f.set_u8(addr, val),
            Region::MirroredRam(f) => f.set_u8(addr, val),
        }
    }
}

/// An error raised by the system while stepping.
#[derive(Copy, Clone, Debug, PartialEq, Eq, Structural)]
pub enum Error {
    /// The instruction at the program counter could not be decoded.
    InstructionDecodeError(decoder::Error),
    /// The instruction failed while executing.
    ExecutionError(ExecError),
    /// A step was made with no cartridge loaded.
    NoCartridgeInserted,
}

/// The saturating cycle count after ticking `n` cycles from `c`.
pub open spec fn spec_tick(c: u64, n: u64) -> u64 {
    if c + n > u64::MAX {
        u64::MAX
    } else {
        (c + n) as u64
    }
}

/// The base address of console RAM.
pub const RAM_BASE: u64 = 0x0000;
/// The number of bytes the console RAM segment covers, mirrors included.
pub const RAM_SIZE: usize = 0x2000;
/// The number of bytes of real console RAM, mirrored up to `RAM_SIZE`.
pub const RAM_WINDOW: usize = 0x800;
/// The base address of the picture-processor register window.
pub const PPU_BASE: u64 = 0x2000;
/// The number of bytes the picture-processor segment covers, mirrors
/// included.
pub const PPU_SIZE: usize = 0x2000;
/// The number of picture-processor register bytes, mirrored up to
/// `PPU_SIZE`.
pub const PPU_WINDOW: usize = 8;
/// The base address of the I/O register window.
pub const IO_BASE: u64 = 0x4000;
/// The number of bytes of the I/O register window.
pub const IO_SIZE: usize = 0x20;
/// The base address of the PRG ROM window.
pub const PRG_BASE: u64 = 0x8000;

/// Whether `v` is the system's base memory map: RAM mirrored over its
/// segment, the picture-processor register window mirrored over its segment,
/// and the flat I/O register window, in order. Within a mirrored segment,
/// addresses congruent modulo the window name the same storage, so a write
/// through one is visible through all of them.
pub open spec fn base_map(v: Virtual<Region>) -> bool {
    &&& v.segments@.len() == 3
    &&& v.segments@[0].base == RAM_BASE
    &&& v.segments@[0].memory.mem_size() == RAM_SIZE
    &&& v.segments@[0].memory matches Region::MirroredRam(ram)
        && ram.inner.mem_size() == RAM_WINDOW && ram.total == RAM_SIZE
    &&& v.segments@[1].base == PPU_BASE
    &&& v.segments@[1].memory.mem_size() == PPU_SIZE
    &&& v.segments@[1].memory matches Region::MirroredRam(ppu)
        && ppu.inner.mem_size() == PPU_WINDOW && ppu.total == PPU_SIZE
    &&& v.segments@[2].base == IO_BASE
    &&& v.segments@[2].memory.mem_size() == IO_SIZE
    &&& v.segments@[2].memory is Ram
}

/// A complete console: CPU, memory map, video-memory slot and the loaded
/// cartridge's header.
pub struct Nes {
    /// The central processing unit (a 2A03: BCD disabled).
    pub cpu: Mos6502,
    /// The CPU memory map.
    pub mem: Virtual<Region>,
    /// The video-memory slot holding the loaded cartridge's CHR banks.
    pub vmem: Option<Fixed>,
    /// The loaded cartridge's header.
    pub rom_header: Option<RomHeader>,
}

/// Builds the base memory map: mirrored RAM at $0000, the mirrored
/// picture-processor register window at $2000, and the I/O register window
/// at $4000.
fn build_base_map() -> (r: Virtual<Region>)
    ensures
        r.wf(),
        base_map(r),
{
    let mut v: Virtual<Region> = Virtual::new();
    let ghost s0 = v.segments@;
    proof {
        virt::lemma_insert_pos_at(s0, RAM_BASE, 0);
    }
    let r1 = v.attach(
        RAM_BASE,
        Region::MirroredRam(Mirrored::new(Fixed::new(RAM_WINDOW), RAM_SIZE as u64)),
    );
    let ghost s1 = v.segments@;
    proof {
        assert(r1 == Result::<(), virt::Error>::Ok(()));
        assert(s1[0].base == RAM_BASE && s1[0].memory.mem_size() == RAM_SIZE);
        assert(s1.len() == 1);
        virt::lemma_insert_pos_at(s1, PPU_BASE, 1);
    }
    let r2 = v.attach(
        PPU_BASE,
        Region::MirroredRam(Mirrored::new(Fixed::new(PPU_WINDOW), PPU_SIZE as u64)),
    );
    let ghost s2 = v.segments@;
    proof {
        assert(r2 == Result::<(), virt::Error>::Ok(()));
        assert(s2 == s1.insert(1, v.segments@[1]));
        assert(s2.len() == 2 && s2[0] == s1[0]);
        assert(s2[1].base == PPU_BASE && s2[1].memory.mem_size() == PPU_SIZE);
        virt::lemma_insert_pos_at(s2, IO_BASE, 2);
    }
    let r3 = v.attach(IO_BASE, Region::Ram(Fixed::new(IO_SIZE)));
    proof {
        assert(r3 == Result::<(), virt::Error>::Ok(()));
        let s3 = v.segments@;
        assert(s3 == s2.insert(2, s3[2]));
        assert(s3.len() == 3 && s3[0] == s2[0] && s3[1] == s2[1]);
        assert(s3[2].base == IO_BASE && s3[2].memory.mem_size() == IO_SIZE);
    }
    v
}

impl Nes {
    /// Whether the console state is well-formed: the memory map's segments
    /// are disjoint, and a cartridge's header and video memory are present
    /// or absent together.
    pub open spec fn wf(&self) -> bool {
        &&& self.mem.wf()
        &&& (self.rom_header is Some) == (self.vmem is Some)
    }

    /// Constructs a console with no cartridge: a 2A03-style CPU (BCD
    /// disabled, flags $24) and the base memory map.
    pub fn new() -> (r: Nes)
        ensures
            r.wf(),
            !r.cpu.bcd_enabled,
            r.cpu.flags.bits == 0x24,
            r.cpu.pc.value == 0,
            r.cpu.clock.cycles == 0,
            base_map(r.mem),
            r.vmem is None,
            r.rom_header is None,
    {
        let mut cpu = Mos6502::without_bcd();
        cpu.flags.replace(Flags::new(0x24));
        proof {
            assert(0x24u8 | 0x20u8 == 0x24u8) by (bit_vector);
        }
        Nes { cpu, mem: build_base_map(), vmem: None, rom_header: None }
    }

    /// Loads a cartridge: installs its PRG banks read-only at the PRG ROM
    /// window and hands its CHR banks to the video-memory slot. Succeeds
    /// exactly when the new PRG segment conflicts with no attached one
    /// (`attach_conflict`); on a conflict it fails with `MemoryOverlap`,
    /// changing nothing but consuming the cartridge.
    pub fn load(&mut self, rom: Rom) -> (r: Result<(), virt::Error>)
        requires
            old(self).wf(),
        ensures
            final(self).wf(),
            final(self).cpu == old(self).cpu,
            r == Result::<(), virt::Error>::Ok(()) <==> !virt::attach_conflict(
                old(self).mem.segments@,
                PRG_BASE,
                rom.prg@.len(),
            ),
            r == Result::<(), virt::Error>::Ok(()) ==> {
                &&& final(self).rom_header == Some(rom.header)
                &&& final(self).vmem matches Some(chr) && chr@ == rom.chr@
                &&& final(self).mem.segments@ == old(self).mem.segments@.insert(
                    virt::insert_pos(old(self).mem.segments@, PRG_BASE),
                    virt::Segment {
                        base: PRG_BASE,
                        memory: Region::Rom(
                            ReadOnlyMemory { inner: Fixed { data: rom.prg } },
                        ),
                    },
                )
            },
            r matches Err(e) ==> {
                &&& e == virt::Error::MemoryOverlap
                &&& final(self).mem.segments@ == old(self).mem.segments@
                &&& final(self).rom_header == old(self).rom_header
                &&& final(self).vmem == old(self).vmem
            },
    {
        let Rom { header, prg, chr } = rom;
        match self.mem.attach(PRG_BASE, Region::Rom(read_only(Fixed::from_vec(prg)))) {
            Ok(()) => {},
            Err(e) => {
                return Err(e);
            },
        }
        self.rom_header = Some(header);
        self.vmem = Some(Fixed::from_vec(chr));
        Ok(())
    }

    /// Ejects the cartridge: clears the header and the video-memory slot and
    /// rebuilds the base memory map.
    pub fn eject(&mut self)
        ensures
            final(self).wf(),
            final(self).cpu == old(self).cpu,
            base_map(final(self).mem),
            final(self).vmem is None,
            final(self).rom_header is None,
    {
        self.rom_header = None;
        self.mem = build_base_map();
        self.vmem = None;
    }

    /// Executes exactly one instruction: decodes at the program counter,
    /// dispatches it, and advances the clock by the opcode's cycle cost.
    /// With no cartridge loaded the step fails with `NoCartridgeInserted`
    /// (after the instruction has run). On success returns the cumulative
    /// cycle count, by which the host advances its picture processor.
    #[verifier::rlimit(80)]
    pub fn step(&mut self) -> (r: Result<u64, Error>)
        ensures
            final(self).mem.mem_size() == old(self).mem.mem_size(),
            forall|a: int| #[trigger] final(self).mem.can_read(a) == old(self).mem.can_read(a),
            forall|a: int| #[trigger] final(self).mem.can_write(a) == old(self).mem.can_write(a),
            final(self).rom_header == old(self).rom_header,
            final(self).vmem == old(self).vmem,
            reserved_intact(old(self).cpu, final(self).cpu),
            old(self).cpu.clock.cycles <= final(self).cpu.clock.cycles,
            match spec_decode(&old(self).mem, old(self).cpu.pc.value) {
                Err(e) => {
                    &&& r == Err::<u64, Error>(Error::InstructionDecodeError(e))
                    &&& *final(self) == *old(self)
                },
                Ok(d) => exists|mid: Mos6502, dr: Result<(), ExecError>| {
                    &&& #[trigger] dispatch_post(
                        d.0,
                        with_pc(old(self).cpu, d.1),
                        &old(self).mem,
                        mid,
                        &final(self).mem,
                        dr,
                    )
                    &&& match dr {
                        Err(e) => {
                            &&& r == Err::<u64, Error>(Error::ExecutionError(e))
                            &&& final(self).cpu == mid
                        },
                        Ok(()) => {
                            &&& final(self).cpu == (Mos6502 {
                                clock: Clock { cycles: spec_tick(mid.clock.cycles, d.2 as u64) },
                                ..mid
                            })
                            &&& old(self).vmem is Some ==> r == Ok::<u64, Error>(
                                final(self).cpu.clock.cycles)
                            &&& old(self).vmem is None ==> r == Err::<u64, Error>(
                                Error::NoCartridgeInserted)
                        },
                    }
                },
            },
    {
        let ghost pre = *self;
        let (inst, cycles) = match decoder::decode(&mut self.cpu.pc, &self.mem) {
            Ok(d) => d,
            Err(e) => {
                return Err(Error::InstructionDecodeError(e));
            },
        };
        proof {
            let d = spec_decode(&pre.mem, pre.cpu.pc.value)->Ok_0;
            assert(self.cpu == with_pc(pre.cpu, d.1));
        }
        let dres = dispatch(inst, &mut self.cpu, &mut self.mem);
        let ghost mid = self.cpu;
        let ghost dr = dres;
        proof {
            let d = spec_decode(&pre.mem, pre.cpu.pc.value)->Ok_0;
            assert(dispatch_post(d.0, with_pc(pre.cpu, d.1), &pre.mem, mid, &self.mem, dr));
        }
        match dres {
            Ok(()) => {},
            Err(e) => {
                return Err(Error::ExecutionError(e));
            },
        }
        self.cpu.clock.tick(cycles as u64);
        proof {
            let d = spec_decode(&pre.mem, pre.cpu.pc.value)->Ok_0;
            assert(cycles == d.2);
            assert(self.cpu == (Mos6502 {
                clock: Clock { cycles: spec_tick(mid.clock.cycles, d.2 as u64) },
                ..mid
            }));
            assert(dispatch_post(d.0, with_pc(pre.cpu, d.1), &pre.mem, mid, &self.mem, dr));
        }
        if self.vmem.is_some() {
            Ok(self.cpu.clock.get())
        } else {
            Err(Error::NoCartridgeInserted)
        }
    }
}


} // verus!
