//! The cartridge decoder: parses the iNES / NES 2.0 container format into a
//! structured description of PRG/CHR banks, mapper selection, mirroring and
//! ancillary flags, and encodes such a description back into a header.

use vstd::prelude::*;

verus! {

/// The number of bytes in an iNES / NES 2.0 header.
pub const HEADER_SIZE: usize = 16;

/// The number of bytes in one PRG ROM bank.
pub const PRG_BANK_SIZE: usize = 16384;

/// The number of bytes in one CHR ROM bank.
pub const CHR_BANK_SIZE: usize = 8192;

/// An error that occurs while decoding a ROM image.
#[derive(Copy, Clone, Debug, PartialEq, Eq, Structural)]
pub enum Error {
    /// The image holds fewer bytes than a header.
    InvalidHeader,
    /// The signature in the header is invalid.
    InvalidSignature,
    /// The image ends before the last PRG or CHR bank does.
    EndOfFileDuringBank,
}

/// The television system a ROM expects.
#[derive(Copy, Clone, Debug, PartialEq, Eq, Structural)]
pub enum TvSystem {
    /// The television system is not known.
    Unknown,
    /// The ROM requires the NTSC television system.
    NTSC,
    /// The ROM requires the PAL television system.
    PAL,
    /// The ROM is compatible with either system.
    Dual,
}

/// The container format version of a ROM.
#[derive(Copy, Clone, Debug, PartialEq, Eq, Structural)]
pub enum Version {
    /// The "archaic" INES layout (bytes 12 to 14 all zero).
    ArchaicINES,
    /// The INES layout.
    INES,
    /// The NES 2.0 layout.
    NES2,
}

/// The size of a RAM bank, split into its battery-backed part.
#[derive(Copy, Clone, Debug, PartialEq, Eq, Structural)]
pub struct RamSize {
    /// The amount of RAM that is battery-backed, in bytes.
    pub battery_backed: u32,
    /// The total amount of RAM (battery-backed and not), in bytes.
    pub total: u32,
}

/// The number of bytes a RAM-size nibble stands for: zero for zero, else
/// 64 shifted left by the nibble.
pub open spec fn spec_ram_size(x: u8) -> u32 {
    if x == 0 {
        0
    } else {
        64u32 << x
    }
}

/// Decodes one RAM-size nibble.
pub fn get_full_size(inp: u8) -> (r: u32)
    requires
        inp < 16,
    ensures
        r == spec_ram_size(inp),
{
    if inp == 0 {
        0
    } else {
        64u32 << inp
    }
}

/// The RAM size encoded by a header byte: for NES 2.0 the high nibble is the
/// battery-backed part and the low nibble the rest; earlier formats carry no
/// RAM sizes.
pub open spec fn spec_ram_from_byte(val: u8, version: Version) -> RamSize {
    match version {
        Version::NES2 => {
            let bat = spec_ram_size((val & 0xF0) >> 4);
            let non_bat = spec_ram_size(val & 0x0F);
            RamSize { battery_backed: bat, total: (bat + non_bat) as u32 }
        },
        _ => RamSize { battery_backed: 0, total: 0 },
    }
}

impl RamSize {
    /// No RAM at all.
    pub fn empty() -> (r: RamSize)
        ensures
            r == (RamSize { battery_backed: 0, total: 0 }),
    {
        RamSize { battery_backed: 0, total: 0 }
    }

    /// Decodes the RAM size byte of an iNES / NES 2.0 header.
    pub fn from_header_byte(val: u8, version: Version) -> (r: RamSize)
        ensures
            r == spec_ram_from_byte(val, version),
    {
        match version {
            Version::ArchaicINES | Version::INES => RamSize::empty(),
            Version::NES2 => {
                proof {
                    assert((val & 0xF0) >> 4 < 16 && val & 0x0F < 16) by (bit_vector);
                    assert(forall|x: u8| x < 16 ==> #[trigger] spec_ram_size(x) <= 0x200000)
                        by (bit_vector);
                }
                let bat = get_full_size((val & 0xF0) >> 4);
                let non_bat = get_full_size(val & 0x0F);
                RamSize { battery_backed: bat, total: bat + non_bat }
            },
        }
    }
}

/// Cartridge hardware to be emulated.
#[derive(Copy, Clone, Debug, PartialEq, Eq, Structural)]
pub struct CartridgeInfo {
    /// The iNES mapper number.
    pub mapper: u16,
    /// The NES 2.0 submapper number.
    pub submapper: u8,
    /// Whether the cartridge suffers bus conflicts.
    pub bus_conflicts: bool,
}

impl CartridgeInfo {
    /// Bundles the given values.
    pub fn new(mapper: u16, submapper: u8, bus_conflicts: bool) -> (r: CartridgeInfo)
        ensures
            r == (CartridgeInfo { mapper, submapper, bus_conflicts }),
    {
        CartridgeInfo { mapper, submapper, bus_conflicts }
    }
}

/// The decoded header of an iNES / NES 2.0 ROM.
#[derive(Copy, Clone, Debug, PartialEq, Eq, Structural)]
pub struct RomHeader {
    /// The size of the PRG ROM, in 16K banks.
    pub prg_rom_size: u16,
    /// The size of the CHR ROM, in 8K banks.
    pub chr_rom_size: u16,
    /// The size of the PRG RAM, if any.
    pub prg_ram_size: RamSize,
    /// The size of the CHR RAM, if any.
    pub chr_ram_size: RamSize,
    /// The cartridge hardware to emulate.
    pub cartridge: CartridgeInfo,
    /// The container format version.
    pub version: Version,
    /// Whether vertical arrangement is used.
    pub vertical_arrangement: bool,
    /// Whether a four-screen VRAM layout is used.
    pub four_screen_vram: bool,
    /// Whether the SRAM is battery-backed.
    pub sram_battery_backed: bool,
    /// Whether SRAM is present.
    pub sram_present: bool,
    /// Whether a trainer is present.
    pub trainer_present: bool,
    /// Whether the ROM targets the Vs. Unisystem.
    pub vs_unisystem: bool,
    /// Whether the ROM targets the PlayChoice-10.
    pub playchoice_10: bool,
    /// The television system the ROM targets.
    pub tv_system: TvSystem,
}

/// An NES ROM, decoded from the iNES / NES 2.0 format.
#[derive(Debug)]
pub struct Rom {
    /// The decoded header.
    pub header: RomHeader,
    /// The PRG ROM payload, `prg_rom_size` banks of 16384 bytes.
    pub prg: Vec<u8>,
    /// The CHR ROM payload, `chr_rom_size` banks of 8192 bytes.
    pub chr: Vec<u8>,
}

/// Whether the first four bytes carry the container signature
/// `N`, `E`, `S`, 0x1A.
pub open spec fn spec_signature_ok(h: Seq<u8>) -> bool {
    &&& h.len() >= 4
    &&& h[0] == 0x4E
    &&& h[1] == 0x45
    &&& h[2] == 0x53
    &&& h[3] == 0x1A
}

/// Checks the four signature bytes of a header.
pub fn verify_signature(data: &Vec<u8>) -> (r: bool)
    ensures
        r == spec_signature_ok(data@),
{
    data.len() >= 4 && data[0] == 0x4E && data[1] == 0x45 && data[2] == 0x53
        && data[3] == 0x1A
}

/// The container version a header declares: NES 2.0 when bits 2 and 3 of
/// byte 7 read binary 10; otherwise archaic INES when bytes 12 to 14 are all
/// zero; otherwise INES.
pub open spec fn spec_version(h: Seq<u8>) -> Version {
    if h[7] & 0x0C == 0x08 {
        Version::NES2
    } else if h[12] == 0 && h[13] == 0 && h[14] == 0 {
        Version::ArchaicINES
    } else {
        Version::INES
    }
}

/// The PRG bank count a header declares: byte 4, with the low nibble of
/// byte 9 or-ed in for NES 2.0.
pub open spec fn spec_prg_size(h: Seq<u8>) -> u16 {
    match spec_version(h) {
        Version::NES2 => (h[4] as u16) | ((h[9] & 0x0F) as u16),
        _ => h[4] as u16,
    }
}

/// The CHR bank count a header declares: byte 5, with the high nibble of
/// byte 9 or-ed in for NES 2.0.
pub open spec fn spec_chr_size(h: Seq<u8>) -> u16 {
    match spec_version(h) {
        Version::NES2 => (h[5] as u16) | (((h[9] & 0xF0) >> 4) as u16),
        _ => h[5] as u16,
    }
}

/// The mapper number a header declares: the low nibble from byte 6; INES and
/// NES 2.0 add byte 7's high nibble; NES 2.0 adds the low nibble of byte 8
/// as bits 8 to 11.
pub open spec fn spec_mapper(h: Seq<u8>) -> u16 {
    let base = ((h[6] & 0xF0) >> 4) as u16;
    match spec_version(h) {
        Version::ArchaicINES => base,
        Version::INES => base | (h[7] & 0xF0) as u16,
        Version::NES2 => (base | (h[7] & 0xF0) as u16) | (((h[8] & 0x0F) as u16) << 8),
    }
}

/// The submapper number a header declares: the high nibble of byte 8, NES
/// 2.0 only.
pub open spec fn spec_submapper(h: Seq<u8>) -> u8 {
    match spec_version(h) {
        Version::NES2 => h[8] >> 4,
        _ => 0,
    }
}

/// The television system a header declares.
pub open spec fn spec_tv_system(h: Seq<u8>) -> TvSystem {
    match spec_version(h) {
        Version::ArchaicINES => TvSystem::Unknown,
        Version::INES => if h[9] & 0x01 == 0 {
            TvSystem::NTSC
        } else {
            TvSystem::PAL
        },
        Version::NES2 => if h[12] & 0x02 != 0 {
            TvSystem::Dual
        } else if h[12] & 0x01 != 0 {
            TvSystem::PAL
        } else {
            TvSystem::NTSC
        },
    }
}

/// The header a 16-byte (or longer) image prefix decodes to.
pub open spec fn spec_header_fields(h: Seq<u8>) -> RomHeader {
    RomHeader {
        prg_rom_size: spec_prg_size(h),
        chr_rom_size: spec_chr_size(h),
        prg_ram_size: spec_ram_from_byte(h[10], spec_version(h)),
        chr_ram_size: spec_ram_from_byte(h[11], spec_version(h)),
        cartridge: CartridgeInfo {
            mapper: spec_mapper(h),
            submapper: spec_submapper(h),
            bus_conflicts: h[10] & 0x20 != 0,
        },
        version: spec_version(h),
        vertical_arrangement: h[6] & 0x01 == 0,
        four_screen_vram: h[6] & 0x08 != 0,
        sram_battery_backed: h[6] & 0x02 != 0,
        sram_present: h[10] & 0x10 != 0,
        trainer_present: h[6] & 0x04 != 0,
        vs_unisystem: h[7] & 0x01 != 0,
        playchoice_10: h[7] & 0x02 != 0,
        tv_system: spec_tv_system(h),
    }
}

/// The result of decoding a header from the front of an image: too short an
/// image is an invalid header; a wrong signature is an invalid signature.
pub open spec fn spec_parse_header(data: Seq<u8>) -> Result<RomHeader, Error> {
    if data.len() < HEADER_SIZE {
        Err(Error::InvalidHeader)
    } else if !spec_signature_ok(data) {
        Err(Error::InvalidSignature)
    } else {
        Ok(spec_header_fields(data))
    }
}

/// Decodes the 16-byte header at the front of a ROM image.
pub fn read_header(data: &Vec<u8>) -> (r: Result<RomHeader, Error>)
    ensures
        r == spec_parse_header(data@),
{
    if data.len() < HEADER_SIZE {
        return Err(Error::InvalidHeader);
    }
    if !verify_signature(data) {
        return Err(Error::InvalidSignature);
    }

    let b6 = data[6];
    let b7 = data[7];
    let b8 = data[8];
    let b9 = data[9];
    let b10 = data[10];
    let b12 = data[12];

    let version = if b7 & 0x0C == 0x08 {
        Version::NES2
    } else if b12 == 0 && data[13] == 0 && data[14] == 0 {
        Version::ArchaicINES
    } else {
        Version::INES
    };

    let prg_size: u16 = match version {
        Version::ArchaicINES | Version::INES => data[4] as u16,
        Version::NES2 => (data[4] as u16) | ((b9 & 0x0F) as u16),
    };
    let chr_size: u16 = match version {
        Version::ArchaicINES | Version::INES => data[5] as u16,
        Version::NES2 => (data[5] as u16) | (((b9 & 0xF0) >> 4) as u16),
    };

    let mut mapper: u16 = ((b6 & 0xF0) >> 4) as u16;
    let mut submapper: u8 = 0;
    match version {
        Version::ArchaicINES => {},
        Version::INES => {
            mapper = mapper | (b7 & 0xF0) as u16;
        },
        Version::NES2 => {
            mapper = (mapper | (b7 & 0xF0) as u16) | (((b8 & 0x0F) as u16) << 8);
            submapper = b8 >> 4;
        },
    }

    let tv_system = match version {
        Version::ArchaicINES => TvSystem::Unknown,
        Version::INES => if b9 & 0x01 == 0 {
            TvSystem::NTSC
        } else {
            TvSystem::PAL
        },
        Version::NES2 => if b12 & 0x02 != 0 {
            TvSystem::Dual
        } else if b12 & 0x01 != 0 {
            TvSystem::PAL
        } else {
            TvSystem::NTSC
        },
    };

    let prg_ram = RamSize::from_header_byte(b10, version);
    let chr_ram = RamSize::from_header_byte(data[11], version);

    Ok(RomHeader {
        prg_rom_size: prg_size,
        chr_rom_size: chr_size,
        prg_ram_size: prg_ram,
        chr_ram_size: chr_ram,
        cartridge: CartridgeInfo::new(mapper, submapper, (b10 & 0x20) != 0),
        version,
        vertical_arrangement: (b6 & 0x01) == 0,
        four_screen_vram: (b6 & 0x08) != 0,
        sram_battery_backed: (b6 & 0x02) != 0,
        sram_present: (b10 & 0x10) != 0,
        trainer_present: (b6 & 0x04) != 0,
        vs_unisystem: (b7 & 0x01) != 0,
        playchoice_10: (b7 & 0x02) != 0,
        tv_system,
    })
}

/// Copies `len` bytes of `data` starting at `start`.
fn copy_range(data: &Vec<u8>, start: usize, len: usize) -> (r: Vec<u8>)
    requires
        start + len <= data@.len(),
    ensures
        r@ == data@.subrange(start as int, start + len),
{
    let mut out: Vec<u8> = Vec::new();
    let n = data.len();
    let mut i: usize = 0;
    while i < len
        invariant
            i <= len,
            n == data@.len(),
            start + len <= n,
            out@ == data@.subrange(start as int, start + i),
        decreases len - i,
    {
        out.push(data[start + i]);
        i = i + 1;
        proof {
            assert(out@ =~= data@.subrange(start as int, start + i));
        }
    }
    out
}

/// Decodes a whole ROM image: the 16-byte header, then `prg_rom_size` banks
/// of 16384 PRG bytes, then `chr_rom_size` banks of 8192 CHR bytes. An image
/// that ends inside a bank fails with `EndOfFileDuringBank`.
pub fn load_rom(data: &Vec<u8>) -> (r: Result<Rom, Error>)
    ensures
        match spec_parse_header(data@) {
            Err(e) => r matches Err(e2) && e2 == e,
            Ok(h) => {
                let prg_len = h.prg_rom_size * PRG_BANK_SIZE;
                let chr_len = h.chr_rom_size * CHR_BANK_SIZE;
                if HEADER_SIZE + prg_len + chr_len > data@.len() {
                    r == Err::<Rom, Error>(Error::EndOfFileDuringBank)
                } else {
                    &&& r matches Ok(rom)
                    &&& rom.header == h
                    &&& rom.prg@ == data@.subrange(HEADER_SIZE as int, HEADER_SIZE + prg_len)
                    &&& rom.chr@ == data@.subrange(
                        HEADER_SIZE + prg_len,
                        HEADER_SIZE + prg_len + chr_len,
                    )
                }
            },
        },
{
    let header = match read_header(data) {
        Ok(h) => h,
        Err(e) => {
            return Err(e);
        },
    };
    let prg_len: usize = header.prg_rom_size as usize * PRG_BANK_SIZE;
    let chr_len: usize = header.chr_rom_size as usize * CHR_BANK_SIZE;
    if data.len() < HEADER_SIZE || prg_len > data.len() - HEADER_SIZE
        || chr_len > data.len() - HEADER_SIZE - prg_len {
        return Err(Error::EndOfFileDuringBank);
    }
    let prg = copy_range(data, HEADER_SIZE, prg_len);
    let chr = copy_range(data, HEADER_SIZE + prg_len, chr_len);
    Ok(Rom { header, prg, chr })
}


/// Whether a nibble can stand for the size `sz`.
pub open spec fn spec_is_ram_size(sz: u32) -> bool {
    exists|x: u8| x < 16 && spec_ram_size(x) == sz
}

/// The nibble standing for the size `sz` (meaningful when some nibble does).
pub open spec fn spec_nibble_of(sz: u32) -> u8 {
    choose|x: u8| x < 16 && spec_ram_size(x) == sz
}

/// No two nibbles stand for the same size.
proof fn lemma_ram_size_injective()
    by (bit_vector)
    ensures
        forall|x: u8, y: u8| #![trigger spec_ram_size(x), spec_ram_size(y)]
            x < 16 && y < 16 && spec_ram_size(x) == spec_ram_size(y) ==> x == y,
{
}

/// Finds the nibble standing for the size `sz`, if one does.
pub fn nibble_of(sz: u32) -> (r: Option<u8>)
    ensures
        match r {
            Some(x) => x < 16 && spec_ram_size(x) == sz && x == spec_nibble_of(sz),
            None => !spec_is_ram_size(sz),
        },
{
    let mut x: u8 = 0;
    while x < 16
        invariant
            x <= 16,
            forall|y: u8| y < x ==> spec_ram_size(y) != sz,
        decreases 16 - x,
    {
        if get_full_size(x) == sz {
            proof {
                lemma_ram_size_injective();
                assert(spec_is_ram_size(sz));
                let c = spec_nibble_of(sz);
                assert(c < 16 && spec_ram_size(c) == sz);
            }
            return Some(x);
        }
        x = x + 1;
    }
    None
}

/// Whether a RAM size can be written as a pair of size nibbles: both the
/// battery-backed part and the rest must be nibble sizes.
pub open spec fn spec_ram_encodable(r: RamSize) -> bool {
    &&& spec_is_ram_size(r.battery_backed)
    &&& r.battery_backed <= r.total
    &&& spec_is_ram_size((r.total - r.battery_backed) as u32)
}

/// The RAM size byte for a RAM size: the battery-backed nibble high, the
/// rest low.
pub open spec fn spec_ram_byte(r: RamSize) -> u8 {
    (spec_nibble_of(r.battery_backed) * 16 + spec_nibble_of(
        (r.total - r.battery_backed) as u32,
    )) as u8
}

/// Whether the header's fields can be written per the layout of its own
/// version, so that decoding reads them back unchanged: bank counts must fit
/// one byte; the mapper must fit the nibbles its version stores (one for
/// archaic INES, two for INES, three for NES 2.0); only NES 2.0 stores a
/// submapper, RAM sizes (as nibble pairs) or a television system other than
/// what its version implies; and under NES 2.0 the SRAM flags share byte 10
/// with the PRG RAM nibbles, so they must agree with them.
pub open spec fn spec_encodable(h: RomHeader) -> bool {
    &&& h.prg_rom_size <= 0xFF
    &&& h.chr_rom_size <= 0xFF
    &&& match h.version {
        Version::ArchaicINES => {
            &&& h.cartridge.mapper < 16
            &&& h.cartridge.submapper == 0
            &&& h.prg_ram_size == (RamSize { battery_backed: 0, total: 0 })
            &&& h.chr_ram_size == (RamSize { battery_backed: 0, total: 0 })
            &&& h.tv_system == TvSystem::Unknown
        },
        Version::INES => {
            &&& h.cartridge.mapper <= 0xFF
            &&& h.cartridge.submapper == 0
            &&& h.prg_ram_size == (RamSize { battery_backed: 0, total: 0 })
            &&& h.chr_ram_size == (RamSize { battery_backed: 0, total: 0 })
            &&& (h.tv_system == TvSystem::NTSC || h.tv_system == TvSystem::PAL)
        },
        Version::NES2 => {
            &&& h.cartridge.mapper <= 0xFFF
            &&& h.cartridge.submapper < 16
            &&& spec_ram_encodable(h.prg_ram_size)
            &&& spec_ram_encodable(h.chr_ram_size)
            &&& h.tv_system != TvSystem::Unknown
            &&& h.sram_present == (spec_nibble_of(h.prg_ram_size.battery_backed) & 0x01 == 0x01)
            &&& h.cartridge.bus_conflicts == (
                spec_nibble_of(h.prg_ram_size.battery_backed) & 0x02 == 0x02)
        },
    }
}

/// Byte 6 of an encoded header: the arrangement, battery, trainer and
/// four-screen bits, and the mapper's low nibble.
pub open spec fn spec_enc_b6(h: RomHeader) -> u8 {
    (if h.vertical_arrangement { 0u8 } else { 1u8 })
        | (if h.sram_battery_backed { 2 } else { 0 })
        | (if h.trainer_present { 4 } else { 0 })
        | (if h.four_screen_vram { 8 } else { 0 })
        | (((h.cartridge.mapper & 0x0F) as u8) << 4)
}

/// Byte 7 of an encoded header: the Vs. Unisystem and PlayChoice bits, the
/// version mark, and the mapper's second nibble (INES and NES 2.0).
pub open spec fn spec_enc_b7(h: RomHeader) -> u8 {
    let base = (if h.vs_unisystem { 1u8 } else { 0u8 }) | (if h.playchoice_10 { 2 } else { 0 });
    match h.version {
        Version::ArchaicINES => base,
        Version::INES => base | ((h.cartridge.mapper & 0xF0) as u8),
        Version::NES2 => (base | 0x08) | ((h.cartridge.mapper & 0xF0) as u8),
    }
}

/// Byte 8 of an encoded header: the submapper and the mapper's third nibble
/// (NES 2.0 only).
pub open spec fn spec_enc_b8(h: RomHeader) -> u8 {
    match h.version {
        Version::NES2 => (h.cartridge.submapper << 4) | ((h.cartridge.mapper >> 8) as u8),
        _ => 0,
    }
}

/// Byte 9 of an encoded header: the INES television bit.
pub open spec fn spec_enc_b9(h: RomHeader) -> u8 {
    match h.version {
        Version::INES => if h.tv_system == TvSystem::PAL { 1 } else { 0 },
        _ => 0,
    }
}

/// Byte 10 of an encoded header: the PRG RAM nibbles for NES 2.0, else the
/// SRAM-present and bus-conflict bits.
pub open spec fn spec_enc_b10(h: RomHeader) -> u8 {
    match h.version {
        Version::NES2 => spec_ram_byte(h.prg_ram_size),
        _ => (if h.sram_present { 0x10u8 } else { 0u8 })
            | (if h.cartridge.bus_conflicts { 0x20 } else { 0 }),
    }
}

/// Byte 11 of an encoded header: the CHR RAM nibbles (NES 2.0 only).
pub open spec fn spec_enc_b11(h: RomHeader) -> u8 {
    match h.version {
        Version::NES2 => spec_ram_byte(h.chr_ram_size),
        _ => 0,
    }
}

/// Byte 12 of an encoded header: the NES 2.0 television bits; for INES a
/// mark keeping the image distinguishable from the archaic layout, whose
/// bytes 12 to 14 are all zero.
pub open spec fn spec_enc_b12(h: RomHeader) -> u8 {
    match h.version {
        Version::NES2 => if h.tv_system == TvSystem::Dual {
            2
        } else if h.tv_system == TvSystem::PAL {
            1
        } else {
            0
        },
        Version::INES => 1,
        Version::ArchaicINES => 0,
    }
}

/// Byte `i` of an encoded header.
pub open spec fn spec_enc_byte(h: RomHeader, i: int) -> u8 {
    if i == 0 {
        0x4E
    } else if i == 1 {
        0x45
    } else if i == 2 {
        0x53
    } else if i == 3 {
        0x1A
    } else if i == 4 {
        h.prg_rom_size as u8
    } else if i == 5 {
        h.chr_rom_size as u8
    } else if i == 6 {
        spec_enc_b6(h)
    } else if i == 7 {
        spec_enc_b7(h)
    } else if i == 8 {
        spec_enc_b8(h)
    } else if i == 9 {
        spec_enc_b9(h)
    } else if i == 10 {
        spec_enc_b10(h)
    } else if i == 11 {
        spec_enc_b11(h)
    } else if i == 12 {
        spec_enc_b12(h)
    } else {
        0
    }
}

/// The 16 header bytes that write the header's fields down per the layout of
/// its own version.
pub open spec fn spec_encode_header(h: RomHeader) -> Seq<u8> {
    Seq::new(16, |i: int| spec_enc_byte(h, i))
}


/// The bit-level facts behind an NES 2.0 header round trip.
#[verifier::rlimit(50)]
proof fn bv_roundtrip_nes2(
    va: bool, bb: bool, tr: bool, fs: bool, vs: bool, pc: bool,
    m: u16, sm: u8, pbx: u8, pnx: u8, cbx: u8, cnx: u8, p: u16, c: u16,
    b6: u8, b7: u8, b8: u8, b10: u8, b11: u8,
)
    by (bit_vector)
    requires
        m <= 0xFFF,
        sm < 16,
        pbx < 16,
        pnx < 16,
        cbx < 16,
        cnx < 16,
        p <= 0xFF,
        c <= 0xFF,
        b6 == (if va { 0u8 } else { 1u8 }) | (if bb { 2u8 } else { 0u8 })
            | (if tr { 4u8 } else { 0u8 }) | (if fs { 8u8 } else { 0u8 })
            | (((m & 0x0F) as u8) << 4),
        b7 == (((if vs { 1u8 } else { 0u8 }) | (if pc { 2u8 } else { 0u8 })) | 0x08)
            | ((m & 0xF0) as u8),
        b8 == (sm << 4) | ((m >> 8) as u8),
        b10 == (pbx * 16 + pnx) as u8,
        b11 == (cbx * 16 + cnx) as u8,
    ensures
        b7 & 0x0C == 0x08,
        ((p as u8) as u16) | ((0u8 & 0x0F) as u16) == p,
        ((c as u8) as u16) | (((0u8 & 0xF0) >> 4) as u16) == c,
        ((((b6 & 0xF0) >> 4) as u16 | (b7 & 0xF0) as u16) | (((b8 & 0x0F) as u16) << 8)) == m,
        b8 >> 4 == sm,
        (b6 & 0x01 == 0) == va,
        (b6 & 0x02 != 0) == bb,
        (b6 & 0x04 != 0) == tr,
        (b6 & 0x08 != 0) == fs,
        (b7 & 0x01 != 0) == vs,
        (b7 & 0x02 != 0) == pc,
        (b10 & 0xF0) >> 4 == pbx,
        b10 & 0x0F == pnx,
        (b11 & 0xF0) >> 4 == cbx,
        b11 & 0x0F == cnx,
        (b10 & 0x10 != 0) == (pbx & 0x01 == 0x01),
        (b10 & 0x20 != 0) == (pbx & 0x02 == 0x02),
{
}

/// The bit-level facts behind an INES header round trip.
proof fn bv_roundtrip_ines(
    va: bool, bb: bool, tr: bool, fs: bool, vs: bool, pc: bool, sp: bool, bc: bool,
    m: u16, b6: u8, b7: u8, b10: u8,
)
    by (bit_vector)
    requires
        m <= 0xFF,
        b6 == (if va { 0u8 } else { 1u8 }) | (if bb { 2u8 } else { 0u8 })
            | (if tr { 4u8 } else { 0u8 }) | (if fs { 8u8 } else { 0u8 })
            | (((m & 0x0F) as u8) << 4),
        b7 == ((if vs { 1u8 } else { 0u8 }) | (if pc { 2u8 } else { 0u8 }))
            | ((m & 0xF0) as u8),
        b10 == (if sp { 0x10u8 } else { 0u8 }) | (if bc { 0x20u8 } else { 0u8 }),
    ensures
        b7 & 0x0C != 0x08,
        (((b6 & 0xF0) >> 4) as u16 | (b7 & 0xF0) as u16) == m,
        (b6 & 0x01 == 0) == va,
        (b6 & 0x02 != 0) == bb,
        (b6 & 0x04 != 0) == tr,
        (b6 & 0x08 != 0) == fs,
        (b7 & 0x01 != 0) == vs,
        (b7 & 0x02 != 0) == pc,
        (b10 & 0x10 != 0) == sp,
        (b10 & 0x20 != 0) == bc,
{
}

/// The bit-level facts behind an archaic INES header round trip.
proof fn bv_roundtrip_archaic(
    va: bool, bb: bool, tr: bool, fs: bool, vs: bool, pc: bool, sp: bool, bc: bool,
    m: u16, b6: u8, b7: u8, b10: u8,
)
    by (bit_vector)
    requires
        m < 16,
        b6 == (if va { 0u8 } else { 1u8 }) | (if bb { 2u8 } else { 0u8 })
            | (if tr { 4u8 } else { 0u8 }) | (if fs { 8u8 } else { 0u8 })
            | (((m & 0x0F) as u8) << 4),
        b7 == (if vs { 1u8 } else { 0u8 }) | (if pc { 2u8 } else { 0u8 }),
        b10 == (if sp { 0x10u8 } else { 0u8 }) | (if bc { 0x20u8 } else { 0u8 }),
    ensures
        b7 & 0x0C != 0x08,
        (((b6 & 0xF0) >> 4) as u16) == m,
        (b6 & 0x01 == 0) == va,
        (b6 & 0x02 != 0) == bb,
        (b6 & 0x04 != 0) == tr,
        (b6 & 0x08 != 0) == fs,
        (b7 & 0x01 != 0) == vs,
        (b7 & 0x02 != 0) == pc,
        (b10 & 0x10 != 0) == sp,
        (b10 & 0x20 != 0) == bc,
{
}

/// Re-encoding a header's fields per the layout of its own version and
/// decoding them again yields the same header, for every header whose fields
/// that layout represents faithfully (`spec_encodable`).
pub proof fn lemma_header_round_trip(h: RomHeader)
    requires
        spec_encodable(h),
    ensures
        spec_parse_header(spec_encode_header(h)) == Ok::<RomHeader, Error>(h),
{
    let e = spec_encode_header(h);
    assert(e.len() == 16);
    assert(e[0] == 0x4E && e[1] == 0x45 && e[2] == 0x53 && e[3] == 0x1A);
    assert(e[4] == h.prg_rom_size as u8 && e[5] == h.chr_rom_size as u8);
    assert(e[6] == spec_enc_b6(h) && e[7] == spec_enc_b7(h) && e[8] == spec_enc_b8(h));
    assert(e[9] == spec_enc_b9(h) && e[10] == spec_enc_b10(h) && e[11] == spec_enc_b11(h));
    assert(e[12] == spec_enc_b12(h) && e[13] == 0 && e[14] == 0 && e[15] == 0);
    assert(spec_signature_ok(e));

    let m = h.cartridge.mapper;
    let p = h.prg_rom_size;
    let c = h.chr_rom_size;
    let va = h.vertical_arrangement;
    let bb = h.sram_battery_backed;
    let tr = h.trainer_present;
    let fs = h.four_screen_vram;
    let vs = h.vs_unisystem;
    let pc = h.playchoice_10;
    let sp = h.sram_present;
    let bc = h.cartridge.bus_conflicts;
    let b6 = spec_enc_b6(h);
    let b7 = spec_enc_b7(h);

    match h.version {
        Version::NES2 => {
            let sm = h.cartridge.submapper;
            let pbx = spec_nibble_of(h.prg_ram_size.battery_backed);
            let pnx = spec_nibble_of((h.prg_ram_size.total - h.prg_ram_size.battery_backed) as u32);
            let cbx = spec_nibble_of(h.chr_ram_size.battery_backed);
            let cnx = spec_nibble_of((h.chr_ram_size.total - h.chr_ram_size.battery_backed) as u32);
            assert(pbx < 16 && spec_ram_size(pbx) == h.prg_ram_size.battery_backed);
            assert(pnx < 16 && spec_ram_size(pnx)
                == (h.prg_ram_size.total - h.prg_ram_size.battery_backed) as u32);
            assert(cbx < 16 && spec_ram_size(cbx) == h.chr_ram_size.battery_backed);
            assert(cnx < 16 && spec_ram_size(cnx)
                == (h.chr_ram_size.total - h.chr_ram_size.battery_backed) as u32);
            bv_roundtrip_nes2(
                va, bb, tr, fs, vs, pc, m, sm, pbx, pnx, cbx, cnx, p, c,
                b6, b7, spec_enc_b8(h), spec_enc_b10(h), spec_enc_b11(h),
            );
            assert(spec_version(e) == Version::NES2);
            assert(spec_prg_size(e) == p);
            assert(spec_chr_size(e) == c);
            assert(spec_mapper(e) == m);
            assert(spec_submapper(e) == sm);
            assert(spec_ram_from_byte(e[10], Version::NES2) == h.prg_ram_size);
            assert(spec_ram_from_byte(e[11], Version::NES2) == h.chr_ram_size);
            assert(spec_tv_system(e) == h.tv_system) by {
                if h.tv_system == TvSystem::Dual {
                    assert(2u8 & 0x02 != 0) by (bit_vector);
                } else if h.tv_system == TvSystem::PAL {
                    assert(1u8 & 0x02 == 0 && 1u8 & 0x01 != 0) by (bit_vector);
                } else {
                    assert(0u8 & 0x02 == 0 && 0u8 & 0x01 == 0) by (bit_vector);
                }
            }
            assert(spec_header_fields(e) == h);
        },
        Version::INES => {
            bv_roundtrip_ines(va, bb, tr, fs, vs, pc, sp, bc, m, b6, b7, spec_enc_b10(h));
            assert(spec_version(e) == Version::INES);
            assert(spec_prg_size(e) == p);
            assert(spec_chr_size(e) == c);
            assert(spec_mapper(e) == m);
            assert(spec_tv_system(e) == h.tv_system) by {
                if h.tv_system == TvSystem::PAL {
                    assert(1u8 & 0x01 != 0) by (bit_vector);
                } else {
                    assert(0u8 & 0x01 == 0) by (bit_vector);
                }
            }
            assert(spec_header_fields(e) == h);
        },
        Version::ArchaicINES => {
            bv_roundtrip_archaic(va, bb, tr, fs, vs, pc, sp, bc, m, b6, b7, spec_enc_b10(h));
            assert(spec_version(e) == Version::ArchaicINES);
            assert(spec_header_fields(e) == h);
        },
    }
}


/// Writes the header's fields down as 16 bytes per the layout of its own
/// version, so that decoding reads them back unchanged (see
/// `lemma_header_round_trip`). Returns nothing exactly when some field
/// cannot be represented faithfully (`spec_encodable` fails).
pub fn encode_header(h: &RomHeader) -> (r: Option<Vec<u8>>)
    ensures
        match r {
            Some(v) => spec_encodable(*h) && v@ == spec_encode_header(*h),
            None => !spec_encodable(*h),
        },
{
    if h.prg_rom_size > 0xFF || h.chr_rom_size > 0xFF {
        return None;
    }
    let m = h.cartridge.mapper;
    let b6: u8 = (if h.vertical_arrangement { 0u8 } else { 1u8 })
        | (if h.sram_battery_backed { 2 } else { 0 })
        | (if h.trainer_present { 4 } else { 0 })
        | (if h.four_screen_vram { 8 } else { 0 })
        | (((m & 0x0F) as u8) << 4);
    let base7: u8 = (if h.vs_unisystem { 1u8 } else { 0u8 })
        | (if h.playchoice_10 { 2 } else { 0 });
    let flags10: u8 = (if h.sram_present { 0x10u8 } else { 0u8 })
        | (if h.cartridge.bus_conflicts { 0x20 } else { 0 });
    let ram_empty = h.prg_ram_size.battery_backed == 0 && h.prg_ram_size.total == 0
        && h.chr_ram_size.battery_backed == 0 && h.chr_ram_size.total == 0;

    let b7: u8;
    let mut b8: u8 = 0;
    let mut b9: u8 = 0;
    let b10: u8;
    let mut b11: u8 = 0;
    let b12: u8;

    match h.version {
        Version::ArchaicINES => {
            if !(m < 16 && h.cartridge.submapper == 0 && ram_empty
                && h.tv_system == TvSystem::Unknown) {
                return None;
            }
            b7 = base7;
            b10 = flags10;
            b12 = 0;
        },
        Version::INES => {
            if !(m <= 0xFF && h.cartridge.submapper == 0 && ram_empty
                && (h.tv_system == TvSystem::NTSC || h.tv_system == TvSystem::PAL)) {
                return None;
            }
            b7 = base7 | ((m & 0xF0) as u8);
            b9 = if h.tv_system == TvSystem::PAL {
                1
            } else {
                0
            };
            b10 = flags10;
            b12 = 1;
        },
        Version::NES2 => {
            if !(m <= 0xFFF && h.cartridge.submapper < 16 && h.tv_system != TvSystem::Unknown) {
                return None;
            }
            if h.prg_ram_size.total < h.prg_ram_size.battery_backed
                || h.chr_ram_size.total < h.chr_ram_size.battery_backed {
                return None;
            }
            let pbx = match nibble_of(h.prg_ram_size.battery_backed) {
                Some(x) => x,
                None => {
                    return None;
                },
            };
            let pnx = match nibble_of(h.prg_ram_size.total - h.prg_ram_size.battery_backed) {
                Some(x) => x,
                None => {
                    return None;
                },
            };
            let cbx = match nibble_of(h.chr_ram_size.battery_backed) {
                Some(x) => x,
                None => {
                    return None;
                },
            };
            let cnx = match nibble_of(h.chr_ram_size.total - h.chr_ram_size.battery_backed) {
                Some(x) => x,
                None => {
                    return None;
                },
            };
            if h.sram_present != (pbx & 0x01 == 0x01)
                || h.cartridge.bus_conflicts != (pbx & 0x02 == 0x02) {
                return None;
            }
            b7 = (base7 | 0x08) | ((m & 0xF0) as u8);
            b8 = (h.cartridge.submapper << 4) | ((m >> 8) as u8);
            b10 = pbx * 16 + pnx;
            b11 = cbx * 16 + cnx;
            b12 = if h.tv_system == TvSystem::Dual {
                2
            } else if h.tv_system == TvSystem::PAL {
                1
            } else {
                0
            };
        },
    }

    let mut out: Vec<u8> = Vec::new();
    out.push(0x4E);
    out.push(0x45);
    out.push(0x53);
    out.push(0x1A);
    out.push(h.prg_rom_size as u8);
    out.push(h.chr_rom_size as u8);
    out.push(b6);
    out.push(b7);
    out.push(b8);
    out.push(b9);
    out.push(b10);
    out.push(b11);
    out.push(b12);
    out.push(0);
    out.push(0);
    out.push(0);
    proof {
        assert(out@ =~= spec_encode_header(*h));
    }
    Some(out)
}

} // verus!
