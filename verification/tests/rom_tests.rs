use remy::rom::{
    self, CartridgeInfo, Error, RamSize, RomHeader, TvSystem, Version, encode_header,
    get_full_size, load_rom, read_header, verify_signature,
};

fn ines_image(prg_banks: u8, chr_banks: u8) -> Vec<u8> {
    let mut data = vec![
        0x4E, 0x45, 0x53, 0x1A, prg_banks, chr_banks, 0x01, 0x00, 0x00, 0x00, 0x00, 0x00, 0x00,
        0x00, 0x00, 0x01,
    ];
    data.extend(std::iter::repeat(0xAA).take(prg_banks as usize * 16384));
    data.extend(std::iter::repeat(0xBB).take(chr_banks as usize * 8192));
    data
}

#[test]
pub fn ines_header_parses_sizes_mapper_and_arrangement() {
    let data = ines_image(2, 1);
    let header = read_header(&data).unwrap();
    assert_eq!(2, header.prg_rom_size);
    assert_eq!(1, header.chr_rom_size);
    assert_eq!(0, header.cartridge.mapper);
    assert_eq!(Version::ArchaicINES, header.version);
    assert!(!header.vertical_arrangement);
}

#[test]
pub fn load_rom_splits_prg_and_chr_banks() {
    let data = ines_image(2, 1);
    let rom = load_rom(&data).unwrap();
    assert_eq!(2 * 16384, rom.prg.len());
    assert_eq!(1 * 8192, rom.chr.len());
    assert!(rom.prg.iter().all(|b| *b == 0xAA));
    assert!(rom.chr.iter().all(|b| *b == 0xBB));
}

#[test]
pub fn a_wrong_signature_is_rejected() {
    let mut data = ines_image(1, 1);
    data[0] = 0x4D;
    assert!(matches!(read_header(&data), Err(Error::InvalidSignature)));
}

#[test]
pub fn a_short_header_is_rejected() {
    let data = vec![0x4E, 0x45, 0x53, 0x1A, 1];
    assert!(matches!(read_header(&data), Err(Error::InvalidHeader)));
}

#[test]
pub fn an_image_that_ends_inside_a_bank_is_rejected() {
    let mut data = ines_image(2, 1);
    data.truncate(16 + 16384);
    assert!(matches!(load_rom(&data), Err(Error::EndOfFileDuringBank)));
}

#[test]
pub fn signature_check_requires_all_four_bytes() {
    assert!(verify_signature(&vec![0x4E, 0x45, 0x53, 0x1A]));
    assert!(!verify_signature(&vec![0x4E, 0x45, 0x53]));
    assert!(!verify_signature(&vec![0x4E, 0x45, 0x53, 0x1B]));
}

#[test]
pub fn nes2_version_and_submapper_are_decoded() {
    let mut data = ines_image(1, 1);
    data[7] = 0x08; // NES 2.0 mark
    data[8] = 0x53; // submapper 5, mapper bits 8 to 11 = 3
    let header = read_header(&data).unwrap();
    assert_eq!(Version::NES2, header.version);
    assert_eq!(5, header.cartridge.submapper);
    assert_eq!(0x300, header.cartridge.mapper);
}

#[test]
pub fn nes2_ram_sizes_decode_nibble_pairs() {
    assert_eq!(
        RamSize { battery_backed: 0, total: 0 },
        RamSize::from_header_byte(0, Version::NES2)
    );
    // high nibble 1: 128 bytes battery-backed; low nibble 2: 256 bytes plain
    assert_eq!(
        RamSize { battery_backed: 128, total: 384 },
        RamSize::from_header_byte(0x12, Version::NES2)
    );
    // earlier formats carry no RAM sizes
    assert_eq!(
        RamSize { battery_backed: 0, total: 0 },
        RamSize::from_header_byte(0x12, Version::INES)
    );
}

#[test]
pub fn ram_size_nibbles_decode_as_sixty_four_shifted() {
    assert_eq!(0, get_full_size(0));
    assert_eq!(128, get_full_size(1));
    assert_eq!(256, get_full_size(2));
    assert_eq!(2097152, get_full_size(15));
}

#[test]
pub fn tv_system_follows_the_version_layout() {
    let mut data = ines_image(1, 0);
    assert_eq!(TvSystem::Unknown, read_header(&data).unwrap().tv_system);
    data[9] = 0x01;
    data[12] = 0x01;
    assert_eq!(TvSystem::PAL, read_header(&data).unwrap().tv_system);
    data[7] = 0x08;
    data[12] = 0x02;
    assert_eq!(TvSystem::Dual, read_header(&data).unwrap().tv_system);
}

#[test]
pub fn ines_header_round_trips_through_encode_and_decode() {
    let header = RomHeader {
        prg_rom_size: 2,
        chr_rom_size: 1,
        prg_ram_size: RamSize { battery_backed: 0, total: 0 },
        chr_ram_size: RamSize { battery_backed: 0, total: 0 },
        cartridge: CartridgeInfo { mapper: 0x42, submapper: 0, bus_conflicts: true },
        version: Version::INES,
        vertical_arrangement: false,
        four_screen_vram: true,
        sram_battery_backed: true,
        sram_present: true,
        trainer_present: false,
        vs_unisystem: true,
        playchoice_10: false,
        tv_system: TvSystem::PAL,
    };
    let bytes = encode_header(&header).unwrap();
    assert_eq!(Ok(header), read_header(&bytes));
}

#[test]
pub fn nes2_header_round_trips_through_encode_and_decode() {
    let header = RomHeader {
        prg_rom_size: 8,
        chr_rom_size: 4,
        prg_ram_size: RamSize { battery_backed: 2097152, total: 2097152 + 128 },
        chr_ram_size: RamSize { battery_backed: 0, total: 256 },
        cartridge: CartridgeInfo { mapper: 0xABC, submapper: 7, bus_conflicts: true },
        version: Version::NES2,
        vertical_arrangement: true,
        four_screen_vram: false,
        sram_battery_backed: false,
        sram_present: true,
        trainer_present: true,
        vs_unisystem: false,
        playchoice_10: true,
        tv_system: TvSystem::Dual,
    };
    let bytes = encode_header(&header).unwrap();
    assert_eq!(Ok(header), read_header(&bytes));
}

#[test]
pub fn archaic_header_round_trips_through_encode_and_decode() {
    let header = RomHeader {
        prg_rom_size: 1,
        chr_rom_size: 1,
        prg_ram_size: RamSize { battery_backed: 0, total: 0 },
        chr_ram_size: RamSize { battery_backed: 0, total: 0 },
        cartridge: CartridgeInfo { mapper: 3, submapper: 0, bus_conflicts: false },
        version: Version::ArchaicINES,
        vertical_arrangement: true,
        four_screen_vram: false,
        sram_battery_backed: false,
        sram_present: false,
        trainer_present: false,
        vs_unisystem: false,
        playchoice_10: false,
        tv_system: TvSystem::Unknown,
    };
    let bytes = encode_header(&header).unwrap();
    assert_eq!(Ok(header), read_header(&bytes));
}

#[test]
pub fn a_header_a_version_cannot_carry_is_not_encodable() {
    let header = RomHeader {
        prg_rom_size: 1,
        chr_rom_size: 1,
        prg_ram_size: RamSize { battery_backed: 0, total: 0 },
        chr_ram_size: RamSize { battery_backed: 0, total: 0 },
        // an archaic INES header stores only one mapper nibble
        cartridge: CartridgeInfo { mapper: 16, submapper: 0, bus_conflicts: false },
        version: Version::ArchaicINES,
        vertical_arrangement: true,
        four_screen_vram: false,
        sram_battery_backed: false,
        sram_present: false,
        trainer_present: false,
        vs_unisystem: false,
        playchoice_10: false,
        tv_system: TvSystem::Unknown,
    };
    assert!(encode_header(&header).is_none());
}

#[test]
pub fn header_flag_bits_are_read_from_bytes_six_seven_and_ten() {
    let mut data = ines_image(1, 1);
    data[6] = 0x0E; // vertical arrangement, battery, trainer, four-screen
    data[7] = 0x03; // vs unisystem, playchoice
    data[10] = 0x30; // sram present, bus conflicts
    let header = read_header(&data).unwrap();
    assert!(header.vertical_arrangement);
    assert!(header.sram_battery_backed);
    assert!(header.trainer_present);
    assert!(header.four_screen_vram);
    assert!(header.vs_unisystem);
    assert!(header.playchoice_10);
    assert!(header.sram_present);
    assert!(header.cartridge.bus_conflicts);
    assert_eq!(rom::HEADER_SIZE, 16);
}
