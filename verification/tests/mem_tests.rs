use remy::exec::adc::{bcd_to_uint, uint_to_bcd};
use remy::clock::Clock;
use remy::mem::{self, Memory, Mirrored, get_u16_le, set_u16_le};
use remy::pc::ProgramCounter;

#[test]
pub fn sixteen_bit_reads_and_writes_are_little_endian() {
    let mut m = mem::Fixed::new(4);
    set_u16_le(&mut m, 1, 0xBEEF).unwrap();
    assert_eq!(Ok(0xEF), m.get_u8(1));
    assert_eq!(Ok(0xBE), m.get_u8(2));
    assert_eq!(Ok(0xBEEF), get_u16_le(&m, 1));
}

#[test]
pub fn fixed_memory_rejects_out_of_bounds_accesses() {
    let mut m = mem::Fixed::new(4);
    assert_eq!(4, m.len());
    assert_eq!(Err(mem::MemoryError::OutOfBounds(4)), m.get_u8(4));
    assert_eq!(Err(mem::MemoryError::OutOfBounds(9)), m.set_u8(9, 1));
}

#[test]
pub fn empty_memory_has_no_addresses() {
    let mut e = mem::Empty;
    assert_eq!(0, e.len());
    assert_eq!(Err(mem::MemoryError::OutOfBounds(0)), e.get_u8(0));
    assert_eq!(Err(mem::MemoryError::OutOfBounds(3)), e.set_u8(3, 1));
}

#[test]
pub fn program_counter_advances_by_signed_offsets_and_wraps() {
    let mut pc = ProgramCounter::new();
    pc.set(0xABCD);
    pc.advance(1);
    assert_eq!(0xABCE, pc.get());
    pc.advance(-3);
    assert_eq!(0xABCB, pc.get());
    pc.set(0xFFFF);
    pc.advance(2);
    assert_eq!(0x0001, pc.get());
}

#[test]
pub fn the_clock_accumulates_and_saturates() {
    let mut c = Clock::new();
    c.tick(7);
    c.tick(2);
    assert_eq!(9, c.get());
    c.tick(u64::MAX);
    assert_eq!(u64::MAX, c.get());
}

#[test]
pub fn bcd_conversions_follow_the_digit_pair_rule() {
    assert_eq!(42, bcd_to_uint(0x42));
    assert_eq!(99, bcd_to_uint(0x99));
    assert_eq!(0x42, uint_to_bcd(42));
    assert_eq!(0x02, uint_to_bcd(102));
    assert_eq!(0x99, uint_to_bcd(99));
}

#[test]
pub fn a_mirrored_window_reads_and_writes_the_same_cells_everywhere() {
    let mut m = Mirrored::new(mem::Fixed::new(4), 12);
    assert_eq!(12, m.len());
    m.set_u8(1, 0xAB).unwrap();
    assert_eq!(Ok(0xAB), m.get_u8(1));
    assert_eq!(Ok(0xAB), m.get_u8(5));
    assert_eq!(Ok(0xAB), m.get_u8(9));
    m.set_u8(10, 0xCD).unwrap();
    assert_eq!(Ok(0xCD), m.get_u8(2));
    assert_eq!(Err(mem::MemoryError::OutOfBounds(12)), m.get_u8(12));
}
