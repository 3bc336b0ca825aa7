use remy::mem::{self, Memory, get_range, set_range};
use remy::virt::{self, Virtual};

#[test]
pub fn attach_with_no_items() {
    let m = mem::Fixed::new(10);
    let mut vm = Virtual::new();
    vm.attach(1000, m).unwrap();
    assert_eq!(vm.segments.len(), 1);
    assert_eq!(vm.segments[0].base, 1000);
}

#[test]
pub fn attach_at_end() {
    let mem1 = mem::Fixed::new(10);
    let mem2 = mem::Fixed::new(10);
    let mut vm = Virtual::new();
    vm.attach(1000, mem1).unwrap();
    vm.attach(1010, mem2).unwrap();
    assert_eq!(vm.segments.len(), 2);
    assert_eq!(vm.segments[0].base, 1000);
    assert_eq!(vm.segments[1].base, 1010);
}

#[test]
pub fn attach_at_end_with_overlap() {
    let mem1 = mem::Fixed::new(10);
    let mem2 = mem::Fixed::new(10);
    let mut vm = Virtual::new();
    vm.attach(1000, mem1).unwrap();
    assert_eq!(vm.attach(1005, mem2), Err(virt::Error::MemoryOverlap));
}

#[test]
pub fn attach_at_beginning() {
    let mem1 = mem::Fixed::new(10);
    let mem2 = mem::Fixed::new(10);
    let mut vm = Virtual::new();
    vm.attach(1010, mem1).unwrap();
    vm.attach(1000, mem2).unwrap();
    assert_eq!(vm.segments.len(), 2);
    assert_eq!(vm.segments[0].base, 1000);
    assert_eq!(vm.segments[1].base, 1010);
}

#[test]
pub fn attach_at_beginning_with_overlap() {
    let mem1 = mem::Fixed::new(10);
    let mem2 = mem::Fixed::new(10);
    let mut vm = Virtual::new();
    vm.attach(0x1005, mem1).unwrap();
    assert_eq!(vm.attach(0x1000, mem2), Err(virt::Error::MemoryOverlap));
}

#[test]
pub fn attach_in_middle() {
    let mem1 = mem::Fixed::new(10);
    let mem2 = mem::Fixed::new(10);
    let mem3 = mem::Fixed::new(10);
    let mut vm = Virtual::new();
    vm.attach(1000, mem1).unwrap();
    vm.attach(1020, mem2).unwrap();
    vm.attach(1010, mem3).unwrap();
    assert_eq!(vm.segments.len(), 3);
    assert_eq!(vm.segments[0].base, 1000);
    assert_eq!(vm.segments[1].base, 1010);
    assert_eq!(vm.segments[2].base, 1020);
}

#[test]
pub fn attach_in_middle_with_overlap() {
    let mem1 = mem::Fixed::new(10);
    let mem2 = mem::Fixed::new(10);
    let mem3 = mem::Fixed::new(10);
    let mut vm = Virtual::new();
    vm.attach(1000, mem1).unwrap();
    vm.attach(1010, mem2).unwrap();
    assert_eq!(vm.attach(1005, mem3), Err(virt::Error::MemoryOverlap));
}

#[test]
pub fn get_from_single_memory() {
    let mut mem1 = mem::Fixed::new(10);
    let mut mem2 = mem::Fixed::new(10);
    let mut vm = Virtual::new();

    set_range(&mut mem1, 0, &vec![1, 2, 3, 4, 5, 6, 7, 8, 9, 10]).unwrap();
    set_range(&mut mem2, 0, &vec![11, 12, 13, 14, 15, 16, 17, 18, 19, 20]).unwrap();

    vm.attach(1000, mem1).unwrap();
    vm.attach(1010, mem2).unwrap();

    let buf = get_range(&vm, 1006, 4).unwrap();
    assert_eq!(vec![7, 8, 9, 10], buf);
}

#[test]
pub fn get_spanning_memories() {
    let mut mem1 = mem::Fixed::new(10);
    let mut mem2 = mem::Fixed::new(10);
    let mut vm = Virtual::new();

    set_range(&mut mem1, 0, &vec![1, 2, 3, 4, 5, 6, 7, 8, 9, 10]).unwrap();
    set_range(&mut mem2, 0, &vec![11, 12, 13, 14, 15, 16, 17, 18, 19, 20]).unwrap();

    vm.attach(1000, mem1).unwrap();
    vm.attach(1010, mem2).unwrap();

    let buf = get_range(&vm, 1008, 4).unwrap();
    assert_eq!(vec![9, 10, 11, 12], buf);
}

#[test]
pub fn set_to_single_memory() {
    let mut mem1 = mem::Fixed::new(10);
    let mut mem2 = mem::Fixed::new(10);
    let mut vm = Virtual::new();

    set_range(&mut mem1, 0, &vec![1, 2, 3, 4, 5, 6, 7, 8, 9, 10]).unwrap();
    set_range(&mut mem2, 0, &vec![11, 12, 13, 14, 15, 16, 17, 18, 19, 20]).unwrap();

    vm.attach(1000, mem1).unwrap();
    vm.attach(1010, mem2).unwrap();

    set_range(&mut vm, 1006, &vec![0xDE, 0xAD, 0xBE, 0xEF]).unwrap();

    let buf = get_range(&vm.segments[0].memory, 6, 4).unwrap();
    assert_eq!(vec![0xDE, 0xAD, 0xBE, 0xEF], buf);
}

#[test]
pub fn set_spanning_memories() {
    let mut mem1 = mem::Fixed::new(10);
    let mut mem2 = mem::Fixed::new(10);
    let mut vm = Virtual::new();

    set_range(&mut mem1, 0, &vec![1, 2, 3, 4, 5, 6, 7, 8, 9, 10]).unwrap();
    set_range(&mut mem2, 0, &vec![11, 12, 13, 14, 15, 16, 17, 18, 19, 20]).unwrap();

    vm.attach(1000, mem1).unwrap();
    vm.attach(1010, mem2).unwrap();

    set_range(&mut vm, 1008, &vec![0xDE, 0xAD, 0xBE, 0xEF]).unwrap();

    let mut buf = get_range(&vm.segments[0].memory, 8, 2).unwrap();
    buf.extend(get_range(&vm.segments[1].memory, 0, 2).unwrap());
    assert_eq!(vec![0xDE, 0xAD, 0xBE, 0xEF], buf);
}

#[test]
pub fn rejected_attach_leaves_the_segment_list_unchanged() {
    let mut vm = Virtual::new();
    vm.attach(0x1000, mem::Fixed::new(10)).unwrap();
    assert_eq!(vm.attach(0x1005, mem::Fixed::new(10)), Err(virt::Error::MemoryOverlap));
    assert_eq!(vm.segments.len(), 1);
    assert_eq!(vm.segments[0].base, 0x1000);
    assert_eq!(vm.segments[0].memory.len(), 10);
}

#[test]
pub fn unmapped_access_reports_the_offending_address() {
    let mut vm: Virtual<mem::Fixed> = Virtual::new();
    vm.attach(0x1000, mem::Fixed::new(10)).unwrap();
    assert_eq!(Err(mem::MemoryError::OutOfBounds(0x0FFF)), vm.get_u8(0x0FFF));
    assert_eq!(Err(mem::MemoryError::OutOfBounds(0x100A)), vm.set_u8(0x100A, 1));
}

#[test]
pub fn read_only_memory_refuses_writes_and_forwards_reads() {
    let mut inner = mem::Fixed::new(4);
    inner.set_u8(1, 9).unwrap();
    let mut rom = mem::read_only(inner);
    assert_eq!(Ok(9), rom.get_u8(1));
    assert_eq!(Err(mem::MemoryError::MemoryNotWritable(1)), rom.set_u8(1, 3));
    assert_eq!(Ok(9), rom.get_u8(1));
}

#[test]
pub fn write_only_memory_refuses_reads_and_forwards_writes() {
    let inner = mem::Fixed::new(4);
    let mut wom = mem::write_only(inner);
    assert_eq!(Ok(()), wom.set_u8(1, 3));
    assert_eq!(Err(mem::MemoryError::MemoryNotReadable(1)), wom.get_u8(1));
    assert_eq!(4, wom.len());
}

#[test]
pub fn virtual_len_is_one_past_the_last_segment() {
    let mut vm: Virtual<mem::Fixed> = Virtual::new();
    assert_eq!(0, vm.len());
    vm.attach(0x1000, mem::Fixed::new(0x10)).unwrap();
    assert_eq!(0x1010, vm.len());
}
