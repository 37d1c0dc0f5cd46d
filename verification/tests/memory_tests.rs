use nes_cpu::bus::Bus;
use nes_cpu::bus::BusDevice;
use nes_cpu::memory::Memory;
use nes_cpu::ram::RAM;
use nes_cpu::status::Flag;
use nes_cpu::status::Status;

#[test]
fn memory_starts_zeroed() {
    let memory = Memory::new(16);
    assert_eq!(memory.capacity(), 16);
    for address in 0..16 {
        assert_eq!(memory.read(address), 0);
    }
    assert_eq!(Memory::new(0).capacity(), 0);
}

#[test]
fn memory_write_changes_one_cell() {
    let mut memory = Memory::new(8);
    memory.write(3, 0xAB);
    for address in 0..8 {
        assert_eq!(memory.read(address), if address == 3 { 0xAB } else { 0 });
    }
    memory.write(3, 0x01);
    assert_eq!(memory.read(3), 0x01);
    memory.write(7, 0xFF);
    assert_eq!(memory.read(7), 0xFF);
}

#[test]
fn memory_write_chunk_copies_in_place() {
    let mut memory = Memory::new(8);
    memory.write(0, 0x11);
    memory.write(7, 0x77);
    memory.write_chunk(2, &[1, 2, 3]);
    let cells: Vec<u8> = (0..8).map(|address| memory.read(address)).collect();
    assert_eq!(cells, vec![0x11, 0, 1, 2, 3, 0, 0, 0x77]);
    memory.write_chunk(5, &[9, 8, 7]);
    let cells: Vec<u8> = (0..8).map(|address| memory.read(address)).collect();
    assert_eq!(cells, vec![0x11, 0, 1, 2, 3, 9, 8, 7]);
    memory.write_chunk(8, &[]);
    memory.write_chunk(0, &[]);
    let cells: Vec<u8> = (0..8).map(|address| memory.read(address)).collect();
    assert_eq!(cells, vec![0x11, 0, 1, 2, 3, 9, 8, 7]);
}

#[test]
fn memory_clone_is_separate() {
    let mut memory = Memory::new(4);
    memory.write(1, 5);
    let copy = memory.clone();
    memory.write(1, 6);
    assert_eq!(copy.read(1), 5);
    assert_eq!(memory.read(1), 6);
    assert_eq!(copy.capacity(), 4);
}

#[test]
fn ram_addresses_wrap_at_its_size() {
    let ram = RAM::<2048>::new();
    assert_eq!(ram.get_index(0), 0);
    assert_eq!(ram.get_index(2047), 2047);
    assert_eq!(ram.get_index(2048), 0);
    assert_eq!(ram.get_index(0xFFFF), 2047);
    let odd = RAM::<1000>::new();
    assert_eq!(odd.get_index(1000), 0);
    assert_eq!(odd.get_index(65535), 535);
}

#[test]
fn ram_reads_what_was_written_at_any_mirror() {
    let mut ram = RAM::<256>::new();
    assert_eq!(ram.read(0x1234), 0);
    ram.write(0x0105, 0x42);
    assert_eq!(ram.read(0x0005), 0x42);
    assert_eq!(ram.read(0xFF05), 0x42);
    assert_eq!(ram.read(0x0006), 0);
}

#[test]
fn ram_load_program_copies_from_the_start_index() {
    let mut ram = RAM::<16>::new();
    ram.load_program(&[0xA9, 0x01, 0x00], 0x0805);
    let cells: Vec<u8> = (0..16).map(|address| ram.read(address)).collect();
    assert_eq!(cells, vec![0, 0, 0, 0, 0, 0xA9, 0x01, 0x00, 0, 0, 0, 0, 0, 0, 0, 0]);
    ram.load_program(&[7], 15);
    assert_eq!(ram.read(15), 7);
    ram.load_program(&[], 3);
    assert_eq!(ram.read(3), 0);
}

#[test]
fn bus_routes_the_ram_window_to_its_device() {
    let mut ram = RAM::<65536>::new();
    ram.write(0x0000, 0x11);
    ram.write(0x077F, 0x22);
    ram.write(0x0780, 0x33);
    ram.write(0x07FF, 0x44);
    ram.write(0x1FFF, 0x55);
    ram.write(0x2000, 0x66);
    ram.write(0xFFFF, 0x77);
    let bus = Bus::new(Box::new(ram));
    assert_eq!(bus.read(0x0000), 0x11);
    assert_eq!(bus.read(0x077F), 0x22);
    assert_eq!(bus.read(0x0780), 0x33);
    assert_eq!(bus.read(0x07FF), 0x44);
    assert_eq!(bus.read(0x1FFF), 0x55);
    assert_eq!(bus.read(0x2000), 0);
    assert_eq!(bus.read(0x4000), 0);
    assert_eq!(bus.read(0xFFFF), 0);
}

#[test]
fn bus_shows_two_kib_of_ram_four_times() {
    let mut bus = Bus::new(Box::new(RAM::<2048>::new()));
    bus.write(0x0005, 0xAA);
    assert_eq!(bus.read(0x0005), 0xAA);
    assert_eq!(bus.read(0x0805), 0xAA);
    assert_eq!(bus.read(0x1005), 0xAA);
    assert_eq!(bus.read(0x1805), 0xAA);
    assert_eq!(bus.read(0x0006), 0);
    assert_eq!(bus.read(0x2005), 0);
    bus.write(0x1FFF, 0xBB);
    assert_eq!(bus.read(0x07FF), 0xBB);
    assert_eq!(bus.read(0x1FFF), 0xBB);
    for address in 0..=0x1FFFu16 {
        assert_eq!(bus.read(address), bus.read(address & 0x07FF));
    }
}

#[test]
fn bus_ignores_writes_outside_the_ram_window() {
    let mut bus = Bus::new(Box::new(RAM::<2048>::new()));
    bus.write(0x4005, 0xAA);
    assert_eq!(bus.read(0x0005), 0x00);
    assert_eq!(bus.read(0x4005), 0x00);
    assert_eq!(bus.ram.read(0x0005), 0x00);
    for address in [0x2000u16, 0x2005, 0x3FFF, 0x8005, 0xFFFF] {
        bus.write(address, 0xCC);
        assert_eq!(bus.read(address), 0);
    }
    for address in 0..0x0800u16 {
        assert_eq!(bus.ram.read(address), 0);
    }
}

#[test]
fn bus_write_at_the_edge_of_the_window() {
    let mut bus = Bus::new(Box::new(RAM::<65536>::new()));
    bus.write(0x1FFF, 0x01);
    bus.write(0x2000, 0x02);
    assert_eq!(bus.ram.read(0x1FFF), 0x01);
    assert_eq!(bus.ram.read(0x2000), 0x00);
    assert_eq!(bus.read(0x1FFF), 0x01);
}

#[test]
fn flags_have_their_bits() {
    assert_eq!(Flag::Carry.mask(), 0x01);
    assert_eq!(Flag::Zero.mask(), 0x02);
    assert_eq!(Flag::Interrupt.mask(), 0x04);
    assert_eq!(Flag::Decimal.mask(), 0x08);
    assert_eq!(Flag::Break.mask(), 0x10);
    assert_eq!(Flag::Unused.mask(), 0x20);
    assert_eq!(Flag::Overflow.mask(), 0x40);
    assert_eq!(Flag::Negative.mask(), 0x80);
}

#[test]
fn status_insert_remove_contains() {
    let mut status = Status::empty();
    assert_eq!(status.bits(), 0);
    assert!(!status.contains(Flag::Carry));
    status.insert(Flag::Carry);
    status.insert(Flag::Negative);
    assert_eq!(status.bits(), 0x81);
    assert!(status.contains(Flag::Carry));
    assert!(status.contains(Flag::Negative));
    assert!(!status.contains(Flag::Zero));
    status.insert(Flag::Carry);
    assert_eq!(status.bits(), 0x81);
    status.remove(Flag::Carry);
    assert_eq!(status.bits(), 0x80);
    status.remove(Flag::Carry);
    assert_eq!(status.bits(), 0x80);
    status.set(Flag::Overflow, true);
    assert_eq!(status.bits(), 0xC0);
    status.set(Flag::Negative, false);
    assert_eq!(status.bits(), 0x40);
}

#[test]
fn status_from_bits_keeps_every_bit() {
    for bits in 0..=255u8 {
        assert_eq!(Status::from_bits_truncate(bits).bits(), bits);
    }
    let status = Status::from_bits_truncate(0x24);
    assert!(status.contains(Flag::Unused));
    assert!(status.contains(Flag::Interrupt));
    assert!(!status.contains(Flag::Break));
}

#[test]
fn status_with_adds_a_flag_to_a_copy() {
    let status = Status::from_bits_truncate(0x01);
    let more = status.with(Flag::Break).with(Flag::Unused);
    assert_eq!(more.bits(), 0x31);
    assert_eq!(status.bits(), 0x01);
}
