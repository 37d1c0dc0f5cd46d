use nes_cpu::bus::ppu_bus::PpuBus;
use nes_cpu::cartridge::mapper::Mapper;
use nes_cpu::cartridge::Cartridge;
use nes_cpu::cartridge::Header;
use nes_cpu::errors::AppError;
use nes_cpu::ppu::PPU;
use std::rc::Rc;

fn header(prg_banks: u8, chr_banks: u8, byte6: u8, byte7: u8) -> Vec<u8> {
    let mut bytes = vec![0u8; 16];
    bytes[0] = 0x4E;
    bytes[1] = 0x45;
    bytes[2] = 0x53;
    bytes[3] = 0x1A;
    bytes[4] = prg_banks;
    bytes[5] = chr_banks;
    bytes[6] = byte6;
    bytes[7] = byte7;
    bytes
}

fn image(prg_banks: u8, chr_banks: u8, byte6: u8, lead: usize) -> Vec<u8> {
    let mut bytes = header(prg_banks, chr_banks, byte6, 0);
    bytes.extend(vec![0xEEu8; lead]);
    let prg = prg_banks as usize * 16384;
    let chr = chr_banks as usize * 8192;
    for i in 0..prg {
        bytes.push((i % 251) as u8);
    }
    for i in 0..chr {
        bytes.push((i % 241) as u8 ^ 0x80);
    }
    bytes
}

#[test]
fn rejects_mapper_other_than_zero() {
    let bytes = header(0, 0, 0x10, 0);
    assert_eq!(bytes.len(), 16);
    assert!(Cartridge::holds_whole_image(&bytes));
    match Cartridge::new(&bytes) {
        Err(error) => assert_eq!(error, AppError::InvalidCartridgeMapper),
        Ok(_) => panic!("a cartridge with mapper 1 was accepted"),
    }
}

#[test]
fn rejects_mapper_from_high_nibble_of_byte_seven() {
    let bytes = header(0, 0, 0x00, 0x10);
    assert!(Cartridge::holds_whole_image(&bytes));
    assert_eq!(Cartridge::new(&bytes).unwrap_err(), AppError::InvalidCartridgeMapper);
}

#[test]
fn rejects_image_shorter_than_header() {
    let bytes = header(1, 1, 0, 0);
    assert!(Cartridge::holds_whole_image(&bytes[..15]));
    assert_eq!(
        Cartridge::new(&bytes[..15]).unwrap_err(),
        AppError::InvalidCartridgeHeaderSize
    );
    assert!(Cartridge::holds_whole_image(&[]));
    assert_eq!(Cartridge::new(&[]).unwrap_err(), AppError::InvalidCartridgeHeaderSize);
}

#[test]
fn rejects_wrong_magic() {
    for position in 0..4 {
        let mut bytes = header(0, 0, 0, 0);
        bytes[position] ^= 0x01;
        assert!(Cartridge::holds_whole_image(&bytes));
        assert_eq!(Cartridge::new(&bytes).unwrap_err(), AppError::InvalidNesFile);
    }
}

#[test]
fn size_is_checked_before_magic() {
    let bytes = vec![0u8; 15];
    assert_eq!(Header::new(&bytes).unwrap_err(), AppError::InvalidCartridgeHeaderSize);
    let bytes = vec![0u8; 16];
    assert_eq!(Header::new(&bytes).unwrap_err(), AppError::InvalidNesFile);
}

#[test]
fn header_keeps_the_four_fields() {
    let bytes = header(2, 3, 0x0B, 0x0D);
    let parsed = Header::new(&bytes).unwrap();
    assert_eq!(parsed.prg_banks, 2);
    assert_eq!(parsed.chr_banks, 3);
    assert_eq!(parsed.first_mapper_flags, 0x0B);
    assert_eq!(parsed.second_mapper_flags, 0x0D);
    assert_eq!(parsed.get_mapper_id(), 0);
    assert!(!parsed.trainer_present());
}

#[test]
fn mapper_id_joins_the_two_high_nibbles() {
    let low_only = Header::new(&header(0, 0, 0x1F, 0x0F)).unwrap();
    assert_eq!(low_only.get_mapper_id(), 0x01);
    let high_only = Header::new(&header(0, 0, 0x0F, 0x2F)).unwrap();
    assert_eq!(high_only.get_mapper_id(), 0x20);
    let both = Header::new(&header(0, 0, 0xA3, 0x5C)).unwrap();
    assert_eq!(both.get_mapper_id(), 0x5A);
    let all = Header::new(&header(0, 0, 0xFF, 0xFF)).unwrap();
    assert_eq!(all.get_mapper_id(), 0xFF);
}

#[test]
fn trainer_bit_is_bit_two_of_byte_six() {
    assert!(Header::new(&header(0, 0, 0x04, 0)).unwrap().trainer_present());
    assert!(!Header::new(&header(0, 0, 0x0B, 0)).unwrap().trainer_present());
}

#[test]
fn loads_program_right_behind_the_header() {
    let bytes = image(1, 1, 0, 0);
    assert_eq!(bytes.len(), 16 + 16384 + 8192);
    assert!(Cartridge::holds_whole_image(&bytes));
    let cartridge = Cartridge::new(&bytes).unwrap();
    assert_eq!(cartridge.prg_capacity(), 16384);
    assert_eq!(cartridge.prg_read(0x8000), 0);
    assert_eq!(cartridge.prg_read(0x8001), 1);
    assert_eq!(cartridge.prg_read(0x80FB), 0);
    assert_eq!(cartridge.prg_read(0xBFFF), (16383 % 251) as u8);
    assert_eq!(cartridge.chr_read(0x0000), 0x80);
    assert_eq!(cartridge.chr_read(0x0001), 0x81);
    assert_eq!(cartridge.chr_read(0x1FFF), (8191 % 241) as u8 ^ 0x80);
}

#[test]
fn loads_program_behind_the_trainer() {
    let bytes = image(1, 1, 0x04, 512);
    assert_eq!(bytes.len(), 16 + 512 + 16384 + 8192);
    assert!(Cartridge::holds_whole_image(&bytes));
    let cartridge = Cartridge::new(&bytes).unwrap();
    assert_eq!(cartridge.prg_read(0x8000), 0);
    assert_eq!(cartridge.prg_read(0x8005), 5);
    assert_eq!(cartridge.chr_read(0x0002), 0x82);
}

#[test]
fn truncated_image_is_not_whole() {
    let bytes = image(1, 1, 0, 0);
    assert!(!Cartridge::holds_whole_image(&bytes[..bytes.len() - 1]));
    assert!(!Cartridge::holds_whole_image(&bytes[..16]));
    let with_trainer = image(1, 0, 0x04, 511);
    assert!(!Cartridge::holds_whole_image(&with_trainer));
}

#[test]
fn cartridge_without_banks_loads_empty() {
    let bytes = header(0, 0, 0, 0);
    assert!(Cartridge::holds_whole_image(&bytes));
    let cartridge = Cartridge::new(&bytes).unwrap();
    assert_eq!(cartridge.prg_capacity(), 0);
    assert_eq!(cartridge.prg_window(), 0x4000);
}

#[test]
fn one_bank_repeats_through_the_window() {
    let bytes = image(1, 0, 0, 0);
    let mut cartridge = Cartridge::new(&bytes).unwrap();
    assert_eq!(cartridge.prg_window(), 0x4000);
    assert_eq!(cartridge.prg_read(0xC001), cartridge.prg_read(0x8001));
    cartridge.prg_write(0xFFFC, 0x34);
    assert_eq!(cartridge.prg_read(0xFFFC), 0x34);
    assert_eq!(cartridge.prg_read(0xBFFC), 0x34);
}

#[test]
fn two_banks_fill_the_window() {
    let bytes = image(2, 0, 0, 0);
    let mut cartridge = Cartridge::new(&bytes).unwrap();
    assert_eq!(cartridge.prg_window(), 0x8000);
    assert_eq!(cartridge.prg_read(0x8001), 1);
    assert_eq!(cartridge.prg_read(0xC001), (16385 % 251) as u8);
    cartridge.prg_write(0xFFFC, 0x34);
    assert_eq!(cartridge.prg_read(0xFFFC), 0x34);
    assert_eq!(cartridge.prg_read(0xBFFC), (0x3FFC % 251) as u8);
}

#[test]
fn clone_is_a_separate_cartridge() {
    let bytes = image(1, 1, 0, 0);
    let mut cartridge = Cartridge::new(&bytes).unwrap();
    let copy = cartridge.clone();
    cartridge.prg_write(0x8000, 0x77);
    assert_eq!(cartridge.prg_read(0x8000), 0x77);
    assert_eq!(copy.prg_read(0x8000), 0);
    assert_eq!(copy.chr_read(0x0003), 0x83);
}

#[test]
fn mapper_masks_program_addresses() {
    let one = Mapper::new(1, 1);
    assert_eq!(one.get_prg_address(0x8000), 0x0000);
    assert_eq!(one.get_prg_address(0xBFFF), 0x3FFF);
    assert_eq!(one.get_prg_address(0xC000), 0x0000);
    assert_eq!(one.get_prg_address(0xFFFC), 0x3FFC);
    let two = Mapper::new(2, 1);
    assert_eq!(two.get_prg_address(0x8000), 0x0000);
    assert_eq!(two.get_prg_address(0xC000), 0x4000);
    assert_eq!(two.get_prg_address(0xFFFF), 0x7FFF);
    let none = Mapper::new(0, 0);
    assert_eq!(none.get_prg_address(0xFFFF), 0x3FFF);
}

#[test]
fn mapper_leaves_character_addresses_alone() {
    let mapper = Mapper::new(1, 1);
    assert_eq!(mapper.get_chr_address(0x0000), 0x0000);
    assert_eq!(mapper.get_chr_address(0x1ABC), 0x1ABC);
    assert_eq!(mapper.get_chr_address(0xFFFF), 0xFFFF);
}

#[test]
fn ppu_bus_reads_character_memory_in_its_window() {
    let cartridge = Rc::new(Cartridge::new(&image(1, 1, 0, 0)).unwrap());
    let bus = PpuBus::new(cartridge);
    assert_eq!(bus.read(0x0000), 0x80);
    assert_eq!(bus.read(0x0005), 0x85);
    assert_eq!(bus.read(0x1FFF), (8191 % 241) as u8 ^ 0x80);
    assert_eq!(bus.read(0x2000), 0);
    assert_eq!(bus.read(0xFFFF), 0);
    bus.write(0x0000, 0x12);
    assert_eq!(bus.read(0x0000), 0x80);
}

#[test]
fn ppu_registers_read_zero() {
    let cartridge = Rc::new(Cartridge::new(&image(1, 1, 0, 0)).unwrap());
    let ppu = PPU::new(PpuBus::new(cartridge));
    ppu.write(0x0000, 0xFF);
    for register in 0..8 {
        assert_eq!(ppu.read(register), 0);
    }
}

#[test]
fn error_messages() {
    assert_eq!(AppError::InvalidOpcode.message(), "invalid opcode");
    assert_eq!(
        AppError::InvalidCartridgeHeaderSize.message(),
        "invalid cartridge header size"
    );
    assert_eq!(AppError::InvalidNesFile.message(), "invalid NES file");
    assert_eq!(
        AppError::InvalidCartridgeMapper.message(),
        "invalid cartridge mapper id, only 0 is supported"
    );
}
