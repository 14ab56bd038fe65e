use nes_core::bus::Bus;
use nes_core::cartridge::{Cartridge, CartridgeError, Rom, MIRROR};
use nes_core::mapper::{Mapper, Mapper000, MapperTrait};

fn image(prg_banks: u8, chr_banks: u8, flags6: u8, flags7: u8) -> Vec<u8> {
    let mut bytes = vec![0x4E, 0x45, 0x53, 0x1A, prg_banks, chr_banks, flags6, flags7];
    bytes.extend_from_slice(&[0u8; 8]);
    if flags6 & 0x04 != 0 {
        bytes.extend(std::iter::repeat(0xEE).take(512));
    }
    for i in 0..(prg_banks as usize * 16384) {
        bytes.push((i % 251) as u8);
    }
    for i in 0..(chr_banks as usize * 8192) {
        bytes.push((i % 241) as u8 ^ 0x80);
    }
    bytes
}

#[test]
fn mapper_nrom_one_bank_mirrors_upper_half() {
    let mapper = Mapper000::new(1, 1);
    assert_eq!(mapper.cpu_map_read(0x8000), Ok(0x0000));
    assert_eq!(mapper.cpu_map_read(0xBFFF), Ok(0x3FFF));
    assert_eq!(mapper.cpu_map_read(0xC000), Ok(0x0000));
    assert_eq!(mapper.cpu_map_read(0xFFFC), Ok(0x3FFC));
    assert_eq!(mapper.cpu_map_read(0x7FFF), Err(()));
    assert_eq!(mapper.cpu_map_write(0xFFFF), Ok(0x3FFF));
}

#[test]
fn mapper_nrom_two_banks_are_linear() {
    let mapper = Mapper::Nrom(Mapper000::new(2, 1));
    assert_eq!(mapper.cpu_map_read(0x8000), Ok(0x0000));
    assert_eq!(mapper.cpu_map_read(0xC000), Ok(0x4000));
    assert_eq!(mapper.cpu_map_read(0xFFFF), Ok(0x7FFF));
    assert_eq!(mapper.ppu_map_read(0x1FFF), Ok(0x1FFF));
    assert_eq!(mapper.ppu_map_read(0x2000), Err(()));
    assert_eq!(mapper.ppu_map_write(0x0000), Err(()));
}

#[test]
fn cartridge_loads_image() {
    let bytes = image(2, 1, 0x01, 0x00);
    let cart = Cartridge::new(&bytes).unwrap();
    assert_eq!(cart.prg_banks, 2);
    assert_eq!(cart.chr_banks, 1);
    assert_eq!(cart.mapper_id, 0);
    assert_eq!(cart.mirror, MIRROR::VERTICAL);
    assert_eq!(cart.cpu_read(0x8000), Ok(0));
    assert_eq!(cart.cpu_read(0x8001), Ok(1));
    assert_eq!(cart.cpu_read(0xFFFF), Ok((0x7FFF % 251) as u8));
    assert_eq!(cart.ppu_read(0x0000), Ok(0x80));
    assert_eq!(cart.ppu_read(0x1FFF), Ok((0x1FFF % 241) as u8 ^ 0x80));
    assert_eq!(cart.ppu_read(0x2000), Err(()));
    assert_eq!(cart.cpu_read(0x4020), Err(()));
}

#[test]
fn cartridge_skips_trainer() {
    let bytes = image(1, 0, 0x04, 0x00);
    let cart = Cartridge::new(&bytes).unwrap();
    assert_eq!(cart.mirror, MIRROR::HORIZONTAL);
    assert_eq!(cart.cpu_read(0x8002), Ok(2));
    assert_eq!(cart.cpu_read(0xC002), Ok(2));
    assert_eq!(cart.ppu_read(0x0123), Ok(0));
}

#[test]
fn cartridge_errors() {
    assert_eq!(Cartridge::new(&[0x4E, 0x45, 0x53]).err(), Some(CartridgeError::Truncated));
    let mut bad_magic = image(1, 1, 0, 0);
    bad_magic[3] = 0x00;
    assert_eq!(Cartridge::new(&bad_magic).err(), Some(CartridgeError::BadMagic));
    assert_eq!(
        Cartridge::new(&image(1, 1, 0x10, 0x40)).err(),
        Some(CartridgeError::UnsupportedMapper(0x41))
    );
    assert_eq!(Cartridge::new(&image(1, 1, 0x08, 0)).err(), Some(CartridgeError::FourScreen));
    assert_eq!(Cartridge::new(&image(0, 1, 0, 0)).err(), Some(CartridgeError::NoPrgRom));
    let mut short = image(1, 1, 0, 0);
    short.pop();
    assert_eq!(Cartridge::new(&short).err(), Some(CartridgeError::Truncated));
}

#[test]
fn cartridge_writes_reach_program_memory() {
    let mut cart = Cartridge::blank(MIRROR::HORIZONTAL);
    assert_eq!(cart.cpu_write(0x8000, 0x12), Ok(true));
    assert_eq!(cart.cpu_read(0xC000), Ok(0x12));
    assert_eq!(cart.cpu_write(0x1234, 0x12), Err(()));
    assert_eq!(cart.ppu_write(0x0000, 0x12), Err(()));
    assert_eq!(cart.ppu_read(0x0000), Ok(0));
}

#[test]
fn rom_paths_and_start() {
    assert_eq!(Rom::NesTest.path(), "test-roms/cpu/nestest.nes");
    assert_eq!(Rom::DonkeyKong.path(), "test-roms/carts/Donkey Kong (World) (Rev A).nes");
    assert_eq!(Rom::NesTest.start_pc(), Some(0xC000));
    assert_eq!(Rom::Mario.start_pc(), None);
}

#[test]
fn ram_round_trip_and_mirrors() {
    let mut bus = Bus::new(Cartridge::blank(MIRROR::HORIZONTAL));
    for addr in [0x0000u16, 0x0001, 0x00FF, 0x0100, 0x07FF] {
        let data = (addr as u8) ^ 0xA5;
        bus.cpu_write(addr, data);
        bus.cpu_read(0x2002, false);
        bus.cpu_read(0x4016, false);
        assert_eq!(bus.cpu_read(addr, false), data);
        assert_eq!(bus.cpu_read(addr + 0x0800, false), data);
        assert_eq!(bus.cpu_read(addr + 0x1800, true), data);
    }
    bus.cpu_write(0x1FFF, 0x42);
    assert_eq!(bus.ram[0x07FF], 0x42);
}

#[test]
fn ppu_registers_mirror_every_eight() {
    let mut bus = Bus::new(Cartridge::blank(MIRROR::HORIZONTAL));
    bus.cpu_write(0x3FF9, 0x1E);
    assert_eq!(bus.ppu.mask.get_register(), 0x1E);
    bus.cpu_write(0x2008, 0x80);
    assert_eq!(bus.ppu.ctrl.get_register(), 0x80);
}

#[test]
fn unmapped_reads_see_the_last_byte() {
    let mut bus = Bus::new(Cartridge::blank(MIRROR::HORIZONTAL));
    bus.cpu_write(0x0000, 0x5D);
    assert_eq!(bus.cpu_read(0x5000, false), 0x5D);
    bus.cpu_write(0x4000, 0x99);
    assert_eq!(bus.cpu_read(0x4018, false), 0x99);
}

#[test]
fn oam_dma_port_starts_transfer() {
    let mut bus = Bus::new(Cartridge::blank(MIRROR::HORIZONTAL));
    bus.dma_addr = 7;
    bus.cpu_write(0x4014, 0x02);
    assert!(bus.dma_transfer);
    assert!(bus.dma_dummy);
    assert_eq!(bus.dma_page, 0x02);
    assert_eq!(bus.dma_addr, 0);
}

#[test]
fn controller_shifts_out_buttons() {
    let mut bus = Bus::new(Cartridge::blank(MIRROR::HORIZONTAL));
    bus.controller[0] = 0b1010_0001;
    bus.controller[1] = 0b0100_0000;
    bus.cpu_write(0x4016, 1);
    let mut seen = Vec::new();
    for _ in 0..8 {
        seen.push(bus.cpu_read(0x4016, false));
    }
    assert_eq!(seen, vec![1, 0, 1, 0, 0, 0, 0, 1]);
    assert_eq!(bus.cpu_read(0x4017, true), 0);
    assert_eq!(bus.cpu_read(0x4017, false), 0);
    assert_eq!(bus.cpu_read(0x4017, false), 1);
}

#[test]
fn dma_copies_a_page_in_order() {
    let mut bus = Bus::new(Cartridge::blank(MIRROR::HORIZONTAL));
    for i in 0..256u16 {
        bus.cpu_write(0x0300 + i, (i as u8).wrapping_mul(3));
    }
    bus.cpu_write(0x2003, 0x04);
    bus.cpu_write(0x4014, 0x03);
    // An even start: one cycle of waiting, then 256 reads and writes.
    let mut cycle = 1usize;
    let mut spent = 0;
    while bus.dma_transfer {
        bus.dma_clock(cycle % 2 == 1);
        cycle += 1;
        spent += 1;
    }
    assert_eq!(spent, 513);
    for i in 0..256usize {
        let target = (i + 4) % 256;
        let entry = bus.ppu.oam[target / 4];
        let byte = [entry.y, entry.id, entry.attribute, entry.x][target % 4];
        assert_eq!(byte, (i as u8).wrapping_mul(3));
    }
}
