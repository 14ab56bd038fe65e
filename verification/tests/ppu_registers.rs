use nes_core::cartridge::{Cartridge, MIRROR};
use nes_core::consts::ppu_consts::{
    CTRL_NAMETABLE_X, CTRL_NAMETABLE_Y, REG_NAMETABLE_X, REG_NAMETABLE_Y,
};
use nes_core::ppu::PPU;

fn blank_ppu() -> PPU {
    PPU::new(Cartridge::blank(MIRROR::HORIZONTAL))
}

#[test]
fn test_ppu_write_register_0() {
    for data in u8::MIN..=u8::MAX {
        let mut ppu: PPU = blank_ppu();
        ppu.cpu_write(0x2000, data);

        let data_nametable_x: u16 =
            ((data & CTRL_NAMETABLE_X) as u16) >> (CTRL_NAMETABLE_X.trailing_zeros());
        let data_nametable_y: u16 =
            ((data & CTRL_NAMETABLE_Y) as u16) >> (CTRL_NAMETABLE_Y.trailing_zeros());

        assert_eq!(data, ppu.ctrl.get_register());

        assert_eq!(data_nametable_x, ppu.tram_addr.nametable_x.get_as_value());
        assert_eq!(
            data_nametable_x,
            (ppu.tram_addr.nametable_x.get() & REG_NAMETABLE_X) >> REG_NAMETABLE_X.trailing_zeros()
        );

        assert_eq!(data_nametable_y, ppu.tram_addr.nametable_y.get_as_value());
        assert_eq!(
            data_nametable_y,
            (ppu.tram_addr.nametable_y.get() & REG_NAMETABLE_Y) >> REG_NAMETABLE_Y.trailing_zeros()
        );
    }
}

#[test]
fn test_ppu_write_register_1() {
    for data in u8::MIN..=u8::MAX {
        let mut ppu: PPU = blank_ppu();
        ppu.cpu_write(0x2001, data);

        assert_eq!(data, ppu.mask.get_register());
    }
}

#[test]
fn test_ppu_write_register_6() {
    let mut ppu: PPU = blank_ppu();
    for data in u16::MIN..=u16::MAX {
        ppu.cpu_write(0x2006, (data >> 8) as u8);
        ppu.cpu_write(0x2006, data as u8);
        // The high byte keeps its low six bits only.
        assert_eq!(data & 0x3FFF, ppu.vram_addr.get_register());
    }
}

#[test]
fn test_ppu_write_register_7() {
    let mut ppu: PPU = blank_ppu();
    for i in 0..=1 {
        ppu.debug_set_ctrl_increment(i != 0);
        for data in u8::MIN..=u8::MAX {
            let (result, pass_fail) =
                ppu.vram_addr.get_register().overflowing_add(if i == 1 { 32 } else { 1 });

            ppu.cpu_write(0x2007, data);

            if !pass_fail {
                assert_eq!(result, ppu.vram_addr.get_register());
            }
        }
    }
}

#[test]
fn address_latch_after_status_read() {
    let mut ppu = blank_ppu();
    ppu.cpu_write(0x2006, 0x3F);
    ppu.cpu_read(0x2002, false);
    ppu.cpu_write(0x2006, 0x21);
    ppu.cpu_write(0x2006, 0x08);
    assert_eq!(ppu.vram_addr.get_register(), 0x2108);
    assert_eq!(ppu.tram_addr.get_register(), 0x2108);
    assert!(ppu.ppu_first_write);
}

#[test]
fn status_read_clears_vblank_and_toggle() {
    let mut ppu = blank_ppu();
    ppu.status.set_register(0xE0);
    ppu.ppu_data_buffer = 0x1B;
    ppu.cpu_write(0x2005, 0x00);
    assert!(!ppu.ppu_first_write);
    assert_eq!(ppu.cpu_read(0x2002, false), 0xFB);
    assert!(ppu.ppu_first_write);
    assert_eq!(ppu.status.get_register() & 0x80, 0);
    assert_eq!(ppu.status.get_register() & 0x60, 0x60);
}

#[test]
fn status_peek_changes_nothing() {
    let mut ppu = blank_ppu();
    ppu.status.set_register(0x80);
    ppu.cpu_write(0x2005, 0x00);
    assert_eq!(ppu.cpu_read(0x2002, true), 0x80);
    assert!(!ppu.ppu_first_write);
    assert_eq!(ppu.status.get_register(), 0x80);
}

#[test]
fn oam_address_and_data() {
    let mut ppu = blank_ppu();
    ppu.cpu_write(0x2003, 0x10);
    ppu.cpu_write(0x2004, 0xAB);
    assert_eq!(ppu.oam_addr, 0x11);
    assert_eq!(ppu.oam[4].y, 0xAB);
    ppu.cpu_write(0x2003, 0x10);
    assert_eq!(ppu.cpu_read(0x2004, false), 0xAB);
    ppu.cpu_write(0x2003, 0xFF);
    ppu.cpu_write(0x2004, 0x77);
    assert_eq!(ppu.oam_addr, 0x00);
    assert_eq!(ppu.oam[63].x, 0x77);
}

#[test]
fn scroll_writes_fill_t() {
    let mut ppu = blank_ppu();
    ppu.cpu_write(0x2005, 0b1010_1101);
    assert_eq!(ppu.fine_x, 0b101);
    assert_eq!(ppu.tram_addr.coarse_x.get_as_value(), 0b10101);
    ppu.cpu_write(0x2005, 0b0110_0011);
    assert_eq!(ppu.tram_addr.fine_y.get_as_value(), 0b011);
    assert_eq!(ppu.tram_addr.coarse_y.get_as_value(), 0b01100);
    assert!(ppu.ppu_first_write);
}

#[test]
fn palette_round_trip_and_mirrors() {
    let mut ppu = blank_ppu();
    for p in 0u16..32 {
        let v = (p as u8).wrapping_mul(7).wrapping_add(0x81);
        ppu.ppu_write(0x3F00 + p, v);
        assert_eq!(ppu.ppu_read(0x3F00 + p), v & 0x3F);
    }
    ppu.ppu_write(0x3F10, 0x2A);
    assert_eq!(ppu.ppu_read(0x3F00), 0x2A);
    ppu.ppu_write(0x3F04, 0x15);
    assert_eq!(ppu.ppu_read(0x3F14), 0x15);
    ppu.ppu_write(0x3F18, 0x01);
    assert_eq!(ppu.ppu_read(0x3F08), 0x01);
    ppu.ppu_write(0x3F0C, 0x3F);
    assert_eq!(ppu.ppu_read(0x3F1C), 0x3F);
    assert_eq!(ppu.ppu_read(0x3F20), ppu.ppu_read(0x3F00));
}

#[test]
fn palette_grayscale_masks_reads() {
    let mut ppu = blank_ppu();
    ppu.ppu_write(0x3F01, 0x2B);
    ppu.cpu_write(0x2001, 0x01);
    assert_eq!(ppu.ppu_read(0x3F01), 0x20);
}

#[test]
fn nametable_writes_read_back_in_order() {
    let mut ppu = blank_ppu();
    ppu.cpu_write(0x2006, 0x20);
    ppu.cpu_write(0x2006, 0x00);
    for i in 0..64u8 {
        ppu.cpu_write(0x2007, i ^ 0x5A);
    }
    ppu.cpu_write(0x2006, 0x20);
    ppu.cpu_write(0x2006, 0x00);
    ppu.cpu_read(0x2007, false);
    for i in 0..64u8 {
        assert_eq!(ppu.cpu_read(0x2007, false), i ^ 0x5A);
    }
}

#[test]
fn nametable_mirroring() {
    let mut horizontal = PPU::new(Cartridge::blank(MIRROR::HORIZONTAL));
    horizontal.ppu_write(0x2000, 1);
    horizontal.ppu_write(0x2800, 2);
    assert_eq!(horizontal.ppu_read(0x2400), 1);
    assert_eq!(horizontal.ppu_read(0x2C00), 2);
    assert_eq!(horizontal.name_table[0], 1);
    assert_eq!(horizontal.name_table[1024], 2);

    let mut vertical = PPU::new(Cartridge::blank(MIRROR::VERTICAL));
    vertical.ppu_write(0x2000, 1);
    vertical.ppu_write(0x2400, 2);
    assert_eq!(vertical.ppu_read(0x2800), 1);
    assert_eq!(vertical.ppu_read(0x2C00), 2);

    let mut lo = PPU::new(Cartridge::blank(MIRROR::OnescreenLo));
    lo.ppu_write(0x2C05, 9);
    assert_eq!(lo.ppu_read(0x2005), 9);
    assert_eq!(lo.name_table[5], 9);

    let mut hi = PPU::new(Cartridge::blank(MIRROR::OnescreenHi));
    hi.ppu_write(0x2005, 9);
    assert_eq!(hi.name_table[1024 + 5], 9);
    assert_eq!(hi.ppu_read(0x3005), 9);
}

#[test]
fn write_only_registers_read_open_bus() {
    let mut ppu = blank_ppu();
    ppu.cpu_write(0x2001, 0x5C);
    assert_eq!(ppu.cpu_read(0x2000, false), 0x5C);
    assert_eq!(ppu.cpu_read(0x2005, false), 0x5C);
}

#[test]
fn data_port_steps_by_thirty_two() {
    let mut ppu = blank_ppu();
    ppu.cpu_write(0x2000, 0x04);
    ppu.cpu_write(0x2006, 0x20);
    ppu.cpu_write(0x2006, 0x00);
    ppu.cpu_write(0x2007, 1);
    assert_eq!(ppu.vram_addr.get_register(), 0x2020);
    ppu.cpu_write(0x2006, 0x7F);
    ppu.cpu_write(0x2006, 0xFF);
    ppu.cpu_write(0x2007, 1);
    assert_eq!(ppu.vram_addr.get_register(), 0x401F);
    ppu.vram_addr.set_register(0x7FFF);
    ppu.cpu_write(0x2007, 1);
    assert_eq!(ppu.vram_addr.get_register(), 0x001F);
}
