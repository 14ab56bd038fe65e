use nes_core::cartridge::{Cartridge, MIRROR};
use nes_core::ppu::helpers::{get_oam_field, set_oam_field, write_pixel_to_output};
use nes_core::ppu::statics::{color, init_pal_screen};
use nes_core::ppu::structures::{
    ControlRegister, ObjectAttributeEntry, Pixel, Register, StatusRegister, VramRegister,
};
use nes_core::ppu::timing::LineState;
use nes_core::ppu::PPU;

fn cart_with_chr(fill: impl Fn(usize) -> u8) -> Cartridge {
    let mut bytes = vec![0x4E, 0x45, 0x53, 0x1A, 1, 1, 0, 0];
    bytes.extend_from_slice(&[0u8; 8]);
    bytes.extend_from_slice(&[0u8; 16384]);
    for i in 0..8192 {
        bytes.push(fill(i));
    }
    Cartridge::new(&bytes).unwrap()
}

#[test]
fn register_fields() {
    let field: Register<u16> = Register::<u16>::new(0xFFFF, 0x03E0);
    assert_eq!(field.get(), 0x03E0);
    assert_eq!(field.get_as_value(), 31);
    assert_eq!(field.left_shift, 5);
    assert_eq!(field.size, 5);
    let flag: Register<u8> = Register::<u8>::new(0x80, 0x80);
    assert_eq!(flag.left_shift, 7);
    assert_eq!(flag.size, 1);
    assert_eq!(flag.get_as_value(), 1);
    let status = StatusRegister::from(0xFF);
    assert_eq!(status.unused.size, 5);
    assert_eq!(status.unused.left_shift, 0);
    assert_eq!(status.vertical_blank.get_as_value(), 1);
}

#[test]
fn register_field_arithmetic() {
    let mut v = VramRegister::from(0);
    v.coarse_y.set_with_unshifted(31);
    assert_eq!(v.get_register(), 0x03E0);
    v.coarse_y.increment();
    assert_eq!(v.get_register(), 0x0000);
    v.coarse_y.decrement();
    assert_eq!(v.get_register(), 0x03E0);
    v.nametable_x.one();
    assert_eq!(v.get_register(), 0x07E0);
    v.nametable_x.flip_bits();
    assert_eq!(v.get_register(), 0x03E0);
    v.coarse_y.zero();
    v.fine_y.set(0xFFFF);
    assert_eq!(v.get_register(), 0x7000);
    v.set_register(0x1234);
    assert_eq!(v.coarse_x.get_as_value(), 0x14);
    assert_eq!(v.fine_y.get_as_value(), 1);
    let ctrl = ControlRegister::from(0xA5);
    assert_eq!(ctrl.get_register(), 0xA5);
    assert!(ctrl.enable_nmi.get_as_bool());
    assert!(!ctrl.slave_mode.get_as_bool());
}

#[test]
fn oam_fields() {
    let mut oam = [ObjectAttributeEntry::default(); 64];
    set_oam_field(&mut oam, 0, 1);
    set_oam_field(&mut oam, 1, 2);
    set_oam_field(&mut oam, 2, 3);
    set_oam_field(&mut oam, 3, 4);
    set_oam_field(&mut oam, 255, 9);
    assert_eq!(oam[0], ObjectAttributeEntry { y: 1, id: 2, attribute: 3, x: 4 });
    assert_eq!(oam[63].x, 9);
    assert_eq!(get_oam_field(&oam, 2), 3);
    assert_eq!(get_oam_field(&oam, 255), 9);
    assert_eq!(get_oam_field(&oam, 4), 0);
}

#[test]
fn palette_table() {
    assert_eq!(color(0x00), Pixel(84, 84, 84));
    assert_eq!(color(0x01), Pixel(0, 30, 116));
    assert_eq!(color(0x3D), Pixel(160, 162, 160));
    assert_eq!(color(0x41), Pixel(0, 30, 116));
    let all = init_pal_screen();
    assert_eq!(all[0x20], Pixel(236, 238, 236));
    assert_eq!(all[0x3F], Pixel(0, 0, 0));
}

#[test]
fn pixels_are_three_bytes() {
    let mut buffer = [0u8; 9];
    write_pixel_to_output(3, &mut buffer, Pixel(1, 2, 3));
    assert_eq!(buffer, [0, 0, 0, 1, 2, 3, 0, 0, 0]);
}

#[test]
fn line_states() {
    assert_eq!(LineState::from(0), LineState::Visible);
    assert_eq!(LineState::from(239), LineState::Visible);
    assert_eq!(LineState::from(240), LineState::PostRender);
    assert_eq!(LineState::from(241), LineState::VBlank);
    assert_eq!(LineState::from(260), LineState::VBlank);
    assert_eq!(LineState::from(261), LineState::PreRender);
}

#[test]
fn scroll_increments() {
    let mut ppu = PPU::new(Cartridge::blank(MIRROR::HORIZONTAL));
    ppu.cpu_write(0x2001, 0x08);
    ppu.vram_addr.set_register(0x001F);
    ppu.increment_scroll_x();
    assert_eq!(ppu.vram_addr.get_register(), 0x0400);
    ppu.vram_addr.set_register(0x0005);
    ppu.increment_scroll_x();
    assert_eq!(ppu.vram_addr.get_register(), 0x0006);

    ppu.vram_addr.set_register(0x6000);
    ppu.increment_scroll_y();
    assert_eq!(ppu.vram_addr.get_register(), 0x7000);
    ppu.increment_scroll_y();
    assert_eq!(ppu.vram_addr.get_register(), 0x0020);
    ppu.vram_addr.set_register(0x7000 | (29 << 5));
    ppu.increment_scroll_y();
    assert_eq!(ppu.vram_addr.get_register(), 0x0800);
    ppu.vram_addr.set_register(0x7000 | (30 << 5));
    ppu.increment_scroll_y();
    assert_eq!(ppu.vram_addr.get_register(), 0x0000);
    ppu.vram_addr.set_register(0x7000 | (31 << 5) | 0x0800);
    ppu.increment_scroll_y();
    assert_eq!(ppu.vram_addr.get_register(), 0x0800);
}

#[test]
fn scroll_waits_for_rendering() {
    let mut ppu = PPU::new(Cartridge::blank(MIRROR::HORIZONTAL));
    ppu.vram_addr.set_register(0x0005);
    ppu.tram_addr.set_register(0x7FFF);
    ppu.increment_scroll_x();
    ppu.increment_scroll_y();
    ppu.transfer_address_x();
    ppu.transfer_address_y();
    assert_eq!(ppu.vram_addr.get_register(), 0x0005);
}

#[test]
fn address_transfers() {
    let mut ppu = PPU::new(Cartridge::blank(MIRROR::HORIZONTAL));
    ppu.cpu_write(0x2001, 0x10);
    ppu.tram_addr.set_register(0x7FFF);
    ppu.vram_addr.set_register(0x0000);
    ppu.transfer_address_x();
    assert_eq!(ppu.vram_addr.get_register(), 0x041F);
    ppu.vram_addr.set_register(0x0000);
    ppu.transfer_address_y();
    assert_eq!(ppu.vram_addr.get_register(), 0x7BE0);
}

#[test]
fn background_tile_reaches_the_screen() {
    // Tile 1 is solid colour 3; the nametable is all tile 1.
    let cart = cart_with_chr(|i| if (16..32).contains(&i) { 0xFF } else { 0x00 });
    let mut ppu = PPU::new(cart);
    for i in 0..960u16 {
        ppu.ppu_write(0x2000 + i, 1);
    }
    ppu.ppu_write(0x3F00, 0x0F);
    ppu.ppu_write(0x3F03, 0x21);
    ppu.cpu_write(0x2001, 0x0A);
    // One frame to fill the pipeline, a second to draw.
    for _ in 0..(2 * 89342) {
        ppu.clock();
    }
    assert!(ppu.frame_complete);
    let screen = ppu.get_screen();
    let pixel = |x: usize, y: usize| {
        let at = (y * 256 + x) * 3;
        Pixel(screen[at], screen[at + 1], screen[at + 2])
    };
    assert_eq!(pixel(0, 0), color(0x21));
    assert_eq!(pixel(100, 100), color(0x21));
    assert_eq!(pixel(255, 239), color(0x21));
}

#[test]
fn blank_background_shows_the_universal_colour() {
    let mut ppu = PPU::new(Cartridge::blank(MIRROR::HORIZONTAL));
    ppu.ppu_write(0x3F00, 0x16);
    ppu.cpu_write(0x2001, 0x0A);
    for _ in 0..(2 * 89342) {
        ppu.clock();
    }
    let screen = ppu.get_screen();
    assert_eq!(Pixel(screen[0], screen[1], screen[2]), color(0x16));
}

fn sprite_scene(attribute: u8, x: u8) -> PPU {
    // Tile 2: only the leftmost column is set, in the low plane.
    // Tile 1: solid colour 3, used for the background.
    let cart = cart_with_chr(|i| {
        if (16..32).contains(&i) {
            0xFF
        } else if (32..40).contains(&i) {
            0x80
        } else {
            0x00
        }
    });
    let mut ppu = PPU::new(cart);
    for i in 0..960u16 {
        ppu.ppu_write(0x2000 + i, 1);
    }
    ppu.ppu_write(0x3F00, 0x0F);
    ppu.ppu_write(0x3F03, 0x21);
    ppu.ppu_write(0x3F11, 0x16);
    for i in 0..64u8 {
        ppu.cpu_write(0x2003, i * 4);
        ppu.cpu_write(0x2004, 0xF0);
    }
    ppu.cpu_write(0x2003, 0);
    ppu.cpu_write(0x2004, 50);
    ppu.cpu_write(0x2004, 2);
    ppu.cpu_write(0x2004, attribute);
    ppu.cpu_write(0x2004, x);
    ppu.cpu_write(0x2001, 0x1E);
    ppu
}

#[test]
fn sprite_zero_hit_and_sprite_pixel() {
    let mut ppu = sprite_scene(0x00, 100);
    for _ in 0..(2 * 89342 + 240 * 341) {
        ppu.clock();
    }
    assert_eq!(ppu.status.get_register() & 0x40, 0x40);
    let screen = ppu.get_screen();
    let pixel = |x: usize, y: usize| {
        let at = (y * 256 + x) * 3;
        Pixel(screen[at], screen[at + 1], screen[at + 2])
    };
    // The sprite's rows are drawn on the lines after its y.
    assert_eq!(pixel(100, 51), color(0x16));
    assert_eq!(pixel(101, 51), color(0x21));
    assert_eq!(pixel(100, 58), color(0x16));
    assert_eq!(pixel(100, 59), color(0x21));
    assert_eq!(pixel(100, 50), color(0x21));
    // The flag drops on the pre-render line.
    for _ in 0..(22 * 341) {
        ppu.clock();
    }
    assert_eq!(ppu.status.get_register() & 0x40, 0);
}

#[test]
fn sprite_flipped_left_to_right() {
    let mut ppu = sprite_scene(0x40, 100);
    for _ in 0..(2 * 89342) {
        ppu.clock();
    }
    let screen = ppu.get_screen();
    let pixel = |x: usize, y: usize| {
        let at = (y * 256 + x) * 3;
        Pixel(screen[at], screen[at + 1], screen[at + 2])
    };
    assert_eq!(pixel(107, 51), color(0x16));
    assert_eq!(pixel(100, 51), color(0x21));
}

#[test]
fn sprite_behind_background() {
    let mut ppu = sprite_scene(0x20, 100);
    for _ in 0..(2 * 89342 + 240 * 341) {
        ppu.clock();
    }
    let screen = ppu.get_screen();
    let at = (51 * 256 + 100) * 3;
    assert_eq!(Pixel(screen[at], screen[at + 1], screen[at + 2]), color(0x21));
    assert_eq!(ppu.status.get_register() & 0x40, 0x40);
}

#[test]
fn sprite_zero_hit_is_clipped_at_the_left() {
    let mut ppu = sprite_scene(0x00, 0);
    ppu.cpu_write(0x2001, 0x18);
    for _ in 0..(2 * 89342 + 240 * 341) {
        ppu.clock();
    }
    assert_eq!(ppu.status.get_register() & 0x40, 0);
}

#[test]
fn ninth_sprite_sets_overflow() {
    let mut ppu = PPU::new(Cartridge::blank(MIRROR::HORIZONTAL));
    for i in 0..64u8 {
        ppu.cpu_write(0x2003, i * 4);
        ppu.cpu_write(0x2004, if i < 9 { 20 } else { 0xF0 });
    }
    ppu.scanline = 22;
    ppu.load_sprites_to_render();
    assert_eq!(ppu.sprite_count, 8);
    assert!(ppu.sprite_zero_selected);
    assert_eq!(ppu.status.get_register() & 0x20, 0x20);

    ppu.status.set_register(0);
    ppu.scanline = 28;
    ppu.load_sprites_to_render();
    assert_eq!(ppu.sprite_count, 0);
    assert!(!ppu.sprite_zero_selected);
    assert_eq!(ppu.status.get_register() & 0x20, 0);
}

#[test]
fn tall_sprites_use_the_tile_pair() {
    let cart = cart_with_chr(|i| (i / 16) as u8);
    let mut ppu = PPU::new(cart);
    ppu.cpu_write(0x2000, 0x20);
    ppu.sprites_to_render[0] = ObjectAttributeEntry { y: 10, id: 0x05, attribute: 0x00, x: 3 };
    ppu.sprite_count = 1;
    ppu.scanline = 10 + 9;
    ppu.fetch_sprites();
    // Table 1, tile pair 4/5, second tile, row 1.
    assert_eq!(ppu.sprite_shifter_pattern_lo[0], ((0x1000 + 5 * 16 + 1) / 16) as u8);
    assert_eq!(ppu.sprite_x_counter[0], 3);
    ppu.sprites_to_render[0].attribute = 0x80;
    ppu.fetch_sprites();
    // Flipped: row 15 - 9 = 6 of the pair, so the first tile.
    assert_eq!(ppu.sprite_shifter_pattern_lo[0], ((0x1000 + 4 * 16 + 6) / 16) as u8);
}

#[test]
fn flipped_sprite_rows_are_mirrored() {
    let cart = cart_with_chr(|_| 0b1101_0010);
    let mut ppu = PPU::new(cart);
    ppu.sprites_to_render[0] = ObjectAttributeEntry { y: 0, id: 0, attribute: 0x40, x: 0 };
    ppu.sprite_count = 1;
    ppu.scanline = 0;
    ppu.fetch_sprites();
    assert_eq!(ppu.sprite_shifter_pattern_lo[0], 0b0100_1011);
    assert_eq!(ppu.sprite_shifter_pattern_hi[0], 0b0100_1011);
}

#[test]
fn reset_keeps_memory() {
    let mut ppu = PPU::new(Cartridge::blank(MIRROR::HORIZONTAL));
    ppu.ppu_write(0x2000, 7);
    ppu.ppu_write(0x3F01, 9);
    ppu.cpu_write(0x2000, 0xFF);
    for _ in 0..500 {
        ppu.clock();
    }
    ppu.reset();
    assert_eq!(ppu.ppu_read(0x2000), 7);
    assert_eq!(ppu.ppu_read(0x3F01), 9);
    assert_eq!(ppu.ctrl.get_register(), 0);
    assert_eq!(ppu.debug_get_scanline(), 0);
    assert_eq!(ppu.debug_get_cycle(), 0);
    assert!(ppu.ppu_first_write);
}

#[test]
fn name_table_banks() {
    let mut ppu = PPU::new(Cartridge::blank(MIRROR::VERTICAL));
    ppu.ppu_write(0x2400, 0x33);
    assert_eq!(ppu.get_name_table(1)[0], 0x33);
    assert_eq!(ppu.get_name_table(0)[0], 0x00);
}
