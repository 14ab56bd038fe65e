use nes_core::audio::APU2A03;
use nes_core::cartridge::{Cartridge, MIRROR};
use nes_core::disassembler::{decode_bytes_used, disassemble_rom};
use nes_core::emulator::{generate_dummy_texture, EmulationState, FrameSync};
use nes_core::instructions::instruction::AddressingMode;
use nes_core::nes::Nes;
use nes_core::ppu::generate_dummy_screen;
use nes_core::ppu::statics::color;
use nes_core::ppu::structures::Pixel;
use nes_core::ppu::PPU;

fn cart_with_program(program: &[u8]) -> Cartridge {
    let mut bytes = vec![0x4E, 0x45, 0x53, 0x1A, 2, 1, 0, 0];
    bytes.extend_from_slice(&[0u8; 8]);
    let mut prg = vec![0xEAu8; 32768];
    prg[..program.len()].copy_from_slice(program);
    bytes.extend_from_slice(&prg);
    for i in 0..8192usize {
        // Tile 0: low plane 0xF0 in every row, high plane 0x3C.
        bytes.push(if i < 8 { 0xF0 } else if i < 16 { 0x3C } else { 0 });
    }
    Cartridge::new(&bytes).unwrap()
}

#[test]
fn operand_bytes_by_mode() {
    assert_eq!(decode_bytes_used(AddressingMode::IMP), 0);
    assert_eq!(decode_bytes_used(AddressingMode::YYY), 0);
    assert_eq!(decode_bytes_used(AddressingMode::IMM), 1);
    assert_eq!(decode_bytes_used(AddressingMode::REL), 1);
    assert_eq!(decode_bytes_used(AddressingMode::IZY), 1);
    assert_eq!(decode_bytes_used(AddressingMode::ABS), 2);
    assert_eq!(decode_bytes_used(AddressingMode::IND), 2);
    assert_eq!(AddressingMode::ZPX.name(), "ZPX");
}

#[test]
fn disassembly_lines() {
    let cart = cart_with_program(&[0xA9, 0x05, 0x4C, 0x00, 0x80, 0xD0, 0xFE, 0xEA, 0xB5, 0xFF]);
    let lines = disassemble_rom(0x8000, 0x800A, &cart);
    assert_eq!(lines.get(&0x8000).unwrap(), "$0x8000 -> LDA #$0005         {IMM}");
    assert_eq!(lines.get(&0x8002).unwrap(), "$0x8002 -> JMP #$8000         {ABS}");
    assert_eq!(lines.get(&0x8005).unwrap(), "$0x8005 -> BNE #$  FE [$8005] {REL}");
    assert_eq!(lines.get(&0x8007).unwrap(), "$0x8007 -> NOP                {IMP}");
    assert_eq!(lines.get(&0x8008).unwrap(), "$0x8008 -> LDA #$0255         {ZPX}");
    assert_eq!(lines.get(&0x800A).unwrap(), "$0x800A -> NOP                {IMP}");
    assert!(lines.get(&0x8001).is_none());
    assert!(lines.get(&0x8003).is_none());
    assert!(lines.get(&0x8009).is_none());
    assert_eq!(lines.len(), 6);
}

#[test]
fn disassembly_below_the_cartridge_reads_zero() {
    let cart = cart_with_program(&[]);
    let lines = disassemble_rom(0x0000, 0x0002, &cart);
    assert_eq!(lines.len(), 3);
    assert_eq!(lines.get(&0x0001).unwrap(), "$0x0001 -> BRK                {IMP}");
}

#[test]
fn disassembly_of_the_whole_space_ends() {
    let cart = cart_with_program(&[0x4C]);
    let lines = disassemble_rom(0xFFFE, 0xFFFF, &cart);
    assert!(lines.get(&0xFFFE).is_some());
    let empty = disassemble_rom(0x9000, 0x8000, &cart);
    assert_eq!(empty.len(), 0);
}

#[test]
fn dummy_texture_bytes() {
    let data = generate_dummy_texture(4, 3);
    assert_eq!(data.len(), 36);
    assert_eq!(&data[0..3], &[0, 0, 0]);
    assert_eq!(&data[3..6], &[0, 1, 1]);
    assert_eq!(&data[12..15], &[1, 0, 1]);
    assert_eq!(&data[33..36], &[2, 3, 5]);
    let wide = generate_dummy_texture(300, 1);
    assert_eq!(&wide[299 * 3..], &[0, 43, 43]);
}

#[test]
fn palette_id_goes_around() {
    let mut state = EmulationState::new();
    assert_eq!(state.frame_sync, FrameSync::Stop);
    for expected in [1, 2, 3, 4, 5, 6, 7, 0, 1] {
        state.increment_palette_id();
        assert_eq!(state.palette_id, expected);
    }
    state.palette_id = 0;
    state.decrement_palette_id();
    assert_eq!(state.palette_id, 7);
    state.decrement_palette_id();
    assert_eq!(state.palette_id, 6);
}

fn machine() -> Nes {
    let mut nes = Nes::new(Cartridge::blank(MIRROR::HORIZONTAL), Some(0x0200));
    // INX; JMP $0200
    nes.cpu.write_bus(0x0200, 0xE8);
    nes.cpu.write_bus(0x0201, 0x4C);
    nes.cpu.write_bus(0x0202, 0x00);
    nes.cpu.write_bus(0x0203, 0x02);
    nes
}

#[test]
fn run_by_frame_sync() {
    let mut nes = machine();
    let mut state = EmulationState::new();
    state.run(&mut nes);
    assert_eq!(nes.system_clock, 0);

    state.frame_sync = FrameSync::OneCycle;
    state.run(&mut nes);
    assert_eq!(nes.system_clock, 1);
    assert_eq!(state.frame_sync, FrameSync::Stop);

    state.frame_sync = FrameSync::OneInstruction;
    state.run(&mut nes);
    assert_eq!(nes.cpu.x_reg, 1);
    assert_eq!(state.frame_sync, FrameSync::Stop);

    state.frame_sync = FrameSync::XCycles;
    state.cycles = 4;
    state.run(&mut nes);
    assert_eq!(nes.cpu.x_reg, 3);
    assert_eq!(state.cycles, 0);
    assert_eq!(state.frame_sync, FrameSync::Stop);

    state.frame_sync = FrameSync::PCWatch;
    state.watch_addr = 0x0201;
    state.run(&mut nes);
    assert_eq!(nes.cpu.pc, 0x0201);
    assert_eq!(nes.cpu.x_reg, 3);
    state.frame_sync = FrameSync::PCWatch;
    state.watch_addr = 0x0200;
    state.run(&mut nes);
    assert_eq!(nes.cpu.pc, 0x0200);
    assert_eq!(nes.cpu.x_reg, 3);
    state.frame_sync = FrameSync::PCWatch;
    state.watch_addr = 0x0201;
    state.run(&mut nes);
    assert_eq!(nes.cpu.x_reg, 4);
    assert_eq!(state.frame_sync, FrameSync::Stop);

    state.frame_sync = FrameSync::OneScanline;
    let line = nes.get_ppu_scanline();
    state.run(&mut nes);
    assert_eq!(nes.get_ppu_scanline(), line + 1);

    state.frame_sync = FrameSync::OneFrame;
    state.run(&mut nes);
    assert!(nes.frame_complete());
    assert_eq!(state.frame_sync, FrameSync::Stop);

    state.frame_sync = FrameSync::Wait;
    state.run(&mut nes);
    assert!(nes.frame_complete());
    assert_eq!(nes.get_ppu_frame_count(), 2);
    assert_eq!(state.frame_sync, FrameSync::Wait);

    state.frame_sync = FrameSync::Reset;
    state.run(&mut nes);
    assert_eq!(nes.cpu.cycles, 7);
    assert_eq!(state.frame_sync, FrameSync::Reset);

    state.frame_sync = FrameSync::DisplayPrevious;
    state.run(&mut nes);
    assert_eq!(state.frame_sync, FrameSync::Stop);
}

#[test]
fn pattern_table_picture() {
    let mut ppu = PPU::new(cart_with_program(&[]));
    ppu.ppu_write(0x3F04, 0x0F);
    ppu.ppu_write(0x3F05, 0x11);
    ppu.ppu_write(0x3F06, 0x22);
    ppu.ppu_write(0x3F07, 0x33);
    let picture = ppu.get_pattern_table(0, 1);
    let pixel = |x: usize, y: usize| {
        let at = (y * 128 + x) * 3;
        Pixel(picture[at], picture[at + 1], picture[at + 2])
    };
    // Low plane 1111_0000, high plane 0011_1100: colours 1 1 3 3 2 2 0 0.
    assert_eq!(pixel(0, 0), color(0x11));
    assert_eq!(pixel(1, 7), color(0x11));
    assert_eq!(pixel(2, 0), color(0x33));
    assert_eq!(pixel(3, 3), color(0x33));
    assert_eq!(pixel(4, 0), color(0x22));
    assert_eq!(pixel(5, 0), color(0x22));
    assert_eq!(pixel(6, 0), color(0x0F));
    assert_eq!(pixel(8, 0), color(0x0F));
    assert_eq!(pixel(0, 8), color(0x0F));
    assert_eq!(ppu.pattern_pixel(0, 2, 0), 3);
    assert_eq!(ppu.debug_get_pattern_table(1, 1)[0], color(0x0F).0);
    let blank = generate_dummy_screen();
    assert_eq!(blank.len(), 256 * 240 * 3);
    assert!(blank.iter().all(|byte| *byte == 0));
}

#[test]
fn validity_checks() {
    let mut nes = machine();
    assert!(nes.is_valid());
    nes.cpu.bus.ppu.scanline = 262;
    assert!(!nes.is_valid());
    nes.cpu.bus.ppu.scanline = 261;
    assert!(nes.is_valid());
    nes.cpu.bus.ppu.ctrl.enable_nmi.mask = 0x40;
    assert!(!nes.cpu.bus.ppu.ctrl.is_valid());
    assert!(!nes.cpu.is_valid());
    nes.cpu.bus.ppu.ctrl.enable_nmi.mask = 0x80;
    nes.cpu.bus.ppu.vram_addr.coarse_x.register = 0x20;
    assert!(!nes.cpu.bus.is_valid());
}

#[test]
fn audio_registers_take_and_answer_nothing() {
    assert!(APU2A03::answers(0x4000));
    assert!(APU2A03::answers(0x4013));
    assert!(!APU2A03::answers(0x4014));
    assert!(APU2A03::answers(0x4015));
    assert!(!APU2A03::answers(0x4016));
    assert!(APU2A03::answers(0x4017));
    APU2A03::cpu_write(0x4000, 0xFF);
    assert_eq!(APU2A03::cpu_read(0x4000), 0);
    APU2A03::clock();
    APU2A03::reset();
}
