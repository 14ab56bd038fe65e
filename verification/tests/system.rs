use nes_core::cartridge::{Cartridge, MIRROR};
use nes_core::nes::Nes;

fn machine() -> Nes {
    Nes::new(Cartridge::blank(MIRROR::HORIZONTAL), Some(0x0200))
}

#[test]
fn frame_takes_89342_ticks() {
    let mut nes = machine();
    let mut ticks = 0u32;
    while !nes.frame_complete() {
        nes.clock();
        ticks += 1;
    }
    assert_eq!(ticks, 89342);
    assert_eq!(nes.get_ppu_scanline(), 0);
    assert_eq!(nes.get_ppu_cycle(), 0);
    nes.clear_frame_flag();
    assert!(!nes.frame_complete());
    nes.clock_one_frame();
    assert!(nes.frame_complete());
    assert_eq!(nes.system_clock, 2 * 89342);
    assert_eq!(nes.get_ppu_frame_count(), 2);
}

#[test]
fn frame_holds_29780_or_29781_cpu_cycles() {
    let mut nes = machine();
    let mut previous = 0u32;
    for _ in 0..3 {
        nes.clear_frame_flag();
        while !nes.frame_complete() {
            nes.clock();
        }
        let now = nes.cpu.clock_count;
        let cycles = now - previous;
        assert!(cycles == 29780 || cycles == 29781, "{}", cycles);
        previous = now;
    }
}

#[test]
fn nmi_fires_once_per_frame() {
    let mut nes = machine();
    // CLI-free idle loop: JMP $0200
    nes.cpu.write_bus(0x0200, 0x4C);
    nes.cpu.write_bus(0x0201, 0x00);
    nes.cpu.write_bus(0x0202, 0x02);
    nes.cpu.write_bus(0x2000, 0x80);
    let mut raised = 0;
    for _ in 0..(2 * 89342) {
        let before = nes.cpu.nmi_pending;
        nes.clock();
        if nes.cpu.nmi_pending && !before {
            raised += 1;
        }
    }
    assert_eq!(raised, 2);
    assert!(!nes.cpu.bus.ppu.nmi);
}

#[test]
fn vblank_flag_rises_and_drops() {
    let mut nes = machine();
    for _ in 0..(241 * 341 + 1) {
        nes.clock();
    }
    assert_eq!(nes.get_ppu_status() & 0x80, 0);
    nes.clock();
    assert_eq!(nes.get_ppu_status() & 0x80, 0x80);
    for _ in 0..(20 * 341) {
        nes.clock();
    }
    assert_eq!(nes.get_ppu_scanline(), 261);
    assert_eq!(nes.get_ppu_status() & 0x80, 0);
}

#[test]
fn oam_dma_timing() {
    let mut nes = machine();
    // STA $4014 with A = 3, then an endless loop.
    nes.cpu.write_bus(0x0200, 0x8D);
    nes.cpu.write_bus(0x0201, 0x14);
    nes.cpu.write_bus(0x0202, 0x40);
    nes.cpu.write_bus(0x0203, 0x4C);
    nes.cpu.write_bus(0x0204, 0x03);
    nes.cpu.write_bus(0x0205, 0x02);
    for i in 0..256u16 {
        nes.cpu.write_bus(0x0300 + i, (i as u8) ^ 0x3C);
    }
    nes.cpu.acc = 0x03;
    nes.cpu.cycles = 0;
    // The write happens on an even CPU cycle: tick 0.
    assert_eq!(nes.system_clock % 6, 0);
    nes.clock();
    assert!(nes.cpu.bus.dma_transfer);
    let cpu_cycles_before = nes.cpu.clock_count;
    let mut dma_cycles = 0;
    while nes.cpu.bus.dma_transfer {
        if nes.system_clock % 3 == 0 {
            dma_cycles += 1;
        }
        nes.clock();
    }
    assert_eq!(dma_cycles, 513);
    assert_eq!(nes.cpu.clock_count, cpu_cycles_before);
    let oam = nes.get_oam();
    for i in 0..256usize {
        let entry = oam[i / 4];
        let byte = [entry.y, entry.id, entry.attribute, entry.x][i % 4];
        assert_eq!(byte, (i as u8) ^ 0x3C);
    }
}

#[test]
fn oam_dma_from_an_odd_cycle_takes_514() {
    let mut nes = machine();
    nes.cpu.write_bus(0x0200, 0x8D);
    nes.cpu.write_bus(0x0201, 0x14);
    nes.cpu.write_bus(0x0202, 0x40);
    nes.cpu.acc = 0x03;
    nes.cpu.cycles = 1;
    // Spend one CPU cycle first, so that the write lands on an odd one.
    nes.clock();
    nes.clock();
    nes.clock();
    assert_eq!(nes.system_clock, 3);
    nes.clock();
    assert!(nes.cpu.bus.dma_transfer);
    let mut dma_cycles = 0;
    while nes.cpu.bus.dma_transfer {
        if nes.system_clock % 3 == 0 {
            dma_cycles += 1;
        }
        nes.clock();
    }
    assert_eq!(dma_cycles, 514);
}

#[test]
fn clock_one_instruction_runs_one() {
    let mut nes = machine();
    nes.cpu.write_bus(0x0200, 0xA9);
    nes.cpu.write_bus(0x0201, 0x42);
    nes.cpu.write_bus(0x0202, 0xAA);
    nes.clock_one_instruction();
    assert_eq!(nes.cpu.acc, 0x42);
    assert!(nes.get_instruction_status());
    nes.clock_one_instruction();
    assert_eq!(nes.cpu.x_reg, 0x42);
    nes.reset_instruction_status();
    assert!(!nes.get_instruction_status());
}

#[test]
fn clock_one_scanline_leaves_the_line() {
    let mut nes = machine();
    nes.cpu.write_bus(0x0200, 0x4C);
    nes.cpu.write_bus(0x0201, 0x00);
    nes.cpu.write_bus(0x0202, 0x02);
    nes.clock_one_scanline();
    assert_eq!(nes.get_ppu_scanline(), 1);
}

#[test]
fn reset_is_idempotent() {
    let mut nes = machine();
    for _ in 0..1000 {
        nes.clock();
    }
    nes.reset();
    let pc = nes.cpu.pc;
    let status = nes.cpu.status;
    assert_eq!(nes.get_ppu_scanline(), 0);
    assert_eq!(nes.get_ppu_cycle(), 0);
    nes.reset();
    assert_eq!(nes.cpu.pc, pc);
    assert_eq!(nes.cpu.status, status);
    assert_eq!(nes.cpu.stack_pointer, 0xFD);
    assert_eq!(nes.cpu.cycles, 7);
}

#[test]
fn controller_state_reaches_the_bus() {
    let mut nes = machine();
    nes.set_controller(0, 0x80);
    nes.cpu.write_bus(0x4016, 1);
    assert_eq!(nes.cpu.read_bus(0x4016), 1);
    assert_eq!(nes.cpu.read_bus(0x4016), 0);
}

#[test]
fn frame_buffer_has_the_documented_size() {
    let nes = machine();
    assert_eq!(nes.frame().len(), 256 * 240 * 3);
}

#[test]
fn tick_is_clock() {
    let mut nes = machine();
    nes.tick();
    nes.tick();
    nes.tick();
    assert_eq!(nes.system_clock, 3);
    assert_eq!(nes.cpu.clock_count, 1);
    assert_eq!(nes.get_ppu_cycle(), 3);
    nes.cpu.bus.ppu.tick();
    assert_eq!(nes.get_ppu_cycle(), 4);
    assert!(!nes.cpu.bus.ppu.nmi_line());
    assert_eq!(nes.cpu.bus.ppu.frame().len(), 184320);
    let before = nes.cpu.cycles;
    nes.cpu.tick();
    assert_eq!(nes.cpu.cycles, before - 1);
}

#[test]
fn master_clock_shares_ticks_by_three() {
    let mut nes = machine();
    for start in 0..3u32 {
        let cpu_before = nes.cpu.clock_count;
        for _ in 0..89342 {
            nes.clock();
        }
        let spent = nes.cpu.clock_count - cpu_before;
        // 89342 = 3 * 29780 + 2: a frame that begins one tick after the CPU's holds 29780.
        let expected = if (start * 89342) % 3 == 1 { 29780 } else { 29781 };
        assert_eq!(spent, expected);
    }
}
