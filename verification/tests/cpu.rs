use nes_core::bus::Bus;
use nes_core::cartridge::{Cartridge, MIRROR};
use nes_core::cpu::{CPUFlags, Cpu6502};
use nes_core::instructions::instruction::{
    process_instruction_addressing_mode, AddressingMode, Operation,
};
use nes_core::instructions::instruction_functions::{ADC, BRK, CMP, PHP, PLP, ROR, SBC};
use nes_core::instructions::instruction_table::instruction_table::instruction_lookup;
use nes_core::nes::Nes;

fn cpu_with_program(at: u16, program: &[u8]) -> Cpu6502 {
    let mut cpu = Cpu6502::new(Bus::new(Cartridge::blank(MIRROR::HORIZONTAL)));
    cpu.reset(Some(at));
    for (i, byte) in program.iter().enumerate() {
        cpu.write_bus(at.wrapping_add(i as u16), *byte);
    }
    cpu.cycles = 0;
    cpu
}

fn flag(cpu: &Cpu6502, f: CPUFlags) -> bool {
    cpu.get_flag(f) == 1
}

#[test]
fn reset_vector() {
    let mut bytes = vec![0x4E, 0x45, 0x53, 0x1A, 1, 1, 0, 0];
    bytes.extend_from_slice(&[0u8; 8]);
    let mut prg = vec![0u8; 16384];
    prg[0x3FFC] = 0x34;
    prg[0x3FFD] = 0x12;
    bytes.extend_from_slice(&prg);
    bytes.extend_from_slice(&[0u8; 8192]);
    let cart = Cartridge::new(&bytes).unwrap();
    let nes = Nes::new(cart, None);
    assert_eq!(nes.cpu.pc, 0x1234);
    assert_eq!(nes.cpu.stack_pointer, 0xFD);
    assert_eq!(nes.cpu.acc, 0);
    assert_eq!(nes.cpu.x_reg, 0);
    assert_eq!(nes.cpu.y_reg, 0);
    assert!(flag(&nes.cpu, CPUFlags::I));
    assert!(flag(&nes.cpu, CPUFlags::U));
    assert_eq!(nes.cpu.cycles, 7);
}

#[test]
fn reset_override() {
    let nes = Nes::new(Cartridge::blank(MIRROR::HORIZONTAL), Some(0xC000));
    assert_eq!(nes.cpu.pc, 0xC000);
}

#[test]
fn adc_overflow() {
    let mut cpu = cpu_with_program(0x0200, &[0x69, 0x50]);
    cpu.acc = 0x50;
    cpu.set_flag(CPUFlags::C, false);
    cpu.step();
    assert_eq!(cpu.acc, 0xA0);
    assert!(flag(&cpu, CPUFlags::N));
    assert!(flag(&cpu, CPUFlags::V));
    assert!(!flag(&cpu, CPUFlags::Z));
    assert!(!flag(&cpu, CPUFlags::C));

    let mut cpu = cpu_with_program(0x0200, &[0x69, 0xD0]);
    cpu.acc = 0x50;
    cpu.set_flag(CPUFlags::C, false);
    cpu.step();
    assert_eq!(cpu.acc, 0x20);
    assert!(!flag(&cpu, CPUFlags::N));
    assert!(!flag(&cpu, CPUFlags::V));
    assert!(!flag(&cpu, CPUFlags::Z));
    assert!(flag(&cpu, CPUFlags::C));
}

#[test]
fn adc_function_with_carry_in() {
    let mut cpu = cpu_with_program(0x0200, &[]);
    cpu.addressing_mode = AddressingMode::IMM;
    cpu.addr_abs = 0x0010;
    cpu.write_bus(0x0010, 0xFF);
    cpu.acc = 0x00;
    cpu.set_flag(CPUFlags::C, true);
    ADC(&mut cpu);
    assert_eq!(cpu.acc, 0x00);
    assert_eq!(cpu.temp, 0x0100);
    assert!(flag(&cpu, CPUFlags::C));
    assert!(flag(&cpu, CPUFlags::Z));
    assert!(!flag(&cpu, CPUFlags::V));
}

#[test]
fn sbc_borrows() {
    let mut cpu = cpu_with_program(0x0200, &[]);
    cpu.addressing_mode = AddressingMode::IMM;
    cpu.addr_abs = 0x0010;
    cpu.write_bus(0x0010, 0x01);
    cpu.acc = 0x00;
    cpu.set_flag(CPUFlags::C, true);
    SBC(&mut cpu);
    assert_eq!(cpu.acc, 0xFF);
    assert!(!flag(&cpu, CPUFlags::C));
    assert!(flag(&cpu, CPUFlags::N));
    assert!(!flag(&cpu, CPUFlags::V));

    cpu.acc = 0x80;
    cpu.set_flag(CPUFlags::C, true);
    SBC(&mut cpu);
    assert_eq!(cpu.acc, 0x7F);
    assert!(flag(&cpu, CPUFlags::V));
    assert!(flag(&cpu, CPUFlags::C));
}

#[test]
fn sbc_alias_takes_an_immediate() {
    let mut cpu = cpu_with_program(0x0200, &[0xEB, 0x10]);
    cpu.acc = 0x30;
    cpu.set_flag(CPUFlags::C, true);
    cpu.step();
    assert_eq!(cpu.acc, 0x20);
    assert_eq!(cpu.pc, 0x0202);
}

#[test]
fn jmp_indirect_bug() {
    // The pointer lies at the end of a page of work RAM: its high byte comes
    // from the start of that page.
    let mut cpu = cpu_with_program(0x0400, &[0x6C, 0xFF, 0x02]);
    cpu.write_bus(0x0200, 0x40);
    cpu.write_bus(0x02FF, 0x80);
    cpu.write_bus(0x0300, 0x50);
    cpu.step();
    assert_eq!(cpu.pc, 0x4080);
    assert_eq!(cpu.cycles, 5);
}

#[test]
fn jmp_indirect_inside_a_page() {
    let mut cpu = cpu_with_program(0x0400, &[0x6C, 0x10, 0x02]);
    cpu.write_bus(0x0210, 0x80);
    cpu.write_bus(0x0211, 0x50);
    cpu.step();
    assert_eq!(cpu.pc, 0x5080);
}

#[test]
fn branch_page_cross() {
    let mut cpu = cpu_with_program(0x10FD, &[0xD0, 0x05]);
    cpu.set_flag(CPUFlags::Z, false);
    cpu.step();
    assert_eq!(cpu.pc, 0x1104);
    assert_eq!(cpu.cycles, 4);
}

#[test]
fn branch_inside_page_and_not_taken() {
    let mut cpu = cpu_with_program(0x0200, &[0xD0, 0x05]);
    cpu.set_flag(CPUFlags::Z, false);
    cpu.step();
    assert_eq!(cpu.pc, 0x0207);
    assert_eq!(cpu.cycles, 3);

    let mut cpu = cpu_with_program(0x0200, &[0xD0, 0x05]);
    cpu.set_flag(CPUFlags::Z, true);
    cpu.step();
    assert_eq!(cpu.pc, 0x0202);
    assert_eq!(cpu.cycles, 2);
}

#[test]
fn branch_backwards() {
    let mut cpu = cpu_with_program(0x0210, &[0xF0, 0xFC]);
    cpu.set_flag(CPUFlags::Z, true);
    cpu.step();
    assert_eq!(cpu.pc, 0x020E);
    assert_eq!(cpu.addr_rel, 0xFFFC);
}

#[test]
fn program_counter_moves_by_instruction_length() {
    let skip = [
        Operation::JMP, Operation::JSR, Operation::RTS, Operation::RTI, Operation::BRK,
        Operation::BCC, Operation::BCS, Operation::BEQ, Operation::BNE, Operation::BMI,
        Operation::BPL, Operation::BVC, Operation::BVS,
    ];
    for opcode in 0u16..=255 {
        let row = instruction_lookup(opcode as u8);
        if skip.contains(&row.function) {
            continue;
        }
        let mut cpu = cpu_with_program(0x0200, &[opcode as u8, 0x10, 0x03]);
        cpu.step();
        let length = match row.addr_mode {
            AddressingMode::IMP | AddressingMode::YYY => 1,
            AddressingMode::ABS | AddressingMode::ABX | AddressingMode::ABY | AddressingMode::IND => 3,
            _ => 2,
        };
        assert_eq!(cpu.pc, 0x0200 + length, "opcode {:02X}", opcode);
        assert!(flag(&cpu, CPUFlags::U));
    }
}

#[test]
fn table_rows() {
    let brk = instruction_lookup(0x00);
    assert_eq!(brk.name, "BRK");
    assert_eq!(brk.clock_cycles, 7);
    assert_eq!(brk.function, Operation::BRK);
    let lda = instruction_lookup(0xA9);
    assert_eq!(lda.name, "LDA");
    assert_eq!(lda.addr_mode, AddressingMode::IMM);
    assert_eq!(lda.clock_cycles, 2);
    let nop = instruction_lookup(0x1C);
    assert_eq!(nop.function, Operation::NOP);
    assert_eq!(nop.addr_mode, AddressingMode::ABX);
    let last = instruction_lookup(0xFF);
    assert_eq!(last.name, "???");
    assert_eq!(last.clock_cycles, 7);
}

#[test]
fn absolute_indexed_page_cross_costs_a_cycle() {
    let mut cpu = cpu_with_program(0x0200, &[0xBD, 0xFF, 0x02]);
    cpu.x_reg = 1;
    cpu.write_bus(0x0300, 0x77);
    cpu.step();
    assert_eq!(cpu.acc, 0x77);
    assert_eq!(cpu.cycles, 5);

    let mut cpu = cpu_with_program(0x0200, &[0xBD, 0x00, 0x03]);
    cpu.x_reg = 1;
    cpu.write_bus(0x0301, 0x78);
    cpu.step();
    assert_eq!(cpu.acc, 0x78);
    assert_eq!(cpu.cycles, 4);
}

#[test]
fn zero_page_indexing_wraps() {
    let mut cpu = cpu_with_program(0x0200, &[0xB5, 0xF0]);
    cpu.x_reg = 0x20;
    cpu.write_bus(0x0010, 0x99);
    cpu.step();
    assert_eq!(cpu.addr_abs, 0x0010);
    assert_eq!(cpu.acc, 0x99);
}

#[test]
fn indexed_indirect_wraps_in_page_zero() {
    let mut cpu = cpu_with_program(0x0200, &[0xA1, 0xFE]);
    cpu.x_reg = 0x01;
    cpu.write_bus(0x00FF, 0x34);
    cpu.write_bus(0x0000, 0x02);
    cpu.write_bus(0x0234, 0x5A);
    cpu.step();
    assert_eq!(cpu.addr_abs, 0x0234);
    assert_eq!(cpu.acc, 0x5A);
}

#[test]
fn indirect_indexed_page_cross() {
    let mut cpu = cpu_with_program(0x0200, &[0xB1, 0x10]);
    cpu.y_reg = 0x02;
    cpu.write_bus(0x0010, 0xFF);
    cpu.write_bus(0x0011, 0x02);
    cpu.write_bus(0x0301, 0x21);
    cpu.instruction = instruction_lookup(0xB1);
    cpu.pc = 0x0201;
    let penalty = process_instruction_addressing_mode(&mut cpu);
    assert_eq!(penalty, 1);
    assert_eq!(cpu.addr_abs, 0x0301);
    assert_eq!(cpu.pc, 0x0202);
}

#[test]
fn jsr_and_rts() {
    let mut cpu = cpu_with_program(0x0200, &[0x20, 0x00, 0x03]);
    cpu.write_bus(0x0300, 0x60);
    let sp = cpu.stack_pointer;
    cpu.step();
    assert_eq!(cpu.pc, 0x0300);
    assert_eq!(cpu.stack_pointer, sp.wrapping_sub(2));
    assert_eq!(cpu.read_bus(0x0100 + sp as u16), 0x02);
    assert_eq!(cpu.read_bus(0x0100 + sp as u16 - 1), 0x02);
    cpu.cycles = 0;
    cpu.step();
    assert_eq!(cpu.pc, 0x0203);
    assert_eq!(cpu.stack_pointer, sp);
}

#[test]
fn brk_and_rti() {
    let mut cpu = cpu_with_program(0x0200, &[0x00]);
    cpu.status = 0x21;
    cpu.pc = 0x0201;
    let sp = cpu.stack_pointer;
    BRK(&mut cpu);
    assert_eq!(cpu.read_bus(0x0100 + sp as u16), 0x02);
    assert_eq!(cpu.read_bus(0x0100 + sp as u16 - 1), 0x02);
    assert_eq!(cpu.read_bus(0x0100 + sp as u16 - 2), 0x31);
    assert!(flag(&cpu, CPUFlags::I));
    assert!(!flag(&cpu, CPUFlags::B));
    assert_eq!(cpu.pc, 0x0000);
    assert_eq!(instruction_lookup(0x00).clock_cycles, 7);
}

#[test]
fn php_and_plp() {
    let mut cpu = cpu_with_program(0x0200, &[]);
    cpu.status = 0x43;
    let sp = cpu.stack_pointer;
    PHP(&mut cpu);
    assert_eq!(cpu.status, 0x43);
    assert_eq!(cpu.read_bus(0x0100 + sp as u16), 0x73);
    cpu.status = 0x00;
    PLP(&mut cpu);
    assert_eq!(cpu.status, 0x63);
    assert_eq!(cpu.stack_pointer, sp);
}

#[test]
fn stack_pointer_wraps() {
    let mut cpu = cpu_with_program(0x0200, &[]);
    cpu.stack_pointer = 0x00;
    cpu.push(0xAA);
    assert_eq!(cpu.stack_pointer, 0xFF);
    assert_eq!(cpu.read_bus(0x0100), 0xAA);
    assert_eq!(cpu.pop(), 0xAA);
    assert_eq!(cpu.stack_pointer, 0x00);
}

#[test]
fn compare_sets_carry_and_zero() {
    let mut cpu = cpu_with_program(0x0200, &[]);
    cpu.addressing_mode = AddressingMode::IMM;
    cpu.addr_abs = 0x0010;
    cpu.write_bus(0x0010, 0x40);
    cpu.acc = 0x40;
    CMP(&mut cpu);
    assert!(flag(&cpu, CPUFlags::C));
    assert!(flag(&cpu, CPUFlags::Z));
    cpu.acc = 0x3F;
    CMP(&mut cpu);
    assert!(!flag(&cpu, CPUFlags::C));
    assert!(flag(&cpu, CPUFlags::N));
}

#[test]
fn rotate_right_through_carry() {
    let mut cpu = cpu_with_program(0x0200, &[]);
    cpu.addressing_mode = AddressingMode::IMP;
    cpu.fetched = 0x01;
    cpu.set_flag(CPUFlags::C, true);
    ROR(&mut cpu);
    assert_eq!(cpu.acc, 0x80);
    assert!(flag(&cpu, CPUFlags::C));
    assert!(flag(&cpu, CPUFlags::N));
}

#[test]
fn clock_counts_cycles_down() {
    let mut cpu = cpu_with_program(0x0200, &[0xA9, 0x01, 0xEA]);
    cpu.clock();
    assert_eq!(cpu.acc, 1);
    assert_eq!(cpu.cycles, 1);
    assert!(cpu.instruction_complete);
    cpu.clock();
    assert_eq!(cpu.cycles, 0);
    assert_eq!(cpu.pc, 0x0202);
    cpu.clock();
    assert_eq!(cpu.pc, 0x0203);
}

#[test]
fn nmi_waits_for_the_instruction_boundary() {
    let mut cpu = cpu_with_program(0x0200, &[0xA9, 0x01]);
    cpu.status = 0x20;
    cpu.clock();
    cpu.signal_nmi();
    cpu.clock();
    assert_eq!(cpu.pc, 0x0202);
    assert!(cpu.nmi_pending);
    let sp = cpu.stack_pointer;
    cpu.clock();
    assert!(!cpu.nmi_pending);
    assert_eq!(cpu.stack_pointer, sp.wrapping_sub(3));
    assert_eq!(cpu.read_bus(0x0100 + sp as u16), 0x02);
    assert_eq!(cpu.read_bus(0x0100 + sp as u16 - 1), 0x02);
    assert_eq!(cpu.read_bus(0x0100 + sp as u16 - 2) & 0x30, 0x20);
    assert!(flag(&cpu, CPUFlags::I));
    assert_eq!(cpu.cycles, 6);
}

#[test]
fn irq_is_masked_by_i() {
    let mut cpu = cpu_with_program(0x0200, &[0xEA, 0xEA]);
    cpu.signal_irq(true);
    cpu.set_flag(CPUFlags::I, true);
    cpu.clock();
    assert_eq!(cpu.pc, 0x0201);
    cpu.cycles = 0;
    cpu.set_flag(CPUFlags::I, false);
    let sp = cpu.stack_pointer;
    cpu.clock();
    assert_eq!(cpu.stack_pointer, sp.wrapping_sub(3));
    assert_eq!(cpu.addr_abs, 0xFFFE);
}

#[test]
fn addition_flags_tell_the_sum() {
    for (acc, operand, carry) in [(0x7Fu8, 0x01u8, false), (0x80, 0xFF, false), (0xFF, 0x00, true), (0x10, 0x20, true)] {
        let mut cpu = cpu_with_program(0x0200, &[]);
        cpu.addressing_mode = AddressingMode::IMM;
        cpu.addr_abs = 0x0010;
        cpu.write_bus(0x0010, operand);
        cpu.acc = acc;
        cpu.set_flag(CPUFlags::C, carry);
        ADC(&mut cpu);
        let sum = acc as i32 + operand as i32 + carry as i32;
        let signed = acc as i8 as i32 + operand as i8 as i32 + carry as i32;
        assert_eq!(cpu.acc as i32, sum % 256);
        assert_eq!(flag(&cpu, CPUFlags::C), sum > 255);
        assert_eq!(flag(&cpu, CPUFlags::V), !(-128..=127).contains(&signed));
        assert_eq!(flag(&cpu, CPUFlags::Z), cpu.acc == 0);
        assert_eq!(flag(&cpu, CPUFlags::N), (cpu.acc as i8) < 0);
    }
}
