//! Laws of the whole machine: nothing on the CPU's side disturbs the dot
//! clock, so the running machine keeps the PPU's frame.

use crate::bus::{dma_source, Bus};
use crate::cpu::{flag_of, CPUFlags, Cpu6502};
use crate::instructions::instruction::Operation;
use crate::nes::Nes;
use crate::ppu::frame::lemma_clock_step;
use crate::ppu::structures::{ControlRegister, MaskRegister, StatusRegister, VramRegister};
use crate::ppu::PPU;
use vstd::prelude::*;

verus! {

/// Whether the PPU `after` stands on the dot of the PPU `before`, with the
/// frame flag as it was.
pub open spec fn same_dot(before: PPU, after: PPU) -> bool {
    &&& after.wf()
    &&& after.scanline == before.scanline
    &&& after.cycle == before.cycle
    &&& after.frame_complete == before.frame_complete
}

proof fn lemma_three_bits(data: u8)
    by (bit_vector)
    ensures
        data & 0x07 <= 7,
{
}

/// The CPU's reads and writes of the PPU's registers leave the dot clock
/// alone.
#[verifier::rlimit(50)]
pub proof fn lemma_registers_keep_dot(ppu: PPU, addr: u16, data: u8, read_only: bool)
    requires
        ppu.wf(),
    ensures
        same_dot(ppu, ppu.cpu_read_model(addr, read_only).0),
        same_dot(ppu, ppu.cpu_write_model(addr, data)),
{
    reveal(PPU::cpu_read_model);
    reveal(PPU::cpu_write_model);
    lemma_three_bits(data);
    assert forall|w: u16| #[trigger] VramRegister::model(w).wf() by {
        VramRegister::lemma_model_view(w);
    }
    assert forall|w: u8| #[trigger] StatusRegister::model(w).wf() by {
        StatusRegister::lemma_model_view(w);
    }
    assert forall|w: u8| #[trigger] ControlRegister::model(w).wf() by {
        ControlRegister::lemma_model_view(w);
    }
    assert forall|w: u8| #[trigger] MaskRegister::model(w).wf() by {
        MaskRegister::lemma_model_view(w);
    }
}

/// Nothing that happens on the CPU's bus moves the dot clock.
#[verifier::rlimit(50)]
pub proof fn lemma_bus_keeps_dot(bus: Bus, addr: u16, data: u8, read_only: bool, odd: bool)
    requires
        bus.wf(),
    ensures
        same_dot(bus.ppu, bus.cpu_read_model(addr, read_only).0.ppu),
        same_dot(bus.ppu, bus.cpu_write_model(addr, data).ppu),
        same_dot(bus.ppu, bus.dma_model(odd).ppu),
{
    reveal(Bus::cpu_read_model);
    reveal(Bus::cpu_write_model);
    lemma_registers_keep_dot(bus.ppu, addr, data, read_only);
    lemma_registers_keep_dot(bus.ppu, dma_source(bus.dma_page, bus.dma_addr), data, true);
}

/// Where the dot clock of a well-formed bus stands, with the frame flag;
/// nothing for a bus that is not well formed.
#[verifier::opaque]
pub open spec fn dot_stamp(bus: Bus) -> Option<(usize, usize, bool)> {
    if bus.wf() {
        Some((bus.ppu.scanline, bus.ppu.cycle, bus.ppu.frame_complete))
    } else {
        None
    }
}

#[verifier::rlimit(50)]
proof fn lemma_accesses_keep_stamp()
    ensures
        forall|bus: Bus, a: u16, read_only: bool|
            dot_stamp(bus) is Some ==> dot_stamp((#[trigger] bus.cpu_read_model(a, read_only)).0)
                == dot_stamp(bus),
        forall|bus: Bus, a: u16, d: u8|
            dot_stamp(bus) is Some ==> dot_stamp(#[trigger] bus.cpu_write_model(a, d)) == dot_stamp(
                bus,
            ),
{
    reveal(dot_stamp);
    assert forall|bus: Bus, a: u16, read_only: bool| dot_stamp(bus) is Some implies dot_stamp(
        (#[trigger] bus.cpu_read_model(a, read_only)).0,
    ) == dot_stamp(bus) by {
        lemma_bus_keeps_dot(bus, a, 0, read_only, false);
    }
    assert forall|bus: Bus, a: u16, d: u8| dot_stamp(bus) is Some implies dot_stamp(
        #[trigger] bus.cpu_write_model(a, d),
    ) == dot_stamp(bus) by {
        lemma_bus_keeps_dot(bus, a, d, false, false);
    }
}

#[verifier::rlimit(50)]
proof fn lemma_addressing_keeps_stamp(cpu: Cpu6502)
    requires
        dot_stamp(cpu.bus) is Some,
    ensures
        dot_stamp(cpu.addressing_model().0.bus) == dot_stamp(cpu.bus),
{
    reveal(Cpu6502::addressing_model);
    lemma_accesses_keep_stamp();
}

#[verifier::rlimit(50)]
proof fn lemma_first_lot_keeps_stamp(cpu: Cpu6502)
    requires
        dot_stamp(cpu.bus) is Some,
    ensures
        dot_stamp(cpu.adc_model().bus) == dot_stamp(cpu.bus),
        dot_stamp(cpu.and_model().bus) == dot_stamp(cpu.bus),
        dot_stamp(cpu.asl_model().bus) == dot_stamp(cpu.bus),
        dot_stamp(cpu.bcc_model().bus) == dot_stamp(cpu.bus),
        dot_stamp(cpu.bcs_model().bus) == dot_stamp(cpu.bus),
        dot_stamp(cpu.beq_model().bus) == dot_stamp(cpu.bus),
        dot_stamp(cpu.bit_model().bus) == dot_stamp(cpu.bus),
        dot_stamp(cpu.bmi_model().bus) == dot_stamp(cpu.bus),
{
    reveal(Cpu6502::adc_model);
    reveal(Cpu6502::and_model);
    reveal(Cpu6502::asl_model);
    reveal(Cpu6502::bcc_model);
    reveal(Cpu6502::bcs_model);
    reveal(Cpu6502::beq_model);
    reveal(Cpu6502::bit_model);
    reveal(Cpu6502::bmi_model);
    lemma_accesses_keep_stamp();
}

#[verifier::rlimit(50)]
proof fn lemma_second_lot_keeps_stamp(cpu: Cpu6502)
    requires
        dot_stamp(cpu.bus) is Some,
    ensures
        dot_stamp(cpu.bne_model().bus) == dot_stamp(cpu.bus),
        dot_stamp(cpu.bpl_model().bus) == dot_stamp(cpu.bus),
        dot_stamp(cpu.brk_model().bus) == dot_stamp(cpu.bus),
        dot_stamp(cpu.bvc_model().bus) == dot_stamp(cpu.bus),
        dot_stamp(cpu.bvs_model().bus) == dot_stamp(cpu.bus),
        dot_stamp(cpu.clc_model().bus) == dot_stamp(cpu.bus),
        dot_stamp(cpu.cld_model().bus) == dot_stamp(cpu.bus),
        dot_stamp(cpu.cli_model().bus) == dot_stamp(cpu.bus),
{
    reveal(Cpu6502::bne_model);
    reveal(Cpu6502::bpl_model);
    reveal(Cpu6502::brk_model);
    reveal(Cpu6502::bvc_model);
    reveal(Cpu6502::bvs_model);
    reveal(Cpu6502::clc_model);
    reveal(Cpu6502::cld_model);
    reveal(Cpu6502::cli_model);
    lemma_accesses_keep_stamp();
}

#[verifier::rlimit(50)]
proof fn lemma_third_lot_keeps_stamp(cpu: Cpu6502)
    requires
        dot_stamp(cpu.bus) is Some,
    ensures
        dot_stamp(cpu.clv_model().bus) == dot_stamp(cpu.bus),
        dot_stamp(cpu.cmp_model().bus) == dot_stamp(cpu.bus),
        dot_stamp(cpu.cpx_model().bus) == dot_stamp(cpu.bus),
        dot_stamp(cpu.cpy_model().bus) == dot_stamp(cpu.bus),
        dot_stamp(cpu.dec_model().bus) == dot_stamp(cpu.bus),
        dot_stamp(cpu.dex_model().bus) == dot_stamp(cpu.bus),
        dot_stamp(cpu.dey_model().bus) == dot_stamp(cpu.bus),
        dot_stamp(cpu.eor_model().bus) == dot_stamp(cpu.bus),
{
    reveal(Cpu6502::clv_model);
    reveal(Cpu6502::cmp_model);
    reveal(Cpu6502::cpx_model);
    reveal(Cpu6502::cpy_model);
    reveal(Cpu6502::dec_model);
    reveal(Cpu6502::dex_model);
    reveal(Cpu6502::dey_model);
    reveal(Cpu6502::eor_model);
    lemma_accesses_keep_stamp();
}

#[verifier::rlimit(50)]
proof fn lemma_fourth_lot_keeps_stamp(cpu: Cpu6502)
    requires
        dot_stamp(cpu.bus) is Some,
    ensures
        dot_stamp(cpu.inc_model().bus) == dot_stamp(cpu.bus),
        dot_stamp(cpu.inx_model().bus) == dot_stamp(cpu.bus),
        dot_stamp(cpu.iny_model().bus) == dot_stamp(cpu.bus),
        dot_stamp(cpu.jmp_model().bus) == dot_stamp(cpu.bus),
        dot_stamp(cpu.jsr_model().bus) == dot_stamp(cpu.bus),
        dot_stamp(cpu.lda_model().bus) == dot_stamp(cpu.bus),
        dot_stamp(cpu.ldx_model().bus) == dot_stamp(cpu.bus),
        dot_stamp(cpu.ldy_model().bus) == dot_stamp(cpu.bus),
{
    reveal(Cpu6502::inc_model);
    reveal(Cpu6502::inx_model);
    reveal(Cpu6502::iny_model);
    reveal(Cpu6502::jmp_model);
    reveal(Cpu6502::jsr_model);
    reveal(Cpu6502::lda_model);
    reveal(Cpu6502::ldx_model);
    reveal(Cpu6502::ldy_model);
    lemma_accesses_keep_stamp();
}

#[verifier::rlimit(50)]
proof fn lemma_fifth_lot_keeps_stamp(cpu: Cpu6502)
    requires
        dot_stamp(cpu.bus) is Some,
    ensures
        dot_stamp(cpu.lsr_model().bus) == dot_stamp(cpu.bus),
        dot_stamp(cpu.nop_model().bus) == dot_stamp(cpu.bus),
        dot_stamp(cpu.ora_model().bus) == dot_stamp(cpu.bus),
        dot_stamp(cpu.pha_model().bus) == dot_stamp(cpu.bus),
        dot_stamp(cpu.php_model().bus) == dot_stamp(cpu.bus),
        dot_stamp(cpu.pla_model().bus) == dot_stamp(cpu.bus),
        dot_stamp(cpu.plp_model().bus) == dot_stamp(cpu.bus),
        dot_stamp(cpu.rol_model().bus) == dot_stamp(cpu.bus),
{
    reveal(Cpu6502::lsr_model);
    reveal(Cpu6502::nop_model);
    reveal(Cpu6502::ora_model);
    reveal(Cpu6502::pha_model);
    reveal(Cpu6502::php_model);
    reveal(Cpu6502::pla_model);
    reveal(Cpu6502::plp_model);
    reveal(Cpu6502::rol_model);
    lemma_accesses_keep_stamp();
}

#[verifier::rlimit(50)]
proof fn lemma_sixth_lot_keeps_stamp(cpu: Cpu6502)
    requires
        dot_stamp(cpu.bus) is Some,
    ensures
        dot_stamp(cpu.ror_model().bus) == dot_stamp(cpu.bus),
        dot_stamp(cpu.rti_model().bus) == dot_stamp(cpu.bus),
        dot_stamp(cpu.rts_model().bus) == dot_stamp(cpu.bus),
        dot_stamp(cpu.sbc_model().bus) == dot_stamp(cpu.bus),
        dot_stamp(cpu.sec_model().bus) == dot_stamp(cpu.bus),
        dot_stamp(cpu.sed_model().bus) == dot_stamp(cpu.bus),
        dot_stamp(cpu.sei_model().bus) == dot_stamp(cpu.bus),
        dot_stamp(cpu.sta_model().bus) == dot_stamp(cpu.bus),
{
    reveal(Cpu6502::ror_model);
    reveal(Cpu6502::rti_model);
    reveal(Cpu6502::rts_model);
    reveal(Cpu6502::sbc_model);
    reveal(Cpu6502::sec_model);
    reveal(Cpu6502::sed_model);
    reveal(Cpu6502::sei_model);
    reveal(Cpu6502::sta_model);
    lemma_accesses_keep_stamp();
}

#[verifier::rlimit(50)]
proof fn lemma_seventh_lot_keeps_stamp(cpu: Cpu6502)
    requires
        dot_stamp(cpu.bus) is Some,
    ensures
        dot_stamp(cpu.stx_model().bus) == dot_stamp(cpu.bus),
        dot_stamp(cpu.sty_model().bus) == dot_stamp(cpu.bus),
        dot_stamp(cpu.tax_model().bus) == dot_stamp(cpu.bus),
        dot_stamp(cpu.tay_model().bus) == dot_stamp(cpu.bus),
        dot_stamp(cpu.tsx_model().bus) == dot_stamp(cpu.bus),
        dot_stamp(cpu.txa_model().bus) == dot_stamp(cpu.bus),
        dot_stamp(cpu.txs_model().bus) == dot_stamp(cpu.bus),
        dot_stamp(cpu.tya_model().bus) == dot_stamp(cpu.bus),
{
    reveal(Cpu6502::stx_model);
    reveal(Cpu6502::sty_model);
    reveal(Cpu6502::tax_model);
    reveal(Cpu6502::tay_model);
    reveal(Cpu6502::tsx_model);
    reveal(Cpu6502::txa_model);
    reveal(Cpu6502::txs_model);
    reveal(Cpu6502::tya_model);
    lemma_accesses_keep_stamp();
}

#[verifier::rlimit(50)]
proof fn lemma_eighth_lot_keeps_stamp(cpu: Cpu6502)
    requires
        dot_stamp(cpu.bus) is Some,
    ensures
        dot_stamp(cpu.xxx_model().bus) == dot_stamp(cpu.bus),
{
    reveal(Cpu6502::xxx_model);
    lemma_accesses_keep_stamp();
}

/// No operation moves the dot clock. The proof takes the operations in
/// lots of eight, by their place in the alphabet.
#[verifier::rlimit(50)]
proof fn lemma_execute_keeps_stamp(cpu: Cpu6502, operation: Operation)
    requires
        dot_stamp(cpu.bus) is Some,
    ensures
        dot_stamp(cpu.execute_model(operation).bus) == dot_stamp(cpu.bus),
{
    reveal(Cpu6502::execute_model);
    lemma_first_lot_keeps_stamp(cpu);
    lemma_second_lot_keeps_stamp(cpu);
    lemma_third_lot_keeps_stamp(cpu);
    lemma_fourth_lot_keeps_stamp(cpu);
    lemma_fifth_lot_keeps_stamp(cpu);
    lemma_sixth_lot_keeps_stamp(cpu);
    lemma_seventh_lot_keeps_stamp(cpu);
    lemma_eighth_lot_keeps_stamp(cpu);
}

#[verifier::rlimit(50)]
proof fn lemma_interrupt_keeps_stamp(cpu: Cpu6502, vector: u16)
    requires
        dot_stamp(cpu.bus) is Some,
    ensures
        dot_stamp(cpu.interrupt_model(vector).bus) == dot_stamp(cpu.bus),
{
    lemma_accesses_keep_stamp();
}

/// A cycle of the CPU leaves the dot clock alone.
#[verifier::rlimit(50)]
proof fn lemma_cpu_clock_keeps_stamp(cpu: Cpu6502)
    requires
        dot_stamp(cpu.bus) is Some,
    ensures
        dot_stamp(cpu.clock_model().bus) == dot_stamp(cpu.bus),
{
    reveal(Cpu6502::clock_model);
    if cpu.cycles == 0 {
        if cpu.nmi_pending {
            lemma_interrupt_keeps_stamp(cpu, 0xFFFA);
        } else if cpu.irq_pending && !flag_of(cpu.status, CPUFlags::I) {
            lemma_interrupt_keeps_stamp(cpu, 0xFFFE);
        } else {
            lemma_accesses_keep_stamp();
            let decoded = cpu.decoded_model();
            assert(dot_stamp(decoded.bus) == dot_stamp(cpu.bus));
            lemma_addressing_keeps_stamp(decoded);
            let addressed = decoded.addressing_model().0;
            lemma_execute_keeps_stamp(addressed, decoded.instruction.function);
        }
    }
}

/// A cycle of the CPU leaves the dot clock alone.
pub proof fn lemma_cpu_clock_keeps_dot(cpu: Cpu6502)
    requires
        cpu.wf(),
    ensures
        same_dot(cpu.bus.ppu, cpu.clock_model().bus.ppu),
{
    reveal(dot_stamp);
    lemma_cpu_clock_keeps_stamp(cpu);
}

/// The CPU's side of a tick, whether the CPU or a transfer runs on it,
/// and the look at the interrupt line leave the dot clock alone.
proof fn lemma_cpu_side_keeps_dot(nes: Nes)
    requires
        nes.wf(),
    ensures
        same_dot(nes.cpu.bus.ppu, nes.cpu_side_model().nmi_model().cpu.bus.ppu),
{
    lemma_bus_keeps_dot(nes.cpu.bus, 0, 0, false, nes.system_clock % 2 == 1);
    lemma_cpu_clock_keeps_dot(nes.cpu);
}

/// One tick of the machine moves the PPU's dot clock on by one, around
/// the frame, whatever the CPU or a transfer does on the tick; and a
/// frame is complete when the last dot of the frame was worked.
#[verifier::rlimit(50)]
pub proof fn lemma_machine_clock_step(nes: Nes)
    requires
        nes.wf(),
    ensures
        nes.clock_model().wf(),
        nes.clock_model().cpu.bus.ppu.dot() == (nes.cpu.bus.ppu.dot() + 1) % 89342,
        nes.clock_model().cpu.bus.ppu.frame_complete == (nes.cpu.bus.ppu.frame_complete
            || nes.cpu.bus.ppu.dot() == 89341),
{
    reveal(Nes::clock_model);
    lemma_clock_step(nes.cpu.bus.ppu);
    lemma_cpu_side_keeps_dot(nes.ppu_side_model());
}

/// The dot on which the machine's PPU stands.
#[verifier::opaque]
pub open spec fn machine_dot(nes: Nes) -> int {
    nes.cpu.bus.ppu.dot()
}

/// Whether the machine has completed a frame.
#[verifier::opaque]
pub open spec fn machine_frame_complete(nes: Nes) -> bool {
    nes.cpu.bus.ppu.frame_complete
}

/// Whether the machine is well formed.
#[verifier::opaque]
pub open spec fn machine_wf(nes: Nes) -> bool {
    nes.wf()
}

proof fn lemma_machine_step(nes: Nes)
    requires
        machine_wf(nes),
    ensures
        machine_wf(nes.clock_model()),
        machine_dot(nes.clock_model()) == (machine_dot(nes) + 1) % 89342,
        machine_frame_complete(nes.clock_model()) == (machine_frame_complete(nes) || machine_dot(
            nes,
        ) == 89341),
        0 <= machine_dot(nes) < 89342,
{
    reveal(machine_wf);
    reveal(machine_dot);
    reveal(machine_frame_complete);
    lemma_machine_clock_step(nes);
}

proof fn lemma_machine_steps(nes: Nes, n: nat)
    requires
        machine_wf(nes),
    ensures
        machine_wf(nes.clocked(n)),
        machine_dot(nes.clocked(n)) == (machine_dot(nes) + n) % 89342,
        0 <= machine_dot(nes) < 89342,
        !machine_frame_complete(nes) && n <= 89342 ==> machine_frame_complete(nes.clocked(n)) == (
        machine_dot(nes) + n >= 89342),
    decreases n,
{
    lemma_machine_step(nes);
    if n > 0 {
        lemma_machine_steps(nes, (n - 1) as nat);
        lemma_machine_step(nes.clocked((n - 1) as nat));
    }
}

/// `n` ticks of the machine move the PPU's dot clock on by `n`.
pub proof fn lemma_machine_clocked_dot(nes: Nes, n: nat)
    requires
        nes.wf(),
    ensures
        nes.clocked(n).wf(),
        nes.clocked(n).cpu.bus.ppu.dot() == (nes.cpu.bus.ppu.dot() + n) % 89342,
{
    reveal(machine_wf);
    reveal(machine_dot);
    lemma_machine_steps(nes, n);
}

/// In the running machine a frame is complete exactly when the dot clock
/// has passed the last dot of the frame: from the start of a frame, after
/// 89342 ticks and not before.
pub proof fn lemma_machine_frame_length(nes: Nes, n: nat)
    requires
        nes.wf(),
        !nes.cpu.bus.ppu.frame_complete,
        n <= 89342,
    ensures
        nes.clocked(n).cpu.bus.ppu.frame_complete == (nes.cpu.bus.ppu.dot() + n >= 89342),
        nes.cpu.bus.ppu.dot() == 0 ==> (nes.clocked(n).cpu.bus.ppu.frame_complete <==> n == 89342),
{
    reveal(machine_wf);
    reveal(machine_dot);
    reveal(machine_frame_complete);
    lemma_machine_steps(nes, n);
}

} // verus!
