//! The whole machine on one clock: three PPU dots to each CPU cycle, with
//! transfers to object memory taking the CPU's cycles while they run.

use crate::bus::Bus;
use crate::cartridge::Cartridge;
use crate::cpu::Cpu6502;
use crate::ppu::debug::picture_pixel;
use crate::ppu::structures::ObjectAttributeEntry;
use crate::ppu::PPU;
use vstd::array::spec_array_update;
use vstd::prelude::*;

verus! {

pub struct Nes {
    pub cpu: Cpu6502,
    /// Master clock ticks since power-on. Each tick is one PPU dot.
    pub system_clock: usize,
}

/// Ticks after which [`Nes::clock_one_instruction`] gives up waiting: more
/// than the longest instruction behind the longest transfer.
pub const INSTRUCTION_TICK_LIMIT: usize = 4096;

/// Ticks after which [`Nes::clock_one_frame`] gives up waiting: one frame.
pub const FRAME_TICK_LIMIT: usize = 89342;

/// Instructions after which [`Nes::clock_one_scanline`] gives up waiting.
pub const SCANLINE_INSTRUCTION_LIMIT: usize = 341;

impl Nes {
    pub open spec fn wf(&self) -> bool {
        self.cpu.wf()
    }

    /// Whether the machine is well formed.
    pub fn is_valid(&self) -> (r: bool)
        ensures
            r == self.wf(),
    {
        self.cpu.is_valid()
    }

    /// Creates the machine around a cartridge and resets the CPU, to
    /// `reset_vector` or, without one, to the cartridge's reset vector.
    #[verifier::rlimit(50)]
    pub fn new(cart: Cartridge, reset_vector: Option<u16>) -> (r: Self)
        ensures
            r.wf(),
            r.system_clock == 0,
            exists|cpu: Cpu6502|
                cpu.wf() && cpu.bus.ppu.cart == cart && cpu.bus.ppu.is_power_on() && r.cpu
                    == cpu.reset_model(reset_vector),
    {
        let bus = Bus::new(cart);
        let mut cpu = Cpu6502::new(bus);
        let ghost fresh = cpu;
        cpu.reset(reset_vector);
        assert(fresh.wf() && fresh.bus.ppu.cart == cart && fresh.bus.ppu.is_power_on() && cpu
            == fresh.reset_model(reset_vector));
        Self { cpu, system_clock: 0 }
    }

    /// The machine after one cycle of a transfer to object memory. The
    /// transfer tells odd cycles from even ones by the master clock.
    pub open spec fn dma_model(self) -> Nes {
        Nes {
            cpu: Cpu6502 { bus: self.cpu.bus.dma_model(self.system_clock % 2 == 1), ..self.cpu },
            ..self
        }
    }

    fn dma_clock(&mut self)
        requires
            old(self).wf(),
        ensures
            *final(self) == old(self).dma_model(),
            final(self).wf(),
    {
        let odd: bool = self.system_clock % 2 == 1;
        self.cpu.bus.dma_clock(odd);
    }

    /// Whether the tick in work is one on which the CPU's side runs: every
    /// third.
    pub open spec fn is_cpu_tick(&self) -> bool {
        self.system_clock % 3 == 0
    }

    /// The machine after the CPU's side of a tick: on a CPU tick a
    /// running transfer takes its cycle, else the CPU takes it.
    pub open spec fn cpu_side_model(self) -> Nes {
        if !self.is_cpu_tick() {
            self
        } else if self.cpu.bus.dma_transfer {
            self.dma_model()
        } else {
            Nes { cpu: self.cpu.clock_model(), ..self }
        }
    }

    /// The machine after the PPU's interrupt line was looked at: a raised
    /// line is lowered and leaves the interrupt pending in the CPU.
    pub open spec fn nmi_model(self) -> Nes {
        if self.cpu.bus.ppu.nmi {
            Nes {
                cpu: Cpu6502 {
                    nmi_pending: true,
                    bus: Bus { ppu: PPU { nmi: false, ..self.cpu.bus.ppu }, ..self.cpu.bus },
                    ..self.cpu
                },
                ..self
            }
        } else {
            self
        }
    }

    /// The machine with its PPU one dot on.
    pub open spec fn ppu_side_model(self) -> Nes {
        Nes {
            cpu: Cpu6502 {
                bus: Bus { ppu: self.cpu.bus.ppu.clock_model(), ..self.cpu.bus },
                ..self.cpu
            },
            ..self
        }
    }

    /// The machine one tick on: the PPU draws a dot, on every third tick
    /// the CPU or a transfer runs a cycle, the interrupt line is looked
    /// at, and the master clock counts.
    #[verifier::opaque]
    pub open spec fn clock_model(self) -> Nes {
        let run = self.ppu_side_model().cpu_side_model().nmi_model();
        Nes { system_clock: self.system_clock.wrapping_add(1), ..run }
    }

    #[verifier::rlimit(50)]
    pub fn clock(&mut self)
        requires
            old(self).wf(),
        ensures
            *final(self) == old(self).clock_model(),
            final(self).wf(),
    {
        proof {
            reveal(Nes::clock_model);
        }
        self.clock_ppu_side();
        self.clock_cpu_side();
        self.forward_nmi();
        self.system_clock = self.system_clock.wrapping_add(1);
    }

    #[verifier::rlimit(50)]
    fn clock_ppu_side(&mut self)
        requires
            old(self).wf(),
        ensures
            *final(self) == old(self).ppu_side_model(),
            final(self).wf(),
    {
        self.cpu.bus.ppu.clock();
    }

    #[verifier::rlimit(50)]
    fn clock_cpu_side(&mut self)
        requires
            old(self).wf(),
        ensures
            *final(self) == old(self).cpu_side_model(),
            final(self).wf(),
    {
        if self.system_clock % 3 == 0 {
            if self.cpu.bus.dma_transfer {
                self.dma_clock();
            } else {
                self.cpu.clock();
            }
        }
    }

    #[verifier::rlimit(50)]
    fn forward_nmi(&mut self)
        requires
            old(self).wf(),
        ensures
            *final(self) == old(self).nmi_model(),
            final(self).wf(),
    {
        if self.cpu.bus.ppu.nmi {
            self.cpu.bus.ppu.nmi = false;
            self.cpu.signal_nmi();
        }
    }

    /// One tick of the master clock: [`Self::clock`] under its other name.
    pub fn tick(&mut self)
        requires
            old(self).wf(),
        ensures
            *final(self) == old(self).clock_model(),
            final(self).wf(),
    {
        self.clock();
    }

    /// The machine `n` ticks on.
    pub open spec fn clocked(self, n: nat) -> Nes
        decreases n,
    {
        if n == 0 {
            self
        } else {
            self.clocked((n - 1) as nat).clock_model()
        }
    }

    pub fn get_frame_status(&self) -> (r: bool)
        ensures
            r == self.cpu.bus.ppu.frame_complete,
    {
        self.cpu.bus.ppu.frame_complete
    }

    /// Whether a frame was completed since the flag was last cleared.
    pub fn frame_complete(&self) -> (r: bool)
        ensures
            r == self.cpu.bus.ppu.frame_complete,
    {
        self.cpu.bus.ppu.frame_complete
    }

    /// The machine with `frame_complete` as given.
    pub open spec fn with_frame_status(self, complete: bool) -> Nes {
        Nes {
            cpu: Cpu6502 {
                bus: Bus {
                    ppu: PPU { frame_complete: complete, ..self.cpu.bus.ppu },
                    ..self.cpu.bus
                },
                ..self.cpu
            },
            ..self
        }
    }

    pub fn reset_frame_status(&mut self)
        ensures
            *final(self) == old(self).with_frame_status(false),
            old(self).wf() ==> final(self).wf(),
    {
        self.cpu.bus.ppu.frame_complete = false;
    }

    pub fn clear_frame_flag(&mut self)
        ensures
            *final(self) == old(self).with_frame_status(false),
            old(self).wf() ==> final(self).wf(),
    {
        self.cpu.bus.ppu.frame_complete = false;
    }

    /// The frame as 256 x 240 pixels of red, green, blue, row by row.
    pub fn frame(&self) -> (r: &[u8; 184320])
        ensures
            *r == *self.cpu.bus.ppu.screen,
    {
        &*self.cpu.bus.ppu.screen
    }

    /// The machine with the buttons of controller `port` held as `state`
    /// says: A, B, Select, Start, Up, Down, Left, Right from bit 7 down.
    pub open spec fn with_controller(self, port: usize, state: u8) -> Nes {
        Nes {
            cpu: Cpu6502 {
                bus: Bus {
                    controller: spec_array_update(self.cpu.bus.controller, port as int, state),
                    ..self.cpu.bus
                },
                ..self.cpu
            },
            ..self
        }
    }

    pub fn set_controller(&mut self, port: usize, state: u8)
        requires
            port < 2,
        ensures
            *final(self) == old(self).with_controller(port, state),
            old(self).wf() ==> final(self).wf(),
    {
        self.cpu.bus.controller[port] = state;
    }

    /// The machine after reset: the CPU starts over at the cartridge's
    /// reset vector and the PPU is reset.
    pub open spec fn reset_model(self) -> Nes {
        let cpu = self.cpu.reset_model(None);
        Nes {
            cpu: Cpu6502 { bus: Bus { ppu: cpu.bus.ppu.reset_model(), ..cpu.bus }, ..cpu },
            ..self
        }
    }

    pub fn reset(&mut self)
        requires
            old(self).wf(),
        ensures
            *final(self) == old(self).reset_model(),
            final(self).wf(),
    {
        self.cpu.reset(None);
        self.cpu.bus.ppu.reset();
    }

    /// The machine run until a frame is complete, for `budget` ticks at most.
    pub open spec fn run_to_frame(self, budget: nat) -> Nes
        decreases budget,
    {
        if self.cpu.bus.ppu.frame_complete || budget == 0 {
            self
        } else {
            self.clock_model().run_to_frame((budget - 1) as nat)
        }
    }

    /// The machine after [`Self::clock_one_frame`].
    pub open spec fn one_frame_model(self) -> Nes {
        self.with_frame_status(false).run_to_frame(FRAME_TICK_LIMIT as nat)
    }

    /// Clears the frame flag and runs to the end of the frame in work.
    pub fn clock_one_frame(&mut self)
        requires
            old(self).wf(),
        ensures
            *final(self) == old(self).one_frame_model(),
            final(self).wf(),
    {
        self.reset_frame_status();
        let ghost start = *self;
        let mut budget: usize = FRAME_TICK_LIMIT;
        while !self.cpu.bus.ppu.frame_complete && budget > 0
            invariant
                self.wf(),
                self.run_to_frame(budget as nat) == start.run_to_frame(FRAME_TICK_LIMIT as nat),
            decreases budget,
        {
            self.clock();
            budget = budget - 1;
        }
    }

    pub fn get_instruction_status(&self) -> (r: bool)
        ensures
            r == self.cpu.instruction_complete,
    {
        self.cpu.instruction_complete
    }

    /// The machine with `instruction_complete` as given.
    pub open spec fn with_instruction_status(self, complete: bool) -> Nes {
        Nes { cpu: Cpu6502 { instruction_complete: complete, ..self.cpu }, ..self }
    }

    pub fn reset_instruction_status(&mut self)
        ensures
            *final(self) == old(self).with_instruction_status(false),
            old(self).wf() ==> final(self).wf(),
    {
        self.cpu.instruction_complete = false;
    }

    /// The machine run until the CPU has completed an instruction, for
    /// `budget` ticks at most.
    pub open spec fn run_to_instruction(self, budget: nat) -> Nes
        decreases budget,
    {
        if self.cpu.instruction_complete || budget == 0 {
            self
        } else {
            self.clock_model().run_to_instruction((budget - 1) as nat)
        }
    }

    /// The machine after [`Self::clock_one_instruction`].
    pub open spec fn one_instruction_model(self) -> Nes {
        self.with_instruction_status(false).run_to_instruction(INSTRUCTION_TICK_LIMIT as nat)
    }

    /// Runs until the CPU has completed its next instruction.
    pub fn clock_one_instruction(&mut self)
        requires
            old(self).wf(),
        ensures
            *final(self) == old(self).one_instruction_model(),
            final(self).wf(),
    {
        self.reset_instruction_status();
        let ghost start = *self;
        let mut budget: usize = INSTRUCTION_TICK_LIMIT;
        while !self.cpu.instruction_complete && budget > 0
            invariant
                self.wf(),
                self.run_to_instruction(budget as nat) == start.run_to_instruction(
                    INSTRUCTION_TICK_LIMIT as nat,
                ),
            decreases budget,
        {
            self.clock();
            budget = budget - 1;
        }
    }

    /// The machine run by whole instructions until the PPU has left
    /// scanline `line`, for `budget` instructions at most.
    pub open spec fn run_off_scanline(self, line: usize, budget: nat) -> Nes
        decreases budget,
    {
        if self.cpu.bus.ppu.scanline != line || budget == 0 {
            self
        } else {
            self.one_instruction_model().run_off_scanline(line, (budget - 1) as nat)
        }
    }

    /// The machine after [`Self::clock_one_scanline`].
    pub open spec fn one_scanline_model(self) -> Nes {
        self.run_off_scanline(self.cpu.bus.ppu.scanline, SCANLINE_INSTRUCTION_LIMIT as nat)
    }

    /// Runs by whole instructions until the PPU has left its scanline.
    pub fn clock_one_scanline(&mut self)
        requires
            old(self).wf(),
        ensures
            *final(self) == old(self).one_scanline_model(),
            final(self).wf(),
    {
        let sl: usize = self.cpu.bus.ppu.debug_get_scanline();
        let ghost start = *self;
        let mut budget: usize = SCANLINE_INSTRUCTION_LIMIT;
        while self.cpu.bus.ppu.debug_get_scanline() == sl && budget > 0
            invariant
                self.wf(),
                self.run_off_scanline(sl, budget as nat) == start.run_off_scanline(
                    sl,
                    SCANLINE_INSTRUCTION_LIMIT as nat,
                ),
            decreases budget,
        {
            self.clock_one_instruction();
            budget = budget - 1;
        }
    }

    /// Pattern table `idx` as a picture, in the colours of palette
    /// `palette_id`.
    pub fn get_pattern_table(&self, idx: usize, palette_id: u8) -> (r: [u8; 49152])
        requires
            idx < 2,
        ensures
            forall|x: int, y: int|
                0 <= x < 128 && 0 <= y < 128 ==> #[trigger] picture_pixel(r@, x, y)
                    == self.cpu.bus.ppu.color_from_palette_ram_model(
                    palette_id,
                    self.cpu.bus.ppu.pattern_pixel_model(idx as int, x, y),
                ),
    {
        self.cpu.bus.ppu.get_pattern_table(idx, palette_id)
    }

    pub fn get_ppu_name_table(&self, index: usize) -> (r: [u8; 1024])
        requires
            index < 2,
        ensures
            r@ == self.cpu.bus.ppu.name_table@.subrange(index * 1024, index * 1024 + 1024),
    {
        self.cpu.bus.ppu.get_name_table(index)
    }

    pub fn get_ppu_fine_x(&self) -> (r: u8)
        ensures
            r == self.cpu.bus.ppu.fine_x,
    {
        self.cpu.bus.ppu.debug_get_fine_x()
    }

    pub fn get_oam(&self) -> (r: [ObjectAttributeEntry; 64])
        ensures
            r == self.cpu.bus.ppu.oam,
    {
        self.cpu.bus.ppu.oam
    }

    pub fn get_ppu_status(&self) -> (r: u8)
        ensures
            r == self.cpu.bus.ppu.status@,
    {
        self.cpu.bus.ppu.debug_get_status()
    }

    pub fn get_ppu_scanline(&self) -> (r: usize)
        ensures
            r == self.cpu.bus.ppu.scanline,
    {
        self.cpu.bus.ppu.debug_get_scanline()
    }

    pub fn get_ppu_cycle(&self) -> (r: usize)
        ensures
            r == self.cpu.bus.ppu.cycle,
    {
        self.cpu.bus.ppu.debug_get_cycle()
    }

    pub fn get_ppu_vram(&self) -> (r: u16)
        ensures
            r == self.cpu.bus.ppu.vram_addr@,
    {
        self.cpu.bus.ppu.debug_get_vram_addr()
    }

    pub fn get_ppu_tram(&self) -> (r: u16)
        ensures
            r == self.cpu.bus.ppu.tram_addr@,
    {
        self.cpu.bus.ppu.debug_get_tram_addr()
    }

    pub fn get_ppu_ctrl(&self) -> (r: u8)
        ensures
            r == self.cpu.bus.ppu.ctrl@,
    {
        self.cpu.bus.ppu.debug_get_ctrl()
    }

    pub fn get_ppu_mask(&self) -> (r: u8)
        ensures
            r == self.cpu.bus.ppu.mask@,
    {
        self.cpu.bus.ppu.debug_get_mask()
    }

    pub fn get_ppu_frame_count(&self) -> (r: i32)
        ensures
            r == self.cpu.bus.ppu.frame_complete_count,
    {
        self.cpu.bus.ppu.frame_complete_count
    }
}

} // verus!
