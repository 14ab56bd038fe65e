//! What drives the machine from outside: how far to run it between two
//! looks at the screen.

use crate::nes::Nes;
use vstd::prelude::*;

verus! {

/// How far the machine runs before the screen is drawn again.
#[derive(Debug, Clone, Copy, PartialEq, Eq, Structural)]
pub enum FrameSync {
    /// Run until a frame is complete, and go on so.
    Wait,
    /// Show what the PPU has drawn so far.
    DisplayAvailable,
    /// Show the frame before.
    DisplayPrevious,
    /// Draw nothing until a frame is complete.
    RedrawAvailable,
    /// Run one tick of the master clock, then stop.
    OneCycle,
    /// Run one instruction, then stop.
    OneInstruction,
    /// Run until the PPU has left its scanline, then stop.
    OneScanline,
    /// Run a given number of instructions, then stop.
    XCycles,
    /// Run until the program counter is at a given address, then stop.
    PCWatch,
    /// Run until a frame is complete, then stop.
    OneFrame,
    /// Run nothing.
    Stop,
    /// Reset the machine.
    Reset,
}

pub struct EmulationControls {}

/// The debugger's side of the emulation: what to run next.
#[derive(Debug, Clone, Copy, PartialEq, Eq, Structural)]
pub struct EmulationState {
    pub frame_sync: FrameSync,
    /// Which of the eight palettes the pattern tables are shown in.
    pub palette_id: u8,
    /// Instructions left to run under [`FrameSync::XCycles`].
    pub cycles: usize,
    /// The address waited for under [`FrameSync::PCWatch`].
    pub watch_addr: u16,
}

/// Instructions after which [`FrameSync::PCWatch`] gives up waiting.
pub const WATCH_INSTRUCTION_LIMIT: usize = 1000000;

/// The machine after `count` instructions.
pub open spec fn after_instructions(nes: Nes, count: nat) -> Nes
    decreases count,
{
    if count == 0 {
        nes
    } else {
        after_instructions(nes.one_instruction_model(), (count - 1) as nat)
    }
}

/// The machine run by whole instructions until its program counter is at
/// `addr`, for `budget` instructions at most.
pub open spec fn run_to_address(nes: Nes, addr: u16, budget: nat) -> Nes
    decreases budget,
{
    if nes.cpu.pc == addr || budget == 0 {
        nes
    } else {
        run_to_address(nes.one_instruction_model(), addr, (budget - 1) as nat)
    }
}

/// The bytes of a stand-in picture of `w` by `h` pixels: the pixel in
/// row `i` and column `j` is red `i`, green `j` and blue `i + j`, each
/// cut to a byte.
pub open spec fn dummy_texture_byte(w: int, at: int) -> u8 {
    let row = (at / 3) / w;
    let column = (at / 3) % w;
    if at % 3 == 0 {
        (row % 256) as u8
    } else if at % 3 == 1 {
        (column % 256) as u8
    } else {
        ((row + column) % 256) as u8
    }
}

#[verifier::rlimit(50)]
pub fn generate_dummy_texture(w: usize, h: usize) -> (data: Vec<u8>)
    requires
        0 < w,
        w * h * 3 <= usize::MAX,
    ensures
        data@.len() == w * h * 3,
        forall|at: int| 0 <= at < w * h * 3 ==> data@[at] == dummy_texture_byte(w as int, at),
{
    let mut data: Vec<u8> = Vec::new();
    let mut i: usize = 0;
    while i < h
        invariant
            0 < w,
            i <= h,
            w * h * 3 <= usize::MAX,
            data@.len() == i * w * 3,
            forall|at: int| 0 <= at < i * w * 3 ==> data@[at] == dummy_texture_byte(w as int, at),
        decreases h - i,
    {
        let mut j: usize = 0;
        proof {
            lemma_texture_bounds(w as int, h as int, i as int, 0);
        }
        while j < w
            invariant
                0 < w,
                i < h,
                j <= w,
                w * h * 3 <= usize::MAX,
                data@.len() == (i * w + j) * 3,
                forall|at: int|
                    0 <= at < (i * w + j) * 3 ==> data@[at] == dummy_texture_byte(w as int, at),
            decreases w - j,
        {
            proof {
                lemma_texture_bounds(w as int, h as int, i as int, j as int);
                lemma_texture_pixel(w as int, i as int, j as int);
            }
            data.push((i % 256) as u8);
            data.push((j % 256) as u8);
            data.push(((i % 256 + j % 256) % 256) as u8);
            j = j + 1;
        }
        proof {
            assert((i * w + w) * 3 == (i + 1) * w * 3) by (nonlinear_arith);
        }
        i = i + 1;
    }
    proof {
        assert(h * w * 3 == w * h * 3) by (nonlinear_arith);
    }
    data
}

proof fn lemma_texture_bounds(w: int, h: int, i: int, j: int)
    by (nonlinear_arith)
    requires
        0 < w,
        0 <= i < h,
        0 <= j <= w,
    ensures
        (i * w + j) * 3 <= w * h * 3,
        i * w * 3 == (i * w + 0) * 3,
        0 <= i * w,
{
}

proof fn lemma_texture_pixel(w: int, i: int, j: int)
    requires
        0 < w,
        0 <= i,
        0 <= j < w,
    ensures
        ((i * w + j) * 3 + 0) / 3 == i * w + j,
        ((i * w + j) * 3 + 1) / 3 == i * w + j,
        ((i * w + j) * 3 + 2) / 3 == i * w + j,
        (i * w + j) / w == i,
        (i * w + j) % w == j,
        dummy_texture_byte(w, (i * w + j) * 3) == (i % 256) as u8,
        dummy_texture_byte(w, (i * w + j) * 3 + 1) == (j % 256) as u8,
        dummy_texture_byte(w, (i * w + j) * 3 + 2) == ((i + j) % 256) as u8,
        ((i % 256 + j % 256) % 256) == (i + j) % 256,
{
    vstd::arithmetic::div_mod::lemma_fundamental_div_mod_converse(i * w + j, w, i, j);
}

impl EmulationState {
    pub fn new() -> (r: EmulationState)
        ensures
            r == (EmulationState {
                frame_sync: FrameSync::Stop,
                palette_id: 0,
                cycles: 0,
                watch_addr: 0,
            }),
    {
        EmulationState { frame_sync: FrameSync::Stop, palette_id: 0, cycles: 0, watch_addr: 0x0000 }
    }

    /// The next of the eight palettes, around from the last to the first.
    pub fn increment_palette_id(&mut self)
        ensures
            *final(self) == (EmulationState {
                palette_id: (((old(self).palette_id + 1) % 256) % 8) as u8,
                ..*old(self)
            }),
    {
        let r: u8 = self.palette_id.wrapping_add(1);
        self.palette_id = r % 8;
    }

    /// The palette before, around from the first to the last.
    pub fn decrement_palette_id(&mut self)
        ensures
            *final(self) == (EmulationState {
                palette_id: (((old(self).palette_id - 1) % 256) % 8) as u8,
                ..*old(self)
            }),
    {
        let r: u8 = self.palette_id.wrapping_sub(1);
        self.palette_id = r % 8;
    }

    /// What the machine has done when the screen is next drawn.
    pub open spec fn run_machine_model(self, nes: Nes) -> Nes {
        match self.frame_sync {
            FrameSync::Wait | FrameSync::OneFrame => nes.one_frame_model(),
            FrameSync::OneCycle => nes.clock_model(),
            FrameSync::OneInstruction => nes.one_instruction_model(),
            FrameSync::OneScanline => nes.one_scanline_model(),
            FrameSync::XCycles => after_instructions(nes, self.cycles as nat),
            FrameSync::PCWatch => run_to_address(
                nes,
                self.watch_addr,
                WATCH_INSTRUCTION_LIMIT as nat,
            ),
            FrameSync::Reset => nes.reset_model(),
            _ => nes,
        }
    }

    /// What is to run after that: running on and resetting go on, and
    /// everything else stops.
    pub open spec fn run_state_model(self) -> EmulationState {
        match self.frame_sync {
            FrameSync::Wait | FrameSync::Reset => self,
            FrameSync::XCycles => EmulationState { frame_sync: FrameSync::Stop, cycles: 0, ..self },
            _ => EmulationState { frame_sync: FrameSync::Stop, ..self },
        }
    }

    /// Runs the machine as far as `frame_sync` says.
    #[verifier::rlimit(50)]
    pub fn run(&mut self, nes: &mut Nes)
        requires
            old(nes).wf(),
        ensures
            *final(nes) == old(self).run_machine_model(*old(nes)),
            *final(self) == old(self).run_state_model(),
            final(nes).wf(),
    {
        match self.frame_sync {
            FrameSync::Wait => {
                nes.clock_one_frame();
            },
            FrameSync::OneFrame => {
                nes.clock_one_frame();
                self.frame_sync = FrameSync::Stop;
            },
            FrameSync::OneCycle => {
                nes.clock();
                self.frame_sync = FrameSync::Stop;
            },
            FrameSync::OneInstruction => {
                nes.clock_one_instruction();
                self.frame_sync = FrameSync::Stop;
            },
            FrameSync::OneScanline => {
                nes.clock_one_scanline();
                self.frame_sync = FrameSync::Stop;
            },
            FrameSync::XCycles => {
                while self.cycles > 0
                    invariant
                        nes.wf(),
                        after_instructions(*nes, self.cycles as nat) == after_instructions(
                            *old(nes),
                            old(self).cycles as nat,
                        ),
                        *self == (EmulationState { cycles: self.cycles, ..*old(self) }),
                    decreases self.cycles,
                {
                    nes.clock_one_instruction();
                    self.cycles = self.cycles - 1;
                }
                self.frame_sync = FrameSync::Stop;
            },
            FrameSync::PCWatch => {
                let mut budget: usize = WATCH_INSTRUCTION_LIMIT;
                while nes.cpu.pc != self.watch_addr && budget > 0
                    invariant
                        nes.wf(),
                        *self == *old(self),
                        run_to_address(*nes, self.watch_addr, budget as nat) == run_to_address(
                            *old(nes),
                            self.watch_addr,
                            WATCH_INSTRUCTION_LIMIT as nat,
                        ),
                    decreases budget,
                {
                    nes.clock_one_instruction();
                    budget = budget - 1;
                }
                self.frame_sync = FrameSync::Stop;
            },
            FrameSync::Reset => {
                nes.reset();
            },
            FrameSync::Stop => {},
            _ => {
                self.frame_sync = FrameSync::Stop;
            },
        }
    }
}

} // verus!
