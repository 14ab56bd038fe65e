//! Where the dot clock stands: scanlines, dots, and the end of the frame.

use crate::ppu::PPU;
use vstd::prelude::*;

verus! {

/// The four kinds of scanline.
#[derive(Debug, Clone, Copy, PartialEq, Eq, Structural)]
pub enum LineState {
    /// 0..=239
    Visible,
    /// 240
    PostRender,
    /// 241..=260
    VBlank,
    /// 261
    PreRender,
}

pub open spec fn line_state_model(line: int) -> LineState {
    if line <= 239 {
        LineState::Visible
    } else if line == 240 {
        LineState::PostRender
    } else if line <= 260 {
        LineState::VBlank
    } else {
        LineState::PreRender
    }
}

impl LineState {
    pub fn from(line: usize) -> (r: LineState)
        requires
            line <= 261,
        ensures
            r == line_state_model(line as int),
    {
        if line <= 239 {
            LineState::Visible
        } else if line == 240 {
            LineState::PostRender
        } else if line <= 260 {
            LineState::VBlank
        } else {
            LineState::PreRender
        }
    }
}

/// The dot at `(scanline, cycle)` counted from the start of the frame.
pub open spec fn dot_index(scanline: int, cycle: int) -> int {
    scanline * 341 + cycle
}

/// Whether `cycle` is a dot on which the background pipeline runs.
pub open spec fn is_fetch_dot(cycle: int) -> bool {
    1 <= cycle <= 256 || 321 <= cycle <= 336
}

impl PPU {
    /// Whether the dot in work is on a line that is drawn.
    pub open spec fn on_visible_line(&self) -> bool {
        self.scanline <= 239
    }

    /// Whether the dot in work is on the line before the first.
    pub open spec fn on_pre_render_line(&self) -> bool {
        self.scanline == 261
    }

    /// The PPU with its dot clock moved on by one: to the next dot, from the
    /// last dot of a line to the next line, and from the last dot of the
    /// pre-render line to the start of the frame, which completes a frame.
    pub open spec fn advance_model(self) -> PPU {
        let line_ends = self.cycle >= 340;
        let frame_ends = line_ends && self.scanline >= 261;
        PPU {
            cycle: if line_ends {
                0
            } else {
                (self.cycle + 1) as usize
            },
            scanline: if frame_ends {
                0
            } else if line_ends {
                (self.scanline + 1) as usize
            } else {
                self.scanline
            },
            frame_complete: self.frame_complete || frame_ends,
            frame_complete_count: if frame_ends {
                self.frame_complete_count.wrapping_add(1)
            } else {
                self.frame_complete_count
            },
            clock_count: self.clock_count.wrapping_add(1),
            ..self
        }
    }

    pub fn advance(&mut self)
        requires
            old(self).wf(),
        ensures
            *final(self) == old(self).advance_model(),
            final(self).wf(),
    {
        self.cycle = self.cycle + 1;
        if self.cycle >= 341 {
            self.cycle = 0;
            self.scanline = self.scanline + 1;
            if self.scanline > 261 {
                self.scanline = 0;
                self.frame_complete = true;
                self.frame_complete_count = self.frame_complete_count.wrapping_add(1);
            }
        }
        self.clock_count = self.clock_count.wrapping_add(1);
    }
}

} // verus!
