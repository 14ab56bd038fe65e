use vstd::prelude::*;

verus! {

/// Bytes per pixel of the frame buffer: red, green, blue.
pub const COLOR_CHANNELS: usize = 3;

/// PPU dots handed out per CPU cycle.
pub const DOTS_PER_CPU_CYCLE: u64 = 3;

} // verus!
