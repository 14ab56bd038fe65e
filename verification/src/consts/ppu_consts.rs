use vstd::prelude::*;

verus! {

/// Dots in one scanline, numbered 0..=340.
pub const NUM_CYCLES_PER_SCANLINE: usize = 341;

/// Scanlines in one frame, numbered 0..=261.
pub const NUM_SCANLINES: usize = 262;

/// The scanline on which vertical blank begins.
pub const VBLANK_SCANLINE: usize = 241;

/// The pre-render scanline, the last of a frame.
pub const PRE_RENDER_SCANLINE: usize = 261;

/// Dots in one frame.
pub const DOTS_PER_FRAME: usize = 89342;

pub const STARTING_SCANLINE: usize = 0;

/// Bytes of the frame buffer: 256 x 240 pixels of three bytes.
pub const SCREEN_BYTES: usize = 184320;

pub const OAM_SIZE: usize = 64;

pub const SECONDARY_OAM_SIZE: usize = 8;

pub const SPR_PATTERN_TABLE_SIZE: usize = 128;

/// Bytes of one rendered pattern table: 128 x 128 pixels of three bytes.
pub const SPR_PATTERN_TABLE_BYTES: usize = 49152;

pub const PATTERN_TABLE_SIZE: usize = 4096;

pub const NAME_TABLE_SIZE: usize = 1024;

// Status
pub const STATUS_UNUSED_MASK: u8 = 0b0001_1111;

pub const STATUS_SPRT_OVERFLOW_MASK: u8 = 0b0010_0000;

pub const STATUS_SPRT_HIT_ZERO_MASK: u8 = 0b0100_0000;

pub const STATUS_VERTICAL_BLANK_MASK: u8 = 0b1000_0000;

// Mask
pub const MASK_GRAYSCALE: u8 = 0b0000_0001;

pub const MASK_RENDER_BACKGROUND_LEFT: u8 = 0b0000_0010;

pub const MASK_RENDER_SPRITES_LEFT: u8 = 0b0000_0100;

pub const MASK_RENDER_BACKGROUND: u8 = 0b0000_1000;

pub const MASK_RENDER_SPRITES: u8 = 0b0001_0000;

pub const MASK_ENHANCE_RED: u8 = 0b0010_0000;

pub const MASK_ENHANCE_GREEN: u8 = 0b0100_0000;

pub const MASK_ENHANCE_BLUE: u8 = 0b1000_0000;

// CTRL
pub const CTRL_NAMETABLE_X: u8 = 0b0000_0001;

pub const CTRL_NAMETABLE_Y: u8 = 0b0000_0010;

pub const CTRL_INCREMENT_MODE: u8 = 0b0000_0100;

pub const CTRL_PATTERN_SPRITE: u8 = 0b0000_1000;

pub const CTRL_PATTERN_BACKGROUND: u8 = 0b0001_0000;

pub const CTRL_SPRITE_SIZE: u8 = 0b0010_0000;

pub const CTRL_SLAVE_MODE: u8 = 0b0100_0000;

pub const CTRL_ENABLE_NMI: u8 = 0b1000_0000;

// The VRAM address word
pub const REG_COARSE_X: u16 = 0b0000_0000_0001_1111;

pub const REG_COARSE_Y: u16 = 0b0000_0011_1110_0000;

pub const REG_NAMETABLE_X: u16 = 0b0000_0100_0000_0000;

pub const REG_NAMETABLE_Y: u16 = 0b0000_1000_0000_0000;

pub const REG_FINE_Y: u16 = 0b0111_0000_0000_0000;

pub const REG_UNUSED: u16 = 0b1000_0000_0000_0000;

} // verus!
