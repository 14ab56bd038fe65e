use vstd::prelude::*;

verus! {

/// Visible pixels per scanline.
pub const WIDTH: usize = 256;

/// Visible scanlines per frame.
pub const HEIGHT: usize = 240;

} // verus!
