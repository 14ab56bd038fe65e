//! The fixed NTSC palette.

use crate::ppu::structures::Pixel;
use vstd::prelude::*;

verus! {

/// The 64 colours the PPU can show, as red, green, blue.
pub const COLORS: [[u8; 3]; 64] = [
    [84, 84, 84], [0, 30, 116], [8, 16, 144], [48, 0, 136],
    [68, 0, 100], [92, 0, 48], [84, 4, 0], [60, 24, 0],
    [32, 42, 0], [8, 58, 0], [0, 64, 0], [0, 60, 0],
    [0, 50, 60], [0, 0, 0], [0, 0, 0], [0, 0, 0],
    [152, 150, 152], [8, 76, 196], [48, 50, 236], [92, 30, 228],
    [136, 20, 176], [160, 20, 100], [152, 34, 32], [120, 60, 0],
    [84, 90, 0], [40, 114, 0], [8, 124, 0], [0, 118, 40],
    [0, 102, 120], [0, 0, 0], [0, 0, 0], [0, 0, 0],
    [236, 238, 236], [76, 154, 236], [120, 124, 236], [176, 98, 236],
    [228, 84, 236], [236, 88, 180], [236, 106, 100], [212, 136, 32],
    [160, 170, 0], [116, 196, 0], [76, 208, 32], [56, 204, 108],
    [56, 180, 204], [60, 60, 60], [0, 0, 0], [0, 0, 0],
    [236, 238, 236], [168, 204, 236], [188, 188, 236], [212, 178, 236],
    [236, 174, 236], [236, 174, 212], [236, 180, 176], [228, 196, 144],
    [204, 210, 120], [180, 222, 120], [168, 226, 144], [152, 226, 180],
    [160, 214, 228], [160, 162, 160], [0, 0, 0], [0, 0, 0],
];

/// The colour that a palette entry stands for. Only the entry's low six
/// bits count.
pub open spec fn color_model(entry: u8) -> Pixel {
    let rgb = COLORS[(entry % 64) as int];
    Pixel(rgb[0], rgb[1], rgb[2])
}

pub fn color(entry: u8) -> (r: Pixel)
    ensures
        r == color_model(entry),
{
    let rgb = COLORS[(entry % 64) as usize];
    Pixel(rgb[0], rgb[1], rgb[2])
}

/// The whole palette as pixels.
pub fn init_pal_screen() -> (r: [Pixel; 64])
    ensures
        forall|i: int| 0 <= i < 64 ==> r@[i] == color_model(i as u8),
{
    let mut pal_screen: [Pixel; 64] = [Pixel(0, 0, 0); 64];
    let mut i: u8 = 0;
    while i < 64
        invariant
            i <= 64,
            forall|j: int| 0 <= j < i ==> pal_screen@[j] == color_model(j as u8),
        decreases 64 - i,
    {
        pal_screen[i as usize] = color(i);
        i = i + 1;
    }
    pal_screen
}

} // verus!
