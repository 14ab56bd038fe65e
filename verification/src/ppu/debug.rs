//! What a debugger reads off the PPU.

use crate::ppu::render::bit_of;
use crate::ppu::structures::{ControlRegister, Pixel};
use crate::ppu::PPU;
use vstd::prelude::*;

verus! {

/// The pixel in column `x` of row `y` of a picture of 128 pixels a row,
/// three bytes a pixel.
pub open spec fn picture_pixel(picture: Seq<u8>, x: int, y: int) -> Pixel {
    Pixel(
        picture[(y * 128 + x) * 3],
        picture[(y * 128 + x) * 3 + 1],
        picture[(y * 128 + x) * 3 + 2],
    )
}

/// Lays one pixel down in a picture and leaves the others.
#[verifier::rlimit(50)]
fn put_picture_pixel(picture: &mut [u8; 49152], x: usize, y: usize, pixel: Pixel)
    requires
        x < 128,
        y < 128,
    ensures
        picture_pixel(final(picture)@, x as int, y as int) == pixel,
        forall|xx: int, yy: int|
            0 <= xx < 128 && 0 <= yy < 128 && (yy != y || xx != x) ==> #[trigger] picture_pixel(
                final(picture)@,
                xx,
                yy,
            ) == picture_pixel(old(picture)@, xx, yy),
{
    let position: usize = (y * 128 + x) * 3;
    picture[position] = pixel.0;
    picture[position + 1] = pixel.1;
    picture[position + 2] = pixel.2;
}

impl PPU {
    /// The frame as 256 x 240 pixels of red, green, blue, row by row.
    pub fn get_screen(&self) -> (r: &[u8; 184320])
        ensures
            *r == *self.screen,
    {
        &*self.screen
    }

    pub fn debug_get_status(&self) -> (r: u8)
        ensures
            r == self.status@,
    {
        self.status.get_register()
    }

    pub fn debug_get_scanline(&self) -> (r: usize)
        ensures
            r == self.scanline,
    {
        self.scanline
    }

    pub fn debug_get_cycle(&self) -> (r: usize)
        ensures
            r == self.cycle,
    {
        self.cycle
    }

    /// One of the two nametable banks.
    pub fn get_name_table(&self, index: usize) -> (r: [u8; 1024])
        requires
            index < 2,
        ensures
            r@ == self.name_table@.subrange(index * 1024, index * 1024 + 1024),
    {
        let mut bank: [u8; 1024] = [0u8; 1024];
        let mut i: usize = 0;
        while i < 1024
            invariant
                i <= 1024,
                index < 2,
                forall|j: int| 0 <= j < i ==> bank@[j] == self.name_table@[index * 1024 + j],
            decreases 1024 - i,
        {
            bank[i] = self.name_table[index * 1024 + i];
            i = i + 1;
        }
        assert(bank@ =~= self.name_table@.subrange(index * 1024, index * 1024 + 1024));
        bank
    }

    pub fn debug_get_tram_addr(&self) -> (r: u16)
        ensures
            r == self.tram_addr@,
    {
        self.tram_addr.get_register()
    }

    pub fn debug_get_vram_addr(&self) -> (r: u16)
        ensures
            r == self.vram_addr@,
    {
        self.vram_addr.get_register()
    }

    pub fn debug_get_ctrl(&self) -> (r: u8)
        ensures
            r == self.ctrl@,
    {
        self.ctrl.get_register()
    }

    pub fn debug_get_mask(&self) -> (r: u8)
        ensures
            r == self.mask@,
    {
        self.mask.get_register()
    }

    pub fn debug_get_fine_x(&self) -> (r: u8)
        ensures
            r == self.fine_x,
    {
        self.fine_x
    }

    /// PPUCTRL with its increment bit as `b` says: up for steps of 32, down
    /// for steps of 1.
    pub open spec fn ctrl_with_increment(ctrl: u8, b: bool) -> u8 {
        if b {
            ctrl | 0x04
        } else {
            ctrl & !0x04u8
        }
    }

    pub fn debug_set_ctrl_increment(&mut self, b: bool)
        requires
            old(self).wf(),
        ensures
            *final(self) == (PPU {
                ctrl: ControlRegister::model(Self::ctrl_with_increment(old(self).ctrl@, b)),
                ..*old(self)
            }),
            final(self).wf(),
    {
        let ctrl: u8 = self.ctrl.get_register();
        if b {
            self.ctrl.set_register(ctrl | 0x04);
        } else {
            self.ctrl.set_register(ctrl & !0x04u8);
        }
    }

    /// The colour number of the pixel in column `x` of row `y` of pattern
    /// table `index`, shown as 16 by 16 tiles: the bit of the pixel in
    /// each of the two planes of its tile's row, the high plane counting
    /// double.
    pub open spec fn pattern_pixel_model(&self, index: int, x: int, y: int) -> u8 {
        let tile = (y / 8) * 16 + x / 8;
        let address = index * 0x1000 + tile * 16 + y % 8;
        let low = self.ppu_read_model(address as u16);
        let high = self.ppu_read_model((address + 8) as u16);
        let shift = (7 - x % 8) as u8;
        (bit_of((high >> shift) & 1 != 0) * 2 + bit_of((low >> shift) & 1 != 0)) as u8
    }

    pub fn pattern_pixel(&self, index: usize, x: usize, y: usize) -> (r: u8)
        requires
            index < 2,
            x < 128,
            y < 128,
        ensures
            r == self.pattern_pixel_model(index as int, x as int, y as int),
            r <= 3,
    {
        let tile: usize = (y / 8) * 16 + x / 8;
        let address: u16 = (index * 0x1000 + tile * 16 + y % 8) as u16;
        let low: u8 = self.ppu_read(address);
        let high: u8 = self.ppu_read(address + 8);
        let shift: u8 = (7 - x % 8) as u8;
        let low_bit: u8 = if (low >> shift) & 1 != 0 {
            1
        } else {
            0
        };
        let high_bit: u8 = if (high >> shift) & 1 != 0 {
            1
        } else {
            0
        };
        high_bit * 2 + low_bit
    }

    /// Pattern table `index` as a picture of 128 by 128 pixels, in the
    /// colours of palette `palette_id`.
    #[verifier::rlimit(50)]
    pub fn get_pattern_table(&self, index: usize, palette_id: u8) -> (r: [u8; 49152])
        requires
            index < 2,
        ensures
            forall|x: int, y: int|
                0 <= x < 128 && 0 <= y < 128 ==> #[trigger] picture_pixel(r@, x, y)
                    == self.color_from_palette_ram_model(
                    palette_id,
                    self.pattern_pixel_model(index as int, x, y),
                ),
    {
        let mut picture: [u8; 49152] = [0u8; 49152];
        let mut y: usize = 0;
        while y < 128
            invariant
                y <= 128,
                index < 2,
                forall|xx: int, yy: int|
                    0 <= xx < 128 && 0 <= yy < y ==> #[trigger] picture_pixel(picture@, xx, yy)
                        == self.color_from_palette_ram_model(
                        palette_id,
                        self.pattern_pixel_model(index as int, xx, yy),
                    ),
            decreases 128 - y,
        {
            let mut x: usize = 0;
            while x < 128
                invariant
                    y < 128,
                    x <= 128,
                    index < 2,
                    forall|xx: int, yy: int|
                        0 <= xx < 128 && 0 <= yy < y ==> #[trigger] picture_pixel(picture@, xx, yy)
                            == self.color_from_palette_ram_model(
                            palette_id,
                            self.pattern_pixel_model(index as int, xx, yy),
                        ),
                    forall|xx: int|
                        0 <= xx < x ==> #[trigger] picture_pixel(picture@, xx, y as int)
                            == self.color_from_palette_ram_model(
                            palette_id,
                            self.pattern_pixel_model(index as int, xx, y as int),
                        ),
                decreases 128 - x,
            {
                let number: u8 = self.pattern_pixel(index, x, y);
                let pixel: Pixel = self.get_color_from_palette_ram(palette_id, number);
                put_picture_pixel(&mut picture, x, y, pixel);
                x = x + 1;
            }
            y = y + 1;
        }
        picture
    }

    /// [`Self::get_pattern_table`] under its older name.
    pub fn debug_get_pattern_table(&self, index: usize, palette_id: u8) -> (r: [u8; 49152])
        requires
            index < 2,
        ensures
            forall|x: int, y: int|
                0 <= x < 128 && 0 <= y < 128 ==> #[trigger] picture_pixel(r@, x, y)
                    == self.color_from_palette_ram_model(
                    palette_id,
                    self.pattern_pixel_model(index as int, x, y),
                ),
    {
        self.get_pattern_table(index, palette_id)
    }
}

} // verus!
