//! The pixel multiplexer: one dot of background and sprites becomes one
//! pixel of the frame.

use crate::ppu::helpers::with_pixel;
use crate::ppu::statics::{color, color_model};
use crate::ppu::structures::{Pixel, StatusRegister};
use crate::ppu::PPU;
use vstd::array::spec_array_update;
use vstd::prelude::*;

verus! {

/// What one layer offers for a dot: a colour number, 0 for transparent, and
/// the palette to look it up in. A sprite also says whether it goes in
/// front of the background, and whether it is sprite 0.
#[derive(Debug, Clone, Copy, PartialEq, Eq, Structural)]
pub struct LayerPixel {
    pub pixel: u8,
    pub palette: u8,
    pub priority: bool,
    pub sprite_zero: bool,
}

/// 1 for a set bit, 0 for a clear one.
pub open spec fn bit_of(set: bool) -> u8 {
    if set {
        1
    } else {
        0
    }
}

/// Which layer a dot shows, as palette and colour number. Where both
/// layers are transparent the dot shows the universal background; where
/// one is, it shows the other; where neither is, the sprite's priority
/// decides.
pub open spec fn multiplexed(bg: LayerPixel, fg: LayerPixel) -> (u8, u8) {
    if bg.pixel == 0 && fg.pixel == 0 {
        (0, 0)
    } else if bg.pixel == 0 {
        (fg.palette, fg.pixel)
    } else if fg.pixel == 0 {
        (bg.palette, bg.pixel)
    } else if fg.priority {
        (fg.palette, fg.pixel)
    } else {
        (bg.palette, bg.pixel)
    }
}

/// Where colour `pixel` of palette `palette` lies in palette memory.
pub open spec fn palette_address(palette: u8, pixel: u8) -> u16 {
    (0x3F00 + (palette * 4 + pixel) % 64) as u16
}

proof fn lemma_sprite_palette(attribute: u8)
    by (bit_vector)
    ensures
        attribute & 0x03 <= 3,
{
}

impl PPU {
    /// What the background offers for the dot in work: the bit that fine X
    /// picks from the top of each of the four shifters.
    pub open spec fn background_pixel_model(&self) -> LayerPixel {
        if self.mask.render_background.register != 0 {
            let bit_mux = 0x8000u16 >> (self.fine_x as u16);
            LayerPixel {
                pixel: (bit_of(self.bg_shifter_pattern_hi & bit_mux != 0) * 2 + bit_of(
                    self.bg_shifter_pattern_lo & bit_mux != 0,
                )) as u8,
                palette: (bit_of(self.bg_shifter_attrib_hi & bit_mux != 0) * 2 + bit_of(
                    self.bg_shifter_attrib_lo & bit_mux != 0,
                )) as u8,
                priority: false,
                sprite_zero: false,
            }
        } else {
            LayerPixel { pixel: 0, palette: 0, priority: false, sprite_zero: false }
        }
    }

    pub fn background_pixel(&self) -> (r: LayerPixel)
        requires
            self.wf(),
        ensures
            r == self.background_pixel_model(),
            r.pixel <= 3,
            r.palette <= 3,
    {
        if self.mask.render_background.get_as_bool() {
            let bit_mux: u16 = 0x8000u16 >> (self.fine_x as u16);
            let p0: u8 = if self.bg_shifter_pattern_lo & bit_mux != 0 {
                1
            } else {
                0
            };
            let p1: u8 = if self.bg_shifter_pattern_hi & bit_mux != 0 {
                1
            } else {
                0
            };
            let a0: u8 = if self.bg_shifter_attrib_lo & bit_mux != 0 {
                1
            } else {
                0
            };
            let a1: u8 = if self.bg_shifter_attrib_hi & bit_mux != 0 {
                1
            } else {
                0
            };
            LayerPixel { pixel: p1 * 2 + p0, palette: a1 * 2 + a0, priority: false, sprite_zero: false }
        } else {
            LayerPixel { pixel: 0, palette: 0, priority: false, sprite_zero: false }
        }
    }

    /// The colour number that the sprite in slot `i` offers: the top bit of
    /// each of its two planes.
    pub open spec fn sprite_pixel_at(&self, i: int) -> u8 {
        (bit_of(self.sprite_shifter_pattern_hi@[i] & 0x80 != 0) * 2 + bit_of(
            self.sprite_shifter_pattern_lo@[i] & 0x80 != 0,
        )) as u8
    }

    /// Whether the sprite in slot `i` has begun and shows a colour.
    pub open spec fn sprite_shows(&self, i: int) -> bool {
        self.sprite_x_counter@[i] == 0 && self.sprite_pixel_at(i) != 0
    }

    /// The first slot from `from` on whose sprite shows a colour, or the
    /// number of sprites where none does.
    pub open spec fn first_showing_sprite(&self, from: int) -> int
        decreases self.sprite_count - from,
    {
        if from >= self.sprite_count {
            self.sprite_count as int
        } else if self.sprite_shows(from) {
            from
        } else {
            self.first_showing_sprite(from + 1)
        }
    }

    /// What the sprites offer for the dot in work: the colour of the first
    /// sprite in secondary memory that shows one, from the sprite palettes,
    /// in front of the background unless the sprite's attribute says behind.
    pub open spec fn sprite_pixel_model(&self) -> LayerPixel {
        let slot = self.first_showing_sprite(0);
        if self.mask.render_sprites.register != 0 && slot < self.sprite_count {
            let attribute = self.sprites_to_render@[slot].attribute;
            LayerPixel {
                pixel: self.sprite_pixel_at(slot),
                palette: ((attribute & 0x03) + 4) as u8,
                priority: attribute & 0x20 == 0,
                sprite_zero: slot == 0 && self.sprite_zero_selected,
            }
        } else {
            LayerPixel { pixel: 0, palette: 0, priority: false, sprite_zero: false }
        }
    }

    pub fn sprite_pixel(&self) -> (r: LayerPixel)
        requires
            self.wf(),
        ensures
            r == self.sprite_pixel_model(),
            r.pixel <= 3,
            r.palette <= 7,
    {
        let none = LayerPixel { pixel: 0, palette: 0, priority: false, sprite_zero: false };
        if !self.mask.render_sprites.get_as_bool() {
            return none;
        }
        let mut i: usize = 0;
        while i < self.sprite_count as usize
            invariant
                i <= self.sprite_count <= 8,
                self.mask.render_sprites.register != 0,
                self.first_showing_sprite(0) == self.first_showing_sprite(i as int),
            decreases self.sprite_count - i,
        {
            if self.sprite_x_counter[i] == 0 {
                let p0: u8 = if self.sprite_shifter_pattern_lo[i] & 0x80 != 0 {
                    1
                } else {
                    0
                };
                let p1: u8 = if self.sprite_shifter_pattern_hi[i] & 0x80 != 0 {
                    1
                } else {
                    0
                };
                let pixel: u8 = p1 * 2 + p0;
                if pixel != 0 {
                    let attribute: u8 = self.sprites_to_render[i].attribute;
                    proof {
                        lemma_sprite_palette(attribute);
                        assert(self.sprite_pixel_at(i as int) == pixel);
                        assert(self.sprite_shows(i as int));
                        assert(self.first_showing_sprite(i as int) == i);
                    }
                    return LayerPixel {
                        pixel,
                        palette: (attribute & 0x03) + 4,
                        priority: attribute & 0x20 == 0,
                        sprite_zero: i == 0 && self.sprite_zero_selected,
                    };
                }
            }
            i = i + 1;
        }
        none
    }

    /// The colour that palette memory holds for colour `pixel` of palette
    /// `palette`.
    pub open spec fn color_from_palette_ram_model(&self, palette: u8, pixel: u8) -> Pixel {
        color_model(self.ppu_read_model(palette_address(palette, pixel)))
    }

    pub fn get_color_from_palette_ram(&self, palette: u8, pixel: u8) -> (r: Pixel)
        ensures
            r == self.color_from_palette_ram_model(palette, pixel),
    {
        let entry: u16 = (palette as u16 * 4 + pixel as u16) % 64;
        color(self.ppu_read(0x3F00 + entry))
    }

    /// The colour of the dot in work.
    pub open spec fn color_to_draw_model(&self) -> Pixel {
        let shown = multiplexed(self.background_pixel_model(), self.sprite_pixel_model());
        self.color_from_palette_ram_model(shown.0, shown.1)
    }

    pub fn get_color_to_draw(&self) -> (r: Pixel)
        requires
            self.wf(),
        ensures
            r == self.color_to_draw_model(),
    {
        let bg = self.background_pixel();
        let fg = self.sprite_pixel();
        if bg.pixel == 0 && fg.pixel == 0 {
            self.get_color_from_palette_ram(0, 0)
        } else if bg.pixel == 0 {
            self.get_color_from_palette_ram(fg.palette, fg.pixel)
        } else if fg.pixel == 0 {
            self.get_color_from_palette_ram(bg.palette, bg.pixel)
        } else if fg.priority {
            self.get_color_from_palette_ram(fg.palette, fg.pixel)
        } else {
            self.get_color_from_palette_ram(bg.palette, bg.pixel)
        }
    }

    /// Whether the dot in work is one where sprite 0 hits the background:
    /// both layers are switched on and show a colour, the sprite's colour
    /// is of sprite 0, and the dot is not in the eight columns at the left
    /// while either layer is clipped there.
    pub open spec fn sprite_zero_hits(&self) -> bool {
        let bg = self.background_pixel_model();
        let fg = self.sprite_pixel_model();
        &&& self.mask.render_background.register != 0
        &&& self.mask.render_sprites.register != 0
        &&& bg.pixel != 0
        &&& fg.pixel != 0
        &&& fg.sprite_zero
        &&& (self.cycle >= 9 || (self.mask.render_background_left.register != 0
            && self.mask.render_sprites_left.register != 0))
    }

    /// Where the pixel of the dot in work lies in the frame buffer: row
    /// `scanline`, column `cycle - 1`.
    pub open spec fn screen_position(&self) -> int {
        (self.scanline * 256 + self.cycle - 1) * 3
    }

    /// The PPU after the dot in work was drawn: its colour is in the frame
    /// buffer, and the sprite-zero flag is up if the dot is a hit.
    pub open spec fn draw_model(self) -> PPU {
        let pixel = self.color_to_draw_model();
        let position = self.screen_position();
        PPU {
            screen: Box::new(
                spec_array_update(
                    spec_array_update(
                        spec_array_update(*self.screen, position, pixel.0),
                        position + 1,
                        pixel.1,
                    ),
                    position + 2,
                    pixel.2,
                ),
            ),
            status: if self.sprite_zero_hits() {
                StatusRegister::model(self.status@ | 0x40)
            } else {
                self.status
            },
            ..self
        }
    }

    /// Drawing a dot lays its three bytes down in the frame buffer and
    /// leaves every other byte of it.
    pub proof fn lemma_draw_screen(self)
        requires
            self.scanline <= 239,
            1 <= self.cycle <= 256,
        ensures
            self.draw_model().screen@ == with_pixel(
                self.screen@,
                self.screen_position(),
                self.color_to_draw_model(),
            ),
    {
    }

    #[verifier::rlimit(50)]
    pub fn draw(&mut self)
        requires
            old(self).wf(),
            old(self).scanline <= 239,
            1 <= old(self).cycle <= 256,
        ensures
            *final(self) == old(self).draw_model(),
            final(self).wf(),
    {
        let bg = self.background_pixel();
        let fg = self.sprite_pixel();
        let pixel = self.get_color_to_draw();
        let position: usize = (self.scanline * 256 + self.cycle - 1) * 3;
        self.screen[position] = pixel.0;
        self.screen[position + 1] = pixel.1;
        self.screen[position + 2] = pixel.2;
        let both_layers: bool = self.mask.render_background.get_as_bool()
            && self.mask.render_sprites.get_as_bool();
        let unclipped: bool = self.mask.render_background_left.get_as_bool()
            && self.mask.render_sprites_left.get_as_bool();
        if both_layers && bg.pixel != 0 && fg.pixel != 0 && fg.sprite_zero && (self.cycle >= 9
            || unclipped) {
            let status: u8 = self.status.get_register();
            self.status.set_register(status | 0x40);
        }
    }
}

} // verus!
