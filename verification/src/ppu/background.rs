//! The background pipeline: what is fetched on which dot, how the shifters
//! take it, and how `v` scrolls.

use crate::ppu::structures::VramRegister;
use crate::ppu::timing::is_fetch_dot;
use crate::ppu::PPU;
use vstd::prelude::*;

verus! {

/// Where the tile number that `v` points at lies.
pub open spec fn nametable_address(v: u16) -> u16 {
    0x2000 | (v & 0x0FFF)
}

/// Where the attribute byte of the tile that `v` points at lies.
pub open spec fn attribute_address(v: u16) -> u16 {
    0x23C0 | (v & 0x0C00) | ((v >> 4) & 0x38) | ((v >> 2) & 0x07)
}

/// The two palette bits of the tile that `v` points at, out of the
/// attribute byte of its block of four by four tiles: the lower half of
/// the block is in the high nibble, the right half in the high pair.
pub open spec fn attribute_bits(byte: u8, v: u16) -> u8 {
    let by_row = if v & 0x0040 != 0 {
        byte >> 4
    } else {
        byte
    };
    let by_column = if v & 0x0002 != 0 {
        by_row >> 2
    } else {
        by_row
    };
    by_column & 0x03
}

/// Fine Y of `v`: the row of the tile that is drawn.
pub open spec fn fine_y_of(v: u16) -> u16 {
    (v & 0x7000) >> 12
}

/// Where the low plane of row `row` of tile `tile` lies in a pattern table.
/// The high plane lies eight bytes on.
pub open spec fn pattern_address(second_table: bool, tile: u8, row: u16) -> u16 {
    ((if second_table {
        0x1000int
    } else {
        0int
    }) + tile * 16 + row) as u16
}

/// `v` one tile to the right: coarse X counts up, and from 31 it returns to
/// 0 and the horizontal nametable changes.
pub open spec fn coarse_x_incremented(v: u16) -> u16 {
    if v & 0x001F == 0x001F {
        (v & !0x001Fu16) ^ 0x0400
    } else {
        v.wrapping_add(1)
    }
}

/// `v` one line down: fine Y counts up, and from 7 it returns to 0 and
/// coarse Y counts up. Coarse Y returns to 0 from 29 and changes the
/// vertical nametable; from 30 and 31 it returns to 0 and changes nothing.
pub open spec fn y_incremented(v: u16) -> u16 {
    if v & 0x7000 != 0x7000 {
        v.wrapping_add(0x1000)
    } else {
        let cleared = v & !0x7000u16;
        let coarse_y = (cleared & 0x03E0) >> 5;
        if coarse_y == 29 {
            (cleared & !0x03E0u16) ^ 0x0800
        } else if coarse_y >= 30 {
            cleared & !0x03E0u16
        } else {
            cleared.wrapping_add(0x0020)
        }
    }
}

/// `v` with coarse X and the horizontal nametable of `t`.
pub open spec fn horizontal_copied(v: u16, t: u16) -> u16 {
    (v & !0x041Fu16) | (t & 0x041F)
}

/// `v` with fine Y, coarse Y and the vertical nametable of `t`.
pub open spec fn vertical_copied(v: u16, t: u16) -> u16 {
    (v & !0x7BE0u16) | (t & 0x7BE0)
}

/// A shifter with `byte` in its low half.
pub open spec fn shifter_loaded(shifter: u16, byte: u8) -> u16 {
    (shifter & 0xFF00) | (byte as u16)
}

/// One attribute bit spread over the eight pixels of a tile.
pub open spec fn attribute_fill(attribute: u8, bit: u8) -> u8 {
    if attribute & bit != 0 {
        0xFF
    } else {
        0x00
    }
}

proof fn lemma_fine_y(v: u16)
    by (bit_vector)
    ensures
        (v & 0x7000) >> 12 <= 7,
{
}

impl PPU {
    /// The shifters with the tile last fetched in their low halves.
    pub open spec fn load_background_shifters_model(self) -> PPU {
        PPU {
            bg_shifter_pattern_lo: shifter_loaded(self.bg_shifter_pattern_lo, self.bg_next_tile_lsb),
            bg_shifter_pattern_hi: shifter_loaded(self.bg_shifter_pattern_hi, self.bg_next_tile_msb),
            bg_shifter_attrib_lo: shifter_loaded(
                self.bg_shifter_attrib_lo,
                attribute_fill(self.bg_next_tile_attrib, 0b01),
            ),
            bg_shifter_attrib_hi: shifter_loaded(
                self.bg_shifter_attrib_hi,
                attribute_fill(self.bg_next_tile_attrib, 0b10),
            ),
            ..self
        }
    }

    pub fn load_background_shifters(&mut self)
        ensures
            *final(self) == old(self).load_background_shifters_model(),
    {
        self.bg_shifter_pattern_lo = (self.bg_shifter_pattern_lo & 0xFF00)
            | (self.bg_next_tile_lsb as u16);
        self.bg_shifter_pattern_hi = (self.bg_shifter_pattern_hi & 0xFF00)
            | (self.bg_next_tile_msb as u16);
        let fill_lo: u8 = if self.bg_next_tile_attrib & 0b01 != 0 {
            0xFF
        } else {
            0x00
        };
        let fill_hi: u8 = if self.bg_next_tile_attrib & 0b10 != 0 {
            0xFF
        } else {
            0x00
        };
        self.bg_shifter_attrib_lo = (self.bg_shifter_attrib_lo & 0xFF00) | (fill_lo as u16);
        self.bg_shifter_attrib_hi = (self.bg_shifter_attrib_hi & 0xFF00) | (fill_hi as u16);
    }

    /// The four background shifters moved on by one pixel, while rendering
    /// is switched on.
    pub open spec fn update_bg_shifters_model(self) -> PPU {
        if self.rendering_enabled() {
            PPU {
                bg_shifter_pattern_lo: self.bg_shifter_pattern_lo << 1,
                bg_shifter_pattern_hi: self.bg_shifter_pattern_hi << 1,
                bg_shifter_attrib_lo: self.bg_shifter_attrib_lo << 1,
                bg_shifter_attrib_hi: self.bg_shifter_attrib_hi << 1,
                ..self
            }
        } else {
            self
        }
    }

    pub fn update_bg_shifters(&mut self)
        ensures
            *final(self) == old(self).update_bg_shifters_model(),
    {
        if self.can_render() {
            self.bg_shifter_pattern_lo = self.bg_shifter_pattern_lo << 1;
            self.bg_shifter_pattern_hi = self.bg_shifter_pattern_hi << 1;
            self.bg_shifter_attrib_lo = self.bg_shifter_attrib_lo << 1;
            self.bg_shifter_attrib_hi = self.bg_shifter_attrib_hi << 1;
        }
    }

    /// `v` moved one tile to the right, while rendering is switched on.
    pub open spec fn increment_scroll_x_model(self) -> PPU {
        if self.rendering_enabled() {
            PPU {
                vram_addr: VramRegister::model(coarse_x_incremented(self.vram_addr@)),
                ..self
            }
        } else {
            self
        }
    }

    pub fn increment_scroll_x(&mut self)
        requires
            old(self).wf(),
        ensures
            *final(self) == old(self).increment_scroll_x_model(),
            final(self).wf(),
    {
        if self.can_render() {
            let v: u16 = self.vram_addr.get_register();
            if v & 0x001F == 0x001F {
                self.vram_addr.set_register((v & !0x001Fu16) ^ 0x0400);
            } else {
                self.vram_addr.set_register(v.wrapping_add(1));
            }
        }
    }

    /// `v` moved one line down, while rendering is switched on.
    pub open spec fn increment_scroll_y_model(self) -> PPU {
        if self.rendering_enabled() {
            PPU { vram_addr: VramRegister::model(y_incremented(self.vram_addr@)), ..self }
        } else {
            self
        }
    }

    pub fn increment_scroll_y(&mut self)
        requires
            old(self).wf(),
        ensures
            *final(self) == old(self).increment_scroll_y_model(),
            final(self).wf(),
    {
        if self.can_render() {
            let v: u16 = self.vram_addr.get_register();
            if v & 0x7000 != 0x7000 {
                self.vram_addr.set_register(v.wrapping_add(0x1000));
            } else {
                let cleared: u16 = v & !0x7000u16;
                let coarse_y: u16 = (cleared & 0x03E0) >> 5;
                if coarse_y == 29 {
                    self.vram_addr.set_register((cleared & !0x03E0u16) ^ 0x0800);
                } else if coarse_y >= 30 {
                    self.vram_addr.set_register(cleared & !0x03E0u16);
                } else {
                    self.vram_addr.set_register(cleared.wrapping_add(0x0020));
                }
            }
        }
    }

    /// `v` with the horizontal position of `t`, while rendering is switched on.
    pub open spec fn transfer_address_x_model(self) -> PPU {
        if self.rendering_enabled() {
            PPU {
                vram_addr: VramRegister::model(
                    horizontal_copied(self.vram_addr@, self.tram_addr@),
                ),
                ..self
            }
        } else {
            self
        }
    }

    pub fn transfer_address_x(&mut self)
        requires
            old(self).wf(),
        ensures
            *final(self) == old(self).transfer_address_x_model(),
            final(self).wf(),
    {
        if self.can_render() {
            let v: u16 = self.vram_addr.get_register();
            let t: u16 = self.tram_addr.get_register();
            self.vram_addr.set_register((v & !0x041Fu16) | (t & 0x041F));
        }
    }

    /// `v` with the vertical position of `t`, while rendering is switched on.
    pub open spec fn transfer_address_y_model(self) -> PPU {
        if self.rendering_enabled() {
            PPU {
                vram_addr: VramRegister::model(vertical_copied(self.vram_addr@, self.tram_addr@)),
                ..self
            }
        } else {
            self
        }
    }

    pub fn transfer_address_y(&mut self)
        requires
            old(self).wf(),
        ensures
            *final(self) == old(self).transfer_address_y_model(),
            final(self).wf(),
    {
        if self.can_render() {
            let v: u16 = self.vram_addr.get_register();
            let t: u16 = self.tram_addr.get_register();
            self.vram_addr.set_register((v & !0x7BE0u16) | (t & 0x7BE0));
        }
    }

    /// What the pipeline does on a fetch dot, by the dot's place in its
    /// group of eight: fetch the tile number, its attribute bits, the low
    /// and the high plane of its row; on the last dot of the group hand the
    /// tile to the shifters and move `v` to the next tile.
    pub open spec fn fetch_model(self) -> PPU {
        let v = self.vram_addr@;
        let phase = self.cycle % 8;
        let second_table = self.ctrl.pattern_background.register != 0;
        if phase == 1 {
            PPU { bg_next_tile_id: self.ppu_read_model(nametable_address(v)), ..self }
        } else if phase == 3 {
            PPU {
                bg_next_tile_attrib: attribute_bits(
                    self.ppu_read_model(attribute_address(v)),
                    v,
                ),
                ..self
            }
        } else if phase == 5 {
            PPU {
                bg_next_tile_lsb: self.ppu_read_model(
                    pattern_address(second_table, self.bg_next_tile_id, fine_y_of(v)),
                ),
                ..self
            }
        } else if phase == 7 {
            PPU {
                bg_next_tile_msb: self.ppu_read_model(
                    (pattern_address(second_table, self.bg_next_tile_id, fine_y_of(v)) + 8) as u16,
                ),
                ..self
            }
        } else if phase == 0 {
            if self.rendering_enabled() {
                self.load_background_shifters_model().increment_scroll_x_model()
            } else {
                self
            }
        } else {
            self
        }
    }

    #[verifier::rlimit(50)]
    pub fn fetch(&mut self)
        requires
            old(self).wf(),
        ensures
            *final(self) == old(self).fetch_model(),
            final(self).wf(),
    {
        let v: u16 = self.vram_addr.get_register();
        let phase: usize = self.cycle % 8;
        proof {
            lemma_fine_y(v);
        }
        if phase == 1 {
            self.bg_next_tile_id = self.ppu_read(0x2000 | (v & 0x0FFF));
        } else if phase == 3 {
            let mut attribute: u8 = self.ppu_read(
                0x23C0 | (v & 0x0C00) | ((v >> 4) & 0x38) | ((v >> 2) & 0x07),
            );
            if v & 0x0040 != 0 {
                attribute = attribute >> 4;
            }
            if v & 0x0002 != 0 {
                attribute = attribute >> 2;
            }
            self.bg_next_tile_attrib = attribute & 0x03;
        } else if phase == 5 {
            let base: u16 = if self.ctrl.pattern_background.get_as_bool() {
                0x1000
            } else {
                0
            };
            let address: u16 = base + (self.bg_next_tile_id as u16) * 16 + ((v & 0x7000) >> 12);
            self.bg_next_tile_lsb = self.ppu_read(address);
        } else if phase == 7 {
            let base: u16 = if self.ctrl.pattern_background.get_as_bool() {
                0x1000
            } else {
                0
            };
            let address: u16 = base + (self.bg_next_tile_id as u16) * 16 + ((v & 0x7000) >> 12);
            self.bg_next_tile_msb = self.ppu_read(address + 8);
        } else if phase == 0 {
            if self.can_render() {
                self.load_background_shifters();
                self.increment_scroll_x();
            }
        }
    }

    /// What the background pipeline does on the dot in work of a visible or
    /// the pre-render line: on a fetch dot the shifters move and the fetch
    /// of the dot is made; on dot 256 `v` moves one line down; on dot 257
    /// `v` takes the horizontal position of `t`; and on dots 280 to 304 of
    /// the pre-render line `v` takes the vertical position of `t`.
    pub open spec fn process_visible_cycle_model(self) -> PPU {
        let fetched = if is_fetch_dot(self.cycle as int) {
            self.update_bg_shifters_model().fetch_model()
        } else {
            self
        };
        let scrolled = if self.cycle == 256 {
            fetched.increment_scroll_y_model()
        } else if self.cycle == 257 {
            fetched.transfer_address_x_model()
        } else {
            fetched
        };
        if self.on_pre_render_line() && 280 <= self.cycle <= 304 {
            scrolled.transfer_address_y_model()
        } else {
            scrolled
        }
    }

    #[verifier::rlimit(50)]
    pub fn process_visible_cycle(&mut self)
        requires
            old(self).wf(),
        ensures
            *final(self) == old(self).process_visible_cycle_model(),
            final(self).wf(),
    {
        if (1 <= self.cycle && self.cycle <= 256) || (321 <= self.cycle && self.cycle <= 336) {
            self.update_bg_shifters();
            self.fetch();
        }
        if self.cycle == 256 {
            self.increment_scroll_y();
        }
        if self.cycle == 257 {
            self.transfer_address_x();
        }
        if self.scanline == 261 && 280 <= self.cycle && self.cycle <= 304 {
            self.transfer_address_y();
        }
    }
}

} // verus!
