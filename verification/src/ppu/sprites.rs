//! Sprites: which of them the next line shows, their pattern rows, and
//! their march across the line.

use crate::ppu::background::pattern_address;
use crate::ppu::structures::{ObjectAttributeEntry, StatusRegister};
use crate::ppu::PPU;
use vstd::array::spec_array_update;
use vstd::prelude::*;

verus! {

/// Whether a sprite of `size` lines that starts at line `entry.y` covers
/// `scanline`.
pub open spec fn sprite_in_range(entry: ObjectAttributeEntry, scanline: int, size: int) -> bool {
    entry.y <= scanline < entry.y + size
}

/// The row of its pattern that a sprite shows on `scanline`: the distance
/// from its first line, counted from its last line instead where the
/// sprite is flipped top to bottom. A sprite that starts below the line
/// shows its first row.
pub open spec fn sprite_row(entry: ObjectAttributeEntry, scanline: int, size: int) -> int {
    let distance = if scanline >= entry.y {
        scanline - entry.y
    } else {
        0
    };
    let row = distance % size;
    if entry.attribute & 0x80 != 0 {
        size - 1 - row
    } else {
        row
    }
}

/// Where the low plane of the row that a sprite shows on `scanline` lies.
/// A sprite of 8 lines takes its tile from the table that PPUCTRL names. A
/// sprite of 16 lines takes the table from the low bit of its tile number
/// and its rows from a pair of tiles, the even one above the odd one.
pub open spec fn sprite_pattern_address(
    second_table: bool,
    tall: bool,
    entry: ObjectAttributeEntry,
    scanline: int,
) -> u16 {
    if tall {
        let row = sprite_row(entry, scanline, 16);
        ((entry.id % 2) * 0x1000 + (entry.id - entry.id % 2 + row / 8) * 16 + row % 8) as u16
    } else {
        pattern_address(second_table, entry.id, sprite_row(entry, scanline, 8) as u16)
    }
}

/// The low `bits` bits of `value` in reverse order, above `acc`.
pub open spec fn reversed_onto(value: nat, bits: nat, acc: nat) -> nat
    decreases bits,
{
    if bits == 0 {
        acc
    } else {
        reversed_onto(value / 2, (bits - 1) as nat, acc * 2 + value % 2)
    }
}

/// A byte with the order of its bits reversed.
pub open spec fn reversed_bits(byte: u8) -> u8 {
    reversed_onto(byte as nat, 8, 0) as u8
}

/// `u8::reverse_bits` of std, which reverses the order of the bits of the
/// byte: bit 0 becomes bit 7, bit 1 becomes bit 6, and so on.
#[verifier::external_body]
fn reverse_bits(byte: u8) -> (r: u8)
    ensures
        r == reversed_bits(byte),
{
    byte.reverse_bits()
}

/// A pattern row as a sprite shows it: mirrored where the sprite is
/// flipped left to right.
pub open spec fn sprite_plane(attribute: u8, byte: u8) -> u8 {
    if attribute & 0x40 != 0 {
        reversed_bits(byte)
    } else {
        byte
    }
}

pub fn sprite_address(second_table: bool, tall: bool, entry: ObjectAttributeEntry, scanline: usize)
    -> (r: u16)
    requires
        scanline <= 261,
    ensures
        r == sprite_pattern_address(second_table, tall, entry, scanline as int),
        r <= 0x1FF7,
{
    let flipped: bool = entry.attribute & 0x80 != 0;
    let distance: usize = if scanline >= entry.y as usize {
        scanline - entry.y as usize
    } else {
        0
    };
    if tall {
        let row: usize = if flipped {
            15 - distance % 16
        } else {
            distance % 16
        };
        let table: usize = (entry.id % 2) as usize;
        let tile: usize = (entry.id - entry.id % 2) as usize + row / 8;
        (table * 0x1000 + tile * 16 + row % 8) as u16
    } else {
        let row: usize = if flipped {
            7 - distance % 8
        } else {
            distance % 8
        };
        let base: usize = if second_table {
            0x1000
        } else {
            0
        };
        (base + entry.id as usize * 16 + row) as u16
    }
}

impl PPU {
    /// The PPU after the first `n` sprites of object memory were looked at
    /// for the line in work: the first eight that cover the line are in
    /// secondary memory in their order, and a ninth sets sprite overflow.
    pub open spec fn evaluated(self, n: int) -> PPU
        decreases n,
    {
        if n <= 0 {
            PPU { sprite_count: 0, sprite_zero_selected: false, ..self }
        } else {
            let prior = self.evaluated(n - 1);
            let entry = self.oam@[n - 1];
            if !sprite_in_range(entry, self.scanline as int, self.sprite_size_model()) {
                prior
            } else if prior.sprite_count < 8 {
                PPU {
                    sprites_to_render: spec_array_update(
                        prior.sprites_to_render,
                        prior.sprite_count as int,
                        entry,
                    ),
                    sprite_count: (prior.sprite_count + 1) as u8,
                    sprite_zero_selected: prior.sprite_zero_selected || n == 1,
                    ..prior
                }
            } else {
                PPU { status: StatusRegister::model(prior.status@ | 0x20), ..prior }
            }
        }
    }

    /// The PPU after sprite evaluation.
    pub open spec fn load_sprites_to_render_model(self) -> PPU {
        self.evaluated(64)
    }

    #[verifier::rlimit(50)]
    pub fn load_sprites_to_render(&mut self)
        requires
            old(self).wf(),
        ensures
            *final(self) == old(self).load_sprites_to_render_model(),
            final(self).wf(),
    {
        let size: usize = self.get_sprite_size();
        self.sprite_count = 0;
        self.sprite_zero_selected = false;
        let mut i: usize = 0;
        while i < 64
            invariant
                i <= 64,
                self.wf(),
                *self == old(self).evaluated(i as int),
                self.oam == old(self).oam,
                self.scanline == old(self).scanline,
                size == old(self).sprite_size_model(),
            decreases 64 - i,
        {
            let entry = self.oam[i];
            if entry.y as usize <= self.scanline && self.scanline < entry.y as usize + size {
                if self.sprite_count < 8 {
                    self.sprites_to_render[self.sprite_count as usize] = entry;
                    self.sprite_count = self.sprite_count + 1;
                    if i == 0 {
                        self.sprite_zero_selected = true;
                    }
                } else {
                    let status: u8 = self.status.get_register();
                    self.status.set_register(status | 0x20);
                }
            }
            i = i + 1;
        }
    }

    /// The PPU after the pattern rows of the first `n` sprites in secondary
    /// memory were fetched: each sprite's two planes are in its shifters
    /// and its x in its counter.
    pub open spec fn sprites_fetched(self, n: int) -> PPU
        decreases n,
    {
        if n <= 0 {
            self
        } else {
            let prior = self.sprites_fetched(n - 1);
            let entry = self.sprites_to_render@[n - 1];
            let address = sprite_pattern_address(
                self.ctrl.pattern_sprite.register != 0,
                self.ctrl.sprite_size.register != 0,
                entry,
                self.scanline as int,
            );
            PPU {
                sprite_shifter_pattern_lo: spec_array_update(
                    prior.sprite_shifter_pattern_lo,
                    n - 1,
                    sprite_plane(entry.attribute, self.ppu_read_model(address)),
                ),
                sprite_shifter_pattern_hi: spec_array_update(
                    prior.sprite_shifter_pattern_hi,
                    n - 1,
                    sprite_plane(entry.attribute, self.ppu_read_model((address + 8) as u16)),
                ),
                sprite_x_counter: spec_array_update(prior.sprite_x_counter, n - 1, entry.x),
                ..prior
            }
        }
    }

    /// The PPU after the sprite fetches of a line.
    pub open spec fn fetch_sprites_model(self) -> PPU {
        self.sprites_fetched(self.sprite_count as int)
    }

    #[verifier::rlimit(50)]
    pub fn fetch_sprites(&mut self)
        requires
            old(self).wf(),
        ensures
            *final(self) == old(self).fetch_sprites_model(),
            final(self).wf(),
    {
        let tall: bool = self.ctrl.sprite_size.get_as_bool();
        let second_table: bool = self.ctrl.pattern_sprite.get_as_bool();
        let mut i: usize = 0;
        while i < self.sprite_count as usize
            invariant
                i <= self.sprite_count <= 8,
                self.wf(),
                *self == old(self).sprites_fetched(i as int),
                *self == (PPU {
                    sprite_shifter_pattern_lo: self.sprite_shifter_pattern_lo,
                    sprite_shifter_pattern_hi: self.sprite_shifter_pattern_hi,
                    sprite_x_counter: self.sprite_x_counter,
                    ..*old(self)
                }),
                tall == (old(self).ctrl.sprite_size.register != 0),
                second_table == (old(self).ctrl.pattern_sprite.register != 0),
            decreases self.sprite_count - i,
        {
            let entry = self.sprites_to_render[i];
            let address: u16 = sprite_address(second_table, tall, entry, self.scanline);
            let mut lo: u8 = self.ppu_read(address);
            let mut hi: u8 = self.ppu_read(address + 8);
            if entry.attribute & 0x40 != 0 {
                lo = reverse_bits(lo);
                hi = reverse_bits(hi);
            }
            self.sprite_shifter_pattern_lo[i] = lo;
            self.sprite_shifter_pattern_hi[i] = hi;
            self.sprite_x_counter[i] = entry.x;
            i = i + 1;
        }
    }

    /// The PPU after the first `n` sprites in secondary memory moved on by
    /// one dot: a sprite that has not begun counts its x down, and one that
    /// has begun shifts its two planes.
    pub open spec fn sprites_advanced(self, n: int) -> PPU
        decreases n,
    {
        if n <= 0 {
            self
        } else {
            let prior = self.sprites_advanced(n - 1);
            if self.sprite_x_counter@[n - 1] > 0 {
                PPU {
                    sprite_x_counter: spec_array_update(
                        prior.sprite_x_counter,
                        n - 1,
                        (self.sprite_x_counter@[n - 1] - 1) as u8,
                    ),
                    ..prior
                }
            } else {
                PPU {
                    sprite_shifter_pattern_lo: spec_array_update(
                        prior.sprite_shifter_pattern_lo,
                        n - 1,
                        self.sprite_shifter_pattern_lo@[n - 1] << 1,
                    ),
                    sprite_shifter_pattern_hi: spec_array_update(
                        prior.sprite_shifter_pattern_hi,
                        n - 1,
                        self.sprite_shifter_pattern_hi@[n - 1] << 1,
                    ),
                    ..prior
                }
            }
        }
    }

    /// The sprites moved on by one dot, while sprites are switched on.
    pub open spec fn update_sprite_shifters_model(self) -> PPU {
        if self.mask.render_sprites.register != 0 {
            self.sprites_advanced(self.sprite_count as int)
        } else {
            self
        }
    }

    #[verifier::rlimit(50)]
    pub fn update_sprite_shifters(&mut self)
        requires
            old(self).wf(),
        ensures
            *final(self) == old(self).update_sprite_shifters_model(),
            final(self).wf(),
    {
        if self.mask.render_sprites.get_as_bool() {
            let mut i: usize = 0;
            while i < self.sprite_count as usize
                invariant
                    i <= self.sprite_count <= 8,
                    self.wf(),
                    *self == old(self).sprites_advanced(i as int),
                    self.sprite_count == old(self).sprite_count,
                    forall|j: int|
                        i <= j < 8 ==> self.sprite_x_counter@[j] == old(self).sprite_x_counter@[j],
                    forall|j: int|
                        i <= j < 8 ==> self.sprite_shifter_pattern_lo@[j] == old(
                            self,
                        ).sprite_shifter_pattern_lo@[j],
                    forall|j: int|
                        i <= j < 8 ==> self.sprite_shifter_pattern_hi@[j] == old(
                            self,
                        ).sprite_shifter_pattern_hi@[j],
                decreases self.sprite_count - i,
            {
                if self.sprite_x_counter[i] > 0 {
                    self.sprite_x_counter[i] = self.sprite_x_counter[i] - 1;
                } else {
                    self.sprite_shifter_pattern_lo[i] = self.sprite_shifter_pattern_lo[i] << 1;
                    self.sprite_shifter_pattern_hi[i] = self.sprite_shifter_pattern_hi[i] << 1;
                }
                i = i + 1;
            }
        }
    }
}

/// How many of the first `n` sprites of object memory cover `scanline`.
pub open spec fn sprites_in_range(
    oam: [ObjectAttributeEntry; 64],
    scanline: int,
    size: int,
    n: int,
) -> int
    decreases n,
{
    if n <= 0 {
        0
    } else {
        sprites_in_range(oam, scanline, size, n - 1) + if sprite_in_range(
            oam@[n - 1],
            scanline,
            size,
        ) {
            1int
        } else {
            0int
        }
    }
}

proof fn lemma_overflow_bit(s: u8)
    by (bit_vector)
    ensures
        (s | 0x20) & 0x20 != 0,
{
}

/// Sprite evaluation keeps the first eight sprites that cover the line and
/// no more, raises sprite overflow exactly when there is a ninth or the
/// flag was up already, and notes whether sprite 0 is among those kept.
pub proof fn lemma_evaluation_counts(ppu: PPU, n: int)
    requires
        ppu.wf(),
        0 <= n <= 64,
    ensures
        ({
            let found = sprites_in_range(
                ppu.oam,
                ppu.scanline as int,
                ppu.sprite_size_model(),
                n,
            );
            let after = ppu.evaluated(n);
            &&& 0 <= found <= n
            &&& after.sprite_count == (if found < 8 {
                found
            } else {
                8
            })
            &&& (after.status@ & 0x20 != 0) == (ppu.status@ & 0x20 != 0 || found > 8)
            &&& after.sprite_zero_selected == (n >= 1 && sprite_in_range(
                ppu.oam@[0],
                ppu.scanline as int,
                ppu.sprite_size_model(),
            ))
            &&& after.oam == ppu.oam
            &&& after.scanline == ppu.scanline
            &&& after.ctrl == ppu.ctrl
        }),
    decreases n,
{
    if n > 0 {
        lemma_evaluation_counts(ppu, n - 1);
        let prior = ppu.evaluated(n - 1);
        StatusRegister::lemma_model_view(prior.status@ | 0x20);
        lemma_overflow_bit(prior.status@);
    }
}

} // verus!
