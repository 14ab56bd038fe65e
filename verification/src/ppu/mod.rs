//! The picture processing unit: its memory, its registers as the CPU sees
//! them, and the dot clock that draws the frame.

pub mod background;
pub mod control;
pub mod data_port;
pub mod debug;
pub mod frame;
pub mod helpers;
pub mod laws;
pub mod read;
pub mod render;
pub mod sprites;
pub mod statics;
pub mod structures;
pub mod timing;
pub mod write;

use crate::cartridge::{Cartridge, MIRROR};
use crate::ppu::structures::{
    ControlRegister, MaskRegister, ObjectAttributeEntry, StatusRegister, VramRegister,
};
use vstd::array::spec_array_fill_for_copy_type;
use vstd::prelude::*;

verus! {

pub struct PPU {
    pub cart: Cartridge,
    /// The two nametable banks, bank 0 first.
    pub name_table: [u8; 2048],
    /// Pattern memory of the PPU's own, read where the cartridge declines.
    pub pattern_table: Box<[u8; 8192]>,
    pub palette: [u8; 32],
    /// The frame as 256 x 240 pixels of red, green, blue, row by row.
    pub screen: Box<[u8; 184320]>,
    pub oam: [ObjectAttributeEntry; 64],
    pub oam_addr: u8,
    pub frame_complete: bool,
    pub frame_complete_count: i32,
    pub status: StatusRegister,
    pub mask: MaskRegister,
    pub ctrl: ControlRegister,
    /// The address the PPU reads and writes at: `v`.
    pub vram_addr: VramRegister,
    /// The address in the making: `t`.
    pub tram_addr: VramRegister,
    /// The interrupt line to the CPU.
    pub nmi: bool,
    pub fine_x: u8,
    /// Whether the next write to $2005 or $2006 is the first of its pair.
    pub ppu_first_write: bool,
    pub ppu_data_buffer: u8,
    /// What was last on the register bus: the answer of a write-only register.
    pub open_bus: u8,
    pub scanline: usize,
    pub cycle: usize,
    pub bg_next_tile_id: u8,
    pub bg_next_tile_attrib: u8,
    pub bg_next_tile_lsb: u8,
    pub bg_next_tile_msb: u8,
    pub bg_shifter_pattern_lo: u16,
    pub bg_shifter_pattern_hi: u16,
    pub bg_shifter_attrib_lo: u16,
    pub bg_shifter_attrib_hi: u16,
    /// Secondary object attribute memory: the sprites of the line in work.
    pub sprites_to_render: [ObjectAttributeEntry; 8],
    /// How many entries of `sprites_to_render` count.
    pub sprite_count: u8,
    pub sprite_shifter_pattern_lo: [u8; 8],
    pub sprite_shifter_pattern_hi: [u8; 8],
    /// Dots left until each sprite begins.
    pub sprite_x_counter: [u8; 8],
    /// Whether the first entry of `sprites_to_render` is sprite 0.
    pub sprite_zero_selected: bool,
    pub debug: bool,
    pub clock_count: usize,
}

/// The bank that the nametable address `addr` falls in: the address picks
/// one of four logical tables of 1 KiB, and the mirroring folds them onto two.
pub open spec fn nametable_bank(mirror: MIRROR, addr: u16) -> int {
    let table = (addr as int % 0x1000) / 0x400;
    match mirror {
        MIRROR::VERTICAL => table % 2,
        MIRROR::HORIZONTAL => table / 2,
        MIRROR::OnescreenLo => 0,
        MIRROR::OnescreenHi => 1,
    }
}

/// Where the nametable address `addr` lies in the two banks.
pub open spec fn nametable_index(mirror: MIRROR, addr: u16) -> int {
    nametable_bank(mirror, addr) * 1024 + addr as int % 0x400
}

/// Where the palette address `addr` lies in the 32 bytes: $3F10, $3F14,
/// $3F18 and $3F1C are $3F00, $3F04, $3F08 and $3F0C again.
pub open spec fn palette_index(addr: u16) -> int {
    let entry = addr as int % 32;
    if entry >= 16 && entry % 4 == 0 {
        entry - 16
    } else {
        entry
    }
}

/// A black frame: 256 x 240 pixels of three zero bytes.
pub fn generate_dummy_screen() -> (r: [u8; 184320])
    ensures
        r == spec_array_fill_for_copy_type::<u8, 184320>(0u8),
        forall|i: int| 0 <= i < 184320 ==> r@[i] == 0,
{
    [0u8; 184320]
}

pub proof fn lemma_ppu_address(addr: u16)
    by (bit_vector)
    ensures
        addr & 0x3FFF == addr % 0x4000,
        addr & 0x0FFF == addr % 0x1000,
        (addr & 0x0FFF) & 0x03FF == addr % 0x400,
        (addr & 0x0FFF) / 0x0400 == (addr % 0x1000) / 0x400,
        addr & 0x001F == addr % 32,
        (addr & 0x001F) & !0x0010u16 == addr % 16,
        addr & 0x0007 == addr % 8,
{
}

impl PPU {
    /// The registers hold what their fields say, and the dot counters are
    /// inside the frame.
    pub open spec fn wf(&self) -> bool {
        &&& self.status.wf()
        &&& self.mask.wf()
        &&& self.ctrl.wf()
        &&& self.vram_addr.wf()
        &&& self.tram_addr.wf()
        &&& self.scanline <= 261
        &&& self.cycle <= 340
        &&& self.sprite_count <= 8
        &&& self.fine_x <= 7
    }

    /// Whether the PPU is well formed.
    pub fn is_valid(&self) -> (r: bool)
        ensures
            r == self.wf(),
    {
        self.status.is_valid() && self.mask.is_valid() && self.ctrl.is_valid()
            && self.vram_addr.is_valid() && self.tram_addr.is_valid() && self.scanline <= 261
            && self.cycle <= 340 && self.sprite_count <= 8 && self.fine_x <= 7
    }

    /// The state after power-on: every memory and register zero, the dot
    /// clock at the start of the frame, the first write of a pair expected.
    pub open spec fn is_power_on(&self) -> bool {
        &&& forall|i: int| 0 <= i < 2048 ==> self.name_table@[i] == 0
        &&& forall|i: int| 0 <= i < 8192 ==> self.pattern_table@[i] == 0
        &&& forall|i: int| 0 <= i < 32 ==> self.palette@[i] == 0
        &&& forall|i: int| 0 <= i < 184320 ==> self.screen@[i] == 0
        &&& forall|i: int|
            0 <= i < 64 ==> self.oam@[i] == (ObjectAttributeEntry { y: 0, id: 0, attribute: 0, x: 0 })
        &&& self.oam_addr == 0
        &&& !self.frame_complete
        &&& self.frame_complete_count == 0
        &&& self.status@ == 0
        &&& self.mask@ == 0
        &&& self.ctrl@ == 0
        &&& self.vram_addr@ == 0
        &&& self.tram_addr@ == 0
        &&& !self.nmi
        &&& self.fine_x == 0
        &&& self.ppu_first_write
        &&& self.ppu_data_buffer == 0
        &&& self.open_bus == 0
        &&& self.scanline == 0
        &&& self.cycle == 0
        &&& self.bg_next_tile_id == 0
        &&& self.bg_next_tile_attrib == 0
        &&& self.bg_next_tile_lsb == 0
        &&& self.bg_next_tile_msb == 0
        &&& self.bg_shifter_pattern_lo == 0
        &&& self.bg_shifter_pattern_hi == 0
        &&& self.bg_shifter_attrib_lo == 0
        &&& self.bg_shifter_attrib_hi == 0
        &&& self.sprite_count == 0
        &&& !self.sprite_zero_selected
        &&& !self.debug
        &&& self.clock_count == 0
    }

    #[verifier::rlimit(50)]
    pub fn new(cart: Cartridge) -> (r: Self)
        ensures
            r.cart == cart,
            r.is_power_on(),
            r.wf(),
    {
        proof {
            StatusRegister::lemma_model_view(0);
            MaskRegister::lemma_model_view(0);
            ControlRegister::lemma_model_view(0);
            VramRegister::lemma_model_view(0);
        }
        let blank = ObjectAttributeEntry { y: 0, id: 0, attribute: 0, x: 0 };
        Self {
            cart,
            name_table: [0u8; 2048],
            pattern_table: Box::new([0u8; 8192]),
            palette: [0u8; 32],
            screen: Box::new(generate_dummy_screen()),
            oam: [blank; 64],
            oam_addr: 0,
            frame_complete: false,
            frame_complete_count: 0,
            status: StatusRegister::from(0),
            mask: MaskRegister::from(0),
            ctrl: ControlRegister::from(0),
            vram_addr: VramRegister::from(0),
            tram_addr: VramRegister::from(0),
            nmi: false,
            fine_x: 0,
            ppu_first_write: true,
            ppu_data_buffer: 0,
            open_bus: 0,
            scanline: 0,
            cycle: 0,
            bg_next_tile_id: 0,
            bg_next_tile_attrib: 0,
            bg_next_tile_lsb: 0,
            bg_next_tile_msb: 0,
            bg_shifter_pattern_lo: 0,
            bg_shifter_pattern_hi: 0,
            bg_shifter_attrib_lo: 0,
            bg_shifter_attrib_hi: 0,
            sprites_to_render: [blank; 8],
            sprite_count: 0,
            sprite_shifter_pattern_lo: [0u8; 8],
            sprite_shifter_pattern_hi: [0u8; 8],
            sprite_x_counter: [0u8; 8],
            sprite_zero_selected: false,
            debug: false,
            clock_count: 0,
        }
    }

    /// Whether the background or the sprites are switched on.
    pub open spec fn rendering_enabled(&self) -> bool {
        self.mask.render_background.register != 0 || self.mask.render_sprites.register != 0
    }

    pub fn can_render(&self) -> (r: bool)
        ensures
            r == self.rendering_enabled(),
    {
        self.mask.render_background.get_as_bool() || self.mask.render_sprites.get_as_bool()
    }

    /// What of a palette byte shows: its low six bits, or only the grey
    /// column of the palette where the mask asks for greyscale.
    pub open spec fn grayscale_model(&self) -> u8 {
        if self.mask.grayscale.register != 0 {
            0x30
        } else {
            0x3F
        }
    }

    pub fn grayscale(&self) -> (r: u8)
        ensures
            r == self.grayscale_model(),
    {
        if self.mask.grayscale.get_as_bool() {
            0x30
        } else {
            0x3F
        }
    }

    /// Height of a sprite in lines.
    pub open spec fn sprite_size_model(&self) -> int {
        if self.ctrl.sprite_size.register != 0 {
            16
        } else {
            8
        }
    }

    pub fn get_sprite_size(&self) -> (r: usize)
        ensures
            r == self.sprite_size_model(),
    {
        if self.ctrl.sprite_size.get_as_bool() {
            return 16;
        }
        8
    }

    /// How far `v` moves after an access through $2007.
    pub open spec fn increment_model(&self) -> u16 {
        if self.ctrl.increment_mode.register != 0 {
            32
        } else {
            1
        }
    }
}

} // verus!
