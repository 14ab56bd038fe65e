//! Reset and the dot clock.

use crate::ppu::structures::{ControlRegister, MaskRegister, StatusRegister, VramRegister};
use crate::ppu::{generate_dummy_screen, PPU};
use vstd::array::spec_array_fill_for_copy_type;
use vstd::prelude::*;

verus! {

impl PPU {
    /// The PPU after reset: registers, latches, shifters and the dot clock
    /// are as after power-on and the frame is black; the cartridge, the
    /// nametables, the palette and object memory keep what they hold.
    pub open spec fn reset_model(self) -> PPU {
        PPU {
            screen: Box::new(spec_array_fill_for_copy_type::<u8, 184320>(0u8)),
            frame_complete: false,
            frame_complete_count: 0,
            status: StatusRegister::model(0),
            mask: MaskRegister::model(0),
            ctrl: ControlRegister::model(0),
            vram_addr: VramRegister::model(0),
            tram_addr: VramRegister::model(0),
            nmi: false,
            fine_x: 0,
            ppu_first_write: true,
            ppu_data_buffer: 0,
            open_bus: 0,
            scanline: 0,
            cycle: 0,
            bg_next_tile_id: 0,
            bg_next_tile_attrib: 0,
            bg_next_tile_lsb: 0,
            bg_next_tile_msb: 0,
            bg_shifter_pattern_lo: 0,
            bg_shifter_pattern_hi: 0,
            bg_shifter_attrib_lo: 0,
            bg_shifter_attrib_hi: 0,
            sprite_count: 0,
            sprite_zero_selected: false,
            clock_count: 0,
            ..self
        }
    }

    #[verifier::rlimit(50)]
    pub fn reset(&mut self)
        requires
            old(self).wf(),
        ensures
            *final(self) == old(self).reset_model(),
            final(self).wf(),
    {
        self.fine_x = 0x00;
        self.ppu_first_write = true;
        self.ppu_data_buffer = 0x00;
        self.open_bus = 0x00;
        self.scanline = 0;
        self.cycle = 0;
        self.bg_next_tile_id = 0x00;
        self.bg_next_tile_attrib = 0x00;
        self.bg_next_tile_lsb = 0x00;
        self.bg_next_tile_msb = 0x00;
        self.bg_shifter_pattern_lo = 0x0000;
        self.bg_shifter_pattern_hi = 0x0000;
        self.bg_shifter_attrib_lo = 0x0000;
        self.bg_shifter_attrib_hi = 0x0000;
        self.status.set_register(0x00);
        self.mask.set_register(0x00);
        self.ctrl.set_register(0x00);
        self.vram_addr.set_register(0x0000);
        self.tram_addr.set_register(0x0000);
        self.sprite_count = 0;
        self.sprite_zero_selected = false;
        self.nmi = false;
        self.clock_count = 0;
        self.frame_complete = false;
        self.frame_complete_count = 0;
        self.screen = Box::new(generate_dummy_screen());
    }

    /// What dot 1 of two lines does to the flags: on line 241 vertical
    /// blank begins, and the interrupt line rises if PPUCTRL asks for it;
    /// on the pre-render line vertical blank, sprite-zero hit and sprite
    /// overflow drop, and secondary object memory empties.
    pub open spec fn flags_model(self) -> PPU {
        if self.scanline == 241 && self.cycle == 1 {
            PPU {
                status: StatusRegister::model(self.status@ | 0x80),
                nmi: self.nmi || self.ctrl.enable_nmi.register != 0,
                ..self
            }
        } else if self.scanline == 261 && self.cycle == 1 {
            PPU {
                status: StatusRegister::model(self.status@ & 0x1F),
                sprite_count: 0,
                sprite_zero_selected: false,
                ..self
            }
        } else {
            self
        }
    }

    pub fn update_flags(&mut self)
        requires
            old(self).wf(),
        ensures
            *final(self) == old(self).flags_model(),
            final(self).wf(),
    {
        if self.scanline == 241 && self.cycle == 1 {
            let status: u8 = self.status.get_register();
            self.status.set_register(status | 0x80);
            if self.ctrl.enable_nmi.get_as_bool() {
                self.nmi = true;
            }
        } else if self.scanline == 261 && self.cycle == 1 {
            let status: u8 = self.status.get_register();
            self.status.set_register(status & 0x1F);
            self.sprite_count = 0;
            self.sprite_zero_selected = false;
        }
    }

    /// The PPU after the first part of a dot: the flags of the dot have
    /// changed, and on dots 1 to 256 of a visible line the dot is drawn
    /// and the sprites have moved on.
    #[verifier::opaque]
    pub open spec fn drawn_stage(self) -> PPU {
        let flagged = self.flags_model();
        if self.on_visible_line() && 1 <= self.cycle <= 256 {
            flagged.draw_model().update_sprite_shifters_model()
        } else {
            flagged
        }
    }

    /// The PPU after the second part of a dot: on a visible or the
    /// pre-render line the background pipeline has run.
    #[verifier::opaque]
    pub open spec fn piped_stage(self) -> PPU {
        let drawn = self.drawn_stage();
        if self.on_visible_line() || self.on_pre_render_line() {
            drawn.process_visible_cycle_model()
        } else {
            drawn
        }
    }

    /// The PPU after the third part of a dot: on dot 257 of a visible line
    /// the sprites of the line are chosen, and on dot 340 their patterns
    /// are fetched.
    #[verifier::opaque]
    pub open spec fn chosen_stage(self) -> PPU {
        let piped = self.piped_stage();
        if self.on_visible_line() && self.cycle == 257 {
            piped.load_sprites_to_render_model()
        } else if self.on_visible_line() && self.cycle == 340 {
            piped.fetch_sprites_model()
        } else {
            piped
        }
    }

    /// The PPU one dot on: after the three parts of the dot, the dot
    /// clock moves on.
    #[verifier::opaque]
    pub open spec fn clock_model(self) -> PPU {
        self.chosen_stage().advance_model()
    }

    #[verifier::rlimit(50)]
    pub fn clock(&mut self)
        requires
            old(self).wf(),
        ensures
            *final(self) == old(self).clock_model(),
            final(self).wf(),
    {
        proof {
            reveal(PPU::clock_model);
            reveal(PPU::drawn_stage);
            reveal(PPU::piped_stage);
            reveal(PPU::chosen_stage);
        }
        let scanline: usize = self.scanline;
        let cycle: usize = self.cycle;
        let visible: bool = scanline <= 239;
        self.update_flags();
        if visible && 1 <= cycle && cycle <= 256 {
            self.draw();
            self.update_sprite_shifters();
        }
        if visible || scanline == 261 {
            self.process_visible_cycle();
        }
        if visible && cycle == 257 {
            self.load_sprites_to_render();
        } else if visible && cycle == 340 {
            self.fetch_sprites();
        }
        self.advance();
    }

    /// One dot: [`Self::clock`] under its other name.
    pub fn tick(&mut self)
        requires
            old(self).wf(),
        ensures
            *final(self) == old(self).clock_model(),
            final(self).wf(),
    {
        self.clock();
    }

    /// Whether the interrupt line to the CPU is raised.
    pub fn nmi_line(&self) -> (r: bool)
        ensures
            r == self.nmi,
    {
        self.nmi
    }

    /// The frame as 256 x 240 pixels of red, green, blue, row by row.
    pub fn frame(&self) -> (r: &[u8; 184320])
        ensures
            *r == *self.screen,
    {
        &*self.screen
    }
}

} // verus!
