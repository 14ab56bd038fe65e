//! Reads: the PPU's own address space, and its registers as the CPU reads them.

use crate::cartridge::MIRROR;
use crate::ppu::helpers::{get_oam_field, oam_byte};
use crate::ppu::structures::{StatusRegister, VramRegister};
use crate::ppu::{lemma_ppu_address, nametable_index, palette_index, PPU};
use vstd::prelude::*;

verus! {

/// The word `v` after an access through $2007: moved on by the increment,
/// inside its fifteen bits.
pub open spec fn advanced_address(v: u16, increment: u16) -> u16 {
    v.wrapping_add(increment) & 0x7FFF
}

impl PPU {
    /// The byte at `addr` of the PPU's address space. The cartridge answers
    /// first; below $2000 the PPU's own pattern memory stands in for it, up
    /// to $3EFF lie the nametables, and above them the palette.
    pub open spec fn ppu_read_model(&self, addr: u16) -> u8 {
        let a = (addr % 0x4000) as u16;
        match self.cart.ppu_read_model(a) {
            Ok(data) => data,
            Err(_) => if a < 0x2000 {
                self.pattern_table@[a as int]
            } else if a < 0x3F00 {
                self.name_table@[nametable_index(self.cart.mirror, a)]
            } else {
                self.palette@[palette_index(a)] & self.grayscale_model()
            },
        }
    }

    #[verifier::rlimit(50)]
    pub fn ppu_read(&self, addr: u16) -> (r: u8)
        ensures
            r == self.ppu_read_model(addr),
    {
        proof {
            lemma_ppu_address(addr);
        }
        let mut local_addr: u16 = addr & 0x3FFF;
        proof {
            lemma_ppu_address(local_addr);
        }
        if let Ok(x) = self.cart.ppu_read(local_addr) {
            x
        } else if local_addr <= 0x1FFF {
            self.pattern_table[local_addr as usize]
        } else if local_addr <= 0x3EFF {
            local_addr = local_addr & 0x0FFF;
            let table: u16 = local_addr / 0x0400;
            let bank: usize = match self.cart.mirror {
                MIRROR::VERTICAL => (table % 2) as usize,
                MIRROR::HORIZONTAL => (table / 2) as usize,
                MIRROR::OnescreenLo => 0,
                MIRROR::OnescreenHi => 1,
            };
            self.name_table[bank * 1024 + (local_addr & 0x03FF) as usize]
        } else {
            local_addr = local_addr & 0x001F;
            if local_addr == 0x0010 || local_addr == 0x0014 || local_addr == 0x0018 || local_addr
                == 0x001C {
                local_addr = local_addr & !0x0010u16;
            }
            self.palette[local_addr as usize] & self.grayscale()
        }
    }

    /// The PPU after the CPU read register `addr % 8`, and the byte read.
    ///
    /// With `read_only` the read is a debugger's: it shows CTRL, MASK and
    /// STATUS as they are and changes nothing. Otherwise: STATUS ($2002)
    /// answers its three flags above the low five bits of the data buffer,
    /// then drops the vertical-blank flag and expects the first write of a
    /// pair again. OAMDATA ($2004) answers the byte of object memory at
    /// OAMADDR. PPUDATA ($2007) answers the data buffer and refills it from
    /// `v`, or answers the byte itself where `v` is in the palette, and moves
    /// `v` on. The write-only registers answer what was last on the bus.
    #[verifier::opaque]
    pub open spec fn cpu_read_model(self, addr: u16, read_only: bool) -> (PPU, u8) {
        let reg = addr % 8;
        if read_only {
            if reg == 0 {
                (self, self.ctrl@)
            } else if reg == 1 {
                (self, self.mask@)
            } else if reg == 2 {
                (self, self.status@)
            } else if reg == 4 {
                (self, oam_byte(self.oam, self.oam_addr))
            } else {
                (self, 0)
            }
        } else if reg == 2 {
            let answer = (self.status@ & 0xE0) | (self.ppu_data_buffer & 0x1F);
            (
                PPU {
                    status: StatusRegister::model(answer & 0x7F),
                    ppu_first_write: true,
                    open_bus: answer,
                    ..self
                },
                answer,
            )
        } else if reg == 4 {
            let answer = oam_byte(self.oam, self.oam_addr);
            (PPU { open_bus: answer, ..self }, answer)
        } else if reg == 7 {
            let fetched = self.ppu_read_model(self.vram_addr@);
            let answer = if self.vram_addr@ % 0x4000 >= 0x3F00 {
                fetched
            } else {
                self.ppu_data_buffer
            };
            (
                PPU {
                    ppu_data_buffer: fetched,
                    vram_addr: VramRegister::model(
                        advanced_address(self.vram_addr@, self.increment_model()),
                    ),
                    open_bus: answer,
                    ..self
                },
                answer,
            )
        } else {
            (self, self.open_bus)
        }
    }

    #[verifier::rlimit(50)]
    pub fn cpu_read(&mut self, addr: u16, read_only: bool) -> (r: u8)
        requires
            old(self).wf(),
        ensures
            (*final(self), r) == old(self).cpu_read_model(addr, read_only),
            final(self).wf(),
    {
        proof {
            reveal(PPU::cpu_read_model);
        }
        proof {
            lemma_ppu_address(addr);
        }
        let reg: u16 = addr & 0x0007;
        if read_only {
            if reg == 0 {
                self.ctrl.get_register()
            } else if reg == 1 {
                self.mask.get_register()
            } else if reg == 2 {
                self.status.get_register()
            } else if reg == 4 {
                get_oam_field(&self.oam, self.oam_addr)
            } else {
                0
            }
        } else if reg == 2 {
            let answer: u8 = (self.status.get_register() & 0xE0) | (self.ppu_data_buffer & 0x1F);
            self.status.set_register(answer & 0x7F);
            self.ppu_first_write = true;
            self.open_bus = answer;
            answer
        } else if reg == 4 {
            let answer: u8 = get_oam_field(&self.oam, self.oam_addr);
            self.open_bus = answer;
            answer
        } else if reg == 7 {
            let v: u16 = self.vram_addr.get_register();
            let mut data: u8 = self.ppu_data_buffer;
            self.ppu_data_buffer = self.ppu_read(v);
            proof {
                lemma_ppu_address(v);
            }
            if v & 0x3FFF >= 0x3F00 {
                data = self.ppu_data_buffer;
            }
            let increment: u16 = if self.ctrl.increment_mode.get_as_bool() {
                32
            } else {
                1
            };
            self.vram_addr.set_register(v.wrapping_add(increment) & 0x7FFF);
            self.open_bus = data;
            data
        } else {
            self.open_bus
        }
    }
}

} // verus!
