//! Writes: the PPU's own address space, and its registers as the CPU writes them.

use crate::cartridge::MIRROR;
use crate::mapper::MapperTrait;
use crate::ppu::helpers::{oam_with_byte, set_oam_field};
use crate::ppu::read::advanced_address;
use crate::ppu::structures::{ControlRegister, MaskRegister, VramRegister};
use crate::ppu::{lemma_ppu_address, nametable_index, palette_index, PPU};
use vstd::array::spec_array_update;
use vstd::prelude::*;

verus! {

/// `t` after a write of `data` to PPUCTRL: the nametable pair is the low two
/// bits of the data.
pub open spec fn t_after_ctrl(t: u16, data: u8) -> u16 {
    (t & !0x0C00u16) | (((data & 0x03) as u16) << 10)
}

/// `t` after the first write of a pair to PPUSCROLL: coarse X is the data
/// above its low three bits.
pub open spec fn t_after_scroll_x(t: u16, data: u8) -> u16 {
    (t & !0x001Fu16) | ((data >> 3) as u16)
}

/// `t` after the second write of a pair to PPUSCROLL: fine Y is the low
/// three bits of the data, coarse Y the rest.
pub open spec fn t_after_scroll_y(t: u16, data: u8) -> u16 {
    (t & !0x73E0u16) | (((data & 0x07) as u16) << 12) | (((data >> 3) as u16) << 5)
}

/// `t` after the first write of a pair to PPUADDR: the high byte is the low
/// six bits of the data.
pub open spec fn t_after_addr_high(t: u16, data: u8) -> u16 {
    (t & 0x00FF) | (((data & 0x3F) as u16) << 8)
}

/// `t` after the second write of a pair to PPUADDR: the low byte is the data.
pub open spec fn t_after_addr_low(t: u16, data: u8) -> u16 {
    (t & 0xFF00) | (data as u16)
}

impl PPU {
    /// The PPU with byte `addr` of object memory replaced.
    pub open spec fn write_oam_model(self, addr: u8, data: u8) -> PPU {
        PPU { oam: oam_with_byte(self.oam, addr, data), ..self }
    }

    pub fn write_oam(&mut self, addr: u8, data: u8)
        ensures
            *final(self) == old(self).write_oam_model(addr, data),
            old(self).wf() ==> final(self).wf(),
    {
        set_oam_field(&mut self.oam, addr, data);
    }

    /// The PPU after a write of `data` at `addr` of its address space. The
    /// cartridge is offered the write first; below $2000 the PPU's own
    /// pattern memory takes what the cartridge declines.
    pub open spec fn ppu_write_model(self, addr: u16, data: u8) -> PPU {
        let a = (addr % 0x4000) as u16;
        if self.cart.mapper.ppu_write_offset(a) is Ok {
            PPU { cart: self.cart.ppu_write_model(a, data), ..self }
        } else if a < 0x2000 {
            PPU {
                pattern_table: Box::new(spec_array_update(*self.pattern_table, a as int, data)),
                ..self
            }
        } else if a < 0x3F00 {
            PPU {
                name_table: spec_array_update(
                    self.name_table,
                    nametable_index(self.cart.mirror, a),
                    data,
                ),
                ..self
            }
        } else {
            PPU { palette: spec_array_update(self.palette, palette_index(a), data), ..self }
        }
    }

    #[verifier::rlimit(50)]
    pub fn ppu_write(&mut self, addr: u16, data: u8)
        ensures
            *final(self) == old(self).ppu_write_model(addr, data),
            old(self).wf() ==> final(self).wf(),
    {
        proof {
            lemma_ppu_address(addr);
        }
        let mut local_addr: u16 = addr & 0x3FFF;
        proof {
            lemma_ppu_address(local_addr);
        }
        if let Ok(_) = self.cart.ppu_write(local_addr, data) {
        } else if local_addr <= 0x1FFF {
            self.pattern_table[local_addr as usize] = data;
        } else if local_addr <= 0x3EFF {
            local_addr = local_addr & 0x0FFF;
            let table: u16 = local_addr / 0x0400;
            let bank: usize = match self.cart.mirror {
                MIRROR::VERTICAL => (table % 2) as usize,
                MIRROR::HORIZONTAL => (table / 2) as usize,
                MIRROR::OnescreenLo => 0,
                MIRROR::OnescreenHi => 1,
            };
            self.name_table[bank * 1024 + (local_addr & 0x03FF) as usize] = data;
        } else {
            local_addr = local_addr & 0x001F;
            if local_addr == 0x0010 || local_addr == 0x0014 || local_addr == 0x0018 || local_addr
                == 0x001C {
                local_addr = local_addr & !0x0010u16;
            }
            self.palette[local_addr as usize] = data;
        }
    }

    /// The PPU after a write of `data` to PPUCTRL: the register takes the
    /// byte and hands its nametable pair to `t`.
    pub open spec fn ctrl_write_model(self, data: u8) -> PPU {
        PPU {
            ctrl: ControlRegister::model(data),
            tram_addr: VramRegister::model(t_after_ctrl(self.tram_addr@, data)),
            ..self
        }
    }

    /// The PPU after a write of `data` to OAMDATA: the byte lies at
    /// OAMADDR, and OAMADDR has moved on by one.
    pub open spec fn oam_data_write_model(self, data: u8) -> PPU {
        PPU {
            oam: oam_with_byte(self.oam, self.oam_addr, data),
            oam_addr: ((self.oam_addr + 1) % 256) as u8,
            ..self
        }
    }

    /// The PPU after a write of `data` to PPUSCROLL: the first write of a
    /// pair sets fine X and coarse X, the second fine Y and coarse Y.
    pub open spec fn scroll_write_model(self, data: u8) -> PPU {
        if self.ppu_first_write {
            PPU {
                fine_x: data & 0x07,
                tram_addr: VramRegister::model(t_after_scroll_x(self.tram_addr@, data)),
                ppu_first_write: false,
                ..self
            }
        } else {
            PPU {
                tram_addr: VramRegister::model(t_after_scroll_y(self.tram_addr@, data)),
                ppu_first_write: true,
                ..self
            }
        }
    }

    /// The PPU after a write of `data` to PPUADDR: the first write of a
    /// pair sets the high byte of `t`, the second the low byte, and the
    /// second copies `t` to `v`.
    pub open spec fn address_write_model(self, data: u8) -> PPU {
        if self.ppu_first_write {
            PPU {
                tram_addr: VramRegister::model(t_after_addr_high(self.tram_addr@, data)),
                ppu_first_write: false,
                ..self
            }
        } else {
            PPU {
                tram_addr: VramRegister::model(t_after_addr_low(self.tram_addr@, data)),
                vram_addr: VramRegister::model(t_after_addr_low(self.tram_addr@, data)),
                ppu_first_write: true,
                ..self
            }
        }
    }

    /// The PPU after a write of `data` to PPUDATA: the byte lies at `v`,
    /// and `v` has moved on.
    pub open spec fn data_write_model(self, data: u8) -> PPU {
        PPU {
            vram_addr: VramRegister::model(
                advanced_address(self.vram_addr@, self.increment_model()),
            ),
            ..self.ppu_write_model(self.vram_addr@, data)
        }
    }

    /// The PPU after the CPU wrote `data` to register `addr % 8`.
    ///
    /// PPUCTRL ($2000) and PPUMASK ($2001) take the byte, PPUCTRL handing
    /// its nametable pair to `t`. PPUSTATUS ($2002) takes nothing. OAMADDR
    /// ($2003) takes the byte; OAMDATA ($2004) stores it at OAMADDR and
    /// moves OAMADDR on by one. PPUSCROLL ($2005) and PPUADDR ($2006) take
    /// two writes each, told apart by the write toggle, and the second
    /// write to PPUADDR copies `t` to `v`. PPUDATA ($2007) stores the byte
    /// at `v` and moves `v` on. Every write leaves the byte on the bus.
    #[verifier::opaque]
    pub open spec fn cpu_write_model(self, addr: u16, data: u8) -> PPU {
        let reg = addr % 8;
        let latched = PPU { open_bus: data, ..self };
        if reg == 0 {
            latched.ctrl_write_model(data)
        } else if reg == 1 {
            PPU { mask: MaskRegister::model(data), ..latched }
        } else if reg == 2 {
            latched
        } else if reg == 3 {
            PPU { oam_addr: data, ..latched }
        } else if reg == 4 {
            latched.oam_data_write_model(data)
        } else if reg == 5 {
            latched.scroll_write_model(data)
        } else if reg == 6 {
            latched.address_write_model(data)
        } else {
            latched.data_write_model(data)
        }
    }

    fn write_ctrl(&mut self, data: u8)
        requires
            old(self).wf(),
        ensures
            *final(self) == old(self).ctrl_write_model(data),
            final(self).wf(),
    {
        self.ctrl.set_register(data);
        let t: u16 = self.tram_addr.get_register();
        self.tram_addr.set_register((t & !0x0C00u16) | (((data & 0x03) as u16) << 10));
    }

    fn write_oam_data(&mut self, data: u8)
        requires
            old(self).wf(),
        ensures
            *final(self) == old(self).oam_data_write_model(data),
            final(self).wf(),
    {
        set_oam_field(&mut self.oam, self.oam_addr, data);
        self.oam_addr = self.oam_addr.wrapping_add(1);
    }

    fn write_scroll(&mut self, data: u8)
        requires
            old(self).wf(),
        ensures
            *final(self) == old(self).scroll_write_model(data),
            final(self).wf(),
    {
        proof {
            lemma_fine_x(data);
        }
        let t: u16 = self.tram_addr.get_register();
        if self.ppu_first_write {
            self.fine_x = data & 0x07;
            self.tram_addr.set_register((t & !0x001Fu16) | ((data >> 3) as u16));
            self.ppu_first_write = false;
        } else {
            self.tram_addr.set_register(
                (t & !0x73E0u16) | (((data & 0x07) as u16) << 12) | (((data >> 3) as u16) << 5),
            );
            self.ppu_first_write = true;
        }
    }

    fn write_address(&mut self, data: u8)
        requires
            old(self).wf(),
        ensures
            *final(self) == old(self).address_write_model(data),
            final(self).wf(),
    {
        let t: u16 = self.tram_addr.get_register();
        if self.ppu_first_write {
            self.tram_addr.set_register((t & 0x00FF) | (((data & 0x3F) as u16) << 8));
            self.ppu_first_write = false;
        } else {
            self.tram_addr.set_register((t & 0xFF00) | (data as u16));
            self.vram_addr.set_register(self.tram_addr.get_register());
            self.ppu_first_write = true;
        }
    }

    fn write_data(&mut self, data: u8)
        requires
            old(self).wf(),
        ensures
            *final(self) == old(self).data_write_model(data),
            final(self).wf(),
    {
        let v: u16 = self.vram_addr.get_register();
        self.ppu_write(v, data);
        let increment: u16 = if self.ctrl.increment_mode.get_as_bool() {
            32
        } else {
            1
        };
        self.vram_addr.set_register(v.wrapping_add(increment) & 0x7FFF);
    }

    #[verifier::rlimit(50)]
    pub fn cpu_write(&mut self, addr: u16, data: u8)
        requires
            old(self).wf(),
        ensures
            *final(self) == old(self).cpu_write_model(addr, data),
            final(self).wf(),
    {
        proof {
            reveal(PPU::cpu_write_model);
            lemma_ppu_address(addr);
        }
        let local_addr: u16 = addr & 0x0007;
        self.open_bus = data;
        if local_addr == 0 {
            self.write_ctrl(data);
        } else if local_addr == 1 {
            self.mask.set_register(data);
        } else if local_addr == 2 {
        } else if local_addr == 3 {
            self.oam_addr = data;
        } else if local_addr == 4 {
            self.write_oam_data(data);
        } else if local_addr == 5 {
            self.write_scroll(data);
        } else if local_addr == 6 {
            self.write_address(data);
        } else {
            self.write_data(data);
        }
    }
}

proof fn lemma_fine_x(data: u8)
    by (bit_vector)
    ensures
        data & 0x07 <= 7,
{
}

} // verus!
