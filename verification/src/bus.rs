//! The CPU's bus: work RAM, the PPU's registers, the controllers, the port
//! that starts a transfer to object memory, and the cartridge.

use crate::cartridge::Cartridge;
use crate::mapper::MapperTrait;
use crate::ppu::PPU;
use vstd::array::spec_array_update;
use vstd::prelude::*;

verus! {

/// Something the CPU can read a byte from.
pub trait BusReader: Sized {
    spec fn bus_ready(&self) -> bool;

    spec fn bus_read_model(self, addr: u16, read_only: bool) -> (Self, u8);

    fn bus_read(&mut self, addr: u16, read_only: bool) -> (r: u8)
        requires
            old(self).bus_ready(),
        ensures
            (*final(self), r) == old(self).bus_read_model(addr, read_only),
            final(self).bus_ready(),
    ;
}

/// Something the CPU can write a byte to.
pub trait BusWriter: Sized {
    spec fn bus_writable(&self) -> bool;

    spec fn bus_write_model(self, addr: u16, data: u8) -> Self;

    fn bus_write(&mut self, addr: u16, data: u8)
        requires
            old(self).bus_writable(),
        ensures
            *final(self) == old(self).bus_write_model(addr, data),
            final(self).bus_writable(),
    ;
}

pub struct Bus {
    pub clock_cycle: u32,
    pub ram: [u8; 2048],
    /// The page of CPU memory that a transfer to object memory copies.
    pub dma_page: u8,
    /// How many bytes of the page the transfer has copied.
    pub dma_addr: u8,
    /// The byte the transfer has read and not yet written.
    pub dma_data: u8,
    pub dma_transfer: bool,
    /// Whether the transfer is still waiting for its starting cycle.
    pub dma_dummy: bool,
    /// The buttons held on each controller: A, B, Select, Start, Up, Down,
    /// Left, Right from bit 7 down.
    pub controller: [u8; 2],
    /// Each controller's shift register.
    pub controller_state: [u8; 2],
    /// The byte last on the bus: what a read of an unmapped address sees.
    pub open_bus: u8,
    pub ppu: PPU,
}

/// Where `addr` lies in work RAM, which repeats every 2 KiB.
pub open spec fn ram_index(addr: u16) -> int {
    addr as int % 0x0800
}

/// The address that a transfer of page `page` reads its byte `index` from.
pub open spec fn dma_source(page: u8, index: u8) -> u16 {
    ((page as u16) << 8) | (index as u16)
}

pub proof fn lemma_ram_index(addr: u16)
    by (bit_vector)
    ensures
        addr & 0x07FF == addr % 0x0800,
        addr & 0x0001 == addr % 2,
{
}

impl Bus {
    pub open spec fn wf(&self) -> bool {
        self.ppu.wf()
    }

    /// Whether the bus is well formed.
    pub fn is_valid(&self) -> (r: bool)
        ensures
            r == self.wf(),
    {
        self.ppu.is_valid()
    }

    #[verifier::rlimit(50)]
    pub fn new(cart: Cartridge) -> (r: Self)
        ensures
            r.wf(),
            r.ppu.cart == cart,
            r.ppu.is_power_on(),
            forall|i: int| 0 <= i < 2048 ==> r.ram@[i] == 0,
            r.clock_cycle == 0,
            r.dma_page == 0,
            r.dma_addr == 0,
            r.dma_data == 0,
            !r.dma_transfer,
            r.dma_dummy,
            r.controller@ == seq![0u8, 0u8],
            r.controller_state@ == seq![0u8, 0u8],
            r.open_bus == 0,
    {
        let ppu: PPU = PPU::new(cart);
        let r = Bus {
            ram: [0u8; 2048],
            ppu,
            clock_cycle: 0,
            dma_page: 0,
            dma_addr: 0,
            dma_data: 0,
            dma_transfer: false,
            dma_dummy: true,
            controller: [0u8; 2],
            controller_state: [0u8; 2],
            open_bus: 0,
        };
        assert(r.controller@ =~= seq![0u8, 0u8]);
        assert(r.controller_state@ =~= seq![0u8, 0u8]);
        r
    }

    /// The bus after a read at `addr`, and the byte read.
    ///
    /// The cartridge answers first. Below $2000 lies work RAM, up to $3FFF
    /// the PPU's eight registers over and over, at $4016 and $4017 the
    /// controllers, which hand out their buttons one bit per read. Every
    /// other address is unmapped and shows the byte last on the bus. With
    /// `read_only` the read is a debugger's and changes nothing.
    #[verifier::opaque]
    pub open spec fn cpu_read_model(self, addr: u16, read_only: bool) -> (Bus, u8) {
        let (after, data) = match self.ppu.cart.cpu_read_model(addr) {
            Ok(data) => (self, data),
            Err(_) => if addr < 0x2000 {
                (self, self.ram@[ram_index(addr)])
            } else if addr < 0x4000 {
                let (ppu, data) = self.ppu.cpu_read_model(addr, read_only);
                (Bus { ppu, ..self }, data)
            } else if addr == 0x4016 || addr == 0x4017 {
                let port = addr as int % 2;
                let state = self.controller_state@[port];
                (
                    if read_only {
                        self
                    } else {
                        Bus {
                            controller_state: spec_array_update(
                                self.controller_state,
                                port,
                                state << 1,
                            ),
                            ..self
                        }
                    },
                    if state & 0x80 != 0 {
                        1u8
                    } else {
                        0u8
                    },
                )
            } else {
                (self, self.open_bus)
            },
        };
        if read_only {
            (after, data)
        } else {
            (Bus { open_bus: data, ..after }, data)
        }
    }

    #[verifier::rlimit(50)]
    pub fn cpu_read(&mut self, addr: u16, read_only: bool) -> (r: u8)
        requires
            old(self).wf(),
        ensures
            (*final(self), r) == old(self).cpu_read_model(addr, read_only),
            final(self).wf(),
    {
        proof {
            reveal(Bus::cpu_read_model);
        }
        proof {
            lemma_ram_index(addr);
        }
        let data: u8 = if let Ok(d) = self.ppu.cart.cpu_read(addr) {
            d
        } else if addr <= 0x1FFF {
            self.ram[(addr & 0x07FF) as usize]
        } else if addr <= 0x3FFF {
            self.ppu.cpu_read(addr, read_only)
        } else if addr == 0x4016 || addr == 0x4017 {
            let port: usize = (addr & 0x0001) as usize;
            let state: u8 = self.controller_state[port];
            if !read_only {
                self.controller_state[port] = state << 1;
            }
            if state & 0x80 != 0 {
                1
            } else {
                0
            }
        } else {
            self.open_bus
        };
        if !read_only {
            self.open_bus = data;
        }
        data
    }

    /// The bus after a write of `data` at `addr`.
    ///
    /// The cartridge is offered the write first. Below $2000 lies work
    /// RAM, up to $3FFF the PPU's registers. A write to $4014 starts a
    /// transfer of page `data` to object memory. A write to $4016 latches
    /// the buttons of both controllers. The audio registers take nothing.
    /// Every write leaves its byte on the bus.
    #[verifier::opaque]
    pub open spec fn cpu_write_model(self, addr: u16, data: u8) -> Bus {
        let latched = Bus { open_bus: data, ..self };
        if self.ppu.cart.mapper.cpu_write_offset(addr) is Ok {
            Bus {
                ppu: PPU { cart: self.ppu.cart.cpu_write_model(addr, data), ..self.ppu },
                ..latched
            }
        } else if addr < 0x2000 {
            Bus { ram: spec_array_update(self.ram, ram_index(addr), data), ..latched }
        } else if addr < 0x4000 {
            Bus { ppu: self.ppu.cpu_write_model(addr, data), ..latched }
        } else if addr == 0x4014 {
            Bus { dma_page: data, dma_addr: 0, dma_transfer: true, ..latched }
        } else if addr == 0x4016 {
            Bus { controller_state: self.controller, ..latched }
        } else {
            latched
        }
    }

    #[verifier::rlimit(50)]
    pub fn cpu_write(&mut self, addr: u16, data: u8)
        requires
            old(self).wf(),
        ensures
            *final(self) == old(self).cpu_write_model(addr, data),
            final(self).wf(),
    {
        proof {
            reveal(Bus::cpu_write_model);
        }
        proof {
            lemma_ram_index(addr);
        }
        self.open_bus = data;
        if let Ok(_) = self.ppu.cart.cpu_write(addr, data) {
            return ;
        }
        if addr <= 0x1FFF {
            self.ram[(addr & 0x07FF) as usize] = data;
        } else if addr <= 0x3FFF {
            self.ppu.cpu_write(addr, data);
        } else if addr == 0x4014 {
            self.dma_page = data;
            self.dma_addr = 0x00;
            self.dma_transfer = true;
        } else if addr == 0x4016 {
            self.controller_state = self.controller;
        }
    }

    /// The bus after one cycle of a transfer to object memory, on an odd
    /// or an even cycle.
    ///
    /// The transfer first waits for an odd cycle. Then it reads a byte of
    /// its page on every even cycle and writes it on the odd cycle after,
    /// to the byte of object memory that lies as far from OAMADDR as the
    /// byte lay from the start of the page. After 256 bytes it ends. Its
    /// reads leave the bus as they find it.
    pub open spec fn dma_model(self, odd: bool) -> Bus {
        if self.dma_dummy {
            if odd {
                Bus { dma_dummy: false, ..self }
            } else {
                self
            }
        } else if !odd {
            let (read, data) = self.cpu_read_model(dma_source(self.dma_page, self.dma_addr), true);
            Bus { dma_data: data, ..read }
        } else {
            let last = self.dma_addr == 0xFF;
            Bus {
                ppu: self.ppu.write_oam_model(
                    self.ppu.oam_addr.wrapping_add(self.dma_addr),
                    self.dma_data,
                ),
                dma_addr: self.dma_addr.wrapping_add(1),
                dma_transfer: if last {
                    false
                } else {
                    self.dma_transfer
                },
                dma_dummy: last,
                ..self
            }
        }
    }

    #[verifier::rlimit(50)]
    pub fn dma_clock(&mut self, odd: bool)
        requires
            old(self).wf(),
        ensures
            *final(self) == old(self).dma_model(odd),
            final(self).wf(),
    {
        if self.dma_dummy {
            if odd {
                self.dma_dummy = false;
            }
        } else if !odd {
            let addr: u16 = ((self.dma_page as u16) << 8) | (self.dma_addr as u16);
            self.dma_data = self.cpu_read(addr, true);
        } else {
            let target: u8 = self.ppu.oam_addr.wrapping_add(self.dma_addr);
            self.ppu.write_oam(target, self.dma_data);
            self.dma_addr = self.dma_addr.wrapping_add(1);
            if self.dma_addr == 0x00 {
                self.dma_transfer = false;
                self.dma_dummy = true;
            }
        }
    }
}

impl Bus {
    /// The bus after reads at each of `addrs` in turn.
    pub open spec fn after_reads(self, addrs: Seq<u16>) -> Bus
        decreases addrs.len(),
    {
        if addrs.len() == 0 {
            self
        } else {
            self.cpu_read_model(addrs[0], false).0.after_reads(addrs.drop_first())
        }
    }
}

/// A read changes neither work RAM nor the cartridge.
pub proof fn lemma_read_keeps_memory(bus: Bus, addr: u16, read_only: bool)
    ensures
        bus.cpu_read_model(addr, read_only).0.ram == bus.ram,
        bus.cpu_read_model(addr, read_only).0.ppu.cart == bus.ppu.cart,
{
    reveal(Bus::cpu_read_model);
    reveal(PPU::cpu_read_model);
}

/// Reads change neither work RAM nor the cartridge.
pub proof fn lemma_reads_keep_memory(bus: Bus, addrs: Seq<u16>)
    ensures
        bus.after_reads(addrs).ram == bus.ram,
        bus.after_reads(addrs).ppu.cart == bus.ppu.cart,
    decreases addrs.len(),
{
    if addrs.len() > 0 {
        lemma_read_keeps_memory(bus, addrs[0], false);
        lemma_reads_keep_memory(bus.cpu_read_model(addrs[0], false).0, addrs.drop_first());
    }
}

/// A byte written to work RAM is the byte read from it afterwards, at the
/// address written and at each of its mirrors below $2000, whatever was
/// read in between.
pub proof fn lemma_ram_round_trip(
    bus: Bus,
    written: u16,
    read: u16,
    data: u8,
    between: Seq<u16>,
    read_only: bool,
)
    requires
        written < 0x2000,
        read < 0x2000,
        ram_index(written) == ram_index(read),
    ensures
        bus.cpu_write_model(written, data).after_reads(between).cpu_read_model(read, read_only).1
            == data,
{
    reveal(Bus::cpu_read_model);
    reveal(Bus::cpu_write_model);
    lemma_reads_keep_memory(bus.cpu_write_model(written, data), between);
}

/// A write to $0000-$07FF followed by a read of the same address, with no
/// write in between, returns what was written.
pub proof fn lemma_ram_write_then_read(bus: Bus, addr: u16, data: u8, between: Seq<u16>)
    requires
        addr <= 0x07FF,
    ensures
        bus.cpu_write_model(addr, data).after_reads(between).cpu_read_model(addr, false).1 == data,
{
    lemma_ram_round_trip(bus, addr, addr, data, between, false);
}

} // verus!
