//! Cartridge address mapping.
//!
//! A mapper turns an address on the CPU or PPU bus into an offset into the
//! cartridge's program or character memory, or declines the address.

use vstd::prelude::*;

verus! {

/// The four mappings every mapper offers. Each answers with the offset
/// into cartridge memory, or `Err(())` where the cartridge does not drive the
/// bus at that address.
pub trait MapperTrait {
    spec fn cpu_read_offset(&self, addr: u16) -> Result<u32, ()>;

    spec fn ppu_read_offset(&self, addr: u16) -> Result<u32, ()>;

    spec fn cpu_write_offset(&self, addr: u16) -> Result<u32, ()>;

    spec fn ppu_write_offset(&self, addr: u16) -> Result<u32, ()>;

    fn cpu_map_read(&self, addr: u16) -> (r: Result<u32, ()>)
        ensures
            r == self.cpu_read_offset(addr),
    ;

    fn ppu_map_read(&self, addr: u16) -> (r: Result<u32, ()>)
        ensures
            r == self.ppu_read_offset(addr),
    ;

    fn cpu_map_write(&self, addr: u16) -> (r: Result<u32, ()>)
        ensures
            r == self.cpu_write_offset(addr),
    ;

    fn ppu_map_write(&self, addr: u16) -> (r: Result<u32, ()>)
        ensures
            r == self.ppu_write_offset(addr),
    ;
}

/// NROM: 16 or 32 KiB of program memory at $8000-$FFFF, 8 KiB of character
/// memory at $0000-$1FFF, no bank switching.
#[derive(Clone, Copy, Debug, PartialEq, Eq, Structural)]
pub struct Mapper000 {
    pub prg_banks: u8,
    pub chr_banks: u8,
}

/// Bytes of program memory that NROM shows in its 32 KiB window before the
/// contents repeat.
pub open spec fn nrom_prg_window(prg_banks: u8) -> int {
    if prg_banks > 1 {
        0x8000
    } else {
        0x4000
    }
}

/// Where NROM finds a CPU address: addresses from $8000 on count up from the
/// start of program memory and repeat with the window.
pub open spec fn nrom_cpu_offset(prg_banks: u8, addr: u16) -> Result<u32, ()> {
    if addr >= 0x8000 {
        Ok(((addr - 0x8000) % nrom_prg_window(prg_banks)) as u32)
    } else {
        Err(())
    }
}

proof fn lemma_nrom_masks(addr: u16)
    by (bit_vector)
    requires
        addr >= 0x8000,
    ensures
        addr & 0x7FFF == (addr - 0x8000) % 0x8000,
        addr & 0x3FFF == (addr - 0x8000) % 0x4000,
{
}

impl Mapper000 {
    pub fn new(prg_banks: u8, chr_banks: u8) -> (r: Self)
        ensures
            r.prg_banks == prg_banks,
            r.chr_banks == chr_banks,
    {
        Self { prg_banks, chr_banks }
    }
}

impl MapperTrait for Mapper000 {
    open spec fn cpu_read_offset(&self, addr: u16) -> Result<u32, ()> {
        nrom_cpu_offset(self.prg_banks, addr)
    }

    open spec fn ppu_read_offset(&self, addr: u16) -> Result<u32, ()> {
        if addr <= 0x1FFF {
            Ok(addr as u32)
        } else {
            Err(())
        }
    }

    open spec fn cpu_write_offset(&self, addr: u16) -> Result<u32, ()> {
        nrom_cpu_offset(self.prg_banks, addr)
    }

    open spec fn ppu_write_offset(&self, addr: u16) -> Result<u32, ()> {
        Err(())
    }

    fn cpu_map_read(&self, addr: u16) -> (r: Result<u32, ()>) {
        if addr >= 0x8000 {
            proof {
                lemma_nrom_masks(addr);
            }
            let mask: u16 = if self.prg_banks > 1 {
                0x7FFF
            } else {
                0x3FFF
            };
            return Ok((addr & mask) as u32);
        }
        Err(())
    }

    fn ppu_map_read(&self, addr: u16) -> (r: Result<u32, ()>) {
        if addr <= 0x1FFF {
            return Ok(addr as u32);
        }
        Err(())
    }

    fn cpu_map_write(&self, addr: u16) -> (r: Result<u32, ()>) {
        if addr >= 0x8000 {
            proof {
                lemma_nrom_masks(addr);
            }
            let mask: u16 = if self.prg_banks > 1 {
                0x7FFF
            } else {
                0x3FFF
            };
            return Ok((addr & mask) as u32);
        }
        Err(())
    }

    fn ppu_map_write(&self, addr: u16) -> (r: Result<u32, ()>) {
        Err(())
    }
}

/// The mappers a cartridge can carry.
#[derive(Clone, Copy, Debug, PartialEq, Eq, Structural)]
pub enum Mapper {
    Nrom(Mapper000),
}

impl MapperTrait for Mapper {
    open spec fn cpu_read_offset(&self, addr: u16) -> Result<u32, ()> {
        match self {
            Mapper::Nrom(m) => m.cpu_read_offset(addr),
        }
    }

    open spec fn ppu_read_offset(&self, addr: u16) -> Result<u32, ()> {
        match self {
            Mapper::Nrom(m) => m.ppu_read_offset(addr),
        }
    }

    open spec fn cpu_write_offset(&self, addr: u16) -> Result<u32, ()> {
        match self {
            Mapper::Nrom(m) => m.cpu_write_offset(addr),
        }
    }

    open spec fn ppu_write_offset(&self, addr: u16) -> Result<u32, ()> {
        match self {
            Mapper::Nrom(m) => m.ppu_write_offset(addr),
        }
    }

    fn cpu_map_read(&self, addr: u16) -> (r: Result<u32, ()>) {
        match self {
            Mapper::Nrom(m) => m.cpu_map_read(addr),
        }
    }

    fn ppu_map_read(&self, addr: u16) -> (r: Result<u32, ()>) {
        match self {
            Mapper::Nrom(m) => m.ppu_map_read(addr),
        }
    }

    fn cpu_map_write(&self, addr: u16) -> (r: Result<u32, ()>) {
        match self {
            Mapper::Nrom(m) => m.cpu_map_write(addr),
        }
    }

    fn ppu_map_write(&self, addr: u16) -> (r: Result<u32, ()>) {
        match self {
            Mapper::Nrom(m) => m.ppu_map_write(addr),
        }
    }
}

} // verus!
