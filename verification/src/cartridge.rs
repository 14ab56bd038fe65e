//! The cartridge: program and character memory behind a mapper, and the
//! iNES image it is loaded from.

use crate::mapper::{Mapper, Mapper000, MapperTrait};
use vstd::array::spec_array_update;
use vstd::prelude::*;

verus! {

/// How the four logical nametables fold onto the PPU's two banks.
#[allow(non_camel_case_types)]
#[derive(Debug, Clone, Copy, PartialEq, Eq, Structural)]
pub enum MIRROR {
    HORIZONTAL,
    VERTICAL,
    OnescreenLo,
    OnescreenHi,
}

/// The images the emulator knows by name.
#[derive(Debug, Clone, Copy, PartialEq, Eq, Structural)]
pub enum Rom {
    NesTest,
    CpuDummyReads,
    CpuDummyWritesPpuMem,
    PpuColorTest,
    Mario,
    DonkeyKong,
}

/// Why an image was turned down.
#[derive(Debug, Clone, Copy, PartialEq, Eq, Structural)]
pub enum CartridgeError {
    /// The image ends before its header, or before the memory its header announces.
    Truncated,
    /// The image does not start with `N`, `E`, `S`, `0x1A`.
    BadMagic,
    /// The header names a mapper other than NROM.
    UnsupportedMapper(u8),
    /// The header asks for four-screen mirroring, for which the PPU has no memory.
    FourScreen,
    /// The header announces no program memory.
    NoPrgRom,
}

/// Bytes of program memory the CPU can address, and so the bytes kept.
pub const PRG_WINDOW: usize = 32768;

/// Bytes of character memory the PPU can address, and so the bytes kept.
pub const CHR_WINDOW: usize = 8192;

pub const HEADER_BYTES: usize = 16;

pub const TRAINER_BYTES: usize = 512;

pub const PRG_BANK_BYTES: usize = 16384;

pub const CHR_BANK_BYTES: usize = 8192;

pub struct Cartridge {
    pub mapper: Mapper,
    pub prg_memory: Box<[u8; 32768]>,
    pub chr_memory: Box<[u8; 8192]>,
    pub mapper_id: u8,
    pub prg_banks: u8,
    pub chr_banks: u8,
    pub mirror: MIRROR,
}

/// The mapper number an iNES header names: its high nibble in the eighth
/// byte, its low nibble in the top of the seventh.
pub open spec fn image_mapper_id(image: Seq<u8>) -> u8 {
    (image[7] & 0xF0) | (image[6] >> 4)
}

pub open spec fn image_has_trainer(image: Seq<u8>) -> bool {
    image[6] & 0x04 != 0
}

pub open spec fn image_prg_start(image: Seq<u8>) -> int {
    if image_has_trainer(image) {
        528
    } else {
        16
    }
}

pub open spec fn image_prg_len(image: Seq<u8>) -> int {
    image[4] * 16384
}

pub open spec fn image_chr_start(image: Seq<u8>) -> int {
    image_prg_start(image) + image_prg_len(image)
}

pub open spec fn image_chr_len(image: Seq<u8>) -> int {
    image[5] * 8192
}

pub open spec fn image_mirror(image: Seq<u8>) -> MIRROR {
    if image[6] & 0x01 != 0 {
        MIRROR::VERTICAL
    } else {
        MIRROR::HORIZONTAL
    }
}

/// The first reason to turn an image down, if there is one. The checks run
/// in the order of the header's fields, and the length of the body last.
pub open spec fn image_error(image: Seq<u8>) -> Option<CartridgeError> {
    if image.len() < 16 {
        Some(CartridgeError::Truncated)
    } else if image[0] != 0x4E || image[1] != 0x45 || image[2] != 0x53 || image[3] != 0x1A {
        Some(CartridgeError::BadMagic)
    } else if image_mapper_id(image) != 0 {
        Some(CartridgeError::UnsupportedMapper(image_mapper_id(image)))
    } else if image[6] & 0x08 != 0 {
        Some(CartridgeError::FourScreen)
    } else if image[4] == 0 {
        Some(CartridgeError::NoPrgRom)
    } else if image.len() < image_chr_start(image) + image_chr_len(image) {
        Some(CartridgeError::Truncated)
    } else {
        None
    }
}

/// Byte `i` of the program memory an image loads: the image's own byte
/// where it has one, zero past its end.
pub open spec fn image_prg_byte(image: Seq<u8>, i: int) -> u8 {
    if i < image_prg_len(image) {
        image[image_prg_start(image) + i]
    } else {
        0
    }
}

/// Byte `i` of the character memory an image loads. An image without
/// character banks gets 8 KiB of zeroed character RAM.
pub open spec fn image_chr_byte(image: Seq<u8>, i: int) -> u8 {
    if i < image_chr_len(image) {
        image[image_chr_start(image) + i]
    } else {
        0
    }
}

/// The cartridge that a well-formed image describes.
pub open spec fn loads(image: Seq<u8>, cart: Cartridge) -> bool {
    &&& cart.mapper == Mapper::Nrom(Mapper000 { prg_banks: image[4], chr_banks: image[5] })
    &&& cart.mapper_id == 0
    &&& cart.prg_banks == image[4]
    &&& cart.chr_banks == image[5]
    &&& cart.mirror == image_mirror(image)
    &&& forall|i: int| 0 <= i < 32768 ==> cart.prg_memory@[i] == image_prg_byte(image, i)
    &&& forall|i: int| 0 <= i < 8192 ==> cart.chr_memory@[i] == image_chr_byte(image, i)
}

impl Rom {
    /// Where the image of a known cartridge is kept.
    pub fn path(&self) -> (r: &'static str)
        ensures
            r@ == self.path_model(),
    {
        match self {
            Rom::NesTest => "test-roms/cpu/nestest.nes",
            Rom::CpuDummyReads => "test-roms/cpu/cpu_dummy_reads.nes",
            Rom::CpuDummyWritesPpuMem => "test-roms/cpu/cpu_dummy_writes_ppumem.nes",
            Rom::PpuColorTest => "test-roms/ppu/color_test.nes",
            Rom::Mario => "test-roms/carts/super_mario.nes",
            Rom::DonkeyKong => "test-roms/carts/Donkey Kong (World) (Rev A).nes",
        }
    }

    pub open spec fn path_model(&self) -> Seq<char> {
        match self {
            Rom::NesTest => "test-roms/cpu/nestest.nes"@,
            Rom::CpuDummyReads => "test-roms/cpu/cpu_dummy_reads.nes"@,
            Rom::CpuDummyWritesPpuMem => "test-roms/cpu/cpu_dummy_writes_ppumem.nes"@,
            Rom::PpuColorTest => "test-roms/ppu/color_test.nes"@,
            Rom::Mario => "test-roms/carts/super_mario.nes"@,
            Rom::DonkeyKong => "test-roms/carts/Donkey Kong (World) (Rev A).nes"@,
        }
    }

    /// The address at which the CPU starts this image, where that is not the
    /// reset vector: the CPU test image runs unattended from $C000.
    pub fn start_pc(&self) -> (r: Option<u16>)
        ensures
            r == self.start_pc_model(),
    {
        match self {
            Rom::NesTest => Some(0xC000),
            _ => None,
        }
    }

    pub open spec fn start_pc_model(&self) -> Option<u16> {
        match self {
            Rom::NesTest => Some(0xC000u16),
            _ => None,
        }
    }
}

impl Cartridge {
    /// Reads an iNES image. Succeeds exactly on the images that
    /// [`image_error`] lets pass, and then holds what [`loads`] says.
    #[verifier::rlimit(50)]
    pub fn new(image: &[u8]) -> (r: Result<Cartridge, CartridgeError>)
        ensures
            match r {
                Ok(cart) => image_error(image@) is None && loads(image@, cart),
                Err(e) => image_error(image@) == Some(e),
            },
    {
        if image.len() < HEADER_BYTES {
            return Err(CartridgeError::Truncated);
        }
        if image[0] != 0x4E || image[1] != 0x45 || image[2] != 0x53 || image[3] != 0x1A {
            return Err(CartridgeError::BadMagic);
        }
        let prg_banks: u8 = image[4];
        let chr_banks: u8 = image[5];
        let flags6: u8 = image[6];
        let flags7: u8 = image[7];
        let mapper_id: u8 = (flags7 & 0xF0) | (flags6 >> 4);
        if mapper_id != 0 {
            return Err(CartridgeError::UnsupportedMapper(mapper_id));
        }
        if flags6 & 0x08 != 0 {
            return Err(CartridgeError::FourScreen);
        }
        if prg_banks == 0 {
            return Err(CartridgeError::NoPrgRom);
        }
        let prg_start: usize = if flags6 & 0x04 != 0 {
            HEADER_BYTES + TRAINER_BYTES
        } else {
            HEADER_BYTES
        };
        let prg_len: usize = prg_banks as usize * PRG_BANK_BYTES;
        let chr_start: usize = prg_start + prg_len;
        let chr_len: usize = chr_banks as usize * CHR_BANK_BYTES;
        if image.len() < chr_start + chr_len {
            return Err(CartridgeError::Truncated);
        }
        let mirror = if flags6 & 0x01 != 0 {
            MIRROR::VERTICAL
        } else {
            MIRROR::HORIZONTAL
        };
        let mut prg_memory: Box<[u8; 32768]> = Box::new([0u8; 32768]);
        let prg_kept: usize = if prg_len < PRG_WINDOW {
            prg_len
        } else {
            PRG_WINDOW
        };
        let mut i: usize = 0;
        while i < prg_kept
            invariant
                i <= prg_kept <= 32768,
                prg_kept <= prg_len,
                prg_start + prg_len <= image@.len() <= usize::MAX,
                forall|j: int| 0 <= j < i ==> prg_memory@[j] == image@[prg_start + j],
                forall|j: int| i <= j < 32768 ==> prg_memory@[j] == 0,
            decreases prg_kept - i,
        {
            prg_memory[i] = image[prg_start + i];
            i = i + 1;
        }
        let mut chr_memory: Box<[u8; 8192]> = Box::new([0u8; 8192]);
        let chr_kept: usize = if chr_len < CHR_WINDOW {
            chr_len
        } else {
            CHR_WINDOW
        };
        let mut k: usize = 0;
        while k < chr_kept
            invariant
                k <= chr_kept <= 8192,
                chr_kept <= chr_len,
                chr_start + chr_len <= image@.len() <= usize::MAX,
                forall|j: int| 0 <= j < k ==> chr_memory@[j] == image@[chr_start + j],
                forall|j: int| k <= j < 8192 ==> chr_memory@[j] == 0,
            decreases chr_kept - k,
        {
            chr_memory[k] = image[chr_start + k];
            k = k + 1;
        }
        Ok(
            Cartridge {
                mapper: Mapper::Nrom(Mapper000::new(prg_banks, chr_banks)),
                prg_memory,
                chr_memory,
                mapper_id,
                prg_banks,
                chr_banks,
                mirror,
            },
        )
    }

    /// A cartridge of zeroed memory: one program bank, character RAM.
    pub fn blank(mirror: MIRROR) -> (r: Cartridge)
        ensures
            r.mapper == Mapper::Nrom(Mapper000 { prg_banks: 1, chr_banks: 0 }),
            r.mapper_id == 0,
            r.prg_banks == 1,
            r.chr_banks == 0,
            r.mirror == mirror,
            forall|i: int| 0 <= i < 32768 ==> r.prg_memory@[i] == 0,
            forall|i: int| 0 <= i < 8192 ==> r.chr_memory@[i] == 0,
    {
        Cartridge {
            mapper: Mapper::Nrom(Mapper000::new(1, 0)),
            prg_memory: Box::new([0u8; 32768]),
            chr_memory: Box::new([0u8; 8192]),
            mapper_id: 0,
            prg_banks: 1,
            chr_banks: 0,
            mirror,
        }
    }

    pub fn get_mapper(&self) -> (r: &Mapper)
        ensures
            *r == self.mapper,
    {
        &self.mapper
    }

    /// What the CPU reads from the cartridge at `addr`, if the cartridge
    /// answers there.
    pub open spec fn cpu_read_model(&self, addr: u16) -> Result<u8, ()> {
        match self.mapper.cpu_read_offset(addr) {
            Ok(offset) => Ok(self.prg_memory@[offset as int]),
            Err(_) => Err(()),
        }
    }

    /// The cartridge after the CPU wrote `data` at `addr`.
    pub open spec fn cpu_write_model(self, addr: u16, data: u8) -> Cartridge {
        match self.mapper.cpu_write_offset(addr) {
            Ok(offset) => Cartridge {
                prg_memory: Box::new(spec_array_update(*self.prg_memory, offset as int, data)),
                ..self
            },
            Err(_) => self,
        }
    }

    /// What the PPU reads from the cartridge at `addr`, if the cartridge
    /// answers there.
    pub open spec fn ppu_read_model(&self, addr: u16) -> Result<u8, ()> {
        match self.mapper.ppu_read_offset(addr) {
            Ok(offset) => Ok(self.chr_memory@[offset as int]),
            Err(_) => Err(()),
        }
    }

    /// The cartridge after the PPU wrote `data` at `addr`.
    pub open spec fn ppu_write_model(self, addr: u16, data: u8) -> Cartridge {
        match self.mapper.ppu_write_offset(addr) {
            Ok(offset) => Cartridge {
                chr_memory: Box::new(spec_array_update(*self.chr_memory, offset as int, data)),
                ..self
            },
            Err(_) => self,
        }
    }

    pub fn cpu_read(&self, addr: u16) -> (r: Result<u8, ()>)
        ensures
            r == self.cpu_read_model(addr),
    {
        if let Ok(mapped_addr) = self.get_mapper().cpu_map_read(addr) {
            return Ok(self.prg_memory[mapped_addr as usize]);
        }
        Err(())
    }

    /// `Ok(true)` where the cartridge took the write, `Err(())` where the
    /// address is not the cartridge's.
    pub fn cpu_write(&mut self, addr: u16, data: u8) -> (r: Result<bool, ()>)
        ensures
            *final(self) == old(self).cpu_write_model(addr, data),
            r == match old(self).mapper.cpu_write_offset(addr) {
                Ok(_) => Ok::<bool, ()>(true),
                Err(_) => Err::<bool, ()>(()),
            },
    {
        if let Ok(mapped_addr) = self.get_mapper().cpu_map_write(addr) {
            self.prg_memory[mapped_addr as usize] = data;
            return Ok(true);
        }
        Err(())
    }

    pub fn ppu_read(&self, addr: u16) -> (r: Result<u8, ()>)
        ensures
            r == self.ppu_read_model(addr),
    {
        if let Ok(mapped_addr) = self.get_mapper().ppu_map_read(addr) {
            return Ok(self.chr_memory[mapped_addr as usize]);
        }
        Err(())
    }

    /// `Ok(true)` where the cartridge took the write, `Err(())` where the
    /// address is not the cartridge's.
    pub fn ppu_write(&mut self, addr: u16, data: u8) -> (r: Result<bool, ()>)
        ensures
            *final(self) == old(self).ppu_write_model(addr, data),
            r == match old(self).mapper.ppu_write_offset(addr) {
                Ok(_) => Ok::<bool, ()>(true),
                Err(_) => Err::<bool, ()>(()),
            },
    {
        if let Ok(mapped_addr) = self.get_mapper().ppu_map_write(addr) {
            self.chr_memory[mapped_addr as usize] = data;
            return Ok(true);
        }
        Err(())
    }
}

} // verus!
