//! The core of a NES emulator: a 6502 interpreter, the 2C02 picture
//! processing unit, and the buses that tie them to cartridge memory.
//!
//! Every function comes with a model: a specification function that says
//! what the function does to the machine. The laws of the machine are proved
//! of the models, in the modules that end in `laws` and in `dma`, `frame`
//! and `data_port`.

pub mod audio;
pub mod bus;
pub mod cartridge;
pub mod consts;
pub mod cpu;
pub mod disassembler;
pub mod dma;
pub mod dot_laws;
pub mod emulator;
pub mod instructions;
pub mod laws;
pub mod mapper;
pub mod nes;
pub mod ppu;
