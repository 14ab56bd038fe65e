pub mod emulation_consts;
pub mod ppu_consts;
pub mod screen_consts;
