//! The audio unit, as far as the CPU bus is concerned: a set of registers
//! that take what is written and answer nothing.

use vstd::prelude::*;

verus! {

#[allow(non_camel_case_types)]
pub struct APU2A03 {}

/// Whether `addr` is one of the audio unit's registers.
pub open spec fn is_apu_register(addr: u16) -> bool {
    0x4000 <= addr <= 0x4013 || addr == 0x4015 || addr == 0x4017
}

impl APU2A03 {
    /// Whether the audio unit answers at `addr`.
    pub fn answers(addr: u16) -> (r: bool)
        ensures
            r == is_apu_register(addr),
    {
        (0x4000 <= addr && addr <= 0x4013) || addr == 0x4015 || addr == 0x4017
    }

    /// A read of an audio register: zero.
    pub fn cpu_read(addr: u16) -> (r: u8)
        ensures
            r == 0,
    {
        0
    }

    /// A write to an audio register: taken and dropped.
    pub fn cpu_write(addr: u16, data: u8) {
    }

    pub fn clock() {
    }

    pub fn reset() {
    }
}

} // verus!
