//! Laws of the PPU's memory and registers.

use crate::ppu::helpers::{lemma_oam_with_byte, oam_byte, oam_bytes};
use crate::ppu::structures::VramRegister;
use crate::ppu::write::{t_after_addr_high, t_after_addr_low};
use crate::ppu::{nametable_index, palette_index, PPU};
use vstd::prelude::*;

verus! {

/// Whether `addr` is an address of palette memory.
pub open spec fn in_palette(addr: u16) -> bool {
    addr % 0x4000 >= 0x3F00
}

/// Whether `addr` is an address of nametable memory.
pub open spec fn in_nametables(addr: u16) -> bool {
    0x2000 <= addr % 0x4000 < 0x3F00
}

/// A byte written to palette memory is read back, as far as the mask
/// shows it, at its own address and at every address that is the same
/// entry: `v & 0x3F` with greyscale off.
pub proof fn lemma_palette_round_trip(ppu: PPU, written: u16, read: u16, v: u8)
    requires
        in_palette(written),
        in_palette(read),
        palette_index(written) == palette_index(read),
    ensures
        ppu.ppu_write_model(written, v).ppu_read_model(read) == v & ppu.grayscale_model(),
        ppu.mask.grayscale.register == 0 ==> ppu.ppu_write_model(written, v).ppu_read_model(read)
            == v & 0x3F,
{
}

/// The 32 entries of palette memory by their offset from $3F00: an entry
/// reads back what was written to it.
pub proof fn lemma_palette_entry_round_trip(ppu: PPU, p: u16, v: u8)
    requires
        p < 32,
        ppu.mask.grayscale.register == 0,
    ensures
        ppu.ppu_write_model((0x3F00 + p) as u16, v).ppu_read_model((0x3F00 + p) as u16) == v
            & 0x3F,
{
    lemma_palette_round_trip(ppu, (0x3F00 + p) as u16, (0x3F00 + p) as u16, v);
}

/// $3F10, $3F14, $3F18 and $3F1C are $3F00, $3F04, $3F08 and $3F0C: what
/// is written to one of a pair is read from the other.
pub proof fn lemma_palette_mirrors(ppu: PPU, p: u16, v: u8)
    requires
        p == 0x00 || p == 0x04 || p == 0x08 || p == 0x0C,
    ensures
        ppu.ppu_write_model((0x3F10 + p) as u16, v).ppu_read_model((0x3F00 + p) as u16) == v
            & ppu.grayscale_model(),
        ppu.ppu_write_model((0x3F00 + p) as u16, v).ppu_read_model((0x3F10 + p) as u16) == v
            & ppu.grayscale_model(),
{
    lemma_palette_round_trip(ppu, (0x3F10 + p) as u16, (0x3F00 + p) as u16, v);
    lemma_palette_round_trip(ppu, (0x3F00 + p) as u16, (0x3F10 + p) as u16, v);
}

/// A byte written to nametable memory is read back at every address that
/// the mirroring folds onto the same byte, and a read anywhere else in
/// the nametables sees what it saw before.
pub proof fn lemma_nametable_round_trip(ppu: PPU, written: u16, read: u16, v: u8)
    requires
        in_nametables(written),
        in_nametables(read),
    ensures
        ppu.ppu_write_model(written, v).ppu_read_model(read) == (if nametable_index(
            ppu.cart.mirror,
            (written % 0x4000) as u16,
        ) == nametable_index(ppu.cart.mirror, (read % 0x4000) as u16) {
            v
        } else {
            ppu.ppu_read_model(read)
        }),
{
}

/// After a write of `x` to OAMADDR, a read of OAMDATA answers byte `x` of
/// object memory.
pub proof fn lemma_oam_address_then_read(ppu: PPU, x: u8)
    ensures
        ppu.cpu_write_model(0x2003, x).cpu_read_model(0x2004, false).1 == oam_bytes(ppu.oam)[x as int],
{
    reveal(PPU::cpu_write_model);
    reveal(PPU::cpu_read_model);
}

/// A write of `y` to OAMDATA puts `y` in the byte of object memory that
/// OAMADDR names, leaves every other byte, and moves OAMADDR on by one.
pub proof fn lemma_oam_data_write(ppu: PPU, y: u8)
    ensures
        oam_bytes(ppu.cpu_write_model(0x2004, y).oam) == oam_bytes(ppu.oam).update(
            ppu.oam_addr as int,
            y,
        ),
        oam_byte(ppu.cpu_write_model(0x2004, y).oam, ppu.oam_addr) == y,
        ppu.cpu_write_model(0x2004, y).oam_addr == (ppu.oam_addr + 1) % 256,
{
    reveal(PPU::cpu_write_model);
    lemma_oam_with_byte(ppu.oam, ppu.oam_addr, y);
}

proof fn lemma_address_word(t: u16, high: u8, low: u8)
    by (bit_vector)
    ensures
        (((t & 0x00FF) | (((high & 0x3F) as u16) << 8)) & 0xFF00) | (low as u16) == (((high
            & 0x3F) as u16) << 8) | (low as u16),
{
}

/// Two writes to PPUADDR, made when the first of a pair is expected, leave
/// the address `((high & 0x3F) << 8) | low` in `v` and in `t`, and the
/// first of a pair is expected again.
pub proof fn lemma_address_writes(ppu: PPU, high: u8, low: u8)
    requires
        ppu.ppu_first_write,
    ensures
        ({
            let after = ppu.cpu_write_model(0x2006, high).cpu_write_model(0x2006, low);
            &&& after.vram_addr@ == (((high & 0x3F) as u16) << 8) | (low as u16)
            &&& after.tram_addr@ == after.vram_addr@
            &&& after.ppu_first_write
        }),
{
    reveal(PPU::cpu_write_model);
    let first = ppu.cpu_write_model(0x2006, high);
    let t1 = t_after_addr_high(ppu.tram_addr@, high);
    VramRegister::lemma_model_view(t1);
    let t2 = t_after_addr_low(t1, low);
    VramRegister::lemma_model_view(t2);
    lemma_address_word(ppu.tram_addr@, high, low);
}

/// A read of PPUSTATUS, at any of its addresses, leaves the first write of
/// a pair expected.
pub proof fn lemma_status_read_resets_toggle(ppu: PPU, addr: u16)
    requires
        addr % 8 == 2,
    ensures
        ppu.cpu_read_model(addr, false).0.ppu_first_write,
{
    reveal(PPU::cpu_read_model);
}

/// A reset of a PPU that was just reset changes nothing.
pub proof fn lemma_reset_idempotent(ppu: PPU)
    ensures
        ppu.reset_model().reset_model() == ppu.reset_model(),
{
}

} // verus!
