//! Object attribute memory as bytes, and pixels as bytes.

use crate::ppu::structures::{AlphaPixel, ObjectAttributeEntry, Pixel};
use vstd::array::spec_array_update;
use vstd::prelude::*;

verus! {

/// Byte `addr` of object attribute memory: sprite `addr / 4`, and of it the
/// y, the tile, the attribute or the x as `addr % 4` is 0, 1, 2 or 3.
pub open spec fn oam_byte(oam: [ObjectAttributeEntry; 64], addr: u8) -> u8 {
    let entry = oam@[addr as int / 4];
    if addr % 4 == 0 {
        entry.y
    } else if addr % 4 == 1 {
        entry.id
    } else if addr % 4 == 2 {
        entry.attribute
    } else {
        entry.x
    }
}

/// Object attribute memory as its 256 bytes.
pub open spec fn oam_bytes(oam: [ObjectAttributeEntry; 64]) -> Seq<u8> {
    Seq::new(256, |addr: int| oam_byte(oam, addr as u8))
}

/// A sprite with one of its four bytes replaced.
pub open spec fn entry_with_byte(entry: ObjectAttributeEntry, field: int, data: u8)
    -> ObjectAttributeEntry {
    if field == 0 {
        ObjectAttributeEntry { y: data, ..entry }
    } else if field == 1 {
        ObjectAttributeEntry { id: data, ..entry }
    } else if field == 2 {
        ObjectAttributeEntry { attribute: data, ..entry }
    } else {
        ObjectAttributeEntry { x: data, ..entry }
    }
}

/// Object attribute memory with byte `addr` replaced.
pub open spec fn oam_with_byte(oam: [ObjectAttributeEntry; 64], addr: u8, data: u8)
    -> [ObjectAttributeEntry; 64] {
    spec_array_update(
        oam,
        addr as int / 4,
        entry_with_byte(oam@[addr as int / 4], addr as int % 4, data),
    )
}

/// Writing byte `addr` changes that byte of the 256 and no other.
pub proof fn lemma_oam_with_byte(oam: [ObjectAttributeEntry; 64], addr: u8, data: u8)
    ensures
        oam_bytes(oam_with_byte(oam, addr, data)) == oam_bytes(oam).update(addr as int, data),
        oam_byte(oam_with_byte(oam, addr, data), addr) == data,
{
    let after = oam_with_byte(oam, addr, data);
    assert forall|a: int| 0 <= a < 256 implies #[trigger] oam_bytes(after)[a] == oam_bytes(
        oam,
    ).update(addr as int, data)[a] by {
        if a / 4 != addr as int / 4 {
            assert(after@[a / 4] == oam@[a / 4]);
        }
    }
    assert(oam_bytes(after) =~= oam_bytes(oam).update(addr as int, data));
}

pub fn set_oam_field(oam: &mut [ObjectAttributeEntry; 64], addr: u8, data: u8)
    ensures
        *final(oam) == oam_with_byte(*old(oam), addr, data),
{
    let idx: usize = (addr / 4) as usize;
    let remainder: u8 = addr % 4;
    let mut entry = oam[idx];
    if remainder == 0 {
        entry.y = data;
    } else if remainder == 1 {
        entry.id = data;
    } else if remainder == 2 {
        entry.attribute = data;
    } else {
        entry.x = data;
    }
    oam[idx] = entry;
}

pub fn get_oam_field(oam: &[ObjectAttributeEntry; 64], addr: u8) -> (r: u8)
    ensures
        r == oam_byte(*oam, addr),
{
    let idx: usize = (addr / 4) as usize;
    let remainder: u8 = addr % 4;
    if remainder == 0 {
        oam[idx].y
    } else if remainder == 1 {
        oam[idx].id
    } else if remainder == 2 {
        oam[idx].attribute
    } else {
        oam[idx].x
    }
}

/// The bytes of `spr` with the three of `pix` laid down from `pos` on.
pub open spec fn with_pixel(spr: Seq<u8>, pos: int, pix: Pixel) -> Seq<u8> {
    spr.update(pos, pix.0).update(pos + 1, pix.1).update(pos + 2, pix.2)
}

pub fn write_pixel_to_output(pos: usize, spr: &mut [u8], pix: Pixel)
    requires
        pos + 2 < old(spr)@.len(),
    ensures
        final(spr)@ == with_pixel(old(spr)@, pos as int, pix),
{
    spr[pos] = pix.0;
    spr[pos + 1] = pix.1;
    spr[pos + 2] = pix.2;
}

pub fn write_alpha_pixel_to_output(pos: usize, spr: &mut [u8], pix: AlphaPixel)
    requires
        pos + 3 < old(spr)@.len(),
    ensures
        final(spr)@ == old(spr)@.update(pos as int, pix.0).update(pos + 1, pix.1).update(
            pos + 2,
            pix.2,
        ).update(pos + 3, pix.3),
{
    spr[pos] = pix.0;
    spr[pos + 1] = pix.1;
    spr[pos + 2] = pix.2;
    spr[pos + 3] = pix.3;
}

} // verus!
