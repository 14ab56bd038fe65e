//! Laws of PPUDATA: what is written through the port is read back through
//! it, in order and one read late.

use crate::ppu::structures::VramRegister;
use crate::ppu::{nametable_index, PPU};
use vstd::array::spec_array_update;
use vstd::prelude::*;

verus! {

/// How far `count` accesses through the port move `v`: by one each, or by
/// 32 each.
pub open spec fn port_offset(increment: u16, count: int) -> int {
    if increment == 1 {
        count
    } else {
        32 * count
    }
}

impl PPU {
    /// The PPU with `v` at `address`.
    pub open spec fn with_address(self, address: u16) -> PPU {
        PPU { vram_addr: VramRegister::model(address), ..self }
    }

    /// The PPU after each byte of `data` was written to PPUDATA in turn.
    pub open spec fn after_data_writes(self, data: Seq<u8>) -> PPU
        decreases data.len(),
    {
        if data.len() == 0 {
            self
        } else {
            self.cpu_write_model(0x2007, data[0]).after_data_writes(data.drop_first())
        }
    }

    /// What `count` reads of PPUDATA answer, in turn.
    pub open spec fn data_reads(self, count: nat) -> Seq<u8>
        decreases count,
    {
        if count == 0 {
            Seq::empty()
        } else {
            seq![self.cpu_read_model(0x2007, false).1] + self.cpu_read_model(
                0x2007,
                false,
            ).0.data_reads((count - 1) as nat)
        }
    }

    /// Whether `count` accesses through the port, from where `v` stands,
    /// stay inside the nametables and never come by one byte twice.
    pub open spec fn port_run_fits(&self, count: int) -> bool {
        &&& 0x2000 <= self.vram_addr@
        &&& self.vram_addr@ + port_offset(self.increment_model(), count) < 0x3F00
        &&& port_offset(self.increment_model(), count) <= 1024
    }

    /// The byte of nametable memory that the `i`-th access through the
    /// port, from where `v` stands, comes by.
    pub open spec fn port_index(&self, i: int) -> int {
        nametable_index(
            self.cart.mirror,
            (self.vram_addr@ + port_offset(self.increment_model(), i)) as u16,
        )
    }
}

proof fn lemma_fifteen_bits(w: u16)
    by (bit_vector)
    requires
        w < 0x8000,
    ensures
        w & 0x7FFF == w,
{
}

proof fn lemma_data_write_step(p: PPU, d: u8)
    requires
        p.wf(),
        0x2000 <= p.vram_addr@ < 0x3F00,
    ensures
        ({
            let q = p.cpu_write_model(0x2007, d);
            &&& q.wf()
            &&& q.vram_addr@ == p.vram_addr@ + p.increment_model()
            &&& q.ctrl == p.ctrl
            &&& q.mask == p.mask
            &&& q.cart == p.cart
            &&& q.ppu_data_buffer == p.ppu_data_buffer
            &&& q.name_table == spec_array_update(
                p.name_table,
                nametable_index(p.cart.mirror, p.vram_addr@),
                d,
            )
        }),
{
    reveal(PPU::cpu_write_model);
    let v = p.vram_addr@;
    let next = v.wrapping_add(p.increment_model());
    lemma_fifteen_bits(next);
    VramRegister::lemma_model_view(next);
}

proof fn lemma_data_read_step(p: PPU)
    requires
        p.wf(),
        0x2000 <= p.vram_addr@ < 0x3F00,
    ensures
        ({
            let (q, byte) = p.cpu_read_model(0x2007, false);
            &&& q.wf()
            &&& byte == p.ppu_data_buffer
            &&& q.ppu_data_buffer == p.name_table@[nametable_index(p.cart.mirror, p.vram_addr@)]
            &&& q.vram_addr@ == p.vram_addr@ + p.increment_model()
            &&& q.ctrl == p.ctrl
            &&& q.mask == p.mask
            &&& q.cart == p.cart
            &&& q.name_table == p.name_table
        }),
{
    reveal(PPU::cpu_read_model);
    let v = p.vram_addr@;
    let next = v.wrapping_add(p.increment_model());
    lemma_fifteen_bits(next);
    VramRegister::lemma_model_view(next);
}

/// Two addresses of the nametables that lie less than 1 KiB apart lie in
/// different bytes of nametable memory.
proof fn lemma_near_addresses_differ(p: PPU, a: int, b: int)
    requires
        0x2000 <= a < b < 0x3F00,
        b - a < 1024,
    ensures
        nametable_index(p.cart.mirror, a as u16) != nametable_index(p.cart.mirror, b as u16),
{
    assert(a % 0x400 != b % 0x400);
}

/// After a run of writes through the port `v` stands behind the run, and
/// nothing but nametable memory has changed.
proof fn lemma_data_writes(p: PPU, data: Seq<u8>)
    requires
        p.wf(),
        p.port_run_fits(data.len() as int),
    ensures
        ({
            let w = p.after_data_writes(data);
            &&& w.wf()
            &&& w.vram_addr@ == p.vram_addr@ + port_offset(p.increment_model(), data.len() as int)
            &&& w.ctrl == p.ctrl
            &&& w.mask == p.mask
            &&& w.cart == p.cart
            &&& w.ppu_data_buffer == p.ppu_data_buffer
        }),
    decreases data.len(),
{
    if data.len() > 0 {
        let first = p.cpu_write_model(0x2007, data[0]);
        lemma_data_write_step(p, data[0]);
        assert(first.port_run_fits(data.drop_first().len() as int));
        lemma_data_writes(first, data.drop_first());
    }
}

/// After a run of writes through the port, each byte written lies where
/// its write came by.
proof fn lemma_written_byte(p: PPU, data: Seq<u8>, i: int)
    requires
        p.wf(),
        p.port_run_fits(data.len() as int),
        0 <= i < data.len(),
    ensures
        p.after_data_writes(data).name_table@[p.port_index(i)] == data[i],
    decreases data.len(),
{
    let first = p.cpu_write_model(0x2007, data[0]);
    let rest = data.drop_first();
    lemma_data_write_step(p, data[0]);
    assert(first.port_run_fits(rest.len() as int));
    if i == 0 {
        assert forall|j: int| 0 <= j < rest.len() implies first.port_index(j) != p.port_index(
            0,
        ) by {
            lemma_near_addresses_differ(
                p,
                p.vram_addr@ as int,
                first.vram_addr@ + port_offset(first.increment_model(), j),
            );
        }
        lemma_rest_keeps_first(first, rest, p.port_index(0));
    } else {
        lemma_written_byte(first, rest, i - 1);
        assert(p.port_index(i) == first.port_index(i - 1));
        assert(rest[i - 1] == data[i]);
    }
}

/// A run of writes through the port leaves every byte that none of the
/// writes comes by.
proof fn lemma_rest_keeps_first(p: PPU, data: Seq<u8>, index: int)
    requires
        p.wf(),
        p.port_run_fits(data.len() as int),
        0 <= index < 2048,
        forall|j: int| 0 <= j < data.len() ==> p.port_index(j) != index,
    ensures
        p.after_data_writes(data).name_table@[index] == p.name_table@[index],
    decreases data.len(),
{
    if data.len() > 0 {
        let first = p.cpu_write_model(0x2007, data[0]);
        let rest = data.drop_first();
        lemma_data_write_step(p, data[0]);
        assert(p.port_index(0) != index);
        assert(first.port_run_fits(rest.len() as int));
        assert forall|j: int| 0 <= j < rest.len() implies first.port_index(j) != index by {
            assert(first.port_index(j) == p.port_index(j + 1));
        }
        lemma_rest_keeps_first(first, rest, index);
    }
}

/// With the data buffer holding the byte before, a run of reads through
/// the port answers the bytes that lie where the reads come by, each one
/// read late.
proof fn lemma_data_reads(p: PPU, data: Seq<u8>, from: int)
    requires
        p.wf(),
        0 <= from <= data.len(),
        0x2000 <= p.vram_addr@,
        from < data.len() ==> p.vram_addr@ + port_offset(
            p.increment_model(),
            data.len() - from - 1,
        ) < 0x3F00,
        from < data.len() ==> p.ppu_data_buffer == data[from],
        forall|i: int|
            0 <= i < data.len() - from - 1 ==> p.name_table@[#[trigger] p.port_index(i)] == data[from
                + 1 + i],
    ensures
        p.data_reads((data.len() - from) as nat) == data.subrange(from, data.len() as int),
    decreases data.len() - from,
{
    if from < data.len() {
        lemma_data_read_step(p);
        let (q, byte) = p.cpu_read_model(0x2007, false);
        assert(byte == data[from]);
        if from + 1 < data.len() {
            assert(p.port_index(0) == nametable_index(p.cart.mirror, p.vram_addr@));
            assert(q.ppu_data_buffer == data[from + 1]);
        }
        assert forall|i: int| 0 <= i < data.len() - (from + 1) - 1 implies q.name_table@[#[trigger] q.port_index(
            i,
        )] == data[from + 1 + 1 + i] by {
            assert(q.port_index(i) == p.port_index(i + 1));
        }
        lemma_data_reads(q, data, from + 1);
        assert(p.data_reads((data.len() - from) as nat) =~= data.subrange(
            from,
            data.len() as int,
        ));
    } else {
        assert(p.data_reads(0) =~= data.subrange(from, data.len() as int));
    }
}

/// Bytes written to the nametables through PPUDATA are read back through
/// PPUDATA in the order written, after `v` was set back to where the
/// writes began and one read was made to fill the buffer.
///
/// The run has to stay inside the nametables, and to be short enough for
/// no byte to be written twice: 1024 bytes in steps of 1, 32 bytes in
/// steps of 32.
pub proof fn lemma_nametable_writes_read_back(p: PPU, start: u16, data: Seq<u8>)
    requires
        p.wf(),
        p.with_address(start).port_run_fits(data.len() as int),
    ensures
        p.with_address(start).after_data_writes(data).with_address(start).cpu_read_model(
            0x2007,
            false,
        ).0.data_reads(data.len()) == data,
{
    VramRegister::lemma_model_view(start);
    let begun = p.with_address(start);
    let written = begun.after_data_writes(data);
    lemma_data_writes(begun, data);
    let rewound = written.with_address(start);
    let (primed, _) = rewound.cpu_read_model(0x2007, false);
    lemma_data_read_step(rewound);
    if data.len() > 0 {
        lemma_written_byte(begun, data, 0);
        assert(begun.port_index(0) == nametable_index(begun.cart.mirror, start));
        assert(primed.ppu_data_buffer == data[0]);
    }
    assert forall|i: int| 0 <= i < data.len() - 1 implies primed.name_table@[#[trigger] primed.port_index(
        i,
    )] == data[1 + i] by {
        lemma_written_byte(begun, data, i + 1);
        assert(primed.port_index(i) == begun.port_index(i + 1));
    }
    lemma_data_reads(primed, data, 0);
    assert(data.subrange(0, data.len() as int) =~= data);
}

} // verus!
