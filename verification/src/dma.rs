//! Laws of the transfer to object memory: how long it takes, and what it
//! leaves in object memory.

use crate::bus::{dma_source, Bus};
use crate::ppu::helpers::{lemma_oam_with_byte, oam_bytes, oam_with_byte};
use crate::ppu::PPU;
use vstd::prelude::*;

verus! {

impl Bus {
    /// The bus after `n` cycles of a transfer, the first of them on an odd
    /// cycle or an even one, and the next ones odd and even in turn.
    pub open spec fn dma_run(self, odd: bool, n: nat) -> Bus
        decreases n,
    {
        if n == 0 {
            self
        } else {
            self.dma_model(odd).dma_run(!odd, (n - 1) as nat)
        }
    }

    /// The byte that a transfer reads as byte `i` of its page.
    pub open spec fn dma_byte(self, i: int) -> u8 {
        self.cpu_read_model(dma_source(self.dma_page, i as u8), true).1
    }

    /// Whether the page of the transfer lies outside the PPU's registers,
    /// so that what the transfer reads does not depend on what it writes.
    pub open spec fn dma_page_is_memory(self) -> bool {
        self.dma_page < 0x20 || self.dma_page >= 0x40
    }

    /// Whether `other` differs from `self` in nothing but object memory
    /// and the state of the transfer.
    pub open spec fn same_but_transfer(self, other: Bus) -> bool {
        other == (Bus {
            ppu: PPU { oam: other.ppu.oam, ..self.ppu },
            dma_addr: other.dma_addr,
            dma_data: other.dma_data,
            dma_transfer: other.dma_transfer,
            dma_dummy: other.dma_dummy,
            ..self
        })
    }

    /// Whether the transfer has copied the first `i` bytes of the page of
    /// `start` and stands before byte `i`.
    pub open spec fn dma_copied(self, start: Bus, i: int) -> bool {
        &&& self.wf()
        &&& start.same_but_transfer(self)
        &&& self.dma_dummy == (i >= 256)
        &&& self.dma_transfer == (i < 256)
        &&& self.dma_addr == i % 256
        &&& forall|j: int|
            0 <= j < 256 ==> #[trigger] oam_bytes(self.ppu.oam)[(start.ppu.oam_addr + j) % 256] == (
            if j < i {
                start.dma_byte(j)
            } else {
                oam_bytes(start.ppu.oam)[(start.ppu.oam_addr + j) % 256]
            })
    }
}

proof fn lemma_page_address(page: u8, index: u8)
    by (bit_vector)
    ensures
        ((page as u16) << 8) | (index as u16) == (page as u16) * 256 + (index as u16),
{
}

/// What a transfer reads does not change while it runs.
proof fn lemma_source_is_stable(start: Bus, now: Bus, i: int)
    requires
        start.same_but_transfer(now),
        start.dma_page_is_memory(),
        0 <= i < 256,
    ensures
        now.cpu_read_model(dma_source(now.dma_page, i as u8), true).1 == start.dma_byte(i),
        now.cpu_read_model(dma_source(now.dma_page, i as u8), true).0 == now,
{
    reveal(Bus::cpu_read_model);
    lemma_page_address(start.dma_page, i as u8);
}

/// A read cycle and the write cycle after it copy one byte.
#[verifier::rlimit(50)]
proof fn lemma_dma_pair(start: Bus, now: Bus, i: int)
    requires
        start.wf(),
        start.dma_page_is_memory(),
        0 <= i < 256,
        now.dma_copied(start, i),
    ensures
        now.dma_model(false).dma_model(true).dma_copied(start, i + 1),
        i < 255 ==> now.dma_model(false).dma_model(true).dma_transfer,
        now.dma_model(false).dma_transfer,
{
    lemma_source_is_stable(start, now, i);
    let read = now.dma_model(false);
    let written = read.dma_model(true);
    let target = now.ppu.oam_addr.wrapping_add(now.dma_addr);
    lemma_oam_with_byte(now.ppu.oam, target, start.dma_byte(i));
    assert(written.ppu.oam == oam_with_byte(now.ppu.oam, target, start.dma_byte(i)));
    assert(target == (start.ppu.oam_addr + i) % 256);
    assert forall|j: int| 0 <= j < 256 implies #[trigger] oam_bytes(written.ppu.oam)[(
    start.ppu.oam_addr + j) % 256] == (if j < i + 1 {
        start.dma_byte(j)
    } else {
        oam_bytes(start.ppu.oam)[(start.ppu.oam_addr + j) % 256]
    }) by {
        assert(oam_bytes(now.ppu.oam)[(start.ppu.oam_addr + j) % 256] == (if j < i {
            start.dma_byte(j)
        } else {
            oam_bytes(start.ppu.oam)[(start.ppu.oam_addr + j) % 256]
        }));
        if j != i {
            assert((start.ppu.oam_addr + j) % 256 != (start.ppu.oam_addr + i) % 256);
        }
    }
}

/// The pairs of cycles of a transfer, one after the other.
#[verifier::rlimit(50)]
proof fn lemma_dma_pairs(start: Bus, now: Bus, i: int, pairs: nat)
    requires
        start.wf(),
        start.dma_page_is_memory(),
        0 <= i,
        i + pairs <= 256,
        now.dma_copied(start, i),
    ensures
        now.dma_run(false, 2 * pairs).dma_copied(start, i + pairs),
        forall|k: nat| k < 2 * pairs ==> (#[trigger] now.dma_run(false, k)).dma_transfer,
    decreases pairs,
{
    if pairs > 0 {
        lemma_dma_pair(start, now, i);
        let next = now.dma_model(false).dma_model(true);
        lemma_dma_pairs(start, next, i + 1, (pairs - 1) as nat);
        assert(now.dma_run(false, 2 * pairs) == next.dma_run(false, (2 * (pairs - 1)) as nat)) by {
            assert(now.dma_run(false, 2 * pairs) == now.dma_model(false).dma_run(
                true,
                (2 * pairs - 1) as nat,
            ));
            assert(now.dma_model(false).dma_run(true, (2 * pairs - 1) as nat) == next.dma_run(
                false,
                (2 * pairs - 2) as nat,
            ));
        }
        assert forall|k: nat| k < 2 * pairs implies (#[trigger] now.dma_run(
            false,
            k,
        )).dma_transfer by {
            if k == 0 {
            } else if k == 1 {
                assert(now.dma_run(false, 1) == now.dma_model(false).dma_run(true, 0));
            } else {
                assert(now.dma_run(false, k) == now.dma_model(false).dma_run(
                    true,
                    (k - 1) as nat,
                ));
                assert(now.dma_model(false).dma_run(true, (k - 1) as nat) == next.dma_run(
                    false,
                    (k - 2) as nat,
                ));
            }
        }
    }
}

/// A transfer that starts on an odd cycle, as it does after a write to
/// $4014 on an even one, takes 513 cycles: it runs through the first 512
/// and has ended after the 513th. Then the 256 bytes of its page lie in
/// object memory, byte `j` of the page `j` bytes on from OAMADDR, around
/// the end of object memory; and nothing else on the bus has changed.
pub proof fn lemma_dma_from_odd_cycle(bus: Bus)
    requires
        bus.wf(),
        bus.dma_transfer,
        bus.dma_dummy,
        bus.dma_addr == 0,
        bus.dma_page_is_memory(),
    ensures
        forall|k: nat| k < 513 ==> (#[trigger] bus.dma_run(true, k)).dma_transfer,
        !bus.dma_run(true, 513).dma_transfer,
        bus.dma_run(true, 513).dma_dummy,
        bus.same_but_transfer(bus.dma_run(true, 513)),
        forall|j: int|
            0 <= j < 256 ==> #[trigger] oam_bytes(bus.dma_run(true, 513).ppu.oam)[(bus.ppu.oam_addr
                + j) % 256] == bus.dma_byte(j),
{
    let waited = bus.dma_model(true);
    assert(waited.dma_copied(bus, 0));
    lemma_dma_pairs(bus, waited, 0, 256);
    assert(bus.dma_run(true, 513) == waited.dma_run(false, 512));
    assert forall|k: nat| k < 513 implies (#[trigger] bus.dma_run(true, k)).dma_transfer by {
        if k > 0 {
            assert(bus.dma_run(true, k) == waited.dma_run(false, (k - 1) as nat));
        }
    }
}

/// A transfer that starts on an even cycle, as it does after a write to
/// $4014 on an odd one, waits one cycle more and takes 514.
pub proof fn lemma_dma_from_even_cycle(bus: Bus)
    requires
        bus.wf(),
        bus.dma_transfer,
        bus.dma_dummy,
        bus.dma_addr == 0,
        bus.dma_page_is_memory(),
    ensures
        forall|k: nat| k < 514 ==> (#[trigger] bus.dma_run(false, k)).dma_transfer,
        !bus.dma_run(false, 514).dma_transfer,
        bus.dma_run(false, 514) == bus.dma_run(true, 513),
{
    assert(bus.dma_model(false) == bus);
    assert(bus.dma_run(false, 514) == bus.dma_run(true, 513));
    lemma_dma_from_odd_cycle(bus);
    assert forall|k: nat| k < 514 implies (#[trigger] bus.dma_run(false, k)).dma_transfer by {
        if k > 0 {
            assert(bus.dma_run(false, k) == bus.dma_run(true, (k - 1) as nat));
        }
    }
}

} // verus!
