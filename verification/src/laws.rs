//! Laws of the whole machine: how the master clock shares its ticks, and
//! that nothing on the CPU's side disturbs the dot clock.

use crate::bus::Bus;
use crate::nes::Nes;
use vstd::prelude::*;

verus! {

/// How many of the `n` ticks from tick `start` on are the CPU's: every
/// tick whose number is a multiple of three.
pub open spec fn cpu_ticks_between(start: int, n: nat) -> nat
    decreases n,
{
    if n == 0 {
        0
    } else {
        cpu_ticks_between(start, (n - 1) as nat) + if (start + n - 1) % 3 == 0 {
            1nat
        } else {
            0nat
        }
    }
}

/// The multiples of three in a stretch of ticks, counted in one step.
pub proof fn lemma_cpu_ticks_between(start: int, n: nat)
    requires
        0 <= start,
    ensures
        cpu_ticks_between(start, n) == (start + n + 2) / 3 - (start + 2) / 3,
    decreases n,
{
    if n > 0 {
        lemma_cpu_ticks_between(start, (n - 1) as nat);
    }
}

/// The 89342 ticks of a frame hold 29780 or 29781 CPU cycles, as the
/// frame begins on a tick that is the CPU's or not.
pub proof fn lemma_cpu_cycles_per_frame(start: int)
    requires
        0 <= start,
    ensures
        cpu_ticks_between(start, 89342) == 29780 || cpu_ticks_between(start, 89342) == 29781,
        start % 3 == 1 <==> cpu_ticks_between(start, 89342) == 29780,
{
    lemma_cpu_ticks_between(start, 89342);
}

impl Nes {
    /// How many of the next `n` ticks of the machine are ticks on which the
    /// CPU's side runs.
    pub open spec fn cpu_ticks(self, n: nat) -> nat
        decreases n,
    {
        if n == 0 {
            0
        } else {
            self.cpu_ticks((n - 1) as nat) + if self.clocked((n - 1) as nat).is_cpu_tick() {
                1nat
            } else {
                0nat
            }
        }
    }
}

/// Every tick counts on the master clock.
pub proof fn lemma_master_clock_counts(nes: Nes, n: nat)
    requires
        nes.system_clock + n <= usize::MAX,
    ensures
        nes.clocked(n).system_clock == nes.system_clock + n,
    decreases n,
{
    reveal(Nes::clock_model);
    if n > 0 {
        lemma_master_clock_counts(nes, (n - 1) as nat);
    }
}

/// The CPU's side runs on the ticks whose number is a multiple of three.
pub proof fn lemma_cpu_ticks_of_machine(nes: Nes, n: nat)
    requires
        nes.system_clock + n <= usize::MAX,
    ensures
        nes.cpu_ticks(n) == cpu_ticks_between(nes.system_clock as int, n),
    decreases n,
{
    if n > 0 {
        lemma_cpu_ticks_of_machine(nes, (n - 1) as nat);
        lemma_master_clock_counts(nes, (n - 1) as nat);
    }
}

/// While the master clock does not run over, the 89342 ticks of a frame
/// give the CPU's side 29780 or 29781 cycles.
pub proof fn lemma_frame_cpu_cycles(nes: Nes)
    requires
        nes.system_clock + 89342 <= usize::MAX,
    ensures
        nes.cpu_ticks(89342) == 29780 || nes.cpu_ticks(89342) == 29781,
{
    lemma_cpu_ticks_of_machine(nes, 89342);
    lemma_cpu_cycles_per_frame(nes.system_clock as int);
}

/// A reset of a machine that was just reset changes nothing.
#[verifier::rlimit(50)]
pub proof fn lemma_reset_idempotent(nes: Nes)
    ensures
        nes.reset_model().reset_model() == nes.reset_model(),
{
    reveal(Bus::cpu_read_model);
    let once = nes.cpu.reset_model(None);
    let bus = nes.cpu.bus;
    let after_lo = bus.cpu_read_model(0xFFFC, false).0;
    let after_hi = after_lo.cpu_read_model(0xFFFD, false).0;
    assert(once.bus == after_hi);
    assert(after_hi.cpu_read_model(0xFFFC, false).0.cpu_read_model(0xFFFD, false).0 == after_hi);
    assert(after_hi.cpu_read_model(0xFFFC, false).1 == bus.cpu_read_model(0xFFFC, false).1);
    let reset_ppu = Bus { ppu: once.bus.ppu.reset_model(), ..once.bus };
    assert(reset_ppu.cpu_read_model(0xFFFC, false).1 == bus.cpu_read_model(0xFFFC, false).1);
    assert(reset_ppu.cpu_read_model(0xFFFC, false).0.cpu_read_model(0xFFFD, false).0 == reset_ppu);
}

} // verus!
