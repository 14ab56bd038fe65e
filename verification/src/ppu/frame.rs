//! Laws of the dot clock: what one dot does to the clock and the flags,
//! how long a frame is, and when the interrupt line rises.

use crate::ppu::structures::{StatusRegister, VramRegister};
use crate::ppu::timing::dot_index;
use crate::ppu::PPU;
use vstd::prelude::*;

verus! {

/// The dot on which vertical blank begins: dot 1 of line 241.
pub open spec fn vblank_dot() -> int {
    dot_index(241, 1)
}

/// The dot on which the flags drop: dot 1 of the pre-render line.
pub open spec fn flags_drop_dot() -> int {
    dot_index(261, 1)
}

impl PPU {
    /// The dot in work, counted from the start of the frame.
    pub open spec fn dot(&self) -> int {
        dot_index(self.scanline as int, self.cycle as int)
    }

    /// The PPU `n` dots on.
    pub open spec fn clocked(self, n: nat) -> PPU
        decreases n,
    {
        if n == 0 {
            self
        } else {
            self.clocked((n - 1) as nat).clock_model()
        }
    }

    /// Whether the sprite-zero flag is up.
    pub open spec fn sprite_zero_flag(&self) -> bool {
        self.status@ & 0x40 != 0
    }

    /// Whether the vertical-blank flag is up.
    pub open spec fn vblank_flag(&self) -> bool {
        self.status@ & 0x80 != 0
    }

    /// Whether `other` has the clock, the control registers and the
    /// interrupt line of `self`.
    pub open spec fn same_timing(&self, other: PPU) -> bool {
        &&& self.scanline == other.scanline
        &&& self.cycle == other.cycle
        &&& self.frame_complete == other.frame_complete
        &&& self.frame_complete_count == other.frame_complete_count
        &&& self.clock_count == other.clock_count
        &&& self.nmi == other.nmi
        &&& self.ctrl == other.ctrl
        &&& self.mask == other.mask
        &&& self.tram_addr == other.tram_addr
        &&& self.fine_x == other.fine_x
    }

    /// Whether `other` has the sprites in work of `self`.
    pub open spec fn same_sprites(&self, other: PPU) -> bool {
        &&& self.sprite_count == other.sprite_count
        &&& self.sprite_zero_selected == other.sprite_zero_selected
        &&& self.sprites_to_render == other.sprites_to_render
    }
}

proof fn lemma_status_bits(s: u8)
    by (bit_vector)
    ensures
        (s | 0x80) & 0x40 == s & 0x40,
        (s | 0x80) & 0x80 != 0,
        (s | 0x20) & 0x40 == s & 0x40,
        (s | 0x20) & 0x80 == s & 0x80,
        (s | 0x40) & 0x40 != 0,
        (s | 0x40) & 0x80 == s & 0x80,
        (s & 0x1F) & 0x40 == 0,
        (s & 0x1F) & 0x80 == 0,
        (s | 0x20) | 0x20 == s | 0x20,
{
}

proof fn lemma_sprites_advanced(ppu: PPU, n: int)
    requires
        ppu.wf(),
        0 <= n <= 8,
    ensures
        ppu.sprites_advanced(n).wf(),
        ppu.sprites_advanced(n).same_timing(ppu),
        ppu.sprites_advanced(n).same_sprites(ppu),
        ppu.sprites_advanced(n).status == ppu.status,
        ppu.sprites_advanced(n).vram_addr == ppu.vram_addr,
    decreases n,
{
    if n > 0 {
        lemma_sprites_advanced(ppu, n - 1);
    }
}

proof fn lemma_sprites_fetched(ppu: PPU, n: int)
    requires
        ppu.wf(),
        0 <= n <= 8,
    ensures
        ppu.sprites_fetched(n).wf(),
        ppu.sprites_fetched(n).same_timing(ppu),
        ppu.sprites_fetched(n).same_sprites(ppu),
        ppu.sprites_fetched(n).status == ppu.status,
        ppu.sprites_fetched(n).vram_addr == ppu.vram_addr,
    decreases n,
{
    if n > 0 {
        lemma_sprites_fetched(ppu, n - 1);
    }
}

#[verifier::rlimit(50)]
proof fn lemma_evaluated(ppu: PPU, n: int)
    requires
        ppu.wf(),
        0 <= n,
    ensures
        ppu.evaluated(n).wf(),
        ppu.evaluated(n).same_timing(ppu),
        ppu.evaluated(n).vram_addr == ppu.vram_addr,
        ppu.evaluated(n).status@ == ppu.status@ || ppu.evaluated(n).status@ == ppu.status@ | 0x20,
    decreases n,
{
    if n > 0 {
        lemma_evaluated(ppu, n - 1);
        let prior = ppu.evaluated(n - 1);
        StatusRegister::lemma_model_view(prior.status@ | 0x20);
        lemma_status_bits(ppu.status@);
    }
}

#[verifier::rlimit(50)]
proof fn lemma_pipeline(ppu: PPU)
    requires
        ppu.wf(),
    ensures
        ppu.process_visible_cycle_model().wf(),
        ppu.process_visible_cycle_model().same_timing(ppu),
        ppu.process_visible_cycle_model().same_sprites(ppu),
        ppu.process_visible_cycle_model().status == ppu.status,
{
    let v = ppu.vram_addr@;
    let t = ppu.tram_addr@;
    assert forall|w: u16| #[trigger] VramRegister::model(w).wf() by {
        VramRegister::lemma_model_view(w);
    }
}

#[verifier::rlimit(50)]
proof fn lemma_draw(ppu: PPU)
    requires
        ppu.wf(),
    ensures
        ppu.draw_model().wf(),
        ppu.draw_model().same_timing(ppu),
        ppu.draw_model().same_sprites(ppu),
        ppu.draw_model().vram_addr == ppu.vram_addr,
        ppu.draw_model().sprite_zero_flag() == (ppu.sprite_zero_flag() || ppu.sprite_zero_hits()),
        ppu.draw_model().vblank_flag() == ppu.vblank_flag(),
{
    StatusRegister::lemma_model_view(ppu.status@ | 0x40);
    lemma_status_bits(ppu.status@);
}

#[verifier::rlimit(50)]
proof fn lemma_flags(ppu: PPU)
    requires
        ppu.wf(),
    ensures
        ({
            let q = ppu.flags_model();
            &&& q.wf()
            &&& q.scanline == ppu.scanline
            &&& q.cycle == ppu.cycle
            &&& q.frame_complete == ppu.frame_complete
            &&& q.ctrl == ppu.ctrl
            &&& q.mask == ppu.mask
            &&& q.nmi == (ppu.nmi || (ppu.dot() == vblank_dot() && ppu.ctrl.enable_nmi.register
                != 0))
            &&& q.sprite_zero_flag() == (ppu.sprite_zero_flag() && ppu.dot() != flags_drop_dot())
            &&& q.vblank_flag() == (ppu.dot() == vblank_dot() || (ppu.vblank_flag() && ppu.dot()
                != flags_drop_dot()))
            &&& ppu.scanline <= 239 ==> q == ppu
        }),
{
    StatusRegister::lemma_model_view(ppu.status@ | 0x80);
    StatusRegister::lemma_model_view(ppu.status@ & 0x1F);
    lemma_status_bits(ppu.status@);
}

impl PPU {
    /// What a part of a dot leaves of the PPU `before` the dot: the place
    /// of the dot clock, the control registers, and the flags and the
    /// interrupt line as the dot has set them.
    pub open spec fn within_dot_of(&self, before: PPU) -> bool {
        &&& self.wf()
        &&& self.scanline == before.scanline
        &&& self.cycle == before.cycle
        &&& self.frame_complete == before.frame_complete
        &&& self.ctrl == before.ctrl
        &&& self.mask == before.mask
        &&& self.nmi == (before.nmi || (before.dot() == vblank_dot()
            && before.ctrl.enable_nmi.register != 0))
        &&& self.sprite_zero_flag() == ((before.sprite_zero_flag() && before.dot()
            != flags_drop_dot()) || (before.scanline <= 239 && 1 <= before.cycle <= 256
            && before.sprite_zero_hits()))
        &&& self.vblank_flag() == (before.dot() == vblank_dot() || (before.vblank_flag()
            && before.dot() != flags_drop_dot()))
    }
}

#[verifier::rlimit(50)]
proof fn lemma_drawn_stage(ppu: PPU)
    requires
        ppu.wf(),
    ensures
        ppu.drawn_stage().within_dot_of(ppu),
{
    reveal(PPU::drawn_stage);
    lemma_flags(ppu);
    let flagged = ppu.flags_model();
    if ppu.on_visible_line() && 1 <= ppu.cycle <= 256 {
        lemma_draw(flagged);
        lemma_sprites_advanced(flagged.draw_model(), flagged.draw_model().sprite_count as int);
    }
}

#[verifier::rlimit(50)]
proof fn lemma_piped_stage(ppu: PPU)
    requires
        ppu.wf(),
    ensures
        ppu.piped_stage().within_dot_of(ppu),
{
    reveal(PPU::piped_stage);
    lemma_drawn_stage(ppu);
    if ppu.on_visible_line() || ppu.on_pre_render_line() {
        lemma_pipeline(ppu.drawn_stage());
    }
}

#[verifier::rlimit(50)]
proof fn lemma_chosen_stage(ppu: PPU)
    requires
        ppu.wf(),
    ensures
        ppu.chosen_stage().within_dot_of(ppu),
{
    reveal(PPU::chosen_stage);
    lemma_piped_stage(ppu);
    let piped = ppu.piped_stage();
    if ppu.on_visible_line() && ppu.cycle == 257 {
        lemma_evaluated(piped, 64);
        lemma_status_bits(piped.status@);
    } else if ppu.on_visible_line() && ppu.cycle == 340 {
        lemma_sprites_fetched(piped, piped.sprite_count as int);
    }
}

/// What one dot does to the clock and the flags.
///
/// The dot clock moves on by one, around the frame of 89342 dots. A frame
/// is complete when the last dot of the frame was worked. The interrupt
/// line rises on the dot on which vertical blank begins, if PPUCTRL asks
/// for it, and on no other. The sprite-zero flag goes up on a dot where
/// sprite 0 hits, stays up, and drops on dot 1 of the pre-render line.
pub proof fn lemma_clock_step(ppu: PPU)
    requires
        ppu.wf(),
    ensures
        ({
            let q = ppu.clock_model();
            &&& q.wf()
            &&& q.dot() == (ppu.dot() + 1) % 89342
            &&& q.frame_complete == (ppu.frame_complete || ppu.dot() == 89341)
            &&& q.ctrl == ppu.ctrl
            &&& q.mask == ppu.mask
            &&& q.nmi == (ppu.nmi || (ppu.dot() == vblank_dot() && ppu.ctrl.enable_nmi.register
                != 0))
            &&& q.sprite_zero_flag() == ((ppu.sprite_zero_flag() && ppu.dot() != flags_drop_dot())
                || (ppu.scanline <= 239 && 1 <= ppu.cycle <= 256 && ppu.sprite_zero_hits()))
            &&& q.vblank_flag() == (ppu.dot() == vblank_dot() || (ppu.vblank_flag() && ppu.dot()
                != flags_drop_dot()))
        }),
{
    reveal(PPU::clock_model);
    lemma_chosen_stage(ppu);
}

/// `n` dots move the dot clock on by `n`, around the frame.
pub proof fn lemma_clocked_dot(ppu: PPU, n: nat)
    requires
        ppu.wf(),
    ensures
        ppu.clocked(n).wf(),
        ppu.clocked(n).dot() == (ppu.dot() + n) % 89342,
        ppu.clocked(n).ctrl == ppu.ctrl,
        ppu.clocked(n).mask == ppu.mask,
    decreases n,
{
    if n > 0 {
        lemma_clocked_dot(ppu, (n - 1) as nat);
        lemma_clock_step(ppu.clocked((n - 1) as nat));
    }
}

/// A frame is complete exactly when the dot clock has passed the last dot
/// of the frame: from the start of a frame, after 89342 dots and not
/// before.
pub proof fn lemma_frame_length(ppu: PPU, n: nat)
    requires
        ppu.wf(),
        !ppu.frame_complete,
        n <= 89342,
    ensures
        ppu.clocked(n).frame_complete == (ppu.dot() + n >= 89342),
        ppu.dot() == 0 ==> (ppu.clocked(n).frame_complete <==> n == 89342),
        ppu.dot() == 0 && n == 89342 ==> ppu.clocked(n).dot() == 0,
    decreases n,
{
    lemma_clocked_dot(ppu, n);
    if n > 0 {
        lemma_frame_length(ppu, (n - 1) as nat);
        lemma_clocked_dot(ppu, (n - 1) as nat);
        lemma_clock_step(ppu.clocked((n - 1) as nat));
    }
}

/// The dot that is worked `j` dots after dot `start`.
pub open spec fn dot_after(start: int, j: int) -> int {
    (start + j) % 89342
}

/// Among the 89342 dots that follow any dot, exactly one is the dot on
/// which vertical blank begins.
pub proof fn lemma_one_vblank_start_per_frame(start: int)
    requires
        0 <= start < 89342,
    ensures
        ({
            let k = (vblank_dot() - start + 89342) % 89342;
            &&& 0 <= k < 89342
            &&& forall|j: int|
                0 <= j < 89342 ==> (#[trigger] dot_after(start, j) == vblank_dot() <==> j == k)
        }),
{
}

/// With PPUCTRL asking for it and nobody lowering the line, the interrupt
/// line rises once in a frame: it is down until the dot on which vertical
/// blank begins was worked, and up from then on.
pub proof fn lemma_nmi_once_per_frame(ppu: PPU, n: nat)
    requires
        ppu.wf(),
        ppu.dot() == 0,
        !ppu.nmi,
        ppu.ctrl.enable_nmi.register != 0,
        n <= 89342,
    ensures
        ppu.clocked(n).nmi == (n > vblank_dot()),
    decreases n,
{
    if n > 0 {
        lemma_nmi_once_per_frame(ppu, (n - 1) as nat);
        lemma_clocked_dot(ppu, (n - 1) as nat);
        lemma_clock_step(ppu.clocked((n - 1) as nat));
    }
}

/// The interrupt line rises only where PPUCTRL asks for it: without, it
/// stays as it is.
pub proof fn lemma_nmi_needs_enable(ppu: PPU)
    requires
        ppu.wf(),
        ppu.ctrl.enable_nmi.register == 0,
    ensures
        ppu.clock_model().nmi == ppu.nmi,
{
    lemma_clock_step(ppu);
}

/// On a dot where sprite 0 shows a colour over a colour of the
/// background, with both layers switched on and the dot not clipped, the
/// sprite-zero flag is up after the dot.
pub proof fn lemma_sprite_zero_hit_sets_flag(ppu: PPU)
    requires
        ppu.wf(),
        ppu.scanline <= 239,
        1 <= ppu.cycle <= 256,
        ppu.sprite_zero_hits(),
    ensures
        ppu.clock_model().sprite_zero_flag(),
{
    lemma_clock_step(ppu);
}

/// Once up, the sprite-zero flag stays up until dot 1 of the pre-render
/// line is worked.
pub proof fn lemma_sprite_zero_flag_stays(ppu: PPU, n: nat)
    requires
        ppu.wf(),
        ppu.sprite_zero_flag(),
        ppu.dot() + n <= flags_drop_dot(),
    ensures
        ppu.clocked(n).sprite_zero_flag(),
    decreases n,
{
    if n > 0 {
        lemma_sprite_zero_flag_stays(ppu, (n - 1) as nat);
        lemma_clocked_dot(ppu, (n - 1) as nat);
        lemma_clock_step(ppu.clocked((n - 1) as nat));
    }
}

} // verus!
