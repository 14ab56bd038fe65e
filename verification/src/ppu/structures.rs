//! Registers as named bit fields of one word, sprite entries and pixels.

use crate::consts::ppu_consts::{
    CTRL_ENABLE_NMI, CTRL_INCREMENT_MODE, CTRL_NAMETABLE_X, CTRL_NAMETABLE_Y,
    CTRL_PATTERN_BACKGROUND, CTRL_PATTERN_SPRITE, CTRL_SLAVE_MODE, CTRL_SPRITE_SIZE,
    MASK_ENHANCE_BLUE, MASK_ENHANCE_GREEN, MASK_ENHANCE_RED, MASK_GRAYSCALE,
    MASK_RENDER_BACKGROUND, MASK_RENDER_BACKGROUND_LEFT, MASK_RENDER_SPRITES,
    MASK_RENDER_SPRITES_LEFT, REG_COARSE_X, REG_COARSE_Y, REG_FINE_Y, REG_NAMETABLE_X,
    REG_NAMETABLE_Y, REG_UNUSED, STATUS_SPRT_HIT_ZERO_MASK, STATUS_SPRT_OVERFLOW_MASK,
    STATUS_UNUSED_MASK, STATUS_VERTICAL_BLANK_MASK,
};
use vstd::prelude::*;

verus! {

/// One named field of a register word: the field's bits, kept where they
/// lie in the word, with the mask that selects them.
#[derive(Debug, Default, Clone, Copy)]
pub struct Register<T> {
    pub register: T,
    pub mask: T,
    /// How many bits wide the field is.
    pub size: usize,
    /// How far the field lies from bit 0.
    pub left_shift: usize,
}

/// The number of zero bits below the lowest set bit of `word`; `bits` for a
/// word of `bits` bits that is zero.
pub open spec fn trailing_zeros_of(word: nat, bits: nat) -> nat
    decreases bits,
{
    if bits == 0 || word % 2 == 1 {
        0
    } else {
        1 + trailing_zeros_of(word / 2, (bits - 1) as nat)
    }
}

/// The number of set bits of `word`.
pub open spec fn count_ones_model(word: nat) -> nat
    decreases word,
{
    if word == 0 {
        0
    } else {
        word % 2 + count_ones_model(word / 2)
    }
}

pub open spec fn u8_wrapping_sum(a: u8, b: u8) -> u8 {
    ((a + b) % 256) as u8
}

pub open spec fn u8_wrapping_difference(a: u8, b: u8) -> u8 {
    ((a - b) % 256) as u8
}

pub open spec fn u16_wrapping_sum(a: u16, b: u16) -> u16 {
    ((a + b) % 65536) as u16
}

pub open spec fn u16_wrapping_difference(a: u16, b: u16) -> u16 {
    ((a - b) % 65536) as u16
}

/// `PrimInt::count_ones` of num-traits on a `u8`. It hands the word to
/// `u8::count_ones`, which counts the set bits.
#[verifier::external_body]
fn u8_count_ones(word: u8) -> (r: u32)
    ensures
        r == count_ones_model(word as nat),
{
    num_traits::PrimInt::count_ones(word)
}

/// `PrimInt::trailing_zeros` of num-traits on a `u8`. It hands the word to
/// `u8::trailing_zeros`, which counts the zero bits below the lowest set
/// bit and answers 8 for zero.
#[verifier::external_body]
fn u8_trailing_zeros(word: u8) -> (r: u32)
    ensures
        r == trailing_zeros_of(word as nat, 8),
{
    num_traits::PrimInt::trailing_zeros(word)
}

/// `PrimInt::count_ones` of num-traits on a `u16`. It hands the word to
/// `u16::count_ones`, which counts the set bits.
#[verifier::external_body]
fn u16_count_ones(word: u16) -> (r: u32)
    ensures
        r == count_ones_model(word as nat),
{
    num_traits::PrimInt::count_ones(word)
}

/// `PrimInt::trailing_zeros` of num-traits on a `u16`. It hands the word to
/// `u16::trailing_zeros`, which counts the zero bits below the lowest set
/// bit and answers 16 for zero.
#[verifier::external_body]
fn u16_trailing_zeros(word: u16) -> (r: u32)
    ensures
        r == trailing_zeros_of(word as nat, 16),
{
    num_traits::PrimInt::trailing_zeros(word)
}

proof fn lemma_masked_u8(x: u8, m: u8)
    by (bit_vector)
    ensures
        (x & m) & !m == 0,
{
}

proof fn lemma_masked_u16(x: u16, m: u16)
    by (bit_vector)
    ensures
        (x & m) & !m == 0,
{
}

impl Register<u8> {
    /// Whether two fields are the same field with the same bits.
    pub fn same(&self, other: &Register<u8>) -> (r: bool)
        ensures
            r == (*self == *other),
    {
        self.register == other.register && self.mask == other.mask && self.size == other.size
            && self.left_shift == other.left_shift
    }

    /// The field lies inside its mask, and the shift and the width are those
    /// of the mask.
    pub open spec fn wf(&self) -> bool {
        &&& self.register & !self.mask == 0
        &&& self.left_shift == trailing_zeros_of(self.mask as nat, 8)
        &&& self.size == count_ones_model(self.mask as nat)
        &&& self.left_shift < 8
    }

    /// The field of `data` that `mask` selects.
    pub open spec fn field(data: u8, mask: u8) -> Register<u8> {
        Register {
            register: data & mask,
            mask,
            size: count_ones_model(mask as nat) as usize,
            left_shift: trailing_zeros_of(mask as nat, 8) as usize,
        }
    }

    pub fn new(data: u8, mask: u8) -> (r: Self)
        ensures
            r == Self::field(data, mask),
    {
        let size: usize = u8_count_ones(mask) as usize;
        let left_shift: usize = u8_trailing_zeros(mask) as usize;
        let register: u8 = data & mask;
        Register { register, mask, size, left_shift }
    }

    /// The field's bits where they lie in the word.
    pub fn get(&self) -> (r: u8)
        ensures
            r == self.register,
    {
        self.register
    }

    /// The field's bits moved down to bit 0.
    pub fn get_as_value(&self) -> (r: u8)
        requires
            self.left_shift < 8,
        ensures
            r == self.register >> (self.left_shift as u8),
    {
        self.register >> (self.left_shift as u8)
    }

    pub fn get_as_bool(&self) -> (r: bool)
        ensures
            r == (self.register != 0),
    {
        self.register != 0
    }

    /// Takes the field's bits from a word in which they lie in place.
    pub fn set(&mut self, new: u8)
        ensures
            final(self).register == new & old(self).mask,
            final(self).mask == old(self).mask,
            final(self).size == old(self).size,
            final(self).left_shift == old(self).left_shift,
            final(self).register & !final(self).mask == 0,
    {
        proof {
            lemma_masked_u8(new, self.mask);
        }
        self.register = new & self.mask;
    }

    /// Takes the field's bits from a value that starts at bit 0.
    pub fn set_with_unshifted(&mut self, new: u8)
        requires
            old(self).left_shift < 8,
        ensures
            final(self).register == (new << (old(self).left_shift as u8)) & old(self).mask,
            final(self).mask == old(self).mask,
            final(self).size == old(self).size,
            final(self).left_shift == old(self).left_shift,
            final(self).register & !final(self).mask == 0,
    {
        let shifted: u8 = new << (self.left_shift as u8);
        proof {
            lemma_masked_u8(shifted, self.mask);
        }
        self.register = shifted & self.mask;
    }

    pub fn flip_bits(&mut self)
        ensures
            final(self).register == !old(self).register & old(self).mask,
            final(self).mask == old(self).mask,
            final(self).size == old(self).size,
            final(self).left_shift == old(self).left_shift,
            final(self).register & !final(self).mask == 0,
    {
        proof {
            lemma_masked_u8(!self.register, self.mask);
        }
        self.register = !self.register & self.mask;
    }

    pub fn zero(&mut self)
        ensures
            final(self).register == 0,
            final(self).mask == old(self).mask,
            final(self).size == old(self).size,
            final(self).left_shift == old(self).left_shift,
            final(self).register & !final(self).mask == 0,
    {
        proof {
            lemma_masked_u8(0, self.mask);
            lemma_zero_and_u8(self.mask);
        }
        self.register = 0;
    }

    /// Sets the field to one: its lowest bit alone.
    pub fn one(&mut self)
        requires
            old(self).left_shift < 8,
        ensures
            final(self).register == (1u8 << (old(self).left_shift as u8)) & old(self).mask,
            final(self).mask == old(self).mask,
            final(self).size == old(self).size,
            final(self).left_shift == old(self).left_shift,
            final(self).register & !final(self).mask == 0,
    {
        let bit: u8 = 1u8 << (self.left_shift as u8);
        proof {
            lemma_masked_u8(bit, self.mask);
        }
        self.register = bit & self.mask;
    }

    /// Adds one to the field's value. The sum wraps inside the field and
    /// carries into no other bit of the word.
    pub fn increment(&mut self)
        requires
            old(self).left_shift < 8,
        ensures
            final(self).register == u8_wrapping_sum(
                old(self).register,
                1u8 << (old(self).left_shift as u8),
            ) & old(self).mask,
            final(self).mask == old(self).mask,
            final(self).size == old(self).size,
            final(self).left_shift == old(self).left_shift,
            final(self).register & !final(self).mask == 0,
    {
        let bit: u8 = 1u8 << (self.left_shift as u8);
        let sum: u8 = self.register.wrapping_add(bit);
        proof {
            lemma_masked_u8(sum, self.mask);
        }
        self.register = sum & self.mask;
    }

    /// Takes one from the field's value. The difference wraps inside the
    /// field and borrows from no other bit of the word.
    pub fn decrement(&mut self)
        requires
            old(self).left_shift < 8,
        ensures
            final(self).register == u8_wrapping_difference(
                old(self).register,
                1u8 << (old(self).left_shift as u8),
            ) & old(self).mask,
            final(self).mask == old(self).mask,
            final(self).size == old(self).size,
            final(self).left_shift == old(self).left_shift,
            final(self).register & !final(self).mask == 0,
    {
        let bit: u8 = 1u8 << (self.left_shift as u8);
        let difference: u8 = self.register.wrapping_sub(bit);
        proof {
            lemma_masked_u8(difference, self.mask);
        }
        self.register = difference & self.mask;
    }
}

impl Register<u16> {
    /// Whether two fields are the same field with the same bits.
    pub fn same(&self, other: &Register<u16>) -> (r: bool)
        ensures
            r == (*self == *other),
    {
        self.register == other.register && self.mask == other.mask && self.size == other.size
            && self.left_shift == other.left_shift
    }

    /// The field lies inside its mask, and the shift and the width are those
    /// of the mask.
    pub open spec fn wf(&self) -> bool {
        &&& self.register & !self.mask == 0
        &&& self.left_shift == trailing_zeros_of(self.mask as nat, 16)
        &&& self.size == count_ones_model(self.mask as nat)
        &&& self.left_shift < 16
    }

    /// The field of `data` that `mask` selects.
    pub open spec fn field(data: u16, mask: u16) -> Register<u16> {
        Register {
            register: data & mask,
            mask,
            size: count_ones_model(mask as nat) as usize,
            left_shift: trailing_zeros_of(mask as nat, 16) as usize,
        }
    }

    pub fn new(data: u16, mask: u16) -> (r: Self)
        ensures
            r == Self::field(data, mask),
    {
        let size: usize = u16_count_ones(mask) as usize;
        let left_shift: usize = u16_trailing_zeros(mask) as usize;
        let register: u16 = data & mask;
        Register { register, mask, size, left_shift }
    }

    /// The field's bits where they lie in the word.
    pub fn get(&self) -> (r: u16)
        ensures
            r == self.register,
    {
        self.register
    }

    /// The field's bits moved down to bit 0.
    pub fn get_as_value(&self) -> (r: u16)
        requires
            self.left_shift < 16,
        ensures
            r == self.register >> (self.left_shift as u16),
    {
        self.register >> (self.left_shift as u16)
    }

    pub fn get_as_bool(&self) -> (r: bool)
        ensures
            r == (self.register != 0),
    {
        self.register != 0
    }

    /// Takes the field's bits from a word in which they lie in place.
    pub fn set(&mut self, new: u16)
        ensures
            final(self).register == new & old(self).mask,
            final(self).mask == old(self).mask,
            final(self).size == old(self).size,
            final(self).left_shift == old(self).left_shift,
            final(self).register & !final(self).mask == 0,
    {
        proof {
            lemma_masked_u16(new, self.mask);
        }
        self.register = new & self.mask;
    }

    /// Takes the field's bits from a value that starts at bit 0.
    pub fn set_with_unshifted(&mut self, new: u16)
        requires
            old(self).left_shift < 16,
        ensures
            final(self).register == (new << (old(self).left_shift as u16)) & old(self).mask,
            final(self).mask == old(self).mask,
            final(self).size == old(self).size,
            final(self).left_shift == old(self).left_shift,
            final(self).register & !final(self).mask == 0,
    {
        let shifted: u16 = new << (self.left_shift as u16);
        proof {
            lemma_masked_u16(shifted, self.mask);
        }
        self.register = shifted & self.mask;
    }

    pub fn flip_bits(&mut self)
        ensures
            final(self).register == !old(self).register & old(self).mask,
            final(self).mask == old(self).mask,
            final(self).size == old(self).size,
            final(self).left_shift == old(self).left_shift,
            final(self).register & !final(self).mask == 0,
    {
        proof {
            lemma_masked_u16(!self.register, self.mask);
        }
        self.register = !self.register & self.mask;
    }

    pub fn zero(&mut self)
        ensures
            final(self).register == 0,
            final(self).mask == old(self).mask,
            final(self).size == old(self).size,
            final(self).left_shift == old(self).left_shift,
            final(self).register & !final(self).mask == 0,
    {
        proof {
            lemma_masked_u16(0, self.mask);
            lemma_zero_and_u16(self.mask);
        }
        self.register = 0;
    }

    /// Sets the field to one: its lowest bit alone.
    pub fn one(&mut self)
        requires
            old(self).left_shift < 16,
        ensures
            final(self).register == (1u16 << (old(self).left_shift as u16)) & old(self).mask,
            final(self).mask == old(self).mask,
            final(self).size == old(self).size,
            final(self).left_shift == old(self).left_shift,
            final(self).register & !final(self).mask == 0,
    {
        let bit: u16 = 1u16 << (self.left_shift as u16);
        proof {
            lemma_masked_u16(bit, self.mask);
        }
        self.register = bit & self.mask;
    }

    /// Adds one to the field's value. The sum wraps inside the field and
    /// carries into no other bit of the word.
    pub fn increment(&mut self)
        requires
            old(self).left_shift < 16,
        ensures
            final(self).register == u16_wrapping_sum(
                old(self).register,
                1u16 << (old(self).left_shift as u16),
            ) & old(self).mask,
            final(self).mask == old(self).mask,
            final(self).size == old(self).size,
            final(self).left_shift == old(self).left_shift,
            final(self).register & !final(self).mask == 0,
    {
        let bit: u16 = 1u16 << (self.left_shift as u16);
        let sum: u16 = self.register.wrapping_add(bit);
        proof {
            lemma_masked_u16(sum, self.mask);
        }
        self.register = sum & self.mask;
    }

    /// Takes one from the field's value. The difference wraps inside the
    /// field and borrows from no other bit of the word.
    pub fn decrement(&mut self)
        requires
            old(self).left_shift < 16,
        ensures
            final(self).register == u16_wrapping_difference(
                old(self).register,
                1u16 << (old(self).left_shift as u16),
            ) & old(self).mask,
            final(self).mask == old(self).mask,
            final(self).size == old(self).size,
            final(self).left_shift == old(self).left_shift,
            final(self).register & !final(self).mask == 0,
    {
        let bit: u16 = 1u16 << (self.left_shift as u16);
        let difference: u16 = self.register.wrapping_sub(bit);
        proof {
            lemma_masked_u16(difference, self.mask);
        }
        self.register = difference & self.mask;
    }
}

/// PPUSTATUS ($2002): five bits of bus noise below sprite overflow, sprite-zero hit and vertical blank.
#[derive(Debug, Default, Clone, Copy)]
pub struct StatusRegister {
    pub unused: Register<u8>,
    pub sprite_overflow: Register<u8>,
    pub sprite_zero_hit: Register<u8>,
    pub vertical_blank: Register<u8>,
}

impl View for StatusRegister {
    type V = u8;

    /// The register as one word.
    open spec fn view(&self) -> u8 {
        self.unused.register
            | self.sprite_overflow.register
            | self.sprite_zero_hit.register
            | self.vertical_blank.register
    }
}

impl StatusRegister {
    /// The register that holds `word`, field by field.
    pub open spec fn model(word: u8) -> StatusRegister {
        StatusRegister {
            unused: Register::<u8>::field(word, STATUS_UNUSED_MASK),
            sprite_overflow: Register::<u8>::field(word, STATUS_SPRT_OVERFLOW_MASK),
            sprite_zero_hit: Register::<u8>::field(word, STATUS_SPRT_HIT_ZERO_MASK),
            vertical_blank: Register::<u8>::field(word, STATUS_VERTICAL_BLANK_MASK),
        }
    }

    /// Every field has its own mask, and holds the bits of the word that
    /// the mask selects.
    pub open spec fn wf(&self) -> bool {
        *self == Self::model(self@)
    }

    /// The fields of a word make up the word again.
    pub proof fn lemma_model_view(word: u8)
        ensures
            Self::model(word)@ == word,
            Self::model(word).wf(),
    {
        Self::lemma_fields_cover(word);
    }

    proof fn lemma_fields_cover(word: u8)
        by (bit_vector)
        ensures
            (word & STATUS_UNUSED_MASK) | (word & STATUS_SPRT_OVERFLOW_MASK) | (word & STATUS_SPRT_HIT_ZERO_MASK) | (word & STATUS_VERTICAL_BLANK_MASK) == word,
    {
    }

    /// Whether the register is well formed.
    pub fn is_valid(&self) -> (r: bool)
        ensures
            r == self.wf(),
    {
        let expected = Self::from(self.get_register());
        self.unused.same(&expected.unused) && self.sprite_overflow.same(&expected.sprite_overflow) && self.sprite_zero_hit.same(&expected.sprite_zero_hit) && self.vertical_blank.same(&expected.vertical_blank)
    }

    pub fn get_register(&self) -> (r: u8)
        ensures
            r == self@,
    {
        self.unused.get()
            | self.sprite_overflow.get()
            | self.sprite_zero_hit.get()
            | self.vertical_blank.get()
    }

    pub fn set_register(&mut self, new: u8)
        requires
            old(self).wf(),
        ensures
            *final(self) == Self::model(new),
            final(self)@ == new,
            final(self).wf(),
    {
        self.unused.set(new);
        self.sprite_overflow.set(new);
        self.sprite_zero_hit.set(new);
        self.vertical_blank.set(new);
        proof {
            Self::lemma_model_view(new);
        }
    }
}

impl From<u8> for StatusRegister {
    fn from(value: u8) -> (r: Self) {
        Self {
            unused: Register::<u8>::new(value, STATUS_UNUSED_MASK),
            sprite_overflow: Register::<u8>::new(value, STATUS_SPRT_OVERFLOW_MASK),
            sprite_zero_hit: Register::<u8>::new(value, STATUS_SPRT_HIT_ZERO_MASK),
            vertical_blank: Register::<u8>::new(value, STATUS_VERTICAL_BLANK_MASK),
        }
    }
}

impl vstd::std_specs::convert::FromSpecImpl<u8> for StatusRegister {
    open spec fn obeys_from_spec() -> bool {
        true
    }

    open spec fn from_spec(value: u8) -> Self {
        Self::model(value)
    }
}

/// PPUCTRL ($2000).
#[derive(Debug, Default, Clone, Copy)]
pub struct ControlRegister {
    pub nametable_x: Register<u8>,
    pub nametable_y: Register<u8>,
    pub increment_mode: Register<u8>,
    pub pattern_sprite: Register<u8>,
    pub pattern_background: Register<u8>,
    pub sprite_size: Register<u8>,
    pub slave_mode: Register<u8>,
    pub enable_nmi: Register<u8>,
}

impl View for ControlRegister {
    type V = u8;

    /// The register as one word.
    open spec fn view(&self) -> u8 {
        self.nametable_x.register
            | self.nametable_y.register
            | self.increment_mode.register
            | self.pattern_sprite.register
            | self.pattern_background.register
            | self.sprite_size.register
            | self.slave_mode.register
            | self.enable_nmi.register
    }
}

impl ControlRegister {
    /// The register that holds `word`, field by field.
    pub open spec fn model(word: u8) -> ControlRegister {
        ControlRegister {
            nametable_x: Register::<u8>::field(word, CTRL_NAMETABLE_X),
            nametable_y: Register::<u8>::field(word, CTRL_NAMETABLE_Y),
            increment_mode: Register::<u8>::field(word, CTRL_INCREMENT_MODE),
            pattern_sprite: Register::<u8>::field(word, CTRL_PATTERN_SPRITE),
            pattern_background: Register::<u8>::field(word, CTRL_PATTERN_BACKGROUND),
            sprite_size: Register::<u8>::field(word, CTRL_SPRITE_SIZE),
            slave_mode: Register::<u8>::field(word, CTRL_SLAVE_MODE),
            enable_nmi: Register::<u8>::field(word, CTRL_ENABLE_NMI),
        }
    }

    /// Every field has its own mask, and holds the bits of the word that
    /// the mask selects.
    pub open spec fn wf(&self) -> bool {
        *self == Self::model(self@)
    }

    /// The fields of a word make up the word again.
    pub proof fn lemma_model_view(word: u8)
        ensures
            Self::model(word)@ == word,
            Self::model(word).wf(),
    {
        Self::lemma_fields_cover(word);
    }

    proof fn lemma_fields_cover(word: u8)
        by (bit_vector)
        ensures
            (word & CTRL_NAMETABLE_X) | (word & CTRL_NAMETABLE_Y) | (word & CTRL_INCREMENT_MODE) | (word & CTRL_PATTERN_SPRITE) | (word & CTRL_PATTERN_BACKGROUND) | (word & CTRL_SPRITE_SIZE) | (word & CTRL_SLAVE_MODE) | (word & CTRL_ENABLE_NMI) == word,
    {
    }

    /// Whether the register is well formed.
    pub fn is_valid(&self) -> (r: bool)
        ensures
            r == self.wf(),
    {
        let expected = Self::from(self.get_register());
        self.nametable_x.same(&expected.nametable_x) && self.nametable_y.same(&expected.nametable_y) && self.increment_mode.same(&expected.increment_mode) && self.pattern_sprite.same(&expected.pattern_sprite) && self.pattern_background.same(&expected.pattern_background) && self.sprite_size.same(&expected.sprite_size) && self.slave_mode.same(&expected.slave_mode) && self.enable_nmi.same(&expected.enable_nmi)
    }

    pub fn get_register(&self) -> (r: u8)
        ensures
            r == self@,
    {
        self.nametable_x.get()
            | self.nametable_y.get()
            | self.increment_mode.get()
            | self.pattern_sprite.get()
            | self.pattern_background.get()
            | self.sprite_size.get()
            | self.slave_mode.get()
            | self.enable_nmi.get()
    }

    pub fn set_register(&mut self, new: u8)
        requires
            old(self).wf(),
        ensures
            *final(self) == Self::model(new),
            final(self)@ == new,
            final(self).wf(),
    {
        self.nametable_x.set(new);
        self.nametable_y.set(new);
        self.increment_mode.set(new);
        self.pattern_sprite.set(new);
        self.pattern_background.set(new);
        self.sprite_size.set(new);
        self.slave_mode.set(new);
        self.enable_nmi.set(new);
        proof {
            Self::lemma_model_view(new);
        }
    }
}

impl From<u8> for ControlRegister {
    fn from(value: u8) -> (r: Self) {
        Self {
            nametable_x: Register::<u8>::new(value, CTRL_NAMETABLE_X),
            nametable_y: Register::<u8>::new(value, CTRL_NAMETABLE_Y),
            increment_mode: Register::<u8>::new(value, CTRL_INCREMENT_MODE),
            pattern_sprite: Register::<u8>::new(value, CTRL_PATTERN_SPRITE),
            pattern_background: Register::<u8>::new(value, CTRL_PATTERN_BACKGROUND),
            sprite_size: Register::<u8>::new(value, CTRL_SPRITE_SIZE),
            slave_mode: Register::<u8>::new(value, CTRL_SLAVE_MODE),
            enable_nmi: Register::<u8>::new(value, CTRL_ENABLE_NMI),
        }
    }
}

impl vstd::std_specs::convert::FromSpecImpl<u8> for ControlRegister {
    open spec fn obeys_from_spec() -> bool {
        true
    }

    open spec fn from_spec(value: u8) -> Self {
        Self::model(value)
    }
}

/// PPUMASK ($2001).
#[derive(Debug, Default, Clone, Copy)]
pub struct MaskRegister {
    pub grayscale: Register<u8>,
    pub render_background_left: Register<u8>,
    pub render_sprites_left: Register<u8>,
    pub render_background: Register<u8>,
    pub render_sprites: Register<u8>,
    pub enhance_red: Register<u8>,
    pub enhance_green: Register<u8>,
    pub enhance_blue: Register<u8>,
}

impl View for MaskRegister {
    type V = u8;

    /// The register as one word.
    open spec fn view(&self) -> u8 {
        self.grayscale.register
            | self.render_background_left.register
            | self.render_sprites_left.register
            | self.render_background.register
            | self.render_sprites.register
            | self.enhance_red.register
            | self.enhance_green.register
            | self.enhance_blue.register
    }
}

impl MaskRegister {
    /// The register that holds `word`, field by field.
    pub open spec fn model(word: u8) -> MaskRegister {
        MaskRegister {
            grayscale: Register::<u8>::field(word, MASK_GRAYSCALE),
            render_background_left: Register::<u8>::field(word, MASK_RENDER_BACKGROUND_LEFT),
            render_sprites_left: Register::<u8>::field(word, MASK_RENDER_SPRITES_LEFT),
            render_background: Register::<u8>::field(word, MASK_RENDER_BACKGROUND),
            render_sprites: Register::<u8>::field(word, MASK_RENDER_SPRITES),
            enhance_red: Register::<u8>::field(word, MASK_ENHANCE_RED),
            enhance_green: Register::<u8>::field(word, MASK_ENHANCE_GREEN),
            enhance_blue: Register::<u8>::field(word, MASK_ENHANCE_BLUE),
        }
    }

    /// Every field has its own mask, and holds the bits of the word that
    /// the mask selects.
    pub open spec fn wf(&self) -> bool {
        *self == Self::model(self@)
    }

    /// The fields of a word make up the word again.
    pub proof fn lemma_model_view(word: u8)
        ensures
            Self::model(word)@ == word,
            Self::model(word).wf(),
    {
        Self::lemma_fields_cover(word);
    }

    proof fn lemma_fields_cover(word: u8)
        by (bit_vector)
        ensures
            (word & MASK_GRAYSCALE) | (word & MASK_RENDER_BACKGROUND_LEFT) | (word & MASK_RENDER_SPRITES_LEFT) | (word & MASK_RENDER_BACKGROUND) | (word & MASK_RENDER_SPRITES) | (word & MASK_ENHANCE_RED) | (word & MASK_ENHANCE_GREEN) | (word & MASK_ENHANCE_BLUE) == word,
    {
    }

    /// Whether the register is well formed.
    pub fn is_valid(&self) -> (r: bool)
        ensures
            r == self.wf(),
    {
        let expected = Self::from(self.get_register());
        self.grayscale.same(&expected.grayscale) && self.render_background_left.same(&expected.render_background_left) && self.render_sprites_left.same(&expected.render_sprites_left) && self.render_background.same(&expected.render_background) && self.render_sprites.same(&expected.render_sprites) && self.enhance_red.same(&expected.enhance_red) && self.enhance_green.same(&expected.enhance_green) && self.enhance_blue.same(&expected.enhance_blue)
    }

    pub fn get_register(&self) -> (r: u8)
        ensures
            r == self@,
    {
        self.grayscale.get()
            | self.render_background_left.get()
            | self.render_sprites_left.get()
            | self.render_background.get()
            | self.render_sprites.get()
            | self.enhance_red.get()
            | self.enhance_green.get()
            | self.enhance_blue.get()
    }

    pub fn set_register(&mut self, new: u8)
        requires
            old(self).wf(),
        ensures
            *final(self) == Self::model(new),
            final(self)@ == new,
            final(self).wf(),
    {
        self.grayscale.set(new);
        self.render_background_left.set(new);
        self.render_sprites_left.set(new);
        self.render_background.set(new);
        self.render_sprites.set(new);
        self.enhance_red.set(new);
        self.enhance_green.set(new);
        self.enhance_blue.set(new);
        proof {
            Self::lemma_model_view(new);
        }
    }
}

impl From<u8> for MaskRegister {
    fn from(value: u8) -> (r: Self) {
        Self {
            grayscale: Register::<u8>::new(value, MASK_GRAYSCALE),
            render_background_left: Register::<u8>::new(value, MASK_RENDER_BACKGROUND_LEFT),
            render_sprites_left: Register::<u8>::new(value, MASK_RENDER_SPRITES_LEFT),
            render_background: Register::<u8>::new(value, MASK_RENDER_BACKGROUND),
            render_sprites: Register::<u8>::new(value, MASK_RENDER_SPRITES),
            enhance_red: Register::<u8>::new(value, MASK_ENHANCE_RED),
            enhance_green: Register::<u8>::new(value, MASK_ENHANCE_GREEN),
            enhance_blue: Register::<u8>::new(value, MASK_ENHANCE_BLUE),
        }
    }
}

impl vstd::std_specs::convert::FromSpecImpl<u8> for MaskRegister {
    open spec fn obeys_from_spec() -> bool {
        true
    }

    open spec fn from_spec(value: u8) -> Self {
        Self::model(value)
    }
}

/// A VRAM address word: coarse X and Y, the nametable pair, fine Y.
#[derive(Debug, Default, Clone, Copy)]
pub struct VramRegister {
    pub coarse_x: Register<u16>,
    pub coarse_y: Register<u16>,
    pub nametable_x: Register<u16>,
    pub nametable_y: Register<u16>,
    pub fine_y: Register<u16>,
    pub unused: Register<u16>,
}

impl View for VramRegister {
    type V = u16;

    /// The register as one word.
    open spec fn view(&self) -> u16 {
        self.coarse_x.register
            | self.coarse_y.register
            | self.nametable_x.register
            | self.nametable_y.register
            | self.fine_y.register
            | self.unused.register
    }
}

impl VramRegister {
    /// The register that holds `word`, field by field.
    pub open spec fn model(word: u16) -> VramRegister {
        VramRegister {
            coarse_x: Register::<u16>::field(word, REG_COARSE_X),
            coarse_y: Register::<u16>::field(word, REG_COARSE_Y),
            nametable_x: Register::<u16>::field(word, REG_NAMETABLE_X),
            nametable_y: Register::<u16>::field(word, REG_NAMETABLE_Y),
            fine_y: Register::<u16>::field(word, REG_FINE_Y),
            unused: Register::<u16>::field(word, REG_UNUSED),
        }
    }

    /// Every field has its own mask, and holds the bits of the word that
    /// the mask selects.
    pub open spec fn wf(&self) -> bool {
        *self == Self::model(self@)
    }

    /// The fields of a word make up the word again.
    pub proof fn lemma_model_view(word: u16)
        ensures
            Self::model(word)@ == word,
            Self::model(word).wf(),
    {
        Self::lemma_fields_cover(word);
    }

    proof fn lemma_fields_cover(word: u16)
        by (bit_vector)
        ensures
            (word & REG_COARSE_X) | (word & REG_COARSE_Y) | (word & REG_NAMETABLE_X) | (word & REG_NAMETABLE_Y) | (word & REG_FINE_Y) | (word & REG_UNUSED) == word,
    {
    }

    /// Whether the register is well formed.
    pub fn is_valid(&self) -> (r: bool)
        ensures
            r == self.wf(),
    {
        let expected = Self::from(self.get_register());
        self.coarse_x.same(&expected.coarse_x) && self.coarse_y.same(&expected.coarse_y) && self.nametable_x.same(&expected.nametable_x) && self.nametable_y.same(&expected.nametable_y) && self.fine_y.same(&expected.fine_y) && self.unused.same(&expected.unused)
    }

    pub fn get_register(&self) -> (r: u16)
        ensures
            r == self@,
    {
        self.coarse_x.get()
            | self.coarse_y.get()
            | self.nametable_x.get()
            | self.nametable_y.get()
            | self.fine_y.get()
            | self.unused.get()
    }

    pub fn set_register(&mut self, new: u16)
        requires
            old(self).wf(),
        ensures
            *final(self) == Self::model(new),
            final(self)@ == new,
            final(self).wf(),
    {
        self.coarse_x.set(new);
        self.coarse_y.set(new);
        self.nametable_x.set(new);
        self.nametable_y.set(new);
        self.fine_y.set(new);
        self.unused.set(new);
        proof {
            Self::lemma_model_view(new);
        }
    }
}

impl From<u16> for VramRegister {
    fn from(value: u16) -> (r: Self) {
        Self {
            coarse_x: Register::<u16>::new(value, REG_COARSE_X),
            coarse_y: Register::<u16>::new(value, REG_COARSE_Y),
            nametable_x: Register::<u16>::new(value, REG_NAMETABLE_X),
            nametable_y: Register::<u16>::new(value, REG_NAMETABLE_Y),
            fine_y: Register::<u16>::new(value, REG_FINE_Y),
            unused: Register::<u16>::new(value, REG_UNUSED),
        }
    }
}

impl vstd::std_specs::convert::FromSpecImpl<u16> for VramRegister {
    open spec fn obeys_from_spec() -> bool {
        true
    }

    open spec fn from_spec(value: u16) -> Self {
        Self::model(value)
    }
}

proof fn lemma_zero_and_u8(m: u8)
    by (bit_vector)
    ensures
        0u8 & !m == 0,
{
}

proof fn lemma_zero_and_u16(m: u16)
    by (bit_vector)
    ensures
        0u16 & !m == 0,
{
}

/// One sprite of object attribute memory.
#[derive(Debug, Default, Clone, Copy, PartialEq, Eq, Structural)]
pub struct ObjectAttributeEntry {
    pub y: u8,
    pub id: u8,
    pub attribute: u8,
    pub x: u8,
}

impl ObjectAttributeEntry {
    /// The sprite's x, y, tile and attribute as 16-bit values.
    pub fn to_u16_arr(&self) -> (r: (u16, u16, u16, u16))
        ensures
            r == (self.x as u16, self.y as u16, self.id as u16, self.attribute as u16),
    {
        (self.x as u16, self.y as u16, self.id as u16, self.attribute as u16)
    }
}

/// Red, green, blue.
#[derive(Debug, Default, Clone, Copy, PartialEq, Eq, Structural)]
pub struct Pixel(pub u8, pub u8, pub u8);

/// Red, green, blue, alpha.
#[derive(Debug, Default, Clone, Copy, PartialEq, Eq, Structural)]
pub struct AlphaPixel(pub u8, pub u8, pub u8, pub u8);

} // verus!
