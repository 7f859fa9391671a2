//! The bits of a colour word in the order in which they leave for the strip.

use vstd::prelude::*;
use super::Color;
use super::super::LedColorOrder;

verus! {

/// Bit `k` of `word`, bit 0 being the least significant.
pub open spec fn bit_of(word: u32, k: int) -> bool {
    (word >> (k as u32)) & 1 == 1
}

/// The low 24 bits of `word`, most significant first.
pub open spec fn bits_msb_first(word: u32) -> Seq<bool> {
    Seq::new(24, |i: int| bit_of(word, 23 - i))
}

/// The bits of one colour word that have not been read yet.
pub struct ColorBitString {
    color_u32: u32,
    current_bit_pos: u8,
}

impl View for ColorBitString {
    type V = Seq<bool>;

    /// The bits still to come, the next one first.
    closed spec fn view(&self) -> Seq<bool> {
        Seq::new(
            self.current_bit_pos as nat,
            |i: int| bit_of(self.color_u32, self.current_bit_pos - 1 - i),
        )
    }
}

impl ColorBitString {
    #[verifier::type_invariant]
    spec fn in_word(self) -> bool {
        self.current_bit_pos <= 24
    }

    /// Starts at the top of the 24-bit word.
    pub fn new(color_u32: u32) -> (bits: Self)
        ensures
            bits@ == bits_msb_first(color_u32),
    {
        let current_bit_pos: u8 = 24;
        let bits = Self { color_u32, current_bit_pos };
        assert(bits@ =~= bits_msb_first(color_u32));
        bits
    }

    /// Hands out the next bit, or `None` once all 24 have been read.
    pub fn next(&mut self) -> (bit: Option<bool>)
        ensures
            old(self)@.len() == 0 ==> bit is None && final(self)@ == old(self)@,
            old(self)@.len() > 0 ==> bit == Some(old(self)@[0]),
            old(self)@.len() > 0 ==> final(self)@ == old(self)@.drop_first(),
    {
        proof {
            use_type_invariant(&*self);
        }
        if self.current_bit_pos == 0 {
            return None;
        }
        self.current_bit_pos -= 1;
        let bit = (self.color_u32 >> self.current_bit_pos) & 1 == 1;
        assert(self@ =~= old(self)@.drop_first());
        Some(bit)
    }
}

impl Color {
    /// A fresh reader over the 24 bits of this colour's word, most
    /// significant first.
    pub fn to_bit_iter(&self, order: &LedColorOrder) -> (bits: ColorBitString)
        ensures
            bits@ == bits_msb_first(self.word(*order)),
    {
        ColorBitString::new(self.to_u32(order))
    }
}

} // verus!
