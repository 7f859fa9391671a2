//! What holds of the pulse train of every frame.

use vstd::prelude::*;
use super::color::bits::{bit_of, bits_msb_first};
use super::color::{pack, Color};
use super::{LedColorOrder, Strip};

verus! {

/// The word of black has no bit set, the word of white all 24, whatever
/// the channel order.
pub proof fn lemma_bits_of_black_and_white(order: LedColorOrder, j: int)
    requires
        0 <= j < 24,
    ensures
        !bits_msb_first((Color { red: 0, green: 0, blue: 0 }).word(order))[j],
        bits_msb_first((Color { red: 255, green: 255, blue: 255 }).word(order))[j],
{
    assert(pack(0, 0, 0) == 0) by (bit_vector);
    assert(pack(255, 255, 255) == 0xFF_FFFF) by (bit_vector);
    let k = (23 - j) as u32;
    assert((0u32 >> k) & 1 != 1) by (bit_vector);
    assert((0xFF_FFFFu32 >> k) & 1 == 1) by (bit_vector)
        requires
            k < 24,
    ;
}

/// Pair `24 * p + j` of the train carries bit `23 - j` of the word of
/// pixel `p`.
pub proof fn lemma_pulse_of_pixel_bit(strip: Strip, colors: Seq<Color>, p: int, j: int)
    requires
        0 <= p < colors.len(),
        0 <= j < 24,
    ensures
        strip.encoded(colors).len() == 24 * colors.len(),
        strip.encoded(colors)[24 * p + j] == strip.pulse_for(
            bit_of(colors[p].word(strip.led_color_order), 23 - j),
        ),
{
    assert((24 * p + j) / 24 == p);
    assert((24 * p + j) % 24 == j);
}

/// A black pixel leaves as 24 zero pulses, a white pixel as 24 one pulses.
pub proof fn lemma_pulses_of_black_and_white(strip: Strip, colors: Seq<Color>, p: int, j: int)
    requires
        0 <= p < colors.len(),
        0 <= j < 24,
    ensures
        colors[p] == (Color { red: 0, green: 0, blue: 0 }) ==> strip.encoded(colors)[24 * p + j]
            == strip.pulse_for(false),
        colors[p] == (Color { red: 255, green: 255, blue: 255 }) ==> strip.encoded(colors)[24 * p
            + j] == strip.pulse_for(true),
{
    lemma_pulse_of_pixel_bit(strip, colors, p, j);
    lemma_bits_of_black_and_white(strip.led_color_order, j);
}

} // verus!
