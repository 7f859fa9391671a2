//! What holds of the colour conversions and operators for every colour.

use vstd::prelude::*;
use super::{byte_at, pack, Color};
use super::super::LedColorOrder;
use super::hsv::{
    channels_of, chroma_of, color_of, hue_of, lemma_channels_in_range, lemma_hsv_in_range, max3,
    min3, ramp, saturation_of,
};
use super::rounding::{
    lemma_rescale_round_trip, lemma_rescale_round_trip_negated, lemma_round_div_bounds,
    lemma_round_div_exact, lemma_round_div_monotonic, round_div,
};

verus! {

/// The chroma computed from a colour's own saturation and value is the
/// spread of its channels.
pub proof fn lemma_chroma_recovered(r: int, g: int, b: int)
    requires
        0 <= r <= 255,
        0 <= g <= 255,
        0 <= b <= 255,
    ensures
        chroma_of(saturation_of(r, g, b), max3(r, g, b)) == max3(r, g, b) - min3(r, g, b),
{
    let hi = max3(r, g, b);
    let delta = hi - min3(r, g, b);
    if hi == 0 {
        lemma_round_div_exact(0, 255);
        assert(hi * 0 == 0);
    } else {
        lemma_rescale_round_trip(delta, hi, 255);
    }
}

/// The share of the middle channel is recovered from a hue that was
/// computed from the difference `n` of two channels.
proof fn lemma_middle_recovered(n: int, delta: int)
    requires
        0 < delta <= 255,
        -delta <= n <= delta,
    ensures
        -60_000 <= round_div(60_000 * n, delta) <= 60_000,
        n >= 0 ==> round_div(delta * round_div(60_000 * n, delta), 60_000) == n,
        n <= 0 ==> round_div(delta * (-round_div(60_000 * n, delta)), 60_000) == -n,
        n > 0 ==> round_div(60_000 * n, delta) > 0,
        n < 0 ==> round_div(60_000 * n, delta) < 0,
        n == delta ==> round_div(60_000 * n, delta) == 60_000,
        n == -delta ==> round_div(60_000 * n, delta) == -60_000,
        n < delta ==> round_div(60_000 * n, delta) < 60_000,
        n > -delta ==> round_div(60_000 * n, delta) > -60_000,
{
    let q = round_div(60_000 * n, delta);
    lemma_round_div_bounds(60_000 * n, delta);
    lemma_rescale_round_trip(n, delta, 60_000);
    lemma_rescale_round_trip_negated(n, delta, 60_000);
    assert(-60_000 <= q <= 60_000 && (n > 0 ==> q > 0) && (n < 0 ==> q < 0) && (n == delta ==> q
        == 60_000) && (n == -delta ==> q == -60_000) && (n < delta ==> q < 60_000) && (n > -delta
        ==> q > -60_000)) by (nonlinear_arith)
        requires
            0 < delta <= 255,
            -delta <= n <= delta,
            2 * (delta * q) <= 2 * (60_000 * n) + delta < 2 * (delta * q) + 2 * delta,
    ;
}

/// Converting a colour to hue, saturation and value and back gives the
/// colour itself, channel for channel.
pub proof fn lemma_hsv_round_trip(c: Color)
    ensures
        c.hsv().rgb() == c,
{
    let r = c.red as int;
    let g = c.green as int;
    let b = c.blue as int;
    let hi = max3(r, g, b);
    let lo = min3(r, g, b);
    let delta = hi - lo;
    let h = hue_of(r, g, b);
    let s = saturation_of(r, g, b);
    lemma_hsv_in_range(r, g, b);
    lemma_chroma_recovered(r, g, b);
    lemma_channels_in_range(h, s, hi);
    assert(c.hsv().hue as int == h);
    assert(c.hsv().saturation as int == s);
    assert(c.hsv().value as int == hi);
    let hh = h % 360_000;
    assert(hh == h);
    let x = round_div(delta * ramp(hh), 60_000);
    if delta == 0 {
        assert(delta * ramp(hh) == 0) by (nonlinear_arith)
            requires
                delta == 0,
        ;
        lemma_round_div_exact(0, 60_000);
        assert(channels_of(h, s, hi) == (r, g, b));
    } else if hi == r {
        lemma_middle_recovered(g - b, delta);
        assert(channels_of(h, s, hi) == (r, g, b));
    } else if hi == g {
        lemma_middle_recovered(b - r, delta);
        assert(channels_of(h, s, hi) == (r, g, b));
    } else {
        lemma_middle_recovered(r - g, delta);
        assert(channels_of(h, s, hi) == (r, g, b));
    }
    assert(color_of(h, s, hi) == c);
}

/// A colour minus itself is black.
pub proof fn lemma_difference_with_itself(c: Color)
    ensures
        c.wrapping_difference(c) == (Color { red: 0, green: 0, blue: 0 }),
{
}

/// White minus a colour is the complement of the colour: no channel
/// wraps. So white minus black is white, and white minus white is black.
pub proof fn lemma_white_minus_is_complement(c: Color)
    ensures
        (Color { red: 255, green: 255, blue: 255 }).wrapping_difference(c) == c.complement(),
        (Color { red: 0, green: 0, blue: 0 }).complement() == (Color {
            red: 255,
            green: 255,
            blue: 255,
        }),
        (Color { red: 255, green: 255, blue: 255 }).complement() == (Color {
            red: 0,
            green: 0,
            blue: 0,
        }),
{
}

/// The complement of the complement is the colour itself.
pub proof fn lemma_complement_twice(c: Color)
    ensures
        c.complement().complement() == c,
{
}

/// Subtracting what was added gives the first colour back, wrapped or not.
pub proof fn lemma_difference_undoes_sum(a: Color, b: Color)
    ensures
        a.wrapping_sum(b).wrapping_difference(b) == a,
{
}

/// Blending with white changes nothing, blending with black gives black.
/// A factor of 255 changes nothing either, and no factor below 1 leaves
/// any light.
pub proof fn lemma_blend_with_white_and_black(c: Color, dim: i32)
    requires
        dim <= 0,
    ensures
        c.blended(Color { red: 255, green: 255, blue: 255 }) == c,
        c.blended(Color { red: 0, green: 0, blue: 0 }) == (Color { red: 0, green: 0, blue: 0 }),
        c.scaled(255) == c,
        c.scaled(dim) == (Color { red: 0, green: 0, blue: 0 }),
{
    lemma_round_div_exact(c.red as int, 255);
    lemma_round_div_exact(c.green as int, 255);
    lemma_round_div_exact(c.blue as int, 255);
    lemma_round_div_exact(0, 255);
    let black = Color { red: 0, green: 0, blue: 0 };
    assert(c.red * black.red == 0 * 255 && c.green * black.green == 0 * 255 && c.blue * black.blue
        == 0 * 255);
    assert(c.red * dim <= 0 && c.green * dim <= 0 && c.blue * dim <= 0) by (nonlinear_arith)
        requires
            dim <= 0,
    ;
    lemma_round_div_monotonic(c.red * dim, 0, 255);
    lemma_round_div_monotonic(c.green * dim, 0, 255);
    lemma_round_div_monotonic(c.blue * dim, 0, 255);
}

/// Unpacking a packed word gives the three bytes back.
proof fn lemma_unpack(a: u8, b: u8, c: u8)
    ensures
        byte_at(pack(a, b, c), 16) == a,
        byte_at(pack(a, b, c), 8) == b,
        byte_at(pack(a, b, c), 0) == c,
{
    assert(((((a as u32) << 16 | (b as u32) << 8 | (c as u32)) >> 16) & 0xFF) as u8 == a)
        by (bit_vector);
    assert(((((a as u32) << 16 | (b as u32) << 8 | (c as u32)) >> 8) & 0xFF) as u8 == b)
        by (bit_vector);
    assert(((((a as u32) << 16 | (b as u32) << 8 | (c as u32)) >> 0) & 0xFF) as u8 == c)
        by (bit_vector);
}

/// Packing the three bytes of a word gives its low 24 bits.
proof fn lemma_repack(w: u32)
    ensures
        pack(byte_at(w, 16), byte_at(w, 8), byte_at(w, 0)) == w & 0xFF_FFFF,
{
    assert(((((w >> 16) & 0xFF) as u8) as u32) << 16 | ((((w >> 8) & 0xFF) as u8) as u32) << 8 | (((
        (w >> 0) & 0xFF) as u8) as u32) == w & 0xFF_FFFF) by (bit_vector);
}

/// Reading a colour from its own word gives the colour, in either order.
pub proof fn lemma_word_round_trip(c: Color, order: LedColorOrder)
    ensures
        Color::of_word(c.word(order), order) == c,
{
    lemma_unpack(c.red, c.green, c.blue);
    lemma_unpack(c.green, c.red, c.blue);
}

/// The word of a colour read from `hex` is the low 24 bits of `hex`.
pub proof fn lemma_word_of_hex(hex: u32, order: LedColorOrder)
    ensures
        Color::of_word(hex, order).word(order) == hex & 0xFF_FFFF,
{
    lemma_repack(hex);
}

} // verus!
