//! Hue, saturation and value: the transient form in which a colour is
//! rotated, washed out or dimmed.
//!
//! Hue is an angle in thousandths of a degree and wraps at a full turn.
//! Saturation and value are bytes, `255` standing for `1.0`.

use vstd::prelude::*;
use super::Color;
use super::rounding::{
    lemma_round_div_exact, lemma_round_div_monotonic, lemma_round_div_of_negative, round_div,
    rounded_quotient,
};

verus! {

/// A colour as hue, saturation and value.
#[derive(Clone, Copy, Debug, PartialEq, Eq, Structural)]
pub struct Hsv {
    /// The angle on the hue circle in thousandths of a degree. Any integer
    /// is accepted and read modulo a full turn.
    pub hue: i32,
    /// `0` is grey, `255` the pure hue.
    pub saturation: u8,
    /// `0` is black, `255` full brightness.
    pub value: u8,
}

/// The greatest of three.
pub open spec fn max3(a: int, b: int, c: int) -> int {
    if a >= b && a >= c {
        a
    } else if b >= c {
        b
    } else {
        c
    }
}

/// The least of three.
pub open spec fn min3(a: int, b: int, c: int) -> int {
    if a <= b && a <= c {
        a
    } else if b <= c {
        b
    } else {
        c
    }
}

/// The hue of the channels `(r, g, b)` in thousandths of a degree, in
/// `0..360_000`. A colour without chroma has no hue of its own and is
/// given hue `0`.
pub open spec fn hue_of(r: int, g: int, b: int) -> int {
    let hi = max3(r, g, b);
    let delta = hi - min3(r, g, b);
    if delta == 0 {
        0
    } else if hi == r {
        round_div(60_000 * (g - b), delta) % 360_000
    } else if hi == g {
        round_div(60_000 * (b - r), delta) + 120_000
    } else {
        round_div(60_000 * (r - g), delta) + 240_000
    }
}

/// The saturation of the channels `(r, g, b)`: chroma over value, as a
/// byte. Black has saturation `0`.
pub open spec fn saturation_of(r: int, g: int, b: int) -> int {
    let hi = max3(r, g, b);
    if hi == 0 {
        0
    } else {
        round_div(255 * (hi - min3(r, g, b)), hi)
    }
}

/// The share of the chroma that the middle channel gets at hue `h`, out of
/// `60_000`: it rises over one sextant and falls over the next.
pub open spec fn ramp(h: int) -> int {
    let p = h % 120_000;
    if p <= 60_000 {
        p
    } else {
        120_000 - p
    }
}

/// The chroma of a colour of saturation `s` and value `v`.
pub open spec fn chroma_of(s: int, v: int) -> int {
    round_div(v * s, 255)
}

/// The channels of the colour with hue `h` (any integer, read modulo a full
/// turn), saturation `s` and value `v`.
pub open spec fn channels_of(h: int, s: int, v: int) -> (int, int, int) {
    let hh = h % 360_000;
    let c = chroma_of(s, v);
    let x = round_div(c * ramp(hh), 60_000);
    let m = v - c;
    if hh < 60_000 {
        (c + m, x + m, m)
    } else if hh < 120_000 {
        (x + m, c + m, m)
    } else if hh < 180_000 {
        (m, c + m, x + m)
    } else if hh < 240_000 {
        (m, x + m, c + m)
    } else if hh < 300_000 {
        (x + m, m, c + m)
    } else {
        (c + m, m, x + m)
    }
}

/// The colour with hue `h`, saturation `s` and value `v`.
pub open spec fn color_of(h: int, s: int, v: int) -> Color {
    let (r, g, b) = channels_of(h, s, v);
    Color { red: r as u8, green: g as u8, blue: b as u8 }
}

impl Hsv {
    /// The colour this triple stands for.
    pub open spec fn rgb(self) -> Color {
        color_of(self.hue as int, self.saturation as int, self.value as int)
    }

    pub fn new(hue: i32, saturation: u8, value: u8) -> (hsv: Self)
        ensures
            hsv == (Hsv { hue, saturation, value }),
    {
        Self { hue, saturation, value }
    }

    /// Converts to the byte form. The hue is wrapped into one turn first.
    pub fn to_rgb(&self) -> (c: Color)
        ensures
            c == self.rgb(),
    {
        let turned: u64 = (self.hue as i64 + 2_147_760_000) as u64;
        let hh: u32 = (turned % 360_000) as u32;
        assert(hh == self.hue as int % 360_000);
        let s: u32 = self.saturation as u32;
        let v: u32 = self.value as u32;
        proof {
            lemma_channels_in_range(self.hue as int, s as int, v as int);
            assert(0 <= v * s <= 255 * 255) by (nonlinear_arith)
                requires
                    0 <= s <= 255,
                    0 <= v <= 255,
            ;
        }
        let c: u32 = rounded_quotient(v * s, 255);
        let p: u32 = hh % 120_000;
        let t: u32 = if p <= 60_000 {
            p
        } else {
            120_000 - p
        };
        assert(0 <= c * t <= 255 * 60_000) by (nonlinear_arith)
            requires
                0 <= c <= 255,
                0 <= t <= 60_000,
        ;
        let x: u32 = rounded_quotient(c * t, 60_000);
        let m: u32 = v - c;
        let (r, g, b) = if hh < 60_000 {
            (c + m, x + m, m)
        } else if hh < 120_000 {
            (x + m, c + m, m)
        } else if hh < 180_000 {
            (m, c + m, x + m)
        } else if hh < 240_000 {
            (m, x + m, c + m)
        } else if hh < 300_000 {
            (x + m, m, c + m)
        } else {
            (c + m, m, x + m)
        };
        Color { red: r as u8, green: g as u8, blue: b as u8 }
    }
}

/// `(round_div(60_000 * (up - down), delta) + base)` wrapped into one turn,
/// computed without leaving the non-negative integers.
fn hue_from_difference(up: u32, down: u32, delta: u32, base: u32) -> (h: u32)
    requires
        0 < delta <= 255,
        up <= 255,
        down <= 255,
        up - down <= delta,
        down - up <= delta,
        base <= 240_000,
    ensures
        h == (round_div(60_000 * (up - down), delta as int) + base) % 360_000,
        -60_000 <= round_div(60_000 * (up - down), delta as int) <= 60_000,
{
    proof {
        lemma_round_div_exact(60_000, delta as int);
        lemma_round_div_exact(-60_000, delta as int);
        assert(60_000 * delta == delta * 60_000) by (nonlinear_arith);
        assert((-60_000) * delta == 60_000 * (-delta)) by (nonlinear_arith);
        lemma_round_div_monotonic(60_000 * (-delta), 60_000 * (up - down), delta as int);
        lemma_round_div_monotonic(60_000 * (up - down), 60_000 * delta, delta as int);
    }
    if up >= down {
        let q: u32 = rounded_quotient(60_000 * (up - down), delta);
        base + q
    } else {
        let a: u32 = 60_000 * (down - up);
        let k: u32 = (2 * a + delta - 1) / (2 * delta);
        proof {
            lemma_round_div_of_negative(a as int, delta as int);
        }
        if base >= k {
            base - k
        } else {
            base + 360_000 - k
        }
    }
}

impl Color {
    /// This colour as hue, saturation and value.
    pub open spec fn hsv(self) -> Hsv {
        Hsv {
            hue: hue_of(self.red as int, self.green as int, self.blue as int) as i32,
            saturation: saturation_of(self.red as int, self.green as int, self.blue as int) as u8,
            value: max3(self.red as int, self.green as int, self.blue as int) as u8,
        }
    }

    /// Converts to hue, saturation and value. The hue comes out inside the
    /// first turn.
    pub fn to_hsv(&self) -> (hsv: Hsv)
        ensures
            hsv == self.hsv(),
            0 <= hsv.hue < 360_000,
    {
        let r: u32 = self.red as u32;
        let g: u32 = self.green as u32;
        let b: u32 = self.blue as u32;
        let hi: u32 = if r >= g && r >= b {
            r
        } else if g >= b {
            g
        } else {
            b
        };
        let lo: u32 = if r <= g && r <= b {
            r
        } else if g <= b {
            g
        } else {
            b
        };
        let delta: u32 = hi - lo;
        proof {
            lemma_hsv_in_range(r as int, g as int, b as int);
        }
        let hue: u32 = if delta == 0 {
            0
        } else if hi == r {
            hue_from_difference(g, b, delta, 0)
        } else if hi == g {
            hue_from_difference(b, r, delta, 120_000)
        } else {
            hue_from_difference(r, g, delta, 240_000)
        };
        let saturation: u32 = if hi == 0 {
            0
        } else {
            rounded_quotient(255 * delta, hi)
        };
        Hsv { hue: hue as i32, saturation: saturation as u8, value: hi as u8 }
    }
}

/// The chroma never exceeds the value, so every channel of `channels_of`
/// is a byte.
pub proof fn lemma_channels_in_range(h: int, s: int, v: int)
    requires
        0 <= s <= 255,
        0 <= v <= 255,
    ensures
        0 <= chroma_of(s, v) <= v,
        0 <= round_div(chroma_of(s, v) * ramp(h % 360_000), 60_000) <= chroma_of(s, v),
        0 <= channels_of(h, s, v).0 <= 255,
        0 <= channels_of(h, s, v).1 <= 255,
        0 <= channels_of(h, s, v).2 <= 255,
{
    let c = chroma_of(s, v);
    assert(0 <= v * s <= v * 255) by (nonlinear_arith)
        requires
            0 <= s <= 255,
            0 <= v <= 255,
    ;
    lemma_round_div_monotonic(0, v * s, 255);
    lemma_round_div_monotonic(v * s, v * 255, 255);
    lemma_round_div_exact(0, 255);
    lemma_round_div_exact(v, 255);
    let t = ramp(h % 360_000);
    assert(0 <= t <= 60_000);
    assert(0 <= c * t <= c * 60_000) by (nonlinear_arith)
        requires
            0 <= c,
            0 <= t <= 60_000,
    ;
    lemma_round_div_monotonic(0, c * t, 60_000);
    lemma_round_div_monotonic(c * t, c * 60_000, 60_000);
    lemma_round_div_exact(0, 60_000);
    lemma_round_div_exact(c, 60_000);
}

/// The hue of any colour lies in `0..360_000`, and its saturation is a byte.
pub proof fn lemma_hsv_in_range(r: int, g: int, b: int)
    requires
        0 <= r <= 255,
        0 <= g <= 255,
        0 <= b <= 255,
    ensures
        0 <= hue_of(r, g, b) < 360_000,
        0 <= saturation_of(r, g, b) <= 255,
{
    let hi = max3(r, g, b);
    let lo = min3(r, g, b);
    let delta = hi - lo;
    if delta > 0 {
        lemma_round_div_exact(60_000, delta);
        lemma_round_div_exact(-60_000, delta);
        assert(60_000 * delta == delta * 60_000) by (nonlinear_arith);
        assert((-60_000) * delta == 60_000 * (-delta)) by (nonlinear_arith);
        if hi == r {
            assert(60_000 * (-delta) <= 60_000 * (g - b) <= 60_000 * delta);
            lemma_round_div_monotonic(60_000 * (-delta), 60_000 * (g - b), delta);
            lemma_round_div_monotonic(60_000 * (g - b), 60_000 * delta, delta);
        } else if hi == g {
            lemma_round_div_monotonic(60_000 * (-delta), 60_000 * (b - r), delta);
            lemma_round_div_monotonic(60_000 * (b - r), 60_000 * delta, delta);
        } else {
            lemma_round_div_monotonic(60_000 * (-delta), 60_000 * (r - g), delta);
            lemma_round_div_monotonic(60_000 * (r - g), 60_000 * delta, delta);
        }
    }
    if hi > 0 {
        lemma_round_div_monotonic(0, 255 * delta, hi);
        lemma_round_div_monotonic(255 * delta, 255 * hi, hi);
        lemma_round_div_exact(0, hi);
        lemma_round_div_exact(255, hi);
    }
}

} // verus!
