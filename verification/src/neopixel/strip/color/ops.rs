//! The arithmetic operators on colours. Sum and difference wrap modulo 256
//! in every channel; the products are held inside the byte range.

use vstd::prelude::*;
use vstd::std_specs::ops::{AddSpecImpl, MulSpecImpl, SubSpecImpl};
use super::Color;
use super::rounding::{lemma_round_div_exact, lemma_round_div_monotonic};

verus! {

impl core::ops::Add<Color> for Color {
    type Output = Color;

    fn add(self, rhs: Color) -> (sum: Color) {
        Color {
            red: self.red.wrapping_add(rhs.red),
            green: self.green.wrapping_add(rhs.green),
            blue: self.blue.wrapping_add(rhs.blue),
        }
    }
}

impl AddSpecImpl<Color> for Color {
    open spec fn obeys_add_spec() -> bool {
        true
    }

    open spec fn add_req(self, rhs: Color) -> bool {
        true
    }

    open spec fn add_spec(self, rhs: Color) -> Color {
        self.wrapping_sum(rhs)
    }
}

impl core::ops::Sub<Color> for Color {
    type Output = Color;

    fn sub(self, rhs: Color) -> (difference: Color) {
        Color {
            red: self.red.wrapping_sub(rhs.red),
            green: self.green.wrapping_sub(rhs.green),
            blue: self.blue.wrapping_sub(rhs.blue),
        }
    }
}

impl SubSpecImpl<Color> for Color {
    open spec fn obeys_sub_spec() -> bool {
        true
    }

    open spec fn sub_req(self, rhs: Color) -> bool {
        true
    }

    open spec fn sub_spec(self, rhs: Color) -> Color {
        self.wrapping_difference(rhs)
    }
}

/// `a * b / 255` rounded to the nearest integer and held inside
/// `0..=255`.
fn scaled_byte(a: u8, b: i32) -> (product: u8)
    ensures
        product == super::clamp_byte(super::rounding::round_div(a * b, 255)),
{
    if b <= 0 {
        proof {
            assert(a * b <= 0) by (nonlinear_arith)
                requires
                    0 <= a,
                    b <= 0,
            ;
            lemma_round_div_monotonic(a * b, 0, 255);
            lemma_round_div_exact(0, 255);
        }
        return 0;
    }
    assert(0 <= a * b <= 255 * 0x7FFF_FFFF) by (nonlinear_arith)
        requires
            0 <= a <= 255,
            0 < b <= 0x7FFF_FFFF,
    ;
    let n: u64 = a as u64 * b as u64;
    let q: u64 = (2 * n + 255) / 510;
    if q > 255 {
        255
    } else {
        q as u8
    }
}

impl core::ops::Mul<Color> for Color {
    type Output = Color;

    fn mul(self, rhs: Color) -> (product: Color) {
        proof {
            lemma_blend_in_range(self.red, rhs.red);
            lemma_blend_in_range(self.green, rhs.green);
            lemma_blend_in_range(self.blue, rhs.blue);
        }
        Color {
            red: scaled_byte(self.red, rhs.red as i32),
            green: scaled_byte(self.green, rhs.green as i32),
            blue: scaled_byte(self.blue, rhs.blue as i32),
        }
    }
}

impl MulSpecImpl<Color> for Color {
    open spec fn obeys_mul_spec() -> bool {
        true
    }

    open spec fn mul_req(self, rhs: Color) -> bool {
        true
    }

    open spec fn mul_spec(self, rhs: Color) -> Color {
        self.blended(rhs)
    }
}

impl core::ops::Mul<i32> for Color {
    type Output = Color;

    fn mul(self, rhs: i32) -> (product: Color) {
        Color {
            red: scaled_byte(self.red, rhs),
            green: scaled_byte(self.green, rhs),
            blue: scaled_byte(self.blue, rhs),
        }
    }
}

impl MulSpecImpl<i32> for Color {
    open spec fn obeys_mul_spec() -> bool {
        true
    }

    open spec fn mul_req(self, rhs: i32) -> bool {
        true
    }

    open spec fn mul_spec(self, rhs: i32) -> Color {
        self.scaled(rhs)
    }
}

/// The product of two fractions of 255 is a fraction of 255 again.
pub proof fn lemma_blend_in_range(a: u8, b: u8)
    ensures
        0 <= super::rounding::round_div(a * b, 255) <= 255,
{
    assert(0 <= a * b <= 255 * 255) by (nonlinear_arith)
        requires
            0 <= a <= 255,
            0 <= b <= 255,
    ;
    lemma_round_div_monotonic(0, a * b, 255);
    lemma_round_div_monotonic(a * b, 65_025int, 255);
    lemma_round_div_exact(0, 255);
    lemma_round_div_exact(255, 255);
}

} // verus!
