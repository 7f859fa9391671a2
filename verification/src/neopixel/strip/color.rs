//! A pixel colour in byte form: construction, packing into the 24-bit word
//! of the wire protocol, channel arithmetic and shifts in hue, saturation
//! and value.

use vstd::prelude::*;
use super::LedColorOrder;
use self::hsv::{color_of, Hsv};
use self::rounding::round_div;

pub mod bits;
pub mod hsv;
pub mod laws;
pub mod ops;
pub mod rounding;
pub mod turning;

verus! {

/// One pixel: three channels, each in `0..=255`.
#[derive(Clone, Copy, Debug, PartialEq, Eq, Structural)]
pub struct Color {
    pub red: u8,
    pub green: u8,
    pub blue: u8,
}

/// The 24-bit word made of three bytes, the first in the top position.
pub open spec fn pack(first: u8, second: u8, third: u8) -> u32 {
    (first as u32) << 16 | (second as u32) << 8 | (third as u32)
}

/// The byte of `word` that starts at bit `shift`.
pub open spec fn byte_at(word: u32, shift: u32) -> u8 {
    ((word >> shift) & 0xFF) as u8
}

/// `value` held inside `0..=255`.
pub open spec fn clamp_byte(value: int) -> int {
    if value < 0 {
        0
    } else if value > 255 {
        255
    } else {
        value
    }
}

impl Color {
    /// The word that `to_u32` packs: the channels in the given order, the
    /// first of them in the top byte.
    pub open spec fn word(self, order: LedColorOrder) -> u32 {
        match order {
            LedColorOrder::RGB => pack(self.red, self.green, self.blue),
            LedColorOrder::GRB => pack(self.green, self.red, self.blue),
        }
    }

    /// The colour whose word in the given order is the low 24 bits of `hex`.
    pub open spec fn of_word(hex: u32, order: LedColorOrder) -> Color {
        match order {
            LedColorOrder::RGB => Color {
                red: byte_at(hex, 16),
                green: byte_at(hex, 8),
                blue: byte_at(hex, 0),
            },
            LedColorOrder::GRB => Color {
                red: byte_at(hex, 8),
                green: byte_at(hex, 16),
                blue: byte_at(hex, 0),
            },
        }
    }

    /// This colour turned by `millidegrees` thousandths of a degree round
    /// the hue circle, saturation and value kept.
    pub open spec fn hue_shifted(self, millidegrees: int) -> Color {
        let hsv = self.hsv();
        color_of(hsv.hue + millidegrees, hsv.saturation as int, hsv.value as int)
    }

    /// This colour with `delta` added to its saturation, the sum held
    /// inside `0..=255`.
    pub open spec fn saturation_shifted(self, delta: int) -> Color {
        let hsv = self.hsv();
        color_of(hsv.hue as int, clamp_byte(hsv.saturation + delta), hsv.value as int)
    }

    /// This colour with `delta` added to its value, the sum held inside
    /// `0..=255`.
    pub open spec fn value_shifted(self, delta: int) -> Color {
        let hsv = self.hsv();
        color_of(hsv.hue as int, hsv.saturation as int, clamp_byte(hsv.value + delta))
    }

    /// Channel-wise sum modulo 256.
    pub open spec fn wrapping_sum(self, rhs: Color) -> Color {
        Color {
            red: ((self.red + rhs.red) % 256) as u8,
            green: ((self.green + rhs.green) % 256) as u8,
            blue: ((self.blue + rhs.blue) % 256) as u8,
        }
    }

    /// Channel-wise difference modulo 256.
    pub open spec fn wrapping_difference(self, rhs: Color) -> Color {
        Color {
            red: ((self.red - rhs.red) % 256) as u8,
            green: ((self.green - rhs.green) % 256) as u8,
            blue: ((self.blue - rhs.blue) % 256) as u8,
        }
    }

    /// Channel-wise product of the two colours read as fractions of 255,
    /// rounded to the nearest byte.
    pub open spec fn blended(self, rhs: Color) -> Color {
        Color {
            red: round_div(self.red * rhs.red, 255) as u8,
            green: round_div(self.green * rhs.green, 255) as u8,
            blue: round_div(self.blue * rhs.blue, 255) as u8,
        }
    }

    /// Every channel multiplied by `factor / 255`, rounded to the nearest
    /// integer and held inside `0..=255`: a factor above 255 brightens up
    /// to white, a negative factor gives black.
    pub open spec fn scaled(self, factor: i32) -> Color {
        Color {
            red: clamp_byte(round_div(self.red * factor, 255)) as u8,
            green: clamp_byte(round_div(self.green * factor, 255)) as u8,
            blue: clamp_byte(round_div(self.blue * factor, 255)) as u8,
        }
    }

    /// The channel-wise complement: what is missing to white.
    pub open spec fn complement(self) -> Color {
        Color {
            red: (255 - self.red) as u8,
            green: (255 - self.green) as u8,
            blue: (255 - self.blue) as u8,
        }
    }

    pub fn new(red: u8, green: u8, blue: u8) -> (c: Self)
        ensures
            c == (Color { red, green, blue }),
    {
        Self { red, green, blue }
    }

    /// Reads a colour from the low 24 bits of `hex`. The top byte of the
    /// three is the first channel of `order`, so `0xRRGGBB` for RGB and
    /// `0xGGRRBB` for GRB.
    pub fn from_hex(hex: u32, order: &LedColorOrder) -> (c: Self)
        ensures
            c == Color::of_word(hex, *order),
    {
        let first: u8 = ((hex >> 16) & 0xFF) as u8;
        let second: u8 = ((hex >> 8) & 0xFF) as u8;
        let third: u8 = ((hex >> 0) & 0xFF) as u8;
        match order {
            LedColorOrder::RGB => Self::new(first, second, third),
            LedColorOrder::GRB => Self::new(second, first, third),
        }
    }

    pub fn black() -> (c: Self)
        ensures
            c == (Color { red: 0, green: 0, blue: 0 }),
    {
        Self::new(0, 0, 0)
    }

    pub fn white() -> (c: Self)
        ensures
            c == (Color { red: 255, green: 255, blue: 255 }),
    {
        Self::new(255, 255, 255)
    }

    pub fn red() -> (c: Self)
        ensures
            c == (Color { red: 255, green: 0, blue: 0 }),
    {
        Self::new(255, 0, 0)
    }

    pub fn green() -> (c: Self)
        ensures
            c == (Color { red: 0, green: 255, blue: 0 }),
    {
        Self::new(0, 255, 0)
    }

    pub fn blue() -> (c: Self)
        ensures
            c == (Color { red: 0, green: 0, blue: 255 }),
    {
        Self::new(0, 0, 255)
    }

    pub fn yellow() -> (c: Self)
        ensures
            c == (Color { red: 255, green: 255, blue: 0 }),
    {
        Self::new(255, 255, 0)
    }

    pub fn cyan() -> (c: Self)
        ensures
            c == (Color { red: 0, green: 255, blue: 255 }),
    {
        Self::new(0, 255, 255)
    }

    pub fn magenta() -> (c: Self)
        ensures
            c == (Color { red: 255, green: 0, blue: 255 }),
    {
        Self::new(255, 0, 255)
    }

    pub fn orange() -> (c: Self)
        ensures
            c == (Color { red: 255, green: 165, blue: 0 }),
    {
        Self::new(255, 165, 0)
    }

    pub fn purple() -> (c: Self)
        ensures
            c == (Color { red: 128, green: 0, blue: 128 }),
    {
        Self::new(128, 0, 128)
    }

    pub fn pink() -> (c: Self)
        ensures
            c == (Color { red: 255, green: 192, blue: 203 }),
    {
        Self::new(255, 192, 203)
    }

    pub fn brown() -> (c: Self)
        ensures
            c == (Color { red: 165, green: 42, blue: 42 }),
    {
        Self::new(165, 42, 42)
    }

    pub fn gray() -> (c: Self)
        ensures
            c == (Color { red: 128, green: 128, blue: 128 }),
    {
        Self::new(128, 128, 128)
    }

    pub fn silver() -> (c: Self)
        ensures
            c == (Color { red: 192, green: 192, blue: 192 }),
    {
        Self::new(192, 192, 192)
    }

    pub fn gold() -> (c: Self)
        ensures
            c == (Color { red: 255, green: 215, blue: 0 }),
    {
        Self::new(255, 215, 0)
    }

    /// Turns the colour round the hue circle by `millidegrees` thousandths
    /// of a degree. Negative angles turn backward; the hue wraps at a full
    /// turn.
    pub fn shift_hue_deg(&mut self, millidegrees: i32) -> (shifted: &Self)
        ensures
            *final(self) == old(self).hue_shifted(millidegrees as int),
            *shifted == *final(self),
    {
        let hsv = self.to_hsv();
        let turned: u64 = (hsv.hue as i64 + millidegrees as i64 + 2_147_760_000) as u64;
        let hue: i32 = (turned % 360_000) as i32;
        assert(hue as int == (hsv.hue + millidegrees) % 360_000);
        assert(hue as int % 360_000 == (hsv.hue + millidegrees) % 360_000);
        *self = Hsv::new(hue, hsv.saturation, hsv.value).to_rgb();
        self
    }

    /// Adds `delta` to the saturation, in units of 1/255, and holds the
    /// result inside `0..=255`.
    pub fn shift_saturation(&mut self, delta: i16) -> (shifted: &Self)
        ensures
            *final(self) == old(self).saturation_shifted(delta as int),
            *shifted == *final(self),
    {
        let hsv = self.to_hsv();
        let saturation: u8 = clamped_sum(hsv.saturation, delta);
        *self = Hsv::new(hsv.hue, saturation, hsv.value).to_rgb();
        self
    }

    /// Adds `delta` to the value, in units of 1/255, and holds the result
    /// inside `0..=255`.
    pub fn shift_value(&mut self, delta: i16) -> (shifted: &Self)
        ensures
            *final(self) == old(self).value_shifted(delta as int),
            *shifted == *final(self),
    {
        let hsv = self.to_hsv();
        let value: u8 = clamped_sum(hsv.value, delta);
        *self = Hsv::new(hsv.hue, hsv.saturation, value).to_rgb();
        self
    }

    /// Packs the three channels into a 24-bit integer in the given order.
    pub fn to_u32(&self, order: &LedColorOrder) -> (w: u32)
        ensures
            w == self.word(*order),
            w < 0x100_0000,
    {
        let (r, g, b) = match order {
            LedColorOrder::RGB => (self.red, self.green, self.blue),
            LedColorOrder::GRB => (self.green, self.red, self.blue),
        };
        assert(((r as u32) << 16 | (g as u32) << 8 | (b as u32)) < 0x100_0000u32) by (bit_vector);
        ((r as u32) << 16) | ((g as u32) << 8) | b as u32
    }
}

/// `base + delta` held inside `0..=255`.
fn clamped_sum(base: u8, delta: i16) -> (sum: u8)
    ensures
        sum == clamp_byte(base + delta),
{
    let wide: i32 = base as i32 + delta as i32;
    if wide < 0 {
        0
    } else if wide > 255 {
        255
    } else {
        wide as u8
    }
}

} // verus!
