//! A hue rotation that advances with time and with the position on the
//! strip.

use vstd::prelude::*;
use vstd::arithmetic::div_mod::lemma_mod_multiples_vanish;
use core::ops::Range;
use super::{fits, in_range, range_fits, Effect, EffectError};
use super::super::strip::color::Color;

verus! {

pub struct HueShiftEffect;

/// Angles are in thousandths of a degree.
#[derive(Debug)]
pub struct HueShiftConfig {
    pub millidegrees_per_second: i32,
    pub millidegrees_per_led: i32,
    pub range: Range<u16>,
}

impl Clone for HueShiftConfig {
    fn clone(&self) -> (copy: Self)
        ensures
            copy == *self,
    {
        Self {
            millidegrees_per_second: self.millidegrees_per_second,
            millidegrees_per_led: self.millidegrees_per_led,
            range: self.range.start..self.range.end,
        }
    }
}

impl Default for HueShiftConfig {
    fn default() -> (config: Self)
        ensures
            config.millidegrees_per_second == 5_000,
            config.millidegrees_per_led == 0,
            config.range == (0u16..30u16),
    {
        Self { millidegrees_per_second: 5_000, millidegrees_per_led: 0, range: 0..30 }
    }
}

/// The angle by which pixel `i` is turned at `dt` milliseconds, in
/// thousandths of a degree: the time share rounded down to a whole
/// thousandth, plus the position share.
pub open spec fn hue_offset(config: &HueShiftConfig, dt: u64, i: int) -> int {
    (config.millidegrees_per_second * dt) / 1000 + config.millidegrees_per_led * i
}

/// `colors` with every pixel of the range turned by its offset.
pub open spec fn hue_shifted(config: &HueShiftConfig, colors: Seq<Color>, dt: u64) -> Seq<Color> {
    Seq::new(
        colors.len(),
        |i: int|
            if in_range(config.range, i) {
                colors[i].hue_shifted(hue_offset(config, dt, i))
            } else {
                colors[i]
            },
    )
}

/// Angles that differ by whole turns shift a colour alike.
pub proof fn lemma_whole_turns_vanish(c: Color, a: int, b: int)
    requires
        a % 360_000 == b % 360_000,
    ensures
        c.hue_shifted(a) == c.hue_shifted(b),
{
    let h = c.hsv().hue as int;
    assert((h + a) % 360_000 == (h + b) % 360_000);
}

/// The time share of the offset, inside one turn.
fn time_share(millidegrees_per_second: i32, dt: u64) -> (r: u32)
    ensures
        r == ((millidegrees_per_second * dt) / 1000) % 360_000,
{
    if millidegrees_per_second >= 0 {
        let rate: u128 = millidegrees_per_second as u128;
        assert(0 <= rate * dt <= 0x8000_0000 * 0xFFFF_FFFF_FFFF_FFFF) by (nonlinear_arith)
            requires
                0 <= rate <= 0x8000_0000,
                0 <= dt <= 0xFFFF_FFFF_FFFF_FFFF,
        ;
        let swept: u128 = rate * (dt as u128);
        ((swept / 1000) % 360_000) as u32
    } else {
        let rate: u128 = (-(millidegrees_per_second as i64)) as u128;
        assert(0 <= rate * dt <= 0x8000_0000 * 0xFFFF_FFFF_FFFF_FFFF) by (nonlinear_arith)
            requires
                0 <= rate <= 0x8000_0000,
                0 <= dt <= 0xFFFF_FFFF_FFFF_FFFF,
        ;
        let swept: u128 = rate * (dt as u128);
        assert(millidegrees_per_second * dt == -(rate * dt)) by (nonlinear_arith)
            requires
                rate == -millidegrees_per_second,
        ;
        let back: u128 = (swept + 999) / 1000;
        assert((-(swept as int)) / 1000 == -(back as int));
        let within: u32 = (back % 360_000) as u32;
        if within == 0 {
            0
        } else {
            360_000 - within
        }
    }
}

/// The position share of the offset, inside one turn.
fn position_share(millidegrees_per_led: i32, i: u16) -> (r: u32)
    ensures
        r == (millidegrees_per_led * i) % 360_000,
{
    assert(-0x8000_0000 * 0xFFFF <= millidegrees_per_led * i <= 0x8000_0000 * 0xFFFF)
        by (nonlinear_arith)
        requires
            -0x8000_0000 <= millidegrees_per_led <= 0x8000_0000,
            0 <= i <= 0xFFFF,
    ;
    let share: i64 = millidegrees_per_led as i64 * i as i64;
    let lifted: u64 = (share + 144_000_000_000_000) as u64;
    proof {
        lemma_mod_multiples_vanish(400_000_000, share as int, 360_000);
    }
    (lifted % 360_000) as u32
}

impl Effect for HueShiftEffect {
    type Config = HueShiftConfig;

    open spec fn range_of(config: &HueShiftConfig) -> Range<u16> {
        config.range
    }

    /// Always at work.
    open spec fn active(config: &HueShiftConfig, dt: u64, rt: Option<u64>) -> bool {
        true
    }

    /// Pixel `i` in range is turned by `hue_offset(config, dt, i)`. The
    /// offset is absolute: it depends on the time since the start, not on
    /// any earlier frame.
    open spec fn rendered(config: &HueShiftConfig, colors: Seq<Color>, dt: u64, rt: Option<u64>)
        -> Seq<Color> {
        hue_shifted(config, colors, dt)
    }

    fn apply(config: &HueShiftConfig, colors: &mut Vec<Color>, dt: u64, rt: Option<u64>) -> (res:
        Result<(), EffectError>) {
        if !fits(&config.range, colors.len()) {
            return Err(EffectError::RangeOutOfBounds);
        }
        let by_time: u32 = time_share(config.millidegrees_per_second, dt);
        let mut i: u16 = config.range.start;
        while i < config.range.end
            invariant
                colors@.len() == old(colors)@.len(),
                range_fits(config.range, colors@.len()),
                config.range.start <= i,
                i <= config.range.end || i == config.range.start,
                by_time == ((config.millidegrees_per_second * dt) / 1000) % 360_000,
                forall|k: int|
                    0 <= k < colors@.len() ==> #[trigger] colors@[k] == if config.range.start <= k
                        < i {
                        old(colors)@[k].hue_shifted(hue_offset(config, dt, k))
                    } else {
                        old(colors)@[k]
                    },
            decreases config.range.end - i,
        {
            let by_position: u32 = position_share(config.millidegrees_per_led, i);
            let angle: u32 = (by_time + by_position) % 360_000;
            let mut pixel = colors[i as usize];
            proof {
                lemma_whole_turns_vanish(pixel, angle as int, hue_offset(config, dt, i as int));
            }
            pixel.shift_hue_deg(angle as i32);
            colors[i as usize] = pixel;
            i += 1;
        }
        assert(colors@ =~= hue_shifted(config, old(colors)@, dt));
        Ok(())
    }
}

} // verus!
