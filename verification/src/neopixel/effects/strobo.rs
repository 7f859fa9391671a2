//! A stroboscope: a white flash and a dark gap at the start of every
//! period.

use vstd::prelude::*;
use core::ops::Range;
use super::{painted, Effect, EffectError};
use super::solid::{SolidColorConfig, SolidColorEffect};
use super::super::strip::color::Color;

verus! {

pub struct StroboEffect;

/// The frequency is in thousandths of a hertz.
#[derive(Debug)]
pub struct StroboConfig {
    pub frequency_millihertz: u32,
    pub range: Range<u16>,
}

impl Clone for StroboConfig {
    fn clone(&self) -> (copy: Self)
        ensures
            copy == *self,
    {
        Self {
            frequency_millihertz: self.frequency_millihertz,
            range: self.range.start..self.range.end,
        }
    }
}

impl Default for StroboConfig {
    fn default() -> (config: Self)
        ensures
            config.frequency_millihertz == 2_000,
            config.range == (0u16..30u16),
    {
        Self { frequency_millihertz: 2_000, range: 0..30 }
    }
}

/// What the stroboscope does to its pixels at one moment.
#[derive(Clone, Copy, Debug, PartialEq, Eq, Structural)]
pub enum StrobePhase {
    /// The pixels are white.
    Flash,
    /// The pixels are black.
    Dark,
    /// The pixels are left as they are.
    Idle,
}

/// The phase at `dt` milliseconds for a frequency in millihertz.
///
/// The time into the current period is `dt` modulo the period of
/// `1_000_000 / frequency` milliseconds. Multiplied by the frequency it is
/// `(dt * frequency) % 1_000_000`, an integer, and the thresholds are
/// multiplied alike. The flash lasts while the time into the period is
/// strictly between 100 and 200 ms, the dark gap while it is below 400 ms
/// otherwise; neither length follows the frequency. At frequency zero the
/// period never ends, and the time into it is `dt` itself.
pub open spec fn strobe_phase(frequency_millihertz: u32, dt: u64) -> StrobePhase {
    let scale: int = if frequency_millihertz == 0 {
        1
    } else {
        frequency_millihertz as int
    };
    let into: int = if frequency_millihertz == 0 {
        dt as int
    } else {
        (dt * frequency_millihertz) % 1_000_000
    };
    if 100 * scale < into < 200 * scale {
        StrobePhase::Flash
    } else if into < 400 * scale {
        StrobePhase::Dark
    } else {
        StrobePhase::Idle
    }
}

/// `colors` as the stroboscope leaves them in the given phase.
pub open spec fn strobed(colors: Seq<Color>, range: Range<u16>, phase: StrobePhase) -> Seq<Color> {
    match phase {
        StrobePhase::Flash => painted(colors, range, Color { red: 255, green: 255, blue: 255 }),
        StrobePhase::Dark => painted(colors, range, Color { red: 0, green: 0, blue: 0 }),
        StrobePhase::Idle => colors,
    }
}

/// Computes the phase at `dt` milliseconds.
pub fn phase_at(frequency_millihertz: u32, dt: u64) -> (phase: StrobePhase)
    ensures
        phase == strobe_phase(frequency_millihertz, dt),
{
    let scale: u128 = if frequency_millihertz == 0 {
        1
    } else {
        frequency_millihertz as u128
    };
    assert(0 <= dt * frequency_millihertz <= 0xFFFF_FFFF_FFFF_FFFF * 0xFFFF_FFFF)
        by (nonlinear_arith)
        requires
            0 <= dt <= 0xFFFF_FFFF_FFFF_FFFF,
            0 <= frequency_millihertz <= 0xFFFF_FFFF,
    ;
    let into: u128 = if frequency_millihertz == 0 {
        dt as u128
    } else {
        ((dt as u128) * (frequency_millihertz as u128)) % 1_000_000
    };
    if 100 * scale < into && into < 200 * scale {
        StrobePhase::Flash
    } else if into < 400 * scale {
        StrobePhase::Dark
    } else {
        StrobePhase::Idle
    }
}

impl Effect for StroboEffect {
    type Config = StroboConfig;

    open spec fn range_of(config: &StroboConfig) -> Range<u16> {
        config.range
    }

    /// At work during the flash and the dark gap, at rest for the
    /// remainder of the period.
    open spec fn active(config: &StroboConfig, dt: u64, rt: Option<u64>) -> bool {
        strobe_phase(config.frequency_millihertz, dt) != StrobePhase::Idle
    }

    /// White during the flash, black during the dark gap, untouched for the
    /// rest of the period.
    open spec fn rendered(config: &StroboConfig, colors: Seq<Color>, dt: u64, rt: Option<u64>)
        -> Seq<Color> {
        strobed(colors, config.range, strobe_phase(config.frequency_millihertz, dt))
    }

    fn apply(config: &StroboConfig, colors: &mut Vec<Color>, dt: u64, rt: Option<u64>) -> (res:
        Result<(), EffectError>) {
        match phase_at(config.frequency_millihertz, dt) {
            StrobePhase::Flash => {
                let white = SolidColorConfig {
                    color: Color::white(),
                    range: config.range.start..config.range.end,
                };
                SolidColorEffect::apply(&white, colors, dt, rt)
            },
            StrobePhase::Dark => {
                let black = SolidColorConfig {
                    color: Color::black(),
                    range: config.range.start..config.range.end,
                };
                SolidColorEffect::apply(&black, colors, dt, rt)
            },
            StrobePhase::Idle => Ok(()),
        }
    }
}

} // verus!
