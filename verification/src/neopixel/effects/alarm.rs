//! Effects that start at a moment of the wall clock: a sunrise, a new
//! year's countdown and a stroboscope. Each is made of the other effects.

use vstd::prelude::*;
use core::ops::Range;
use super::{painted, range_fits, Effect, EffectError};
use super::hue::{hue_shifted, HueShiftConfig, HueShiftEffect};
use super::solid::{SolidColorConfig, SolidColorEffect};
use super::strobo::{strobe_phase, strobed, StroboConfig, StroboEffect, StrobePhase};
use super::super::strip::color::Color;
use super::super::strip::color::rounding::{
    lemma_round_div_exact, lemma_round_div_monotonic, round_div, rounded_quotient,
};

verus! {

pub struct AlarmEffect;

#[derive(Clone, Copy, Debug, PartialEq, Eq, Structural)]
pub enum AlarmType {
    Sunrise,
    Silvester,
    Strobo,
}

#[derive(Debug)]
pub struct AlarmConfig {
    /// The moment of the alarm, in milliseconds since 1970.
    pub at_ms_since_1970: u64,
    pub alarm_type: AlarmType,
    pub range: Range<u16>,
}

impl Clone for AlarmConfig {
    fn clone(&self) -> (copy: Self)
        ensures
            copy == *self,
    {
        Self {
            at_ms_since_1970: self.at_ms_since_1970,
            alarm_type: self.alarm_type,
            range: self.range.start..self.range.end,
        }
    }
}

impl Default for AlarmConfig {
    fn default() -> (config: Self)
        ensures
            config.at_ms_since_1970 == 2_680_471_881_000,
            config.alarm_type == AlarmType::Sunrise,
            config.range == (0u16..30u16),
    {
        Self { at_ms_since_1970: 2_680_471_881_000, alarm_type: AlarmType::Sunrise, range: 0..30 }
    }
}

/// How far a channel has faded in, as a byte, when `ms` milliseconds are
/// left to the alarm: nothing while more than `from` are left, everything
/// once `to` or fewer are left, and in proportion in between.
pub open spec fn fade(ms: int, from: int, to: int) -> int {
    if ms > from {
        0
    } else if ms > to {
        round_div(255 * (from - ms), from - to)
    } else {
        255
    }
}

/// The colour of the sunrise when `ms` milliseconds are left to the alarm.
/// Red fades in from 30 s to 10 s before it, green from 20 s to 5 s, blue
/// from 10 s to the alarm itself. After the alarm the colour stays white.
pub open spec fn sunrise_color(ms: int) -> Color {
    Color {
        red: fade(ms, 30_000, 10_000) as u8,
        green: fade(ms, 20_000, 5_000) as u8,
        blue: fade(ms, 10_000, 0) as u8,
    }
}

/// The rainbow that turns once the countdown is over: a full turn over 30
/// pixels and every 6 seconds.
pub open spec fn party_turn(range: Range<u16>) -> HueShiftConfig {
    HueShiftConfig { millidegrees_per_second: 60_000, millidegrees_per_led: 12_000, range }
}

/// The colour of the countdown, `ms >= 0` milliseconds ahead of the
/// alarm: white for the first 200 ms of every second; a red wash from 200
/// to 400 ms while fewer than three seconds are left; black otherwise.
pub open spec fn countdown_color(ms: int) -> Color {
    if ms % 1_000 < 200 {
        Color { red: 255, green: 255, blue: 255 }
    } else if ms < 3_000 && ms % 1_000 < 400 {
        Color { red: 255, green: 0, blue: 0 }
    } else {
        Color { red: 0, green: 0, blue: 0 }
    }
}

/// The countdown before the alarm: the range in the colour of the moment.
pub open spec fn countdown(colors: Seq<Color>, range: Range<u16>, ms: int) -> Seq<Color> {
    painted(colors, range, countdown_color(ms))
}

/// Whether an alarm whose moment is `ms` milliseconds ahead (or, where
/// negative, behind) writes to its pixels. The sunrise and the countdown
/// always do; the stroboscope alarm does for 30 seconds after its moment,
/// and then only while the stroboscope itself is at work.
pub open spec fn at_work(config: &AlarmConfig, dt: u64, ms: int) -> bool {
    match config.alarm_type {
        AlarmType::Sunrise => true,
        AlarmType::Silvester => true,
        AlarmType::Strobo => ms > -30_000 && strobe_phase(2_000, dt) != StrobePhase::Idle,
    }
}

/// The buffer after an alarm that has been set off, `ms` milliseconds
/// ahead of its moment (negative once the moment has passed).
pub open spec fn alarm_rendered(config: &AlarmConfig, colors: Seq<Color>, dt: u64, ms: int) -> Seq<
    Color,
> {
    match config.alarm_type {
        AlarmType::Sunrise => painted(colors, config.range, sunrise_color(ms)),
        AlarmType::Silvester => if ms < 0 {
            hue_shifted(
                &party_turn(config.range),
                painted(colors, config.range, Color { red: 255, green: 0, blue: 0 }),
                dt,
            )
        } else {
            countdown(colors, config.range, ms)
        },
        AlarmType::Strobo => if ms > -30_000 {
            strobed(colors, config.range, strobe_phase(2_000, dt))
        } else {
            colors
        },
    }
}

/// Whether the alarm has been set off: the wall clock is known and has
/// passed the alarm's moment.
pub open spec fn fires(config: &AlarmConfig, rt: Option<u64>) -> bool {
    rt matches Some(now) && now > config.at_ms_since_1970
}

/// Every fade is a byte.
pub proof fn lemma_fade_in_range(ms: int, from: int, to: int)
    requires
        to < from,
    ensures
        0 <= fade(ms, from, to) <= 255,
{
    if to < ms <= from {
        let span = from - to;
        lemma_round_div_monotonic(0, 255 * (from - ms), span);
        lemma_round_div_monotonic(255 * (from - ms), 255 * span, span);
        lemma_round_div_exact(0, span);
        lemma_round_div_exact(255, span);
    }
}

/// Computes one fade for the spans that the sunrise uses.
fn fade_at(ms: i128, from: u32, to: u32) -> (level: u8)
    requires
        to < from <= 30_000,
    ensures
        level == fade(ms as int, from as int, to as int),
{
    proof {
        lemma_fade_in_range(ms as int, from as int, to as int);
    }
    if ms > from as i128 {
        0
    } else if ms > to as i128 {
        let left: u32 = from - (ms as u32);
        rounded_quotient(255 * left, from - to) as u8
    } else {
        255
    }
}

/// Computes the colour of the sunrise `ms_to_alarm` milliseconds ahead of
/// the alarm.
pub fn sunrise_color_at(ms_to_alarm: i128) -> (color: Color)
    ensures
        color == sunrise_color(ms_to_alarm as int),
{
    Color {
        red: fade_at(ms_to_alarm, 30_000, 10_000),
        green: fade_at(ms_to_alarm, 20_000, 5_000),
        blue: fade_at(ms_to_alarm, 10_000, 0),
    }
}

/// Computes the colour of the countdown `ms_to_alarm` milliseconds ahead
/// of the alarm.
pub fn countdown_color_at(ms_to_alarm: u64) -> (color: Color)
    ensures
        color == countdown_color(ms_to_alarm as int),
{
    let into_second: u64 = ms_to_alarm % 1_000;
    if into_second < 200 {
        Color::white()
    } else if ms_to_alarm < 3_000 && into_second < 400 {
        Color::red()
    } else {
        Color::black()
    }
}

/// Sets the range to one colour by way of the solid colour effect.
fn paint(color: Color, range: &Range<u16>, colors: &mut Vec<Color>, dt: u64) -> (res: Result<
    (),
    EffectError,
>)
    ensures
        res is Ok <==> range_fits(*range, old(colors)@.len()),
        res is Ok ==> final(colors)@ == painted(old(colors)@, *range, color),
        res is Err ==> res == Err::<(), EffectError>(EffectError::RangeOutOfBounds),
        res is Err ==> final(colors)@ == old(colors)@,
        final(colors)@.len() == old(colors)@.len(),
{
    let solid = SolidColorConfig { color, range: range.start..range.end };
    SolidColorEffect::apply(&solid, colors, dt, None)
}

impl AlarmEffect {
    /// Applies an alarm that has been set off and is `ms_to_alarm`
    /// milliseconds ahead of its moment; a negative number says how long
    /// ago the moment was. An alarm that writes nothing at this moment
    /// succeeds and changes nothing; one that writes fails, and leaves the
    /// buffer as it was, exactly when its range does not fit the buffer.
    pub fn apply_at(config: &AlarmConfig, colors: &mut Vec<Color>, dt: u64, ms_to_alarm: i128)
        -> (res: Result<(), EffectError>)
        ensures
            res is Ok <==> !at_work(config, dt, ms_to_alarm as int) || range_fits(
                config.range,
                old(colors)@.len(),
            ),
            res is Ok ==> final(colors)@ == alarm_rendered(
                config,
                old(colors)@,
                dt,
                ms_to_alarm as int,
            ),
            !at_work(config, dt, ms_to_alarm as int) ==> final(colors)@ == old(colors)@,
            res is Err ==> res == Err::<(), EffectError>(EffectError::RangeOutOfBounds),
            res is Err ==> final(colors)@ == old(colors)@,
            final(colors)@.len() == old(colors)@.len(),
    {
        match config.alarm_type {
            AlarmType::Sunrise => paint(sunrise_color_at(ms_to_alarm), &config.range, colors, dt),
            AlarmType::Silvester => {
                if ms_to_alarm < 0 {
                    match paint(Color::red(), &config.range, colors, dt) {
                        Ok(()) => {},
                        Err(e) => {
                            return Err(e);
                        },
                    }
                    let turn = HueShiftConfig {
                        millidegrees_per_second: 60_000,
                        millidegrees_per_led: 12_000,
                        range: config.range.start..config.range.end,
                    };
                    HueShiftEffect::apply(&turn, colors, dt, None)
                } else {
                    let color = if ms_to_alarm >= 3_000 {
                        // Beyond the last three seconds only the place in
                        // the second counts.
                        let into_second: u64 = (ms_to_alarm % 1_000) as u64;
                        countdown_color_at(3_000 + into_second)
                    } else {
                        countdown_color_at(ms_to_alarm as u64)
                    };
                    paint(color, &config.range, colors, dt)
                }
            },
            AlarmType::Strobo => {
                if ms_to_alarm > -30_000 {
                    let strobe = StroboConfig {
                        frequency_millihertz: 2_000,
                        range: config.range.start..config.range.end,
                    };
                    StroboEffect::apply(&strobe, colors, dt, None)
                } else {
                    Ok(())
                }
            },
        }
    }
}

impl Effect for AlarmEffect {
    type Config = AlarmConfig;

    open spec fn range_of(config: &AlarmConfig) -> Range<u16> {
        config.range
    }

    /// At rest without a wall clock and until the clock has passed the
    /// alarm's moment; from then on as `at_work` says.
    open spec fn active(config: &AlarmConfig, dt: u64, rt: Option<u64>) -> bool {
        fires(config, rt) && at_work(config, dt, config.at_ms_since_1970 - rt->Some_0)
    }

    /// Nothing happens without a wall clock, nor before the clock has
    /// passed the alarm's moment. From then on the alarm is applied with
    /// the time that has gone by since its moment, as a negative time to go.
    open spec fn rendered(config: &AlarmConfig, colors: Seq<Color>, dt: u64, rt: Option<u64>)
        -> Seq<Color> {
        if fires(config, rt) {
            alarm_rendered(config, colors, dt, config.at_ms_since_1970 - rt->Some_0)
        } else {
            colors
        }
    }

    fn apply(config: &AlarmConfig, colors: &mut Vec<Color>, dt: u64, rt: Option<u64>) -> (res:
        Result<(), EffectError>) {
        match rt {
            Some(now) => {
                if now > config.at_ms_since_1970 {
                    let ms_to_alarm: i128 = config.at_ms_since_1970 as i128 - now as i128;
                    AlarmEffect::apply_at(config, colors, dt, ms_to_alarm)
                } else {
                    Ok(())
                }
            },
            None => Ok(()),
        }
    }
}

} // verus!
