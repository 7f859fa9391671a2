//! What holds of the effects whatever the buffer and the time.

use vstd::prelude::*;
use core::ops::Range;
use super::{composed, in_range, painted, Effect, EffectConfig};
use super::alarm::{fires, party_turn, AlarmConfig, AlarmEffect, AlarmType};
use super::hue::{hue_offset, hue_shifted, HueShiftConfig};
use super::invert::inverted;
use super::strobo::{strobe_phase, StrobePhase};
use super::super::strip::color::Color;

verus! {

/// Painting a range twice is painting it once.
pub proof fn lemma_painting_is_idempotent(colors: Seq<Color>, range: Range<u16>, color: Color)
    ensures
        painted(painted(colors, range, color), range, color) == painted(colors, range, color),
{
    assert(painted(painted(colors, range, color), range, color) =~= painted(colors, range, color));
}

/// Of two paintings the later one shows wherever both reach; elsewhere the
/// earlier one shows through.
pub proof fn lemma_later_painting_wins(
    colors: Seq<Color>,
    first: Range<u16>,
    first_color: Color,
    second: Range<u16>,
    second_color: Color,
    i: int,
)
    requires
        0 <= i < colors.len(),
    ensures
        ({
            let both = painted(painted(colors, first, first_color), second, second_color);
            &&& in_range(second, i) ==> both[i] == second_color
            &&& !in_range(second, i) && in_range(first, i) ==> both[i] == first_color
            &&& !in_range(second, i) && !in_range(first, i) ==> both[i] == colors[i]
        }),
{
}

/// Inverting a range twice restores it.
pub proof fn lemma_inverting_twice(colors: Seq<Color>, range: Range<u16>)
    ensures
        inverted(inverted(colors, range), range) == colors,
{
    assert(inverted(inverted(colors, range), range) =~= colors);
}

/// Without a share per pixel the whole range is turned by one angle, so
/// pixels of one colour stay of one colour.
pub proof fn lemma_uniform_turn(
    config: &HueShiftConfig,
    colors: Seq<Color>,
    dt: u64,
    i: int,
    j: int,
)
    requires
        config.millidegrees_per_led == 0,
        0 <= i < colors.len(),
        0 <= j < colors.len(),
        in_range(config.range, i),
        in_range(config.range, j),
    ensures
        hue_offset(config, dt, i) == hue_offset(config, dt, j),
        hue_offset(config, dt, i) == (config.millidegrees_per_second * dt) / 1000,
        colors[i] == colors[j] ==> hue_shifted(config, colors, dt)[i] == hue_shifted(
            config,
            colors,
            dt,
        )[j],
{
    let per_led = config.millidegrees_per_led as int;
    assert(per_led * i == 0 && per_led * j == 0) by (nonlinear_arith)
        requires
            per_led == 0,
    ;
}

/// The stroboscope repeats with its period. Two moments lie a whole
/// number of periods apart where their gap in milliseconds, times the
/// frequency in millihertz, is a multiple of `1_000_000`; the phase is
/// then the same at both.
pub proof fn lemma_strobe_repeats(frequency_millihertz: u32, dt: u64, later: u64)
    requires
        frequency_millihertz > 0,
        later >= dt,
        ((later - dt) * frequency_millihertz) % 1_000_000 == 0,
    ensures
        strobe_phase(frequency_millihertz, later) == strobe_phase(frequency_millihertz, dt),
{
    let f = frequency_millihertz as int;
    let gap = (later - dt) as int;
    assert(later * f == dt * f + gap * f) by (nonlinear_arith)
        requires
            later == dt + gap,
    ;
    assert((dt * f + gap * f) % 1_000_000 == (dt * f) % 1_000_000);
}

/// At the start the stroboscope is dark, whatever its frequency.
pub proof fn lemma_strobe_at_start(frequency_millihertz: u32)
    ensures
        strobe_phase(frequency_millihertz, 0) == StrobePhase::Dark,
{
    assert(0 * frequency_millihertz == 0);
}

/// In a list that ends with a painting, every pixel of the painting's range
/// has the painting's colour afterwards, whatever came before.
pub proof fn lemma_last_painting_shows(
    effects: Seq<EffectConfig>,
    colors: Seq<Color>,
    dt: u64,
    rt: Option<u64>,
    i: int,
)
    requires
        effects.len() > 0,
        effects.last() is SolidColor,
        0 <= i < colors.len(),
        in_range(effects.last().range(), i),
    ensures
        composed(effects, colors, dt, rt)[i] == effects.last()->SolidColor_0.color,
{
    super::lemma_composed_len(effects.drop_last(), colors, dt, rt);
}

/// An alarm is set off only once its moment has passed. So a countdown
/// alarm that is applied by the wall clock always shows the turning
/// rainbow, never the countdown, and a sunrise alarm always shows white.
pub proof fn lemma_alarm_by_the_clock(
    config: &AlarmConfig,
    colors: Seq<Color>,
    dt: u64,
    rt: Option<u64>,
)
    requires
        fires(config, rt),
    ensures
        config.alarm_type == AlarmType::Silvester ==> AlarmEffect::rendered(config, colors, dt, rt)
            == hue_shifted(
            &party_turn(config.range),
            painted(colors, config.range, Color { red: 255, green: 0, blue: 0 }),
            dt,
        ),
        config.alarm_type == AlarmType::Sunrise ==> AlarmEffect::rendered(config, colors, dt, rt)
            == painted(colors, config.range, Color { red: 255, green: 255, blue: 255 }),
{
}

/// An effect at rest leaves the whole buffer as it is.
pub proof fn lemma_effect_at_rest(
    effect: EffectConfig,
    colors: Seq<Color>,
    dt: u64,
    rt: Option<u64>,
)
    requires
        !effect.active(dt, rt),
    ensures
        effect.rendered(colors, dt, rt) == colors,
{
}

} // verus!
