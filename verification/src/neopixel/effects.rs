//! The effects that can be laid over the frame buffer, and their
//! composition in list order.
//!
//! Time is counted in milliseconds: `dt` since the renderer started, `rt`
//! since 1970 where a wall clock is known.

use vstd::prelude::*;
use core::ops::Range;
use super::strip::color::Color;

pub mod alarm;
pub mod hue;
pub mod invert;
pub mod laws;
pub mod solid;
pub mod strobo;

verus! {

/// Why an effect was not applied.
#[derive(Clone, Copy, Debug, PartialEq, Eq, Structural)]
pub enum EffectError {
    /// The effect claims a pixel that the buffer does not have.
    RangeOutOfBounds,
}

/// Whether pixel `i` belongs to `range`.
pub open spec fn in_range(range: Range<u16>, i: int) -> bool {
    range.start <= i < range.end
}

/// Whether every pixel of `range` exists in a buffer of `len` pixels. An
/// empty range claims no pixel and fits any buffer.
pub open spec fn range_fits(range: Range<u16>, len: nat) -> bool {
    range.start >= range.end || range.end <= len
}

/// `colors` with every pixel of `range` set to `color`.
pub open spec fn painted(colors: Seq<Color>, range: Range<u16>, color: Color) -> Seq<Color> {
    Seq::new(
        colors.len(),
        |i: int|
            if in_range(range, i) {
                color
            } else {
                colors[i]
            },
    )
}

/// Decides in constant time whether `range` fits a buffer of `len` pixels.
pub fn fits(range: &Range<u16>, len: usize) -> (ok: bool)
    ensures
        ok == range_fits(*range, len as nat),
{
    range.start >= range.end || range.end as usize <= len
}

/// One kind of effect: a pure function of its configuration, the buffer
/// and the two clocks, applied to the buffer in place.
pub trait Effect {
    type Config: Default;

    /// The pixels that the effect claims.
    spec fn range_of(config: &Self::Config) -> Range<u16>;

    /// Whether the effect is at work at this moment. Some effects rest for
    /// part of the time: a stroboscope between its blinks, an alarm before
    /// its moment or without a wall clock.
    spec fn active(config: &Self::Config, dt: u64, rt: Option<u64>) -> bool;

    /// The buffer after the effect, a function of the buffer before it.
    spec fn rendered(config: &Self::Config, colors: Seq<Color>, dt: u64, rt: Option<u64>) -> Seq<
        Color,
    >;

    /// Applies the effect. An effect that rests succeeds and leaves the
    /// buffer as it is, whatever its range. An effect at work fails, and
    /// leaves the buffer as it was, exactly when its range does not fit the
    /// buffer.
    fn apply(config: &Self::Config, colors: &mut Vec<Color>, dt: u64, rt: Option<u64>) -> (res:
        Result<(), EffectError>)
        ensures
            res is Ok <==> !Self::active(config, dt, rt) || range_fits(
                Self::range_of(config),
                old(colors)@.len(),
            ),
            res is Ok ==> final(colors)@ == Self::rendered(config, old(colors)@, dt, rt),
            !Self::active(config, dt, rt) ==> final(colors)@ == old(colors)@,
            res is Err ==> res == Err::<(), EffectError>(EffectError::RangeOutOfBounds),
            res is Err ==> final(colors)@ == old(colors)@,
            final(colors)@.len() == old(colors)@.len(),
    ;
}

/// One effect instance: which kind it is, with its configuration.
#[derive(Debug)]
pub enum EffectConfig {
    Invert(invert::InversionConfig),
    HueShift(hue::HueShiftConfig),
    SolidColor(solid::SolidColorConfig),
    Strobo(strobo::StroboConfig),
    Alarm(alarm::AlarmConfig),
}

impl Clone for EffectConfig {
    fn clone(&self) -> (copy: Self)
        ensures
            copy == *self,
    {
        match self {
            EffectConfig::Invert(config) => EffectConfig::Invert(config.clone()),
            EffectConfig::HueShift(config) => EffectConfig::HueShift(config.clone()),
            EffectConfig::SolidColor(config) => EffectConfig::SolidColor(config.clone()),
            EffectConfig::Strobo(config) => EffectConfig::Strobo(config.clone()),
            EffectConfig::Alarm(config) => EffectConfig::Alarm(config.clone()),
        }
    }
}

impl EffectConfig {
    /// The pixels that the effect claims.
    pub open spec fn range(self) -> Range<u16> {
        match self {
            EffectConfig::Invert(config) => config.range,
            EffectConfig::HueShift(config) => config.range,
            EffectConfig::SolidColor(config) => config.range,
            EffectConfig::Strobo(config) => config.range,
            EffectConfig::Alarm(config) => config.range,
        }
    }

    /// Whether the effect is at work at this moment.
    pub open spec fn active(self, dt: u64, rt: Option<u64>) -> bool {
        match self {
            EffectConfig::Invert(config) => invert::InversionEffect::active(&config, dt, rt),
            EffectConfig::HueShift(config) => hue::HueShiftEffect::active(&config, dt, rt),
            EffectConfig::SolidColor(config) => solid::SolidColorEffect::active(&config, dt, rt),
            EffectConfig::Strobo(config) => strobo::StroboEffect::active(&config, dt, rt),
            EffectConfig::Alarm(config) => alarm::AlarmEffect::active(&config, dt, rt),
        }
    }

    /// The buffer after this one effect.
    pub open spec fn rendered(self, colors: Seq<Color>, dt: u64, rt: Option<u64>) -> Seq<Color> {
        match self {
            EffectConfig::Invert(config) => invert::InversionEffect::rendered(
                &config,
                colors,
                dt,
                rt,
            ),
            EffectConfig::HueShift(config) => hue::HueShiftEffect::rendered(&config, colors, dt, rt),
            EffectConfig::SolidColor(config) => solid::SolidColorEffect::rendered(
                &config,
                colors,
                dt,
                rt,
            ),
            EffectConfig::Strobo(config) => strobo::StroboEffect::rendered(&config, colors, dt, rt),
            EffectConfig::Alarm(config) => alarm::AlarmEffect::rendered(&config, colors, dt, rt),
        }
    }

    /// Whether the effect claims only pixels that a buffer of `len` pixels
    /// has.
    pub fn fits_buffer(&self, len: usize) -> (ok: bool)
        ensures
            ok == range_fits(self.range(), len as nat),
    {
        match self {
            EffectConfig::Invert(config) => fits(&config.range, len),
            EffectConfig::HueShift(config) => fits(&config.range, len),
            EffectConfig::SolidColor(config) => fits(&config.range, len),
            EffectConfig::Strobo(config) => fits(&config.range, len),
            EffectConfig::Alarm(config) => fits(&config.range, len),
        }
    }

    /// Applies this one effect by handing it to its kind. An effect that
    /// rests succeeds and changes nothing; an effect at work fails exactly
    /// when its range does not fit the buffer.
    pub fn apply(&self, colors: &mut Vec<Color>, dt: u64, rt: Option<u64>) -> (res: Result<
        (),
        EffectError,
    >)
        ensures
            res is Ok <==> !self.active(dt, rt) || range_fits(self.range(), old(colors)@.len()),
            res is Ok ==> final(colors)@ == self.rendered(old(colors)@, dt, rt),
            !self.active(dt, rt) ==> final(colors)@ == old(colors)@,
            res is Err ==> res == Err::<(), EffectError>(EffectError::RangeOutOfBounds),
            res is Err ==> final(colors)@ == old(colors)@,
            final(colors)@.len() == old(colors)@.len(),
    {
        match self {
            EffectConfig::HueShift(config) => hue::HueShiftEffect::apply(config, colors, dt, rt),
            EffectConfig::SolidColor(config) => solid::SolidColorEffect::apply(
                config,
                colors,
                dt,
                rt,
            ),
            EffectConfig::Strobo(config) => strobo::StroboEffect::apply(config, colors, dt, rt),
            EffectConfig::Invert(config) => invert::InversionEffect::apply(config, colors, dt, rt),
            EffectConfig::Alarm(config) => alarm::AlarmEffect::apply(config, colors, dt, rt),
        }
    }
}

/// Why a list of effects was refused: the effect at `position` is the
/// first that does not fit the buffer.
#[derive(Clone, Copy, Debug, PartialEq, Eq, Structural)]
pub struct CompositionError {
    pub position: usize,
    pub cause: EffectError,
}

/// Whether every effect of the list fits a buffer of `len` pixels.
pub open spec fn all_fit(effects: Seq<EffectConfig>, len: nat) -> bool {
    forall|k: int| 0 <= k < effects.len() ==> range_fits(#[trigger] effects[k].range(), len)
}

/// The first position of the list whose effect does not fit a buffer of
/// `len` pixels, or the length of the list where all fit.
pub open spec fn first_misfit(effects: Seq<EffectConfig>, len: nat) -> int
    decreases effects.len(),
{
    if effects.len() == 0 {
        0
    } else if !range_fits(effects[0].range(), len) {
        0
    } else {
        1 + first_misfit(effects.drop_first(), len)
    }
}

/// The buffer after the effects of the list, applied in list order, each
/// to what the effects before it have left.
pub open spec fn composed(effects: Seq<EffectConfig>, colors: Seq<Color>, dt: u64, rt: Option<u64>)
    -> Seq<Color>
    decreases effects.len(),
{
    if effects.len() == 0 {
        colors
    } else {
        effects.last().rendered(composed(effects.drop_last(), colors, dt, rt), dt, rt)
    }
}

/// `first_misfit` is a position of the list or its length; every effect
/// before it fits, and the one at it does not.
pub proof fn lemma_first_misfit(effects: Seq<EffectConfig>, len: nat)
    ensures
        0 <= first_misfit(effects, len) <= effects.len(),
        forall|k: int|
            0 <= k < first_misfit(effects, len) ==> range_fits(#[trigger] effects[k].range(), len),
        first_misfit(effects, len) < effects.len() ==> !range_fits(
            effects[first_misfit(effects, len)].range(),
            len,
        ),
        first_misfit(effects, len) == effects.len() <==> all_fit(effects, len),
    decreases effects.len(),
{
    if effects.len() > 0 && range_fits(effects[0].range(), len) {
        let rest = effects.drop_first();
        lemma_first_misfit(rest, len);
        let m = first_misfit(rest, len);
        assert forall|k: int| 0 <= k < 1 + m implies range_fits(
            #[trigger] effects[k].range(),
            len,
        ) by {
            if k > 0 {
                assert(effects[k] == rest[k - 1]);
            }
        }
        if m < rest.len() {
            assert(effects[1 + m] == rest[m]);
        }
    }
}

/// Checks a list of effects against a buffer of `len` pixels, as is due
/// before the list is taken over: it is accepted exactly when every effect
/// fits, and the error names the first that does not.
pub fn validate(effects: &Vec<EffectConfig>, len: usize) -> (res: Result<(), CompositionError>)
    ensures
        res is Ok <==> all_fit(effects@, len as nat),
        res matches Err(e) ==> e.position == first_misfit(effects@, len as nat) && e.cause
            == EffectError::RangeOutOfBounds,
{
    proof {
        lemma_first_misfit(effects@, len as nat);
    }
    let mut k: usize = 0;
    while k < effects.len()
        invariant
            k <= effects@.len(),
            forall|j: int| 0 <= j < k ==> range_fits(#[trigger] effects@[j].range(), len as nat),
            0 <= first_misfit(effects@, len as nat) <= effects@.len(),
            forall|j: int|
                0 <= j < first_misfit(effects@, len as nat) ==> range_fits(
                    #[trigger] effects@[j].range(),
                    len as nat,
                ),
            first_misfit(effects@, len as nat) < effects@.len() ==> !range_fits(
                effects@[first_misfit(effects@, len as nat)].range(),
                len as nat,
            ),
            first_misfit(effects@, len as nat) == effects@.len() <==> all_fit(
                effects@,
                len as nat,
            ),
        decreases effects@.len() - k,
    {
        if !effects[k].fits_buffer(len) {
            return Err(CompositionError { position: k, cause: EffectError::RangeOutOfBounds });
        }
        k += 1;
    }
    Ok(())
}

/// Composes one frame: applies the effects in list order to the buffer.
///
/// The list is checked first, as `validate` checks it: every effect has to
/// fit the buffer, at work or not. Where one does not, nothing is applied,
/// the buffer stays as it was and the error names the first such effect.
/// Pixels that no effect claims keep their colour.
pub fn apply_effects(
    effects: &Vec<EffectConfig>,
    colors: &mut Vec<Color>,
    dt: u64,
    rt: Option<u64>,
) -> (res: Result<(), CompositionError>)
    ensures
        res is Ok <==> all_fit(effects@, old(colors)@.len()),
        res is Ok ==> final(colors)@ == composed(effects@, old(colors)@, dt, rt),
        res matches Err(e) ==> e.position == first_misfit(effects@, old(colors)@.len()) && e.cause
            == EffectError::RangeOutOfBounds,
        res is Err ==> final(colors)@ == old(colors)@,
        final(colors)@.len() == old(colors)@.len(),
{
    match validate(effects, colors.len()) {
        Ok(()) => {},
        Err(e) => {
            return Err(e);
        },
    }
    let mut k: usize = 0;
    while k < effects.len()
        invariant
            k <= effects@.len(),
            colors@.len() == old(colors)@.len(),
            all_fit(effects@, colors@.len()),
            colors@ == composed(effects@.subrange(0, k as int), old(colors)@, dt, rt),
        decreases effects@.len() - k,
    {
        let ghost before = colors@;
        let applied = effects[k].apply(colors, dt, rt);
        proof {
            let done = effects@.subrange(0, k as int + 1);
            assert(done.last() == effects@[k as int]);
            assert(done.drop_last() =~= effects@.subrange(0, k as int));
            assert(applied is Ok);
        }
        k += 1;
    }
    assert(effects@.subrange(0, k as int) =~= effects@);
    Ok(())
}

/// Without effects the frame stays as it is.
pub proof fn lemma_no_effects_change_nothing(colors: Seq<Color>, dt: u64, rt: Option<u64>)
    ensures
        composed(Seq::<EffectConfig>::empty(), colors, dt, rt) == colors,
{
}

/// A pixel that no effect of the list claims keeps its colour.
pub proof fn lemma_unclaimed_pixel_kept(
    effects: Seq<EffectConfig>,
    colors: Seq<Color>,
    dt: u64,
    rt: Option<u64>,
    i: int,
)
    requires
        0 <= i < colors.len(),
        forall|k: int| 0 <= k < effects.len() ==> !in_range(#[trigger] effects[k].range(), i),
    ensures
        composed(effects, colors, dt, rt).len() == colors.len(),
        composed(effects, colors, dt, rt)[i] == colors[i],
    decreases effects.len(),
{
    lemma_composed_len(effects, colors, dt, rt);
    if effects.len() > 0 {
        let front = effects.drop_last();
        assert forall|k: int| 0 <= k < front.len() implies !in_range(
            #[trigger] front[k].range(),
            i,
        ) by {
            assert(front[k] == effects[k]);
        }
        lemma_unclaimed_pixel_kept(front, colors, dt, rt, i);
        lemma_composed_len(front, colors, dt, rt);
        assert(!in_range(effects[effects.len() - 1].range(), i));
        lemma_rendered_outside(effects.last(), composed(front, colors, dt, rt), dt, rt, i);
    }
}

/// One effect keeps the length of the buffer and every pixel outside its
/// range.
pub proof fn lemma_rendered_outside(
    effect: EffectConfig,
    colors: Seq<Color>,
    dt: u64,
    rt: Option<u64>,
    i: int,
)
    requires
        0 <= i < colors.len(),
        !in_range(effect.range(), i),
    ensures
        effect.rendered(colors, dt, rt).len() == colors.len(),
        effect.rendered(colors, dt, rt)[i] == colors[i],
{
}

/// Composition keeps the length of the buffer.
pub proof fn lemma_composed_len(
    effects: Seq<EffectConfig>,
    colors: Seq<Color>,
    dt: u64,
    rt: Option<u64>,
)
    ensures
        composed(effects, colors, dt, rt).len() == colors.len(),
    decreases effects.len(),
{
    if effects.len() > 0 {
        lemma_composed_len(effects.drop_last(), colors, dt, rt);
        lemma_rendered_len(effects.last(), composed(effects.drop_last(), colors, dt, rt), dt, rt);
    }
}

/// One effect keeps the length of the buffer.
pub proof fn lemma_rendered_len(effect: EffectConfig, colors: Seq<Color>, dt: u64, rt: Option<u64>)
    ensures
        effect.rendered(colors, dt, rt).len() == colors.len(),
{
}

} // verus!
