//! The LED strip renderer: colour model, effects, pulse encoding and the
//! state that one render tick works on.
//!
//! The manager owns the frame buffer and the effect list. Whoever drives it
//! calls `tick` once per period, sends the returned pulse train as one
//! burst and then keeps the line idle for the returned reset delay.

use vstd::prelude::*;
use self::effects::{
    all_fit, apply_effects, composed, first_misfit, validate, CompositionError, EffectConfig,
    EffectError,
};
use self::strip::{PulsePair, Strip};
use self::strip::color::Color;

pub mod effects;
pub mod strip;

verus! {

/// Where the renderer stands.
#[derive(Clone, Copy, Debug, PartialEq, Eq, Structural)]
pub enum RenderState {
    /// No effect list has been assigned yet; the buffer is black.
    Idle,
    /// An effect list has been assigned.
    Rendering,
}

/// What one tick hands to the hardware.
pub struct Frame {
    /// The pulse train of the whole buffer, to be sent without a break.
    pub pulses: Vec<PulsePair>,
    /// The idle time after the burst, in microseconds: the reset gap of
    /// the strip, rounded up.
    pub reset_delay_us: u32,
}

/// The buffer of `count` black pixels.
pub open spec fn all_black(count: nat) -> Seq<Color> {
    Seq::new(count, |i: int| Color { red: 0, green: 0, blue: 0 })
}

pub struct NeopixelManager {
    strip: Strip,
    colors: Vec<Color>,
    effects: Vec<EffectConfig>,
    state: RenderState,
}

impl NeopixelManager {
    #[verifier::type_invariant]
    spec fn consistent(self) -> bool {
        &&& self.colors@.len() == self.strip.led_count
        &&& all_fit(self.effects@, self.colors@.len())
        &&& self.state is Idle ==> self.effects@.len() == 0 && self.colors@ == all_black(
            self.strip.led_count as nat,
        )
    }

    /// The strip that is driven.
    pub closed spec fn strip_spec(self) -> Strip {
        self.strip
    }

    /// The frame buffer, one colour per pixel.
    pub closed spec fn buffer(self) -> Seq<Color> {
        self.colors@
    }

    /// The effect list in force.
    pub closed spec fn effect_list(self) -> Seq<EffectConfig> {
        self.effects@
    }

    /// Where the renderer stands.
    pub closed spec fn state_spec(self) -> RenderState {
        self.state
    }

    /// An idle renderer for `strip`: a black buffer of the strip's length
    /// and no effects.
    pub fn new(strip: Strip) -> (manager: Self)
        ensures
            manager.strip_spec() == strip,
            manager.buffer() == all_black(strip.led_count as nat),
            manager.effect_list() == Seq::<EffectConfig>::empty(),
            manager.state_spec() == RenderState::Idle,
    {
        let mut colors: Vec<Color> = Vec::new();
        let mut i: u16 = 0;
        while i < strip.led_count
            invariant
                i <= strip.led_count,
                colors@.len() == i,
                forall|k: int| 0 <= k < i ==> #[trigger] colors@[k] == (Color { red: 0, green: 0, blue: 0 }),
            decreases strip.led_count - i,
        {
            colors.push(Color::black());
            i += 1;
        }
        assert(colors@ =~= all_black(strip.led_count as nat));
        Self { strip, colors, effects: Vec::new(), state: RenderState::Idle }
    }

    pub fn strip(&self) -> (strip: &Strip)
        ensures
            *strip == self.strip_spec(),
    {
        &self.strip
    }

    /// The current frame buffer: one colour per pixel of the strip.
    pub fn colors(&self) -> (colors: &Vec<Color>)
        ensures
            colors@ == self.buffer(),
            colors@.len() == self.strip_spec().led_count,
    {
        proof {
            use_type_invariant(self);
        }
        &self.colors
    }

    /// The effect list in force. Every effect in it fits the buffer.
    pub fn effects(&self) -> (effects: &Vec<EffectConfig>)
        ensures
            effects@ == self.effect_list(),
            all_fit(effects@, self.buffer().len()),
    {
        proof {
            use_type_invariant(self);
        }
        &self.effects
    }

    /// Where the renderer stands. While it is idle there are no effects
    /// and the buffer is black.
    pub fn state(&self) -> (state: RenderState)
        ensures
            state == self.state_spec(),
            state is Idle ==> self.effect_list().len() == 0,
            state is Idle ==> self.buffer() == all_black(self.strip_spec().led_count as nat),
    {
        proof {
            use_type_invariant(self);
        }
        self.state
    }

    /// Replaces the effect list as a whole. A list with an effect that does
    /// not fit the buffer is refused: the error names the first such
    /// effect, and the list in force stays. The buffer is not touched
    /// either way.
    pub fn set_effects(&mut self, effects: Vec<EffectConfig>) -> (res: Result<(), CompositionError>)
        ensures
            res is Ok <==> all_fit(effects@, old(self).buffer().len()),
            res is Ok ==> final(self).effect_list() == effects@,
            res is Ok ==> final(self).state_spec() == RenderState::Rendering,
            res matches Err(e) ==> e.position == first_misfit(effects@, old(self).buffer().len()) && e.cause
            == EffectError::RangeOutOfBounds,
            res is Err ==> final(self).effect_list() == old(self).effect_list(),
            res is Err ==> final(self).state_spec() == old(self).state_spec(),
            final(self).buffer() == old(self).buffer(),
            final(self).strip_spec() == old(self).strip_spec(),
    {
        proof {
            use_type_invariant(&*self);
        }
        match validate(&effects, self.colors.len()) {
            Ok(()) => {
                self.state = RenderState::Rendering;
                self.effects = effects;
                Ok(())
            },
            Err(e) => Err(e),
        }
    }

    /// One render tick at `dt` milliseconds since the start, with the wall
    /// clock `rt` in milliseconds since 1970 where it is known: composes
    /// the effects in force into the buffer and encodes the buffer.
    pub fn tick(&mut self, dt: u64, rt: Option<u64>) -> (frame: Frame)
        ensures
            final(self).buffer() == composed(old(self).effect_list(), old(self).buffer(), dt, rt),
            frame.pulses@ == final(self).strip_spec().encoded(final(self).buffer()),
            frame.reset_delay_us == final(self).strip_spec().reset_gap_us(),
            frame.reset_delay_us * 1000 >= final(self).strip_spec().reset_ns,
            final(self).effect_list() == old(self).effect_list(),
            final(self).strip_spec() == old(self).strip_spec(),
            final(self).state_spec() == old(self).state_spec(),
    {
        proof {
            use_type_invariant(&*self);
        }
        let mut next: Vec<Color> = self.colors.clone();
        assert(next@ =~= self.colors@);
        let composition = apply_effects(&self.effects, &mut next, dt, rt);
        assert(composition is Ok);
        self.colors = next;
        let pulses = self.strip.pulse_train(&self.colors);
        Frame { pulses, reset_delay_us: self.strip.reset_delay_us() }
    }
}

} // verus!
