//! One colour over a range of pixels.

use vstd::prelude::*;
use core::ops::Range;
use super::{fits, painted, range_fits, Effect, EffectError};
use super::super::strip::color::Color;

verus! {

pub struct SolidColorEffect;

#[derive(Debug)]
pub struct SolidColorConfig {
    pub color: Color,
    pub range: Range<u16>,
}

impl Clone for SolidColorConfig {
    fn clone(&self) -> (copy: Self)
        ensures
            copy == *self,
    {
        Self { color: self.color, range: self.range.start..self.range.end }
    }
}

impl Default for SolidColorConfig {
    fn default() -> (config: Self)
        ensures
            config.color == (Color { red: 0, green: 0, blue: 0 }),
            config.range == (0u16..30u16),
    {
        Self { color: Color::black(), range: 0..30 }
    }
}

impl Effect for SolidColorEffect {
    type Config = SolidColorConfig;

    open spec fn range_of(config: &SolidColorConfig) -> Range<u16> {
        config.range
    }

    /// Always at work.
    open spec fn active(config: &SolidColorConfig, dt: u64, rt: Option<u64>) -> bool {
        true
    }

    /// Every pixel in range takes the configured colour, whatever the time.
    open spec fn rendered(config: &SolidColorConfig, colors: Seq<Color>, dt: u64, rt: Option<u64>)
        -> Seq<Color> {
        painted(colors, config.range, config.color)
    }

    fn apply(config: &SolidColorConfig, colors: &mut Vec<Color>, dt: u64, rt: Option<u64>) -> (res:
        Result<(), EffectError>) {
        if !fits(&config.range, colors.len()) {
            return Err(EffectError::RangeOutOfBounds);
        }
        let mut i: u16 = config.range.start;
        while i < config.range.end
            invariant
                colors@.len() == old(colors)@.len(),
                range_fits(config.range, colors@.len()),
                config.range.start <= i,
                i <= config.range.end || i == config.range.start,
                forall|k: int|
                    0 <= k < colors@.len() ==> #[trigger] colors@[k] == if config.range.start <= k
                        < i {
                        config.color
                    } else {
                        old(colors)@[k]
                    },
            decreases config.range.end - i,
        {
            colors[i as usize] = config.color;
            i += 1;
        }
        assert(colors@ =~= painted(old(colors)@, config.range, config.color));
        Ok(())
    }
}

} // verus!
