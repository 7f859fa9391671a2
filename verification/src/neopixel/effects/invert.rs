//! The channel-wise complement of a range of pixels.

use vstd::prelude::*;
use core::ops::Range;
use super::{fits, in_range, range_fits, Effect, EffectError};
use super::super::strip::color::Color;

verus! {

pub struct InversionEffect;

#[derive(Debug)]
pub struct InversionConfig {
    pub range: Range<u16>,
}

impl Clone for InversionConfig {
    fn clone(&self) -> (copy: Self)
        ensures
            copy == *self,
    {
        Self { range: self.range.start..self.range.end }
    }
}

impl Default for InversionConfig {
    fn default() -> (config: Self)
        ensures
            config.range == (0u16..30u16),
    {
        Self { range: 0..30 }
    }
}

/// `colors` with every pixel of `range` replaced by its complement.
pub open spec fn inverted(colors: Seq<Color>, range: Range<u16>) -> Seq<Color> {
    Seq::new(
        colors.len(),
        |i: int|
            if in_range(range, i) {
                colors[i].complement()
            } else {
                colors[i]
            },
    )
}

impl Effect for InversionEffect {
    type Config = InversionConfig;

    open spec fn range_of(config: &InversionConfig) -> Range<u16> {
        config.range
    }

    /// Always at work.
    open spec fn active(config: &InversionConfig, dt: u64, rt: Option<u64>) -> bool {
        true
    }

    /// Every pixel in range becomes what it lacks to white, whatever the
    /// time.
    open spec fn rendered(config: &InversionConfig, colors: Seq<Color>, dt: u64, rt: Option<u64>)
        -> Seq<Color> {
        inverted(colors, config.range)
    }

    fn apply(config: &InversionConfig, colors: &mut Vec<Color>, dt: u64, rt: Option<u64>) -> (res:
        Result<(), EffectError>) {
        if !fits(&config.range, colors.len()) {
            return Err(EffectError::RangeOutOfBounds);
        }
        let mut i: u16 = config.range.start;
        while i < config.range.end
            invariant
                colors@.len() == old(colors)@.len(),
                range_fits(config.range, colors@.len()),
                config.range.start <= i,
                i <= config.range.end || i == config.range.start,
                forall|k: int|
                    0 <= k < colors@.len() ==> #[trigger] colors@[k] == if config.range.start <= k
                        < i {
                        old(colors)@[k].complement()
                    } else {
                        old(colors)@[k]
                    },
            decreases config.range.end - i,
        {
            let pixel = colors[i as usize];
            colors[i as usize] = Color::white() - pixel;
            i += 1;
        }
        assert(colors@ =~= inverted(old(colors)@, config.range));
        Ok(())
    }
}

} // verus!
