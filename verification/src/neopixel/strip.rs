//! Strip geometry, channel order and the pulse timing of the wire protocol.
//!
//! Every bit of a frame travels as one high pulse followed by one low
//! pulse. The two lengths tell a one from a zero; a long low gap after the
//! last bit latches the frame.

use vstd::prelude::*;
use self::color::Color;
use self::color::bits::bits_msb_first;

pub mod color;
pub mod laws;

verus! {

/// The order in which a strip expects the three channels of a pixel.
#[derive(Clone, Copy, Debug, PartialEq, Eq, Structural)]
pub enum LedColorOrder {
    RGB,
    GRB,
}

/// The two pulses that carry one bit, in nanoseconds.
#[derive(Clone, Copy, Debug, PartialEq, Eq, Structural)]
pub struct PulsePair {
    pub high_ns: u16,
    pub low_ns: u16,
}

/// A strip: its length, its channel order and its five timing parameters.
#[derive(Clone, Copy, Debug, PartialEq, Eq, Structural)]
pub struct Strip {
    pub zero_high_ns: u16,
    pub zero_low_ns: u16,
    pub one_high_ns: u16,
    pub one_low_ns: u16,
    pub reset_ns: u16,
    pub led_count: u16,
    pub led_color_order: LedColorOrder,
}

impl Strip {
    /// The pulses that carry `bit`.
    pub open spec fn pulse_for(self, bit: bool) -> PulsePair {
        if bit {
            PulsePair { high_ns: self.one_high_ns, low_ns: self.one_low_ns }
        } else {
            PulsePair { high_ns: self.zero_high_ns, low_ns: self.zero_low_ns }
        }
    }

    /// The pulse train of a frame: 24 pairs per pixel in buffer order, each
    /// pixel's word most significant bit first.
    pub open spec fn encoded(self, colors: Seq<Color>) -> Seq<PulsePair> {
        Seq::new(
            24 * colors.len(),
            |k: int|
                self.pulse_for(bits_msb_first(colors[k / 24].word(self.led_color_order))[k % 24]),
        )
    }

    /// The least number of whole microseconds that covers the reset gap.
    pub open spec fn reset_gap_us(self) -> int {
        (self.reset_ns + 999) / 1000
    }

    /// The timing of a WS2812B strip of `pixel_count` pixels.
    pub fn ws2812b(pixel_count: u16) -> (strip: Self)
        ensures
            strip == (Strip {
                zero_high_ns: 400,
                zero_low_ns: 850,
                one_high_ns: 800,
                one_low_ns: 450,
                reset_ns: 55_000,
                led_count: pixel_count,
                led_color_order: LedColorOrder::GRB,
            }),
    {
        Self {
            zero_high_ns: 400,
            zero_low_ns: 850,
            one_high_ns: 800,
            one_low_ns: 450,
            reset_ns: 55_000,
            led_count: pixel_count,
            led_color_order: LedColorOrder::GRB,
        }
    }

    /// The timing of a WS2812 strip of `pixel_count` pixels.
    pub fn ws2812(pixel_count: u16) -> (strip: Self)
        ensures
            strip == (Strip {
                zero_high_ns: 350,
                zero_low_ns: 800,
                one_high_ns: 700,
                one_low_ns: 600,
                reset_ns: 55_000,
                led_count: pixel_count,
                led_color_order: LedColorOrder::GRB,
            }),
    {
        Self {
            zero_high_ns: 350,
            zero_low_ns: 800,
            one_high_ns: 700,
            one_low_ns: 600,
            reset_ns: 55_000,
            led_count: pixel_count,
            led_color_order: LedColorOrder::GRB,
        }
    }

    /// A strip with all five timing parameters given. The channel order is
    /// GRB, as for the presets; the field can be set afterwards.
    pub fn custom(
        pixel_count: u16,
        zero_high_ns: u16,
        zero_low_ns: u16,
        one_high_ns: u16,
        one_low_ns: u16,
        reset_ns: u16,
    ) -> (strip: Self)
        ensures
            strip == (Strip {
                zero_high_ns,
                zero_low_ns,
                one_high_ns,
                one_low_ns,
                reset_ns,
                led_count: pixel_count,
                led_color_order: LedColorOrder::GRB,
            }),
    {
        Self {
            zero_high_ns,
            zero_low_ns,
            one_high_ns,
            one_low_ns,
            reset_ns,
            led_count: pixel_count,
            led_color_order: LedColorOrder::GRB,
        }
    }

    /// The pulses for one bit.
    pub fn pulse(&self, bit: bool) -> (pair: PulsePair)
        ensures
            pair == self.pulse_for(bit),
    {
        if bit {
            PulsePair { high_ns: self.one_high_ns, low_ns: self.one_low_ns }
        } else {
            PulsePair { high_ns: self.zero_high_ns, low_ns: self.zero_low_ns }
        }
    }

    /// Encodes a frame as one flat pulse train, to be sent in one burst.
    pub fn pulse_train(&self, colors: &Vec<Color>) -> (train: Vec<PulsePair>)
        requires
            24 * colors@.len() <= usize::MAX,
        ensures
            train@ == self.encoded(colors@),
            train@.len() == 24 * colors@.len(),
    {
        let mut train: Vec<PulsePair> = Vec::with_capacity(24 * colors.len());
        let mut i: usize = 0;
        while i < colors.len()
            invariant
                i <= colors@.len(),
                24 * colors@.len() <= usize::MAX,
                train@.len() == 24 * i,
                forall|k: int| 0 <= k < train@.len() ==> #[trigger] train@[k] == self.encoded(colors@)[k],
            decreases colors@.len() - i,
        {
            let mut bits = colors[i].to_bit_iter(&self.led_color_order);
            let ghost word = colors@[i as int].word(self.led_color_order);
            let mut j: usize = 0;
            while j < 24
                invariant
                    i < colors@.len(),
                    24 * colors@.len() <= usize::MAX,
                    j <= 24,
                    word == colors@[i as int].word(self.led_color_order),
                    bits@.len() == 24 - j,
                    forall|t: int| 0 <= t < 24 - j ==> #[trigger] bits@[t] == bits_msb_first(word)[j + t],
                    train@.len() == 24 * i + j,
                    forall|k: int|
                        0 <= k < train@.len() ==> #[trigger] train@[k] == self.encoded(colors@)[k],
                decreases 24 - j,
            {
                let ghost before = bits@;
                match bits.next() {
                    Some(bit) => {
                        assert(bit == bits_msb_first(word)[j as int]);
                        assert((24 * i + j) / 24 == i as int);
                        assert((24 * i + j) % 24 == j as int);
                        train.push(self.pulse(bit));
                    },
                    None => {},
                }
                assert forall|t: int| 0 <= t < 24 - (j + 1) implies #[trigger] bits@[t]
                    == bits_msb_first(word)[j + 1 + t] by {
                    assert(bits@[t] == before[t + 1]);
                }
                j += 1;
            }
            i += 1;
        }
        assert(train@ =~= self.encoded(colors@));
        train
    }

    /// The idle time after a burst that latches the frame: the reset gap
    /// in whole microseconds, rounded up, so that the line idles for the
    /// whole gap at least.
    pub fn reset_delay_us(&self) -> (us: u32)
        ensures
            us == self.reset_gap_us(),
            us * 1000 >= self.reset_ns,
    {
        (self.reset_ns as u32 + 999) / 1000
    }
}

} // verus!
