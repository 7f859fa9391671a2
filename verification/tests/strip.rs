use pixelstrip::neopixel::strip::color::Color;
use pixelstrip::neopixel::strip::{LedColorOrder, PulsePair, Strip};

#[test]
fn presets_have_their_timings() {
    let s = Strip::ws2812b(30);
    assert_eq!(
        (s.zero_high_ns, s.zero_low_ns, s.one_high_ns, s.one_low_ns, s.reset_ns, s.led_count),
        (400, 850, 800, 450, 55_000, 30)
    );
    assert_eq!(s.led_color_order, LedColorOrder::GRB);
    let s = Strip::ws2812(60);
    assert_eq!(
        (s.zero_high_ns, s.zero_low_ns, s.one_high_ns, s.one_low_ns, s.reset_ns, s.led_count),
        (350, 800, 700, 600, 55_000, 60)
    );
    assert_eq!(s.led_color_order, LedColorOrder::GRB);
    let s = Strip::custom(7, 1, 2, 3, 4, 5);
    assert_eq!(
        (s.zero_high_ns, s.zero_low_ns, s.one_high_ns, s.one_low_ns, s.reset_ns, s.led_count),
        (1, 2, 3, 4, 5, 7)
    );
    assert_eq!(s.led_color_order, LedColorOrder::GRB);
}

#[test]
fn reset_delay_covers_the_reset_gap() {
    assert_eq!(Strip::ws2812b(1).reset_delay_us(), 55);
    assert_eq!(Strip::custom(1, 1, 1, 1, 1, 0).reset_delay_us(), 0);
    assert_eq!(Strip::custom(1, 1, 1, 1, 1, 1).reset_delay_us(), 1);
    assert_eq!(Strip::custom(1, 1, 1, 1, 1, 999).reset_delay_us(), 1);
    assert_eq!(Strip::custom(1, 1, 1, 1, 1, 1_000).reset_delay_us(), 1);
    assert_eq!(Strip::custom(1, 1, 1, 1, 1, 1_001).reset_delay_us(), 2);
    assert_eq!(Strip::custom(1, 1, 1, 1, 1, u16::MAX).reset_delay_us(), 66);
    for reset_ns in [0u16, 1, 500, 999, 1_000, 54_999, 55_000, 55_001, u16::MAX] {
        let us = Strip::custom(1, 1, 1, 1, 1, reset_ns).reset_delay_us();
        assert!(us * 1_000 >= reset_ns as u32);
        assert!(us * 1_000 < reset_ns as u32 + 1_000);
    }
}

#[test]
fn one_bit_and_zero_bit_pulses() {
    let s = Strip::ws2812b(1);
    assert_eq!(s.pulse(true), PulsePair { high_ns: 800, low_ns: 450 });
    assert_eq!(s.pulse(false), PulsePair { high_ns: 400, low_ns: 850 });
}

#[test]
fn black_pixel_is_24_zero_pulses() {
    let s = Strip::ws2812b(1);
    let train = s.pulse_train(&vec![Color::black()]);
    assert_eq!(train.len(), 24);
    assert!(train.iter().all(|p| *p == PulsePair { high_ns: 400, low_ns: 850 }));
}

#[test]
fn white_pixel_is_24_one_pulses() {
    let s = Strip::ws2812b(1);
    let train = s.pulse_train(&vec![Color::white()]);
    assert_eq!(train.len(), 24);
    assert!(train.iter().all(|p| *p == PulsePair { high_ns: 800, low_ns: 450 }));
}

#[test]
fn empty_frame_is_an_empty_train() {
    assert!(Strip::ws2812(0).pulse_train(&Vec::new()).is_empty());
}

#[test]
fn train_follows_buffer_order_and_channel_order() {
    let mut s = Strip::custom(2, 10, 20, 30, 40, 50);
    let colors = vec![Color::new(0x80, 0x01, 0x00), Color::new(0x00, 0x00, 0xFF)];
    let one = PulsePair { high_ns: 30, low_ns: 40 };
    let zero = PulsePair { high_ns: 10, low_ns: 20 };
    let as_train = |bits: &str| -> Vec<PulsePair> {
        bits.chars().filter(|c| *c != ' ').map(|c| if c == '1' { one } else { zero }).collect()
    };
    // GRB: green, red, blue.
    assert_eq!(
        s.pulse_train(&colors),
        as_train("00000001 10000000 00000000  00000000 00000000 11111111")
    );
    s.led_color_order = LedColorOrder::RGB;
    assert_eq!(
        s.pulse_train(&colors),
        as_train("10000000 00000001 00000000  00000000 00000000 11111111")
    );
}

#[test]
fn train_has_24_pairs_per_pixel() {
    let s = Strip::ws2812b(100);
    for n in [1usize, 2, 30, 100, 1000] {
        let colors = vec![Color::orange(); n];
        assert_eq!(s.pulse_train(&colors).len(), 24 * n);
    }
}
