use pixelstrip::neopixel::strip::color::bits::ColorBitString;
use pixelstrip::neopixel::strip::color::hsv::Hsv;
use pixelstrip::neopixel::strip::color::Color;
use pixelstrip::neopixel::strip::LedColorOrder;

fn every_step(step: usize) -> Vec<Color> {
    let mut all = Vec::new();
    for r in (0..=255u16).step_by(step) {
        for g in (0..=255u16).step_by(step) {
            for b in (0..=255u16).step_by(step) {
                all.push(Color::new(r as u8, g as u8, b as u8));
            }
        }
    }
    all
}

fn close(a: &Color, b: &Color, tolerance: i16) -> bool {
    (a.red as i16 - b.red as i16).abs() <= tolerance
        && (a.green as i16 - b.green as i16).abs() <= tolerance
        && (a.blue as i16 - b.blue as i16).abs() <= tolerance
}

#[test]
fn named_colors_have_their_channels() {
    assert_eq!(Color::black(), Color::new(0, 0, 0));
    assert_eq!(Color::white(), Color::new(255, 255, 255));
    assert_eq!(Color::red(), Color::new(255, 0, 0));
    assert_eq!(Color::green(), Color::new(0, 255, 0));
    assert_eq!(Color::blue(), Color::new(0, 0, 255));
    assert_eq!(Color::yellow(), Color::new(255, 255, 0));
    assert_eq!(Color::cyan(), Color::new(0, 255, 255));
    assert_eq!(Color::magenta(), Color::new(255, 0, 255));
    assert_eq!(Color::orange(), Color::new(255, 165, 0));
    assert_eq!(Color::purple(), Color::new(128, 0, 128));
    assert_eq!(Color::pink(), Color::new(255, 192, 203));
    assert_eq!(Color::brown(), Color::new(165, 42, 42));
    assert_eq!(Color::gray(), Color::new(128, 128, 128));
    assert_eq!(Color::silver(), Color::new(192, 192, 192));
    assert_eq!(Color::gold(), Color::new(255, 215, 0));
}

#[test]
fn hex_is_read_in_channel_order() {
    assert_eq!(Color::from_hex(0x112233, &LedColorOrder::RGB), Color::new(0x11, 0x22, 0x33));
    assert_eq!(Color::from_hex(0x112233, &LedColorOrder::GRB), Color::new(0x22, 0x11, 0x33));
    assert_eq!(Color::from_hex(0xFF112233, &LedColorOrder::RGB), Color::new(0x11, 0x22, 0x33));
}

#[test]
fn word_is_packed_in_channel_order() {
    let c = Color::new(0x11, 0x22, 0x33);
    assert_eq!(c.to_u32(&LedColorOrder::RGB), 0x112233);
    assert_eq!(c.to_u32(&LedColorOrder::GRB), 0x221133);
    assert_eq!(Color::white().to_u32(&LedColorOrder::GRB), 0xFFFFFF);
    assert_eq!(Color::black().to_u32(&LedColorOrder::RGB), 0);
}

#[test]
fn hex_and_word_undo_each_other() {
    for c in every_step(17) {
        for order in [LedColorOrder::RGB, LedColorOrder::GRB] {
            assert_eq!(Color::from_hex(c.to_u32(&order), &order), c);
        }
    }
    for hex in [0u32, 1, 0xABCDEF, 0x00FF00, 0x12345678, u32::MAX] {
        for order in [LedColorOrder::RGB, LedColorOrder::GRB] {
            assert_eq!(Color::from_hex(hex, &order).to_u32(&order), hex & 0xFF_FFFF);
        }
    }
}

#[test]
fn bits_come_most_significant_first() {
    let mut bits = Color::new(0b1000_0001, 0b0100_0000, 0b0000_0011).to_bit_iter(&LedColorOrder::RGB);
    let mut seen = Vec::new();
    while let Some(bit) = bits.next() {
        seen.push(bit);
    }
    let expected: Vec<bool> = "100000010100000000000011".chars().map(|c| c == '1').collect();
    assert_eq!(seen, expected);
    assert_eq!(bits.next(), None);
    assert_eq!(bits.next(), None);
}

#[test]
fn bits_follow_the_channel_order() {
    let mut bits = Color::new(0xFF, 0x00, 0x00).to_bit_iter(&LedColorOrder::GRB);
    let mut seen = Vec::new();
    while let Some(bit) = bits.next() {
        seen.push(bit);
    }
    let expected: Vec<bool> = "000000001111111100000000".chars().map(|c| c == '1').collect();
    assert_eq!(seen, expected);
}

#[test]
fn bit_reader_is_fresh_for_every_call() {
    let c = Color::new(1, 2, 3);
    let mut first = c.to_bit_iter(&LedColorOrder::RGB);
    for _ in 0..10 {
        first.next();
    }
    let mut second = c.to_bit_iter(&LedColorOrder::RGB);
    let mut count = 0;
    while second.next().is_some() {
        count += 1;
    }
    assert_eq!(count, 24);
}

#[test]
fn bit_reader_reads_the_low_24_bits_only() {
    let mut bits = ColorBitString::new(0xFF00_0001);
    let mut seen = Vec::new();
    while let Some(bit) = bits.next() {
        seen.push(bit);
    }
    assert_eq!(seen.len(), 24);
    assert!(seen[..23].iter().all(|b| !b));
    assert!(seen[23]);
}

#[test]
fn hsv_of_known_colors() {
    assert_eq!(Color::red().to_hsv(), Hsv::new(0, 255, 255));
    assert_eq!(Color::green().to_hsv(), Hsv::new(120_000, 255, 255));
    assert_eq!(Color::blue().to_hsv(), Hsv::new(240_000, 255, 255));
    assert_eq!(Color::yellow().to_hsv(), Hsv::new(60_000, 255, 255));
    assert_eq!(Color::cyan().to_hsv(), Hsv::new(180_000, 255, 255));
    assert_eq!(Color::magenta().to_hsv(), Hsv::new(300_000, 255, 255));
    assert_eq!(Color::orange().to_hsv(), Hsv::new(38_824, 255, 255));
    assert_eq!(Color::purple().to_hsv(), Hsv::new(300_000, 255, 128));
    assert_eq!(Color::pink().to_hsv(), Hsv::new(349_524, 63, 255));
    assert_eq!(Color::brown().to_hsv(), Hsv::new(0, 190, 165));
}

#[test]
fn hue_of_grey_is_zero() {
    assert_eq!(Color::black().to_hsv(), Hsv::new(0, 0, 0));
    assert_eq!(Color::white().to_hsv(), Hsv::new(0, 0, 255));
    assert_eq!(Color::gray().to_hsv(), Hsv::new(0, 0, 128));
    assert_eq!(Color::new(7, 7, 7).to_hsv(), Hsv::new(0, 0, 7));
}

#[test]
fn dark_colors_keep_their_saturation() {
    assert_eq!(Color::new(20, 0, 0).to_hsv(), Hsv::new(0, 255, 20));
    assert_eq!(Hsv::new(0, 255, 20).to_rgb(), Color::new(20, 0, 0));
}

#[test]
fn rgb_of_known_triples() {
    assert_eq!(Hsv::new(0, 255, 255).to_rgb(), Color::red());
    assert_eq!(Hsv::new(60_000, 255, 255).to_rgb(), Color::yellow());
    assert_eq!(Hsv::new(120_000, 255, 255).to_rgb(), Color::green());
    assert_eq!(Hsv::new(180_000, 255, 255).to_rgb(), Color::cyan());
    assert_eq!(Hsv::new(240_000, 255, 255).to_rgb(), Color::blue());
    assert_eq!(Hsv::new(300_000, 255, 255).to_rgb(), Color::magenta());
    assert_eq!(Hsv::new(30_000, 255, 255).to_rgb(), Color::new(255, 128, 0));
    assert_eq!(Hsv::new(123_456, 0, 200).to_rgb(), Color::new(200, 200, 200));
    assert_eq!(Hsv::new(99_000, 200, 0).to_rgb(), Color::black());
}

#[test]
fn hue_wraps_at_a_full_turn() {
    let base = Hsv::new(45_000, 200, 180).to_rgb();
    assert_eq!(Hsv::new(45_000 + 360_000, 200, 180).to_rgb(), base);
    assert_eq!(Hsv::new(45_000 - 360_000, 200, 180).to_rgb(), base);
    assert_eq!(Hsv::new(45_000 - 720_000, 200, 180).to_rgb(), base);
    assert_eq!(Hsv::new(-60_000, 255, 255).to_rgb(), Color::magenta());
    assert_eq!(Hsv::new(i32::MIN, 255, 255).to_rgb(), Color::new(154, 0, 255));
    assert_eq!(Hsv::new(i32::MIN, 255, 255).to_rgb(), Hsv::new(276_352, 255, 255).to_rgb());
    assert_eq!(Hsv::new(i32::MAX, 255, 255).to_rgb(), Color::new(155, 255, 0));
    assert_eq!(Hsv::new(i32::MAX, 255, 255).to_rgb(), Hsv::new(83_647, 255, 255).to_rgb());
}

#[test]
fn hsv_round_trip_is_exact() {
    for c in every_step(5) {
        assert_eq!(c.to_hsv().to_rgb(), c);
    }
    for v in 0..=255u8 {
        for c in [Color::new(v, 0, 0), Color::new(v, v, 0), Color::new(0, v, 255), Color::new(255, v, 254)] {
            assert_eq!(c.to_hsv().to_rgb(), c);
        }
    }
}

#[test]
fn hue_shift_of_known_colors() {
    let mut c = Color::red();
    c.shift_hue_deg(60_000);
    assert_eq!(c, Color::yellow());
    let mut c = Color::red();
    c.shift_hue_deg(120_000);
    assert_eq!(c, Color::green());
    let mut c = Color::red();
    c.shift_hue_deg(-60_000);
    assert_eq!(c, Color::magenta());
    let mut c = Color::new(10, 200, 30);
    c.shift_hue_deg(45_000);
    assert_eq!(c, Color::new(10, 200, 173));
    let mut c = Color::gray();
    c.shift_hue_deg(77_777);
    assert_eq!(c, Color::gray());
}

#[test]
fn hue_shift_by_whole_turns_changes_nothing() {
    for c in every_step(51) {
        for turns in [-3i32, -1, 0, 1, 5] {
            let mut shifted = c;
            shifted.shift_hue_deg(turns * 360_000);
            assert_eq!(shifted, c);
        }
    }
}

#[test]
fn hue_shift_and_back_stays_within_one_unit() {
    for c in every_step(15) {
        for d in [1i32, 999, 30_000, 60_000, 123_456, 359_999, 1_000_000, -45_000, i32::MAX] {
            let mut shifted = c;
            shifted.shift_hue_deg(d);
            shifted.shift_hue_deg(-d);
            assert!(close(&shifted, &c, 1), "{:?} by {} gave {:?}", c, d, shifted);
        }
    }
}

#[test]
fn hue_shift_returns_the_shifted_color() {
    let mut c = Color::red();
    let seen = *c.shift_hue_deg(120_000);
    assert_eq!(seen, Color::green());
    let mut c = Color::red();
    let chained = *c.shift_hue_deg(60_000);
    let mut again = chained;
    again.shift_hue_deg(60_000);
    assert_eq!(again, Color::green());
}

#[test]
fn saturation_shift_clamps() {
    let mut c = Color::red();
    c.shift_saturation(-255);
    assert_eq!(c, Color::white());
    let mut c = Color::red();
    c.shift_saturation(-1000);
    assert_eq!(c, Color::white());
    let mut c = Color::red();
    c.shift_saturation(500);
    assert_eq!(c, Color::red());
    let mut c = Color::new(255, 128, 128);
    c.shift_saturation(255);
    assert_eq!(c, Color::red());
    let mut c = Color::red();
    c.shift_saturation(-128);
    assert_eq!(c, Color::new(255, 128, 128));
}

#[test]
fn value_shift_clamps() {
    let mut c = Color::red();
    c.shift_value(-255);
    assert_eq!(c, Color::black());
    let mut c = Color::red();
    c.shift_value(-128);
    assert_eq!(c, Color::new(127, 0, 0));
    let mut c = Color::new(100, 50, 0);
    c.shift_value(1000);
    assert_eq!(c, Color::new(255, 128, 0));
    let mut c = Color::new(100, 50, 0);
    c.shift_value(i16::MIN);
    assert_eq!(c, Color::black());
}

#[test]
fn shifts_by_zero_change_nothing() {
    for c in every_step(17) {
        let mut s = c;
        s.shift_hue_deg(0);
        assert_eq!(s, c);
        let mut s = c;
        s.shift_saturation(0);
        assert_eq!(s, c);
        let mut s = c;
        s.shift_value(0);
        assert_eq!(s, c);
    }
}

#[test]
fn difference_with_itself_is_black() {
    for c in every_step(15) {
        assert_eq!(c - c, Color::black());
    }
}

#[test]
fn differences_of_white_and_black() {
    assert_eq!(Color::white() - Color::black(), Color::white());
    assert_eq!(Color::white() - Color::white(), Color::black());
    assert_eq!(Color::white() - Color::new(1, 100, 255), Color::new(254, 155, 0));
}

#[test]
fn difference_wraps() {
    assert_eq!(Color::black() - Color::new(1, 2, 3), Color::new(255, 254, 253));
    assert_eq!(Color::new(10, 20, 30) - Color::new(20, 20, 40), Color::new(246, 0, 246));
}

#[test]
fn sum_wraps() {
    assert_eq!(Color::new(1, 2, 3) + Color::new(10, 20, 30), Color::new(11, 22, 33));
    assert_eq!(Color::new(200, 255, 128) + Color::new(100, 1, 128), Color::new(44, 0, 0));
    assert_eq!(Color::white() + Color::white(), Color::new(254, 254, 254));
}

#[test]
fn product_of_colors_blends() {
    for c in every_step(51) {
        assert_eq!(c * Color::white(), c);
        assert_eq!(Color::white() * c, c);
        assert_eq!(c * Color::black(), Color::black());
    }
    assert_eq!(Color::new(128, 64, 255) * Color::new(128, 128, 128), Color::new(64, 32, 128));
    assert_eq!(Color::new(100, 200, 50) * Color::new(50, 100, 200), Color::new(20, 78, 39));
}

#[test]
fn product_with_a_factor_dims_and_clamps() {
    let c = Color::new(100, 200, 50);
    assert_eq!(c * 255, c);
    assert_eq!(c * 0, Color::black());
    assert_eq!(c * 128, Color::new(50, 100, 25));
    assert_eq!(c * 510, Color::new(200, 255, 100));
    assert_eq!(c * 65_535, Color::new(255, 255, 255));
    assert_eq!(c * i32::MAX, Color::new(255, 255, 255));
    assert_eq!(Color::black() * i32::MAX, Color::black());
    assert_eq!(Color::new(1, 0, 255) * 1, Color::new(0, 0, 1));
    assert_eq!(Color::new(1, 0, 255) * 128, Color::new(1, 0, 128));
}

#[test]
fn product_with_a_negative_factor_is_black() {
    let c = Color::new(100, 200, 50);
    assert_eq!(c * -1, Color::black());
    assert_eq!(c * -255, Color::black());
    assert_eq!(c * i32::MIN, Color::black());
    assert_eq!(Color::white() * -1, Color::black());
}
