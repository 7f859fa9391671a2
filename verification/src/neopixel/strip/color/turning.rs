//! Turning a colour round the hue circle and back: how far the result can
//! be from where it started.
//!
//! A channel of a colour with chroma `c` and least channel `m` is
//! `m + round_div(c * share, 60_000)`, where the share follows a plateau
//! curve of the hue: full for a third of the circle, falling for a sixth,
//! none for a third, rising for a sixth. The three channels read the same
//! curve a third of a turn apart.

use vstd::prelude::*;
use super::Color;
use super::hsv::{
    channels_of, chroma_of, color_of, hue_of, lemma_channels_in_range, lemma_hsv_in_range, max3,
    min3, ramp, saturation_of,
};
use super::laws::{lemma_chroma_recovered, lemma_hsv_round_trip};
use super::rounding::{
    lemma_round_div_bounds, lemma_round_div_close, lemma_round_div_exact, lemma_round_div_monotonic,
    round_div,
};

verus! {

/// The share of the chroma that the red channel has at a hue inside the
/// first turn, out of `60_000`.
pub open spec fn plateau(hh: int) -> int {
    if hh <= 60_000 || hh >= 300_000 {
        60_000
    } else if hh < 120_000 {
        120_000 - hh
    } else if hh <= 240_000 {
        0
    } else {
        hh - 240_000
    }
}

/// The share of the chroma at hue `h` of the channel that is pure at hue
/// `peak`: `0` for red, `120_000` for green, `240_000` for blue.
pub open spec fn share(h: int, peak: int) -> int {
    plateau((h - peak) % 360_000)
}

/// The share moves no faster than the hue.
pub proof fn lemma_share_is_lipschitz(a: int, b: int, peak: int)
    ensures
        share(a, peak) - share(b, peak) <= a - b || share(a, peak) - share(b, peak) <= b - a,
        share(b, peak) - share(a, peak) <= a - b || share(b, peak) - share(a, peak) <= b - a,
        0 <= share(a, peak) <= 60_000,
{
    let x = (a - peak) % 360_000;
    let y = (b - peak) % 360_000;
    let kx = (a - peak) / 360_000;
    let ky = (b - peak) / 360_000;
    assert(a - peak == 360_000 * kx + x);
    assert(b - peak == 360_000 * ky + y);
    if a - b >= 60_000 || b - a >= 60_000 {
    } else {
        assert(kx == ky || kx == ky + 1 || ky == kx + 1);
    }
}

/// A share of nothing gives nothing, a full share gives the whole chroma.
proof fn lemma_share_ends(c: int, t: int)
    requires
        t == 0 || t == 60_000,
    ensures
        t == 0 ==> round_div(c * t, 60_000) == 0,
        t == 60_000 ==> round_div(c * t, 60_000) == c,
{
    if t == 0 {
        assert(c * t == 0 * 60_000) by (nonlinear_arith)
            requires
                t == 0,
        ;
        lemma_round_div_exact(0, 60_000);
    } else {
        assert(c * t == c * 60_000) by (nonlinear_arith)
            requires
                t == 60_000,
        ;
        lemma_round_div_exact(c, 60_000);
    }
}

/// Every channel is the least channel plus its share of the chroma.
pub proof fn lemma_channels_by_share(h: int, s: int, v: int)
    requires
        0 <= s <= 255,
        0 <= v <= 255,
    ensures
        channels_of(h, s, v).0 == v - chroma_of(s, v) + round_div(
            chroma_of(s, v) * share(h, 0),
            60_000,
        ),
        channels_of(h, s, v).1 == v - chroma_of(s, v) + round_div(
            chroma_of(s, v) * share(h, 120_000),
            60_000,
        ),
        channels_of(h, s, v).2 == v - chroma_of(s, v) + round_div(
            chroma_of(s, v) * share(h, 240_000),
            60_000,
        ),
{
    let hh = h % 360_000;
    let c = chroma_of(s, v);
    let r = share(h, 0);
    let g = share(h, 120_000);
    let b = share(h, 240_000);
    assert(h % 360_000 == hh);
    assert((h - 0) % 360_000 == hh);
    assert((h - 120_000) % 360_000 == if hh >= 120_000 {
        hh - 120_000
    } else {
        hh + 240_000
    });
    assert((h - 240_000) % 360_000 == if hh >= 240_000 {
        hh - 240_000
    } else {
        hh + 120_000
    });
    let t = ramp(hh);
    if hh < 60_000 {
        assert(r == 60_000 && g == t && b == 0);
        lemma_share_ends(c, r);
        lemma_share_ends(c, b);
    } else if hh < 120_000 {
        assert(r == t && g == 60_000 && b == 0);
        lemma_share_ends(c, g);
        lemma_share_ends(c, b);
    } else if hh < 180_000 {
        assert(r == 0 && g == 60_000 && b == t);
        lemma_share_ends(c, r);
        lemma_share_ends(c, g);
    } else if hh < 240_000 {
        assert(r == 0 && g == t && b == 60_000);
        lemma_share_ends(c, r);
        lemma_share_ends(c, b);
    } else if hh < 300_000 {
        assert(r == t && g == 0 && b == 60_000);
        lemma_share_ends(c, g);
        lemma_share_ends(c, b);
    } else {
        assert(r == 60_000 && g == 0 && b == t);
        lemma_share_ends(c, r);
        lemma_share_ends(c, g);
    }
}

/// A share `t` that went to a channel difference `x` and came back as the
/// angle `q` has moved by little: `|q - t| <= 30_000 / d + 1/2`.
proof fn lemma_share_recovered(t: int, d: int)
    requires
        0 < d <= 255,
        0 <= t <= 60_000,
    ensures
        ({
            let x = round_div(d * t, 60_000);
            let q = round_div(60_000 * x, d);
            &&& 0 <= x <= d
            &&& -(60_000 + d) <= 2 * (d * q) - 2 * (d * t) <= 60_000 + d
            &&& 0 <= q <= 60_000
            &&& x == d ==> 2 * (d * (60_000 - t)) <= 60_000
            &&& x == 0 ==> q == 0 && 2 * (d * t) < 60_000
        }),
{
    let x = round_div(d * t, 60_000);
    let q = round_div(60_000 * x, d);
    lemma_round_div_bounds(d * t, 60_000);
    lemma_round_div_bounds(60_000 * x, d);
    assert(0 <= d * t <= d * 60_000) by (nonlinear_arith)
        requires
            0 < d,
            0 <= t <= 60_000,
    ;
    lemma_round_div_monotonic(0, d * t, 60_000);
    lemma_round_div_monotonic(d * t, d * 60_000, 60_000);
    lemma_round_div_exact(0, 60_000);
    lemma_round_div_exact(d, 60_000);
    lemma_round_div_monotonic(0, 60_000 * x, d);
    lemma_round_div_monotonic(60_000 * x, 60_000 * d, d);
    lemma_round_div_exact(0, d);
    lemma_round_div_exact(60_000, d);
    assert(d * (60_000 - t) == d * 60_000 - d * t) by (nonlinear_arith);
}

/// The same for a difference that is read with its sign turned: the angle
/// `q` comes back as about `-t`.
proof fn lemma_share_recovered_negated(t: int, d: int)
    requires
        0 < d <= 255,
        0 <= t <= 60_000,
    ensures
        ({
            let x = round_div(d * t, 60_000);
            let q = round_div(60_000 * (-x), d);
            &&& 0 <= x <= d
            &&& -(60_000 + d) <= 2 * (d * q) + 2 * (d * t) <= 60_000 + d
            &&& -60_000 <= q <= 0
            &&& x == d ==> q == -60_000
            &&& x > 0 ==> q < 0
            &&& x == 0 ==> q == 0 && 2 * (d * t) < 60_000
        }),
{
    let x = round_div(d * t, 60_000);
    let q = round_div(60_000 * (-x), d);
    lemma_round_div_bounds(d * t, 60_000);
    lemma_round_div_bounds(60_000 * (-x), d);
    assert(0 <= d * t <= d * 60_000) by (nonlinear_arith)
        requires
            0 < d,
            0 <= t <= 60_000,
    ;
    lemma_round_div_monotonic(0, d * t, 60_000);
    lemma_round_div_monotonic(d * t, d * 60_000, 60_000);
    lemma_round_div_exact(0, 60_000);
    lemma_round_div_exact(d, 60_000);
    lemma_round_div_monotonic(60_000 * (-d), 60_000 * (-x), d);
    lemma_round_div_monotonic(60_000 * (-x), 0, d);
    lemma_round_div_exact(0, d);
    lemma_round_div_exact(-60_000, d);
    assert((-60_000) * d == 60_000 * (-d)) by (nonlinear_arith);
    if x > 0 {
        assert(q < 0) by (nonlinear_arith)
            requires
                0 < d <= 255,
                x >= 1,
                2 * (60_000 * (-x)) + d >= 2 * (d * q),
        ;
    }
}

/// The hue that is read off a colour made from hue `hh` lies close to
/// `hh` on the circle. The result is that hue, moved by a whole turn where
/// the two lie on either side of zero.
proof fn lemma_hue_recovered(hh: int, s: int, v: int) -> (near: int)
    requires
        0 <= hh < 360_000,
        0 <= s <= 255,
        0 <= v <= 255,
        chroma_of(s, v) > 0,
    ensures
        ({
            let (r, g, b) = channels_of(hh, s, v);
            let d = chroma_of(s, v);
            &&& max3(r, g, b) == v
            &&& min3(r, g, b) == v - d
            &&& near % 360_000 == hue_of(r, g, b)
            &&& -(60_000 + d) <= 2 * (d * near) - 2 * (d * hh) <= 60_000 + d
        }),
{
    let (r, g, b) = channels_of(hh, s, v);
    let d = chroma_of(s, v);
    let m = v - d;
    lemma_channels_in_range(hh, s, v);
    assert(hh % 360_000 == hh);
    let t = ramp(hh);
    let x = round_div(d * t, 60_000);
    lemma_share_recovered(t, d);
    lemma_share_recovered_negated(t, d);
    let up = round_div(60_000 * x, d);
    let down = round_div(60_000 * (-x), d);
    lemma_round_div_exact(60_000, d);
    lemma_round_div_exact(-60_000, d);
    assert(60_000 * d == d * 60_000) by (nonlinear_arith);
    assert((-60_000) * d == 60_000 * (-d)) by (nonlinear_arith);
    assert(60_000 * (0 - x) == 60_000 * (-x));
    assert(60_000 * (x - 0) == 60_000 * x);
    let h1 = hue_of(r, g, b);
    let near: int;
    if hh < 60_000 {
        assert(r == d + m && g == x + m && b == m);
        assert(t == hh);
        assert(h1 == up % 360_000);
        near = up;
    } else if hh < 120_000 {
        assert(r == x + m && g == d + m && b == m);
        assert(t == 120_000 - hh);
        if x == d {
            assert(g - b == d);
            assert(h1 == 60_000);
            near = 60_000;
            assert(d * near == d * 60_000);
        } else {
            assert(b - r == -x);
            assert(h1 == down + 120_000);
            near = down + 120_000;
            assert(d * near == d * down + d * 120_000) by (nonlinear_arith)
                requires
                    near == down + 120_000,
            ;
        }
        assert(d * t == d * 120_000 - d * hh) by (nonlinear_arith)
            requires
                t == 120_000 - hh,
        ;
    } else if hh < 180_000 {
        assert(r == m && g == d + m && b == x + m);
        assert(t == hh - 120_000);
        assert(b - r == x);
        assert(h1 == up + 120_000);
        near = up + 120_000;
        assert(d * near == d * up + d * 120_000) by (nonlinear_arith)
            requires
                near == up + 120_000,
        ;
        assert(d * t == d * hh - d * 120_000) by (nonlinear_arith)
            requires
                t == hh - 120_000,
        ;
    } else if hh < 240_000 {
        assert(r == m && g == x + m && b == d + m);
        assert(t == 240_000 - hh);
        if x == d {
            assert(b - r == d);
            assert(h1 == 180_000);
            near = 180_000;
            assert(d * near == d * 180_000);
        } else {
            assert(r - g == -x);
            assert(h1 == down + 240_000);
            near = down + 240_000;
            assert(d * near == d * down + d * 240_000) by (nonlinear_arith)
                requires
                    near == down + 240_000,
            ;
        }
        assert(d * t == d * 240_000 - d * hh) by (nonlinear_arith)
            requires
                t == 240_000 - hh,
        ;
    } else if hh < 300_000 {
        assert(r == x + m && g == m && b == d + m);
        assert(t == hh - 240_000);
        if x == d {
            assert(g - b == -d);
            assert(h1 == (-60_000int) % 360_000);
            near = 300_000;
            assert(d * near == d * 300_000);
        } else {
            assert(r - g == x);
            assert(h1 == up + 240_000);
            near = up + 240_000;
            assert(d * near == d * up + d * 240_000) by (nonlinear_arith)
                requires
                    near == up + 240_000,
            ;
        }
        assert(d * t == d * hh - d * 240_000) by (nonlinear_arith)
            requires
                t == hh - 240_000,
        ;
    } else {
        assert(r == d + m && g == m && b == x + m);
        assert(t == 360_000 - hh);
        assert(g - b == -x);
        assert(h1 == down % 360_000);
        near = down + 360_000;
        assert(d * near == d * down + d * 360_000) by (nonlinear_arith)
            requires
                near == down + 360_000,
        ;
        assert(d * t == d * 360_000 - d * hh) by (nonlinear_arith)
            requires
                t == 360_000 - hh,
        ;
    }
    near
}

/// Two hues that lie close on the circle give a channel nearly the same
/// level.
proof fn lemma_close_hues_close_levels(d: int, a: int, b: int, peak: int)
    requires
        0 < d <= 255,
        -(60_000 + d) <= 2 * (d * a) - 2 * (d * b) <= 60_000 + d,
    ensures
        -1 <= round_div(d * share(a, peak), 60_000) - round_div(d * share(b, peak), 60_000) <= 1,
{
    let sa = share(a, peak);
    let sb = share(b, peak);
    lemma_share_is_lipschitz(a, b, peak);
    lemma_share_is_lipschitz(b, a, peak);
    assert(d * sb - 60_000 < d * sa < d * sb + 60_000) by (nonlinear_arith)
        requires
            0 < d <= 255,
            -(60_000 + d) <= 2 * (d * a) - 2 * (d * b) <= 60_000 + d,
            sa - sb <= a - b || sa - sb <= b - a,
            sb - sa <= a - b || sb - sa <= b - a,
    ;
    lemma_round_div_close(d * sb, d * sa, 60_000);
}

/// Hues that differ by whole turns give every channel the same share.
proof fn lemma_share_wraps(a: int, b: int, peak: int)
    requires
        a % 360_000 == b % 360_000,
    ensures
        share(a, peak) == share(b, peak),
{
    assert((a - peak) % 360_000 == (b - peak) % 360_000);
}

/// Without chroma every hue gives the same grey.
proof fn lemma_grey_has_no_hue(h: int, s: int, v: int)
    requires
        chroma_of(s, v) == 0,
    ensures
        channels_of(h, s, v) == (v, v, v),
{
    let d = chroma_of(s, v);
    let t = ramp(h % 360_000);
    assert(d * t == 0 * 60_000) by (nonlinear_arith)
        requires
            d == 0,
    ;
    lemma_round_div_exact(0, 60_000);
}

/// A hue `back_at` that lies close to `h` on the circle, as seen after
/// both were turned by `a`, gives a channel nearly the level that `h` gives.
proof fn lemma_level_after_turning_back(
    d: int,
    near: int,
    hh: int,
    a: int,
    h: int,
    back_at: int,
    peak: int,
)
    requires
        0 < d <= 255,
        -(60_000 + d) <= 2 * (d * near) - 2 * (d * hh) <= 60_000 + d,
        (hh - a) % 360_000 == h % 360_000,
        (near - a) % 360_000 == back_at % 360_000,
    ensures
        -1 <= round_div(d * share(back_at, peak), 60_000) - round_div(d * share(h, peak), 60_000)
            <= 1,
{
    let home = hh - a;
    let close = near - a;
    assert(d * close == d * near - d * a) by (nonlinear_arith)
        requires
            close == near - a,
    ;
    assert(d * home == d * hh - d * a) by (nonlinear_arith)
        requires
            home == hh - a,
    ;
    lemma_share_wraps(home, h, peak);
    lemma_share_wraps(close, back_at, peak);
    lemma_close_hues_close_levels(d, close, home, peak);
}

/// The channels made from hue `h`, and the channels made from the hue that
/// is read off a turn by `a`, turned back by `a`, differ by one unit at
/// most.
proof fn lemma_turn_and_back(h: int, a: int, s: int, v: int)
    requires
        0 <= s <= 255,
        0 <= v <= 255,
    ensures
        ({
            let (r1, g1, b1) = channels_of(h + a, s, v);
            let h1 = hue_of(r1, g1, b1);
            let (r2, g2, b2) = channels_of(h1 - a, s, v);
            let (r0, g0, b0) = channels_of(h, s, v);
            &&& max3(r1, g1, b1) == v
            &&& min3(r1, g1, b1) == v - chroma_of(s, v)
            &&& -1 <= r2 - r0 <= 1
            &&& -1 <= g2 - g0 <= 1
            &&& -1 <= b2 - b0 <= 1
        }),
{
    let d = chroma_of(s, v);
    let there = h + a;
    let hh = there % 360_000;
    let first = channels_of(there, s, v);
    let h1 = hue_of(first.0, first.1, first.2);
    let back_at = h1 - a;
    lemma_channels_in_range(there, s, v);
    assert(channels_of(hh, s, v) == first) by {
        assert(hh % 360_000 == there % 360_000);
    }
    if d == 0 {
        lemma_grey_has_no_hue(there, s, v);
        lemma_grey_has_no_hue(back_at, s, v);
        lemma_grey_has_no_hue(h, s, v);
    } else {
        let near = lemma_hue_recovered(hh, s, v);
        assert((hh - a) % 360_000 == h % 360_000);
        assert((near - a) % 360_000 == back_at % 360_000);
        lemma_level_after_turning_back(d, near, hh, a, h, back_at, 0);
        lemma_level_after_turning_back(d, near, hh, a, h, back_at, 120_000);
        lemma_level_after_turning_back(d, near, hh, a, h, back_at, 240_000);
        lemma_channels_by_share(back_at, s, v);
        lemma_channels_by_share(h, s, v);
    }
}

/// Turning a colour by any angle and then back by the same angle moves no
/// channel by more than one unit.
pub proof fn lemma_hue_shift_and_back(c: Color, millidegrees: int)
    ensures
        ({
            let back = c.hue_shifted(millidegrees).hue_shifted(-millidegrees);
            &&& -1 <= back.red - c.red <= 1
            &&& -1 <= back.green - c.green <= 1
            &&& -1 <= back.blue - c.blue <= 1
        }),
{
    let r = c.red as int;
    let g = c.green as int;
    let b = c.blue as int;
    let hi = max3(r, g, b);
    let h = hue_of(r, g, b);
    let s = saturation_of(r, g, b);
    lemma_hsv_in_range(r, g, b);
    lemma_chroma_recovered(r, g, b);
    lemma_hsv_round_trip(c);
    assert(c.hsv().hue as int == h && c.hsv().saturation as int == s && c.hsv().value as int
        == hi);
    assert(channels_of(h, s, hi) == (r, g, b)) by {
        lemma_channels_in_range(h, s, hi);
        assert(color_of(h, s, hi) == c);
    }
    let there = h + millidegrees;
    let (r1, g1, b1) = channels_of(there, s, hi);
    let turned = c.hue_shifted(millidegrees);
    lemma_channels_in_range(there, s, hi);
    lemma_turn_and_back(h, millidegrees, s, hi);
    assert(turned.red as int == r1 && turned.green as int == g1 && turned.blue as int == b1);
    let h1 = hue_of(r1, g1, b1);
    lemma_hsv_in_range(r1, g1, b1);
    assert(saturation_of(r1, g1, b1) == s);
    assert(turned.hsv().hue as int == h1 && turned.hsv().saturation as int == s
        && turned.hsv().value as int == hi);
    lemma_channels_in_range(h1 - millidegrees, s, hi);
    assert(h1 + (-millidegrees) == h1 - millidegrees);
}

} // verus!
