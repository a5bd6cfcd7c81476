//! Crop-to-fill geometry: how a source rectangle is scaled so that its
//! shorter side lands exactly on the target square's side, and how the
//! overflow of the longer side is centred away.

use vstd::prelude::*;
use vstd::arithmetic::div_mod::{
    lemma_div_is_ordered, lemma_div_multiples_vanish, lemma_fundamental_div_mod,
};

verus! {

/// A dimension scaled by `t / d`, rounded half-up.
pub open spec fn scale_round(a: int, t: int, d: int) -> int {
    (a * t + d / 2) / d
}

/// Clamp a non-negative value into `u32` range.
pub open spec fn cap32(v: int) -> int {
    if v > 0xffffffff {
        0xffffffff
    } else {
        v
    }
}

/// Scaled dimensions for crop-to-fill of a `w * h` source into a `t * t`
/// square: the shorter side lands exactly on `t`, the longer side keeps the
/// aspect ratio (rounded half-up, clamped into `u32` range).
pub open spec fn fill_scaled(w: int, h: int, t: int) -> (int, int) {
    if w >= h {
        (cap32(scale_round(w, t, h)), t)
    } else {
        (t, cap32(scale_round(h, t, w)))
    }
}

/// The longer scaled side is at least `t`.
pub proof fn lemma_scale_round_at_least(a: int, t: int, d: int)
    requires
        1 <= d <= a,
        1 <= t,
    ensures
        scale_round(a, t, d) >= t,
{
    assert(d * t <= a * t) by (nonlinear_arith)
        requires 1 <= d <= a, 1 <= t;
    lemma_div_is_ordered(d * t, a * t + d / 2, d);
    lemma_div_multiples_vanish(t, d);
}

/// Scale `a` by `t / d`, rounding half-up and clamping into `u32` range.
fn scale_dim(a: u32, t: u32, d: u32) -> (r: u32)
    requires
        1 <= d <= a,
        1 <= t,
    ensures
        r == cap32(scale_round(a as int, t as int, d as int)),
        r >= t,
{
    proof {
        assert((a as int) * (t as int) <= 0xffffffffint * 0xffffffffint) by (nonlinear_arith)
            requires 0 <= a <= 0xffffffffint, 0 <= t <= 0xffffffffint;
    }
    let num: u64 = (a as u64) * (t as u64) + (d as u64) / 2;
    let q: u64 = num / (d as u64);
    proof {
        lemma_scale_round_at_least(a as int, t as int, d as int);
    }
    if q > 0xffffffff {
        0xffffffff
    } else {
        q as u32
    }
}

/// Dimensions to scale a `w * h` source to before the centred crop that
/// fills a `t * t` square.
pub fn fill_dims(w: u32, h: u32, t: u32) -> (r: (u32, u32))
    requires
        w >= 1,
        h >= 1,
        t >= 1,
    ensures
        (r.0 as int, r.1 as int) == fill_scaled(w as int, h as int, t as int),
        r.0 >= t,
        r.1 >= t,
        w >= h ==> r.1 == t,
        w < h ==> r.0 == t,
{
    if w >= h {
        let sw = scale_dim(w, t, h);
        (sw, t)
    } else {
        let sh = scale_dim(h, t, w);
        (t, sh)
    }
}

/// Offset at which a span of `t` is cut out of a span of `s`, centred:
/// half of the overflow, rounded down.
pub open spec fn center_off(s: int, t: int) -> int {
    (s - t) / 2
}

/// Centre offset within a scaled side.
pub fn center_offset(s: u32, t: u32) -> (r: u32)
    requires
        t <= s,
    ensures
        r == center_off(s as int, t as int),
        r + t <= s,
{
    proof {
        lemma_div_is_ordered(s - t, s as int, 2);
        lemma_fundamental_div_mod(s - t, 2);
    }
    (s - t) / 2
}

/// Crop-to-fill keeps the aspect ratio of the retained region and centres
/// the crop.  For a landscape source (`w >= h`) the vertical extent is
/// fully retained: the scaled height is exactly `t` and the vertical crop
/// offset is zero; the horizontal overflow is split evenly, the left and
/// right discards differing by at most one pixel; and as long as no `u32`
/// clamping occurs the scaled width matches the source aspect ratio to
/// within half a pixel: `|sw * h - w * t| <= h / 2`.  Portrait sources are
/// symmetric with the roles of the axes swapped.
pub proof fn lemma_crop_to_fill_policy(w: int, h: int, t: int)
    requires
        1 <= w,
        1 <= h,
        1 <= t,
        w >= h ==> scale_round(w, t, h) <= 0xffffffff,
        w < h ==> scale_round(h, t, w) <= 0xffffffff,
    ensures
        ({
            let (sw, sh) = fill_scaled(w, h, t);
            &&& (w >= h ==> {
                &&& sh == t
                &&& center_off(sh, t) == 0
                &&& t <= sw
                &&& h * sw - w * t <= h / 2
                &&& w * t - h * sw <= h / 2
                &&& (sw - t) - 2 * center_off(sw, t) <= 1
                &&& 0 <= (sw - t) - 2 * center_off(sw, t)
            })
            &&& (w < h ==> {
                &&& sw == t
                &&& center_off(sw, t) == 0
                &&& t <= sh
                &&& w * sh - h * t <= w / 2
                &&& h * t - w * sh <= w / 2
                &&& (sh - t) - 2 * center_off(sh, t) <= 1
                &&& 0 <= (sh - t) - 2 * center_off(sh, t)
            })
        }),
{
    if w >= h {
        let sw = scale_round(w, t, h);
        lemma_scale_round_at_least(w, t, h);
        lemma_fundamental_div_mod(w * t + h / 2, h);
        assert(h * sw == w * t + h / 2 - ((w * t + h / 2) % h));
        lemma_fundamental_div_mod(sw - t, 2);
        lemma_fundamental_div_mod(h, 2);
    } else {
        let sh = scale_round(h, t, w);
        lemma_scale_round_at_least(h, t, w);
        lemma_fundamental_div_mod(h * t + w / 2, w);
        assert(w * sh == h * t + w / 2 - ((h * t + w / 2) % w));
        lemma_fundamental_div_mod(sh - t, 2);
        lemma_fundamental_div_mod(w, 2);
    }
}

} // verus!
