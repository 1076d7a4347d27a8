//! The resize planner: a pure function from source dimensions and
//! bounds to target dimensions.
//!
//! Resizing is triggered only when a source dimension exceeds its
//! bound. Both target dimensions derive from the single scaling ratio
//! `min(max_width / width, max_height / height)`, so the aspect ratio
//! is preserved exactly up to rounding, and upscaling never occurs.
//! Real-valued rounding is modelled as round-half-up integer division.

use vstd::arithmetic::div_mod::lemma_div_is_ordered;
use vstd::arithmetic::div_mod::lemma_fundamental_div_mod_converse;
use vstd::arithmetic::mul::lemma_mul_inequality;
use vstd::arithmetic::mul::lemma_mul_upper_bound;
use vstd::math::abs;
use vstd::math::max;
use vstd::prelude::*;

verus! {

/// `a / b` rounded half up, for positive `b`.
pub open spec fn round_div(a: int, b: int) -> int {
    (2 * a + b) / (2 * b)
}

/// Target dimensions for a source `(w, h)` under bounds `(mw, mh)`:
/// the source unchanged when it fits, else both dimensions scaled by
/// `min(mw / w, mh / h)` and rounded; the dimension whose bound is the
/// tighter one lands exactly on its bound.
pub open spec fn spec_plan(w: int, h: int, mw: int, mh: int) -> (int, int) {
    if w <= mw && h <= mh {
        (w, h)
    } else if mw * h <= mh * w {
        (mw, round_div(h * mw, w))
    } else {
        (round_div(w * mh, h), mh)
    }
}

/// Computes the planned target dimensions.
///
/// The result never exceeds the source (no upscaling), never exceeds
/// the bounds, and equals the source exactly when the source already
/// fits within the bounds.
pub fn plan_resize(width: u32, height: u32, max_width: u32, max_height: u32) -> (r: (u32, u32))
    requires
        1 <= width,
        1 <= height,
        1 <= max_width <= 4096,
        1 <= max_height <= 4096,
    ensures
        (r.0 as int, r.1 as int) == spec_plan(
            width as int,
            height as int,
            max_width as int,
            max_height as int,
        ),
        r.0 <= width,
        r.1 <= height,
        r.0 <= max_width,
        r.1 <= max_height,
        (r.0 == width && r.1 == height) <==> (width <= max_width && height <= max_height),
{
    let ghost w = width as int;
    let ghost h = height as int;
    let ghost gmw = max_width as int;
    let ghost gmh = max_height as int;
    proof {
        lemma_mul_upper_bound(gmw, 4096, h, 0xffff_ffff);
        lemma_mul_upper_bound(gmh, 4096, w, 0xffff_ffff);
    }
    if width <= max_width && height <= max_height {
        (width, height)
    } else if (max_width as u64) * (height as u64) <= (max_height as u64) * (width as u64) {
        proof {
            assert(gmw <= w) by (nonlinear_arith)
                requires
                    1 <= w,
                    1 <= h,
                    1 <= gmw,
                    1 <= gmh,
                    !(w <= gmw && h <= gmh),
                    gmw * h <= gmh * w,
            ;
            lemma_mul_upper_bound(2 * h, 0x1_ffff_fffe, gmw, 4096);
            assert((2 * h) * gmw == 2 * (h * gmw)) by (nonlinear_arith);
        }
        let num: u64 = 2 * (height as u64) * (max_width as u64) + (width as u64);
        let den: u64 = 2 * (width as u64);
        proof {
            lemma_mul_upper_bound(h, 0xffff_ffff, gmw, 4096);
            // the quotient is bounded by the height bound ...
            assert(2 * (h * gmw) + w <= 2 * (gmh * w) + w) by {
                lemma_mul_inequality(gmw * h, gmh * w, 2);
                assert(h * gmw == gmw * h) by (nonlinear_arith);
                assert((gmw * h) * 2 == 2 * (h * gmw)) by (nonlinear_arith);
                assert((gmh * w) * 2 == 2 * (gmh * w)) by (nonlinear_arith);
            }
            lemma_div_is_ordered(2 * (h * gmw) + w, 2 * (gmh * w) + w, 2 * w);
            assert(2 * (gmh * w) + w == gmh * (2 * w) + w) by (nonlinear_arith);
            lemma_fundamental_div_mod_converse(2 * (gmh * w) + w, 2 * w, gmh, w);
            // ... and by the source height, since the ratio is at most one
            assert(2 * (h * gmw) + w <= 2 * (h * w) + w) by {
                lemma_mul_inequality(gmw, w, h);
                assert(gmw * h == h * gmw) by (nonlinear_arith);
                assert(w * h == h * w) by (nonlinear_arith);
            }
            lemma_div_is_ordered(2 * (h * gmw) + w, 2 * (h * w) + w, 2 * w);
            assert(2 * (h * w) + w == h * (2 * w) + w) by (nonlinear_arith);
            lemma_fundamental_div_mod_converse(2 * (h * w) + w, 2 * w, h, w);
        }
        let nh64: u64 = num / den;
        proof {
            assert(nh64 <= gmh);
            assert(nh64 <= h);
            // in this branch the height bound is strict, so the plan
            // differs from the source
            if h <= gmh {
                assert(w > gmw);
            } else {
                assert(nh64 < h);
            }
        }
        let nh: u32 = nh64 as u32;
        (max_width, nh)
    } else {
        proof {
            assert(gmh <= h) by (nonlinear_arith)
                requires
                    1 <= w,
                    1 <= h,
                    1 <= gmw,
                    1 <= gmh,
                    !(w <= gmw && h <= gmh),
                    !(gmw * h <= gmh * w),
            ;
            lemma_mul_upper_bound(2 * w, 0x1_ffff_fffe, gmh, 4096);
            assert((2 * w) * gmh == 2 * (w * gmh)) by (nonlinear_arith);
        }
        let num: u64 = 2 * (width as u64) * (max_height as u64) + (height as u64);
        let den: u64 = 2 * (height as u64);
        proof {
            lemma_mul_upper_bound(w, 0xffff_ffff, gmh, 4096);
            assert(2 * (w * gmh) + h <= 2 * (gmw * h) + h) by {
                lemma_mul_inequality(gmh * w, gmw * h, 2);
                assert(w * gmh == gmh * w) by (nonlinear_arith);
                assert((gmh * w) * 2 == 2 * (w * gmh)) by (nonlinear_arith);
                assert((gmw * h) * 2 == 2 * (gmw * h)) by (nonlinear_arith);
            }
            lemma_div_is_ordered(2 * (w * gmh) + h, 2 * (gmw * h) + h, 2 * h);
            assert(2 * (gmw * h) + h == gmw * (2 * h) + h) by (nonlinear_arith);
            lemma_fundamental_div_mod_converse(2 * (gmw * h) + h, 2 * h, gmw, h);
            assert(2 * (w * gmh) + h <= 2 * (w * h) + h) by {
                lemma_mul_inequality(gmh, h, w);
                assert(gmh * w == w * gmh) by (nonlinear_arith);
                assert(h * w == w * h) by (nonlinear_arith);
            }
            lemma_div_is_ordered(2 * (w * gmh) + h, 2 * (w * h) + h, 2 * h);
            assert(2 * (w * h) + h == w * (2 * h) + h) by (nonlinear_arith);
            lemma_fundamental_div_mod_converse(2 * (w * h) + h, 2 * h, w, h);
        }
        let nw64: u64 = num / den;
        proof {
            assert(nw64 <= gmw);
            assert(nw64 <= w);
            if w <= gmw {
                assert(h > gmh);
            } else {
                assert(nw64 < w);
            }
        }
        let nw: u32 = nw64 as u32;
        (nw, max_height)
    }
}

/// Aspect preservation: the planned dimensions stand to one another as
/// the source dimensions do, up to the half-unit error that rounding a
/// single shared ratio can introduce; in cross-multiplied form,
/// `|nw * h - nh * w|` is at most half the larger source dimension.
pub proof fn lemma_plan_aspect(w: int, h: int, mw: int, mh: int)
    requires
        1 <= w,
        1 <= h,
        1 <= mw,
        1 <= mh,
    ensures
        ({
            let (nw, nh) = spec_plan(w, h, mw, mh);
            2 * abs(nw * h - nh * w) <= max(w, h)
        }),
{
    let (nw, nh) = spec_plan(w, h, mw, mh);
    if w <= mw && h <= mh {
        assert(nw * h - nh * w == 0) by (nonlinear_arith)
            requires
                nw == w && nh == h,
        ;
    } else if mw * h <= mh * w {
        // nh = (2 h mw + w) / (2 w); with remainder r,
        // 2 (nw h - nh w) == r - w, and 0 <= r < 2 w.
        let a = 2 * (h * mw) + w;
        let d = 2 * w;
        let q = a / d;
        let r = a % d;
        vstd::arithmetic::div_mod::lemma_fundamental_div_mod(a, d);
        vstd::arithmetic::div_mod::lemma_mod_bound(a, d);
        assert(nw == mw && nh == q);
        assert(2 * (nw * h - nh * w) == r - w) by (nonlinear_arith)
            requires
                a == 2 * (h * mw) + w,
                a == q * d + r,
                d == 2 * w,
                nw == mw,
                nh == q,
        ;
        assert(2 * abs(nw * h - nh * w) <= w);
    } else {
        let a = 2 * (w * mh) + h;
        let d = 2 * h;
        let q = a / d;
        let r = a % d;
        vstd::arithmetic::div_mod::lemma_fundamental_div_mod(a, d);
        vstd::arithmetic::div_mod::lemma_mod_bound(a, d);
        assert(nw == q && nh == mh);
        assert(2 * (nh * w - nw * h) == r - h) by (nonlinear_arith)
            requires
                a == 2 * (w * mh) + h,
                a == q * d + r,
                d == 2 * h,
                nh == mh,
                nw == q,
        ;
        assert(2 * abs(nw * h - nh * w) <= h);
    }
}

} // verus!
