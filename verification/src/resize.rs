//! The resize calculator: a pure "contain" fit that preserves the source
//! aspect ratio, never exceeds a requested bound, and skips the resize
//! entirely when the computed dimensions equal the intrinsic ones.

use vstd::arithmetic::div_mod::{
    lemma_div_is_ordered, lemma_div_is_ordered_by_denominator, lemma_fundamental_div_mod,
    lemma_mod_division_less_than_divisor,
};
use vstd::prelude::*;

verus! {

/// `n / d` rounded to the nearest integer, halves rounding up.
pub open spec fn round_ratio(n: int, d: int) -> int
    recommends
        n >= 0,
        d > 0,
{
    (2 * n + d) / (2 * d)
}

/// The height that hits width `w` at the source aspect ratio `w0 : h0`.
pub open spec fn scaled_height(w0: int, h0: int, w: int) -> int {
    round_ratio(h0 * w, w0)
}

/// The width that hits height `h` at the source aspect ratio `w0 : h0`.
pub open spec fn scaled_width(w0: int, h0: int, h: int) -> int {
    round_ratio(w0 * h, h0)
}

/// The final (width, height) of the contain fit for intrinsic dimensions
/// `(w0, h0)` and the optional requested bounds.
pub open spec fn resize_dims(w0: int, h0: int, tw: Option<u32>, th: Option<u32>) -> (int, int) {
    match (tw, th) {
        (Some(w), Some(h)) => {
            let wh = scaled_width(w0, h0, h as int);
            let hw = scaled_height(w0, h0, w as int);
            (if w as int <= wh { w as int } else { wh }, if h as int <= hw { h as int } else { hw })
        },
        (Some(w), None) => (w as int, scaled_height(w0, h0, w as int)),
        (None, Some(h)) => (scaled_width(w0, h0, h as int), h as int),
        (None, None) => (w0, h0),
    }
}

/// Which resize call the codec engine must receive.
#[derive(Clone, Copy, PartialEq, Eq, Structural, Debug)]
pub enum ResizeMode {
    /// The computed dimensions equal the intrinsic ones: no resize at all.
    Skip,
    /// A single-frame image: a plain thumbnail transform suffices.
    Thumbnail,
    /// A multi-frame image: the whole scene must be fit, not one frame.
    FitScene,
}

/// The outcome of the calculator: final dimensions and the transform variant.
#[derive(Clone, Copy, PartialEq, Eq, Structural, Debug)]
pub struct ResizePlan {
    pub width: u64,
    pub height: u64,
    pub mode: ResizeMode,
}

/// Compute `round_ratio(a * b, d)` exactly.
fn round_scaled(a: u32, b: u32, d: u32) -> (r: u64)
    requires
        d > 0,
    ensures
        r == round_ratio(a as int * b as int, d as int),
{
    proof {
        assert((a as int) * (b as int) <= 0xffff_fffe_0000_0001) by (nonlinear_arith)
            requires
                0 <= a as int <= 0xffff_ffff,
                0 <= b as int <= 0xffff_ffff,
        ;
    }
    let n: u128 = (a as u128) * (b as u128);
    let dd: u128 = d as u128;
    let q: u128 = (2 * n + dd) / (2 * dd);
    proof {
        lemma_div_is_ordered_by_denominator(2 * n as int + dd as int, 2, 2 * dd as int);
        lemma_div_is_ordered(
            2 * n as int + dd as int,
            2 * 0xffff_fffe_0000_0001int + 0xffff_ffff,
            2,
        );
    }
    q as u64
}

/// The smaller of two dimensions.
fn min_dim(a: u64, b: u64) -> (r: u64)
    ensures
        r == if a <= b {
            a as int
        } else {
            b as int
        },
{
    if a <= b {
        a
    } else {
        b
    }
}

impl ResizePlan {
    /// The calculator. Both, one, or neither bound may be requested; the
    /// result is the contain fit preserving the aspect ratio, and the mode says
    /// whether (and how) the codec engine must resize: not at all when the
    /// result equals the intrinsic dimensions, across the whole scene when
    /// the image is multi-frame, as a plain thumbnail otherwise.
    pub fn compute(
        width0: u32,
        height0: u32,
        target_width: Option<u32>,
        target_height: Option<u32>,
        multi_frame: bool,
    ) -> (p: ResizePlan)
        requires
            width0 > 0,
            height0 > 0,
        ensures
            p.width as int == resize_dims(width0 as int, height0 as int, target_width, target_height).0,
            p.height as int == resize_dims(
                width0 as int,
                height0 as int,
                target_width,
                target_height,
            ).1,
            p.mode is Skip <==> (p.width == width0 as u64 && p.height == height0 as u64),
            !(p.mode is Skip) ==> (p.mode is FitScene <==> multi_frame),
    {
        let (width, height): (u64, u64) = match (target_width, target_height) {
            (Some(w), Some(h)) => {
                let wh = round_scaled(width0, h, height0);
                let hw = round_scaled(height0, w, width0);
                (min_dim(w as u64, wh), min_dim(h as u64, hw))
            },
            (Some(w), None) => (w as u64, round_scaled(height0, w, width0)),
            (None, Some(h)) => (round_scaled(width0, h, height0), h as u64),
            (None, None) => (width0 as u64, height0 as u64),
        };
        let mode = if width == width0 as u64 && height == height0 as u64 {
            ResizeMode::Skip
        } else if multi_frame {
            ResizeMode::FitScene
        } else {
            ResizeMode::Thumbnail
        };
        ResizePlan { width, height, mode }
    }
}

/// With no requested bound the calculator returns the intrinsic dimensions
/// unchanged, so the resize step is skipped: resizing is a no-op then.
pub proof fn lemma_no_target_is_noop(w0: int, h0: int)
    ensures
        resize_dims(w0, h0, None, None) == (w0, h0),
{
}

/// With both bounds requested the result fits inside the requested box.
pub proof fn lemma_contain_fit(w0: int, h0: int, w: u32, h: u32)
    requires
        w0 > 0,
        h0 > 0,
    ensures
        resize_dims(w0, h0, Some(w), Some(h)).0 <= w as int,
        resize_dims(w0, h0, Some(w), Some(h)).1 <= h as int,
{
}

/// With both bounds requested the result touches at least one of them
/// exactly: the fit is as large as the box allows.
pub proof fn lemma_fit_touches_a_bound(w0: int, h0: int, w: u32, h: u32)
    requires
        w0 > 0,
        h0 > 0,
    ensures
        resize_dims(w0, h0, Some(w), Some(h)).0 == w as int || resize_dims(
            w0,
            h0,
            Some(w),
            Some(h),
        ).1 == h as int,
{
    let wh = scaled_width(w0, h0, h as int);
    let hw = scaled_height(w0, h0, w as int);
    if wh < w as int && hw < h as int {
        let x1 = 2 * (w0 * (h as int)) + h0;
        let d1 = 2 * h0;
        let x2 = 2 * (h0 * (w as int)) + w0;
        let d2 = 2 * w0;
        lemma_fundamental_div_mod(x1, d1);
        lemma_mod_division_less_than_divisor(x1, d1);
        lemma_fundamental_div_mod(x2, d2);
        lemma_mod_division_less_than_divisor(x2, d2);
        assert(x1 < d1 * (w as int)) by (nonlinear_arith)
            requires
                x1 == d1 * (x1 / d1) + x1 % d1,
                0 <= x1 % d1 < d1,
                x1 / d1 < w as int,
                d1 > 0,
        ;
        assert(x2 < d2 * (h as int)) by (nonlinear_arith)
            requires
                x2 == d2 * (x2 / d2) + x2 % d2,
                0 <= x2 % d2 < d2,
                x2 / d2 < h as int,
                d2 > 0,
        ;
        assert(false) by (nonlinear_arith)
            requires
                2 * (w0 * (h as int)) + h0 < (2 * h0) * (w as int),
                2 * (h0 * (w as int)) + w0 < (2 * w0) * (h as int),
                w0 > 0,
                h0 > 0,
        ;
    }
}

} // verus!


