//! The template matcher: normalized cross-correlation over grayscale images,
//! in exact integer arithmetic.
//!
//! For an alignment of the needle inside the haystack the correlation score
//! is `dot / sqrt(hh * nn)`, where `dot` is the sum of products of the
//! overlapping pixels, `hh` the sum of squared haystack pixels under the
//! window and `nn` the sum of squared needle pixels. The score is carried as
//! a fixed-point fraction of [`FRACTION_SCALE`]: a pixel-identical alignment
//! scores exactly `FRACTION_SCALE` (that is, 1.0), dissimilar alignments
//! score lower. The square root is the integer (floor) square root; because
//! flooring the denominator can only raise the quotient past 1.0 on
//! near-perfect matches, the score is clamped to `FRACTION_SCALE` from above.
//! An all-zero window or needle has no direction to correlate with and
//! scores 0.

use vstd::prelude::*;
use vstd::arithmetic::div_mod::lemma_div_multiples_vanish;
use crate::error::DroidError;
use crate::frame::{GrayFrame, pixel};
use crate::geometry::{FRACTION_SCALE, Rect};

verus! {

/// Largest admitted needle area, in pixels. Sums of squared pixel values
/// over a window of this area still fit comfortably in 64-bit accumulators.
pub const MAX_TEMPLATE_AREA: u64 = 4_294_967_296;

/// A successful template search: the needle-sized rectangle at the best
/// alignment, and the correlation score there as a fraction of
/// [`FRACTION_SCALE`].
#[derive(Debug, Clone, Copy, PartialEq, Eq, Structural)]
pub struct MatchResult {
    pub rect: Rect,
    pub confidence: u32,
}

/// Correlation sums over the first `i` pixels of row `j` of the needle laid
/// at offset `(ox, oy)` in the haystack: `(dot, hh, nn)` where `dot` sums
/// haystack-times-needle products, `hh` squared haystack pixels and `nn`
/// squared needle pixels.
pub open spec fn sums_row(
    hw: int,
    hd: Seq<u8>,
    nw: int,
    nd: Seq<u8>,
    ox: int,
    oy: int,
    j: int,
    i: int,
) -> (int, int, int)
    decreases i,
{
    if i <= 0 {
        (0, 0, 0)
    } else {
        let prev = sums_row(hw, hd, nw, nd, ox, oy, j, i - 1);
        let hp = pixel(hw, hd, ox + (i - 1), oy + j);
        let np = pixel(nw, nd, i - 1, j);
        (prev.0 + hp * np, prev.1 + hp * hp, prev.2 + np * np)
    }
}

/// Correlation sums over the first `j` full rows of the needle laid at
/// offset `(ox, oy)` in the haystack.
pub open spec fn sums_rect(
    hw: int,
    hd: Seq<u8>,
    nw: int,
    nd: Seq<u8>,
    ox: int,
    oy: int,
    j: int,
) -> (int, int, int)
    decreases j,
{
    if j <= 0 {
        (0, 0, 0)
    } else {
        let prev = sums_rect(hw, hd, nw, nd, ox, oy, j - 1);
        let row = sums_row(hw, hd, nw, nd, ox, oy, j - 1, nw);
        (prev.0 + row.0, prev.1 + row.1, prev.2 + row.2)
    }
}

/// Correlation sums over the whole needle window at offset `(ox, oy)`.
pub open spec fn window_sums_spec(
    hw: int,
    hd: Seq<u8>,
    nw: int,
    nh: int,
    nd: Seq<u8>,
    ox: int,
    oy: int,
) -> (int, int, int) {
    sums_rect(hw, hd, nw, nd, ox, oy, nh)
}

/// The integer (floor) square root.
pub open spec fn isqrt_spec(n: nat) -> nat
    decreases n,
{
    if n == 0 {
        0
    } else {
        let r = 2 * isqrt_spec(n / 4);
        if (r + 1) * (r + 1) <= n {
            r + 1
        } else {
            r
        }
    }
}

/// The defining property of the floor square root.
pub proof fn lemma_isqrt_bounds(n: nat)
    ensures
        isqrt_spec(n) * isqrt_spec(n) <= n,
        n < (isqrt_spec(n) + 1) * (isqrt_spec(n) + 1),
    decreases n,
{
    if n == 0 {
        assert(isqrt_spec(n) == 0);
        assert(n < (isqrt_spec(n) + 1) * (isqrt_spec(n) + 1)) by (nonlinear_arith)
            requires n == 0, isqrt_spec(n) == 0;
    } else {
        lemma_isqrt_bounds(n / 4);
        let m = n / 4;
        let r0 = isqrt_spec(m);
        let r = 2 * r0;
        assert(4 * m <= n && n < 4 * m + 4);
        assert(r * r == 4 * (r0 * r0)) by (nonlinear_arith)
            requires r == 2 * r0;
        assert((r + 2) * (r + 2) == 4 * ((r0 + 1) * (r0 + 1))) by (nonlinear_arith)
            requires r == 2 * r0;
        assert(r * r <= n);
        assert(n < (r + 2) * (r + 2));
        if (r + 1) * (r + 1) <= n {
            assert(isqrt_spec(n) == r + 1);
            assert(n < (isqrt_spec(n) + 1) * (isqrt_spec(n) + 1)) by (nonlinear_arith)
                requires isqrt_spec(n) == r + 1, n < (r + 2) * (r + 2);
        } else {
            assert(isqrt_spec(n) == r);
            assert(n < (isqrt_spec(n) + 1) * (isqrt_spec(n) + 1)) by (nonlinear_arith)
                requires isqrt_spec(n) == r, n < (r + 1) * (r + 1);
        }
    }
}

/// Any value with the floor-square-root property is the floor square root.
pub proof fn lemma_isqrt_unique(n: nat, r: nat)
    requires
        r * r <= n,
        n < (r + 1) * (r + 1),
    ensures
        r == isqrt_spec(n),
{
    lemma_isqrt_bounds(n);
    let s = isqrt_spec(n);
    if r < s {
        assert((r + 1) * (r + 1) <= s * s) by (nonlinear_arith)
            requires r + 1 <= s;
    }
    if s < r {
        assert((s + 1) * (s + 1) <= r * r) by (nonlinear_arith)
            requires s + 1 <= r;
    }
}

/// The correlation score built from the three window sums, as a fraction of
/// [`FRACTION_SCALE`], clamped into `[0, FRACTION_SCALE]`.
pub open spec fn score_frac(dot: int, hh: int, nn: int) -> int {
    let den = isqrt_spec((hh * nn) as nat) as int;
    if den == 0 {
        0
    } else {
        let q = FRACTION_SCALE as int * dot / den;
        if q <= FRACTION_SCALE as int {
            q
        } else {
            FRACTION_SCALE as int
        }
    }
}

/// The correlation score of the needle aligned at offset `(ox, oy)` in the
/// haystack.
pub open spec fn score_at(
    hw: int,
    hd: Seq<u8>,
    nw: int,
    nh: int,
    nd: Seq<u8>,
    ox: int,
    oy: int,
) -> int {
    let s = window_sums_spec(hw, hd, nw, nh, nd, ox, oy);
    score_frac(s.0, s.1, s.2)
}

/// Each row sum is nonnegative and at most `65025 * i` (a pixel product is
/// at most `255 * 255`).
proof fn lemma_sums_row_bounds(
    hw: int,
    hd: Seq<u8>,
    nw: int,
    nd: Seq<u8>,
    ox: int,
    oy: int,
    j: int,
    i: int,
)
    requires
        i >= 0,
    ensures
        ({
            let s = sums_row(hw, hd, nw, nd, ox, oy, j, i);
            0 <= s.0 <= 65025 * i && 0 <= s.1 <= 65025 * i && 0 <= s.2 <= 65025 * i
        }),
    decreases i,
{
    if i > 0 {
        lemma_sums_row_bounds(hw, hd, nw, nd, ox, oy, j, i - 1);
        let hp = pixel(hw, hd, ox + (i - 1), oy + j);
        let np = pixel(nw, nd, i - 1, j);
        assert(0 <= hp * np <= 65025 && 0 <= hp * hp <= 65025 && 0 <= np * np <= 65025)
            by (nonlinear_arith)
            requires 0 <= hp <= 255, 0 <= np <= 255;
    }
}

/// Each window sum is nonnegative and at most `65025 * j * nw`.
proof fn lemma_sums_rect_bounds(
    hw: int,
    hd: Seq<u8>,
    nw: int,
    nd: Seq<u8>,
    ox: int,
    oy: int,
    j: int,
)
    requires
        j >= 0,
        nw >= 0,
    ensures
        ({
            let s = sums_rect(hw, hd, nw, nd, ox, oy, j);
            0 <= s.0 <= 65025 * j * nw && 0 <= s.1 <= 65025 * j * nw && 0 <= s.2 <= 65025 * j
                * nw
        }),
    decreases j,
{
    if j > 0 {
        lemma_sums_rect_bounds(hw, hd, nw, nd, ox, oy, j - 1);
        lemma_sums_row_bounds(hw, hd, nw, nd, ox, oy, j - 1, nw);
        assert(65025 * (j - 1) * nw + 65025 * nw == 65025 * j * nw) by (nonlinear_arith);
    }
}

/// Computes the floor square root by binary search.
fn isqrt_u128(x: u128) -> (r: u128)
    ensures
        r as nat == isqrt_spec(x as nat),
        r * r <= x,
        x < (r + 1) * (r + 1),
{
    let mut lo: u128 = 0;
    let mut hi: u128 = 0x1_0000_0000_0000_0000;
    proof {
        assert(x < 0x1_0000_0000_0000_0000 * 0x1_0000_0000_0000_0000) by (nonlinear_arith)
            requires x <= u128::MAX;
    }
    while hi - lo > 1
        invariant
            0 <= lo < hi,
            hi <= 0x1_0000_0000_0000_0000,
            lo * lo <= x,
            x < hi * hi,
        decreases hi - lo,
    {
        let mid: u128 = lo + (hi - lo) / 2;
        proof {
            assert(mid * mid < u128::MAX) by (nonlinear_arith)
                requires mid < 0x1_0000_0000_0000_0000;
        }
        if mid * mid <= x {
            lo = mid;
        } else {
            hi = mid;
        }
    }
    proof {
        lemma_isqrt_unique(x as nat, lo as nat);
    }
    lo
}

/// Computes the three correlation sums of the needle window at `(ox, oy)`.
fn window_sums(hay: &GrayFrame, nee: &GrayFrame, ox: u32, oy: u32) -> (r: (u64, u64, u64))
    requires
        hay.wf(),
        nee.wf(),
        ox + nee.width <= hay.width,
        oy + nee.height <= hay.height,
        (nee.width as int) * (nee.height as int) <= MAX_TEMPLATE_AREA,
    ensures
        ({
            let s = window_sums_spec(
                hay.width as int,
                hay.data@,
                nee.width as int,
                nee.height as int,
                nee.data@,
                ox as int,
                oy as int,
            );
            r.0 as int == s.0 && r.1 as int == s.1 && r.2 as int == s.2
        }),
{
    let nw: u32 = nee.width;
    let nh: u32 = nee.height;
    let ghost hw = hay.width as int;
    let ghost hd = hay.data@;
    let ghost nd = nee.data@;
    let mut dot: u64 = 0;
    let mut hh: u64 = 0;
    let mut nn: u64 = 0;
    let mut j: u32 = 0;
    while j < nh
        invariant
            hay.wf(),
            nee.wf(),
            ox + nw <= hay.width,
            oy + nh <= hay.height,
            nw == nee.width,
            nh == nee.height,
            hw == hay.width as int,
            hd == hay.data@,
            nd == nee.data@,
            (nw as int) * (nh as int) <= MAX_TEMPLATE_AREA,
            j <= nh,
            ({
                let s = sums_rect(hw, hd, nw as int, nd, ox as int, oy as int, j as int);
                dot as int == s.0 && hh as int == s.1 && nn as int == s.2
            }),
        decreases nh - j,
    {
        let mut i: u32 = 0;
        while i < nw
            invariant
                hay.wf(),
                nee.wf(),
                ox + nw <= hay.width,
                oy + nh <= hay.height,
                nw == nee.width,
                nh == nee.height,
                hw == hay.width as int,
                hd == hay.data@,
                nd == nee.data@,
                (nw as int) * (nh as int) <= MAX_TEMPLATE_AREA,
                j < nh,
                i <= nw,
                ({
                    let s = sums_rect(hw, hd, nw as int, nd, ox as int, oy as int, j as int);
                    let t = sums_row(hw, hd, nw as int, nd, ox as int, oy as int, j as int, i as int);
                    dot as int == s.0 + t.0 && hh as int == s.1 + t.1 && nn as int == s.2 + t.2
                }),
            decreases nw - i,
        {
            let hp: u64 = hay.get(ox + i, oy + j) as u64;
            let np: u64 = nee.get(i, j) as u64;
            proof {
                lemma_sums_rect_bounds(hw, hd, nw as int, nd, ox as int, oy as int, j as int);
                lemma_sums_row_bounds(hw, hd, nw as int, nd, ox as int, oy as int, j as int, i as int);
                assert(hp * np <= 65025 && hp * hp <= 65025 && np * np <= 65025)
                    by (nonlinear_arith)
                    requires hp <= 255, np <= 255;
                assert(65025 * (j as int) * (nw as int) + 65025 * (i as int) + 65025 <= 65025
                    * (MAX_TEMPLATE_AREA as int)) by (nonlinear_arith)
                    requires
                        0 <= j as int,
                        0 <= i as int,
                        (i as int) < (nw as int),
                        (j as int) < (nh as int),
                        (nw as int) * (nh as int) <= MAX_TEMPLATE_AREA as int;
            }
            dot = dot + hp * np;
            hh = hh + hp * hp;
            nn = nn + np * np;
            i = i + 1;
        }
        j = j + 1;
    }
    (dot, hh, nn)
}


/// Computes the correlation score of the needle window at `(ox, oy)` as a
/// clamped fixed-point fraction.
fn score_at_exec(hay: &GrayFrame, nee: &GrayFrame, ox: u32, oy: u32) -> (s: u32)
    requires
        hay.wf(),
        nee.wf(),
        ox + nee.width <= hay.width,
        oy + nee.height <= hay.height,
        (nee.width as int) * (nee.height as int) <= MAX_TEMPLATE_AREA,
    ensures
        s as int == score_at(
            hay.width as int,
            hay.data@,
            nee.width as int,
            nee.height as int,
            nee.data@,
            ox as int,
            oy as int,
        ),
        s <= FRACTION_SCALE,
{
    let ghost hw = hay.width as int;
    let ghost hd = hay.data@;
    let ghost nw = nee.width as int;
    let ghost nh = nee.height as int;
    let ghost nd = nee.data@;
    let sums = window_sums(hay, nee, ox, oy);
    let dot: u64 = sums.0;
    let h2: u64 = sums.1;
    let n2: u64 = sums.2;
    proof {
        lemma_sums_rect_bounds(hw, hd, nw, nd, ox as int, oy as int, nh);
        assert(65025 * nh * nw <= 65025 * (MAX_TEMPLATE_AREA as int)) by (nonlinear_arith)
            requires nw * nh <= MAX_TEMPLATE_AREA as int, nw >= 0, nh >= 0;
        assert((h2 as int) * (n2 as int) <= 65025 * (MAX_TEMPLATE_AREA as int) * (65025 * (
        MAX_TEMPLATE_AREA as int)) && 65025 * (MAX_TEMPLATE_AREA as int) * (65025 * (
        MAX_TEMPLATE_AREA as int)) < u128::MAX && 0 <= (h2 as int) * (n2 as int))
            by (nonlinear_arith)
            requires
                0 <= h2 as int <= 65025 * (MAX_TEMPLATE_AREA as int),
                0 <= n2 as int <= 65025 * (MAX_TEMPLATE_AREA as int);
    }
    let den128: u128 = (h2 as u128) * (n2 as u128);
    let den: u128 = isqrt_u128(den128);
    if den == 0 {
        0
    } else {
        proof {
            assert((FRACTION_SCALE as int) * (dot as int) <= (FRACTION_SCALE as int) * (65025 * (
            MAX_TEMPLATE_AREA as int)) && (FRACTION_SCALE as int) * (65025 * (
            MAX_TEMPLATE_AREA as int)) < u128::MAX && 0 <= (FRACTION_SCALE as int) * (dot as int))
                by (nonlinear_arith)
                requires 0 <= dot as int <= 65025 * (MAX_TEMPLATE_AREA as int);
        }
        let q: u128 = (FRACTION_SCALE as u128) * (dot as u128) / den;
        if q >= FRACTION_SCALE as u128 {
            FRACTION_SCALE
        } else {
            q as u32
        }
    }
}

/// The search region actually used: the requested rectangle clamped into the
/// haystack bounds, as `(x, y, width, height)`. Clamping (rather than
/// rejection) keeps a region that merely overhangs the edge usable.
pub open spec fn clamp_region(hw: int, hh: int, r: Rect) -> (int, int, int, int) {
    let rx = if r.x as int <= hw { r.x as int } else { hw };
    let ry = if r.y as int <= hh { r.y as int } else { hh };
    let rw = if r.width as int <= hw - rx { r.width as int } else { hw - rx };
    let rh = if r.height as int <= hh - ry { r.height as int } else { hh - ry };
    (rx, ry, rw, rh)
}

/// The region searched for a given optional search rectangle: the clamped
/// rectangle, or the whole haystack when none is given.
pub open spec fn search_region(hw: int, hh: int, search: Option<Rect>) -> (int, int, int, int) {
    match search {
        Some(r) => clamp_region(hw, hh, r),
        None => (0, 0, hw, hh),
    }
}

/// True when the needle laid with its top-left corner at `(x, y)` lies
/// entirely inside the region.
pub open spec fn valid_offset(
    region: (int, int, int, int),
    nw: int,
    nh: int,
    x: int,
    y: int,
) -> bool {
    region.0 <= x && x + nw <= region.0 + region.2 && region.1 <= y && y + nh <= region.1
        + region.3
}

/// Finds the alignment of the needle inside the haystack (restricted to the
/// search region, if one is given) with the greatest correlation score.
///
/// Returns the needle-sized rectangle at that alignment, in haystack
/// coordinates, together with its score, when the score reaches the
/// threshold; `ImageNotFound` when every alignment scores below the
/// threshold; and `InvalidTarget` when the needle is empty or does not fit
/// inside the (clamped) region, so that no alignment exists.
pub fn find_template(
    haystack: &GrayFrame,
    needle: &GrayFrame,
    threshold: u32,
    needle_path: &str,
    search: Option<Rect>,
) -> (r: Result<MatchResult, DroidError>)
    requires
        haystack.wf(),
        needle.wf(),
        (needle.width as int) * (needle.height as int) <= MAX_TEMPLATE_AREA,
    ensures
        ({
            let hw = haystack.width as int;
            let hh = haystack.height as int;
            let nw = needle.width as int;
            let nh = needle.height as int;
            let hd = haystack.data@;
            let nd = needle.data@;
            let reg = search_region(hw, hh, search);
            let fits = 1 <= nw <= reg.2 && 1 <= nh <= reg.3;
            match r {
                Ok(m) => {
                    &&& fits
                    &&& m.rect.width == needle.width
                    &&& m.rect.height == needle.height
                    &&& valid_offset(reg, nw, nh, m.rect.x as int, m.rect.y as int)
                    &&& m.confidence as int == score_at(hw, hd, nw, nh, nd, m.rect.x as int, m.rect.y as int)
                    &&& m.confidence <= FRACTION_SCALE
                    &&& m.confidence >= threshold
                    &&& forall|x: int, y: int|
                        valid_offset(reg, nw, nh, x, y) ==> score_at(hw, hd, nw, nh, nd, x, y)
                            <= m.confidence as int
                },
                Err(e) => match e {
                    DroidError::ImageNotFound(p) => {
                        &&& fits
                        &&& p@ == needle_path@
                        &&& forall|x: int, y: int|
                            valid_offset(reg, nw, nh, x, y) ==> score_at(hw, hd, nw, nh, nd, x, y)
                                < threshold
                    },
                    DroidError::InvalidTarget(_) => !fits,
                    _ => false,
                },
            }
        }),
{
    let hw: u32 = haystack.width;
    let hh: u32 = haystack.height;
    let nw: u32 = needle.width;
    let nh: u32 = needle.height;
    let ghost hd = haystack.data@;
    let ghost nd = needle.data@;

    let (rx, ry, rw, rh): (u32, u32, u32, u32) = match search {
        Some(rc) => {
            let cx: u32 = if rc.x <= hw { rc.x } else { hw };
            let cy: u32 = if rc.y <= hh { rc.y } else { hh };
            let cw: u32 = if rc.width <= hw - cx { rc.width } else { hw - cx };
            let ch: u32 = if rc.height <= hh - cy { rc.height } else { hh - cy };
            (cx, cy, cw, ch)
        },
        None => (0, 0, hw, hh),
    };
    let ghost reg = search_region(hw as int, hh as int, search);
    assert(reg == (rx as int, ry as int, rw as int, rh as int));

    if nw == 0 || nh == 0 || nw > rw || nh > rh {
        return Err(DroidError::InvalidTarget(String::from_str(
            "the template is empty or larger than the searched region",
        )));
    }

    let max_x: u32 = rw - nw;
    let max_y: u32 = rh - nh;
    let mut best_x: u32 = rx;
    let mut best_y: u32 = ry;
    let mut best_s: u32 = score_at_exec(haystack, needle, rx, ry);

    let mut dy: u32 = 0;
    while dy <= max_y
        invariant
            haystack.wf(),
            needle.wf(),
            (nw as int) * (nh as int) <= MAX_TEMPLATE_AREA,
            hw == haystack.width,
            hh == haystack.height,
            nw == needle.width,
            nh == needle.height,
            hd == haystack.data@,
            nd == needle.data@,
            1 <= nw,
            1 <= nh,
            rx + rw <= hw,
            ry + rh <= hh,
            nw <= rw,
            nh <= rh,
            max_x == rw - nw,
            max_y == rh - nh,
            reg == (rx as int, ry as int, rw as int, rh as int),
            dy <= max_y + 1,
            valid_offset(reg, nw as int, nh as int, best_x as int, best_y as int),
            best_s as int == score_at(hw as int, hd, nw as int, nh as int, nd, best_x as int, best_y as int),
            best_s <= FRACTION_SCALE,
            forall|x: int, y: int|
                valid_offset(reg, nw as int, nh as int, x, y) && y < ry + dy ==> score_at(
                    hw as int,
                    hd,
                    nw as int,
                    nh as int,
                    nd,
                    x,
                    y,
                ) <= best_s as int,
        decreases max_y + 1 - dy,
    {
        let mut dx: u32 = 0;
        while dx <= max_x
            invariant
                haystack.wf(),
                needle.wf(),
                (nw as int) * (nh as int) <= MAX_TEMPLATE_AREA,
                hw == haystack.width,
                hh == haystack.height,
                nw == needle.width,
                nh == needle.height,
                hd == haystack.data@,
                nd == needle.data@,
                1 <= nw,
                1 <= nh,
                rx + rw <= hw,
                ry + rh <= hh,
                nw <= rw,
                nh <= rh,
                max_x == rw - nw,
                max_y == rh - nh,
                reg == (rx as int, ry as int, rw as int, rh as int),
                dy <= max_y,
                dx <= max_x + 1,
                valid_offset(reg, nw as int, nh as int, best_x as int, best_y as int),
                best_s as int == score_at(hw as int, hd, nw as int, nh as int, nd, best_x as int, best_y as int),
                best_s <= FRACTION_SCALE,
                forall|x: int, y: int|
                    valid_offset(reg, nw as int, nh as int, x, y) && y < ry + dy ==> score_at(
                        hw as int,
                        hd,
                        nw as int,
                        nh as int,
                        nd,
                        x,
                        y,
                    ) <= best_s as int,
                forall|x: int|
                    rx <= x < rx + dx ==> #[trigger] score_at(
                        hw as int,
                        hd,
                        nw as int,
                        nh as int,
                        nd,
                        x,
                        (ry + dy) as int,
                    ) <= best_s as int,
            decreases max_x + 1 - dx,
        {
            let s = score_at_exec(haystack, needle, rx + dx, ry + dy);
            if s > best_s {
                best_x = rx + dx;
                best_y = ry + dy;
                best_s = s;
            }
            dx = dx + 1;
        }
        dy = dy + 1;
    }

    if best_s >= threshold {
        Ok(MatchResult {
            rect: Rect { x: best_x, y: best_y, width: nw, height: nh },
            confidence: best_s,
        })
    } else {
        Err(DroidError::ImageNotFound(String::from_str(needle_path)))
    }
}


/// When the haystack window equals the needle pixel for pixel over the
/// first `i` pixels of row `j`, all three row sums coincide.
proof fn lemma_equal_row_sums(
    hw: int,
    hd: Seq<u8>,
    nw: int,
    nd: Seq<u8>,
    ox: int,
    oy: int,
    j: int,
    i: int,
)
    requires
        i >= 0,
        forall|i0: int| 0 <= i0 < i ==> pixel(hw, hd, ox + i0, oy + j) == pixel(nw, nd, i0, j),
    ensures
        ({
            let s = sums_row(hw, hd, nw, nd, ox, oy, j, i);
            s.0 == s.2 && s.1 == s.2
        }),
    decreases i,
{
    if i > 0 {
        lemma_equal_row_sums(hw, hd, nw, nd, ox, oy, j, i - 1);
    }
}

/// When the haystack window equals the needle pixel for pixel over the
/// first `j` rows, all three window sums coincide.
proof fn lemma_equal_rect_sums(
    hw: int,
    hd: Seq<u8>,
    nw: int,
    nd: Seq<u8>,
    ox: int,
    oy: int,
    j: int,
)
    requires
        j >= 0,
        nw >= 0,
        forall|i0: int, j0: int|
            0 <= i0 < nw && 0 <= j0 < j ==> pixel(hw, hd, ox + i0, oy + j0) == pixel(
                nw,
                nd,
                i0,
                j0,
            ),
    ensures
        ({
            let s = sums_rect(hw, hd, nw, nd, ox, oy, j);
            s.0 == s.2 && s.1 == s.2
        }),
    decreases j,
{
    if j > 0 {
        lemma_equal_rect_sums(hw, hd, nw, nd, ox, oy, j - 1);
        lemma_equal_row_sums(hw, hd, nw, nd, ox, oy, j - 1, nw);
    }
}

/// A nonzero needle pixel in the first `i` pixels of row `j` makes the
/// needle's squared row sum positive.
proof fn lemma_row_sum_positive(
    hw: int,
    hd: Seq<u8>,
    nw: int,
    nd: Seq<u8>,
    ox: int,
    oy: int,
    j: int,
    i: int,
    px: int,
)
    requires
        0 <= px < i,
        pixel(nw, nd, px, j) != 0,
    ensures
        sums_row(hw, hd, nw, nd, ox, oy, j, i).2 >= 1,
    decreases i,
{
    lemma_sums_row_bounds(hw, hd, nw, nd, ox, oy, j, i - 1);
    let np = pixel(nw, nd, i - 1, j);
    if px == i - 1 {
        assert(np * np >= 1) by (nonlinear_arith)
            requires np >= 1;
    } else {
        lemma_row_sum_positive(hw, hd, nw, nd, ox, oy, j, i - 1, px);
        assert(np * np >= 0) by (nonlinear_arith);
    }
}

/// A nonzero needle pixel in the first `j` rows makes the needle's squared
/// window sum positive.
proof fn lemma_rect_sum_positive(
    hw: int,
    hd: Seq<u8>,
    nw: int,
    nd: Seq<u8>,
    ox: int,
    oy: int,
    j: int,
    px: int,
    py: int,
)
    requires
        0 <= px < nw,
        0 <= py < j,
        pixel(nw, nd, px, py) != 0,
    ensures
        sums_rect(hw, hd, nw, nd, ox, oy, j).2 >= 1,
    decreases j,
{
    lemma_sums_rect_bounds(hw, hd, nw, nd, ox, oy, j - 1);
    if py == j - 1 {
        lemma_row_sum_positive(hw, hd, nw, nd, ox, oy, j - 1, nw, px);
    } else {
        lemma_rect_sum_positive(hw, hd, nw, nd, ox, oy, j - 1, px, py);
        lemma_sums_row_bounds(hw, hd, nw, nd, ox, oy, j - 1, nw);
    }
}

/// A pixel-identical alignment scores full confidence: when the haystack
/// window at `(ox, oy)` equals the needle pixel for pixel, and the needle
/// has at least one nonzero pixel (at `(px, py)`), the correlation score at
/// that alignment is exactly `FRACTION_SCALE`, that is, 1.0.
pub proof fn lemma_exact_match_full_confidence(
    hw: int,
    hd: Seq<u8>,
    nw: int,
    nh: int,
    nd: Seq<u8>,
    ox: int,
    oy: int,
    px: int,
    py: int,
)
    requires
        0 <= px < nw,
        0 <= py < nh,
        pixel(nw, nd, px, py) != 0,
        forall|i0: int, j0: int|
            0 <= i0 < nw && 0 <= j0 < nh ==> pixel(hw, hd, ox + i0, oy + j0) == pixel(
                nw,
                nd,
                i0,
                j0,
            ),
    ensures
        score_at(hw, hd, nw, nh, nd, ox, oy) == FRACTION_SCALE as int,
{
    lemma_equal_rect_sums(hw, hd, nw, nd, ox, oy, nh);
    lemma_rect_sum_positive(hw, hd, nw, nd, ox, oy, nh, px, py);
    let s = sums_rect(hw, hd, nw, nd, ox, oy, nh);
    let v = s.2;
    assert(v * v >= 1 && v * v < (v + 1) * (v + 1) && 0 <= v * v) by (nonlinear_arith)
        requires v >= 1;
    lemma_isqrt_unique((v * v) as nat, v as nat);
    let den = isqrt_spec((v * v) as nat) as int;
    assert(den == v);
    assert((FRACTION_SCALE as int) * v / v == FRACTION_SCALE as int) by {
        assert((FRACTION_SCALE as int) * v == v * (FRACTION_SCALE as int)) by (nonlinear_arith);
        lemma_div_multiples_vanish(FRACTION_SCALE as int, v);
    }
}


/// Restricting the search only narrows the set of alignments considered:
/// scores are stated in absolute haystack coordinates, so an alignment
/// valid inside a clamped search region is also valid for the
/// unrestricted search, with the very same score term. Region restriction
/// never relocates a match.
pub proof fn lemma_region_only_narrows(
    hw: int,
    hh: int,
    r: Rect,
    nw: int,
    nh: int,
    x: int,
    y: int,
)
    requires
        hw >= 0,
        hh >= 0,
        valid_offset(clamp_region(hw, hh, r), nw, nh, x, y),
    ensures
        valid_offset((0, 0, hw, hh), nw, nh, x, y),
{
}

/// A pixel-identical copy of the needle inside the searched region is
/// always found, at full confidence: any alignment the matcher's contract
/// admits as best scores exactly `FRACTION_SCALE` and passes every
/// threshold up to it.
pub proof fn lemma_exact_match_is_best(
    hw: int,
    hd: Seq<u8>,
    nw: int,
    nh: int,
    nd: Seq<u8>,
    reg: (int, int, int, int),
    ox: int,
    oy: int,
    px: int,
    py: int,
    best: int,
    threshold: int,
)
    requires
        0 <= px < nw,
        0 <= py < nh,
        pixel(nw, nd, px, py) != 0,
        forall|i0: int, j0: int|
            0 <= i0 < nw && 0 <= j0 < nh ==> pixel(hw, hd, ox + i0, oy + j0) == pixel(
                nw,
                nd,
                i0,
                j0,
            ),
        valid_offset(reg, nw, nh, ox, oy),
        best <= FRACTION_SCALE as int,
        forall|x: int, y: int|
            valid_offset(reg, nw, nh, x, y) ==> #[trigger] score_at(hw, hd, nw, nh, nd, x, y)
                <= best,
        threshold <= FRACTION_SCALE as int,
    ensures
        best == FRACTION_SCALE as int,
        best >= threshold,
{
    lemma_exact_match_full_confidence(hw, hd, nw, nh, nd, ox, oy, px, py);
}

} // verus!
