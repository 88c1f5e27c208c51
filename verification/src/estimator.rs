//! Ambient light estimation from one raw sensor frame.
//!
//! Frames are two bytes per pixel, luma-chroma interleaved: the luma samples
//! sit at every even byte. The estimator walks those samples (every one at
//! full precision, every other one at half precision), weights each by its
//! distance from the frame center — full weight at the center falling
//! linearly to a fifth at the maximum radius — and returns the weighted
//! average normalized by the sample full-scale value into `[0, SCALE]`.

use vstd::prelude::*;
use crate::SCALE;

verus! {

/// Bytes from one luma sample to the next: two at full precision, four at
/// half precision.
pub open spec fn est_step(half: bool) -> int {
    if half {
        4
    } else {
        2
    }
}

/// Pixels from one walked sample to the next.
pub open spec fn est_pixel_step(half: bool) -> int {
    if half {
        2
    } else {
        1
    }
}

/// The squared maximum radius of a `w`-by-`h` frame, measured from its
/// center, floored at one.
pub open spec fn max_dist_sq(w: int, h: int) -> int {
    let c = (w / 2) * (w / 2) + (h / 2) * (h / 2);
    if c >= 1 {
        c
    } else {
        1
    }
}

/// The radial weight of the `i`-th walked sample, in fixed-point units of
/// [`SCALE`]: full at the center, falling linearly with the squared
/// distance to a fifth at the maximum radius.
pub open spec fn weight_at(i: int, w: int, h: int, half: bool) -> int {
    let p = i * est_pixel_step(half);
    let px = p % w;
    let py = p / w;
    let cx = w / 2;
    let cy = h / 2;
    let dist_sq = (px - cx) * (px - cx) + (py - cy) * (py - cy);
    let mds = max_dist_sq(w, h);
    let capped = if dist_sq <= mds {
        dist_sq
    } else {
        mds
    };
    SCALE - 800_000 * capped / mds
}

/// The sum of the first `n` luma samples, each scaled by its radial weight.
pub open spec fn weighted_luma_sum(buf: Seq<u8>, w: int, h: int, half: bool, n: int) -> int
    decreases n,
{
    if n <= 0 {
        0
    } else {
        weighted_luma_sum(buf, w, h, half, n - 1) + buf[(n - 1) * est_step(half)] * weight_at(
            n - 1,
            w,
            h,
            half,
        )
    }
}

/// The sum of the first `n` radial weights.
pub open spec fn weight_total(w: int, h: int, half: bool, n: int) -> int
    decreases n,
{
    if n <= 0 {
        0
    } else {
        weight_total(w, h, half, n - 1) + weight_at(n - 1, w, h, half)
    }
}

/// How many luma samples a walk of a `len`-byte frame visits: one per
/// `est_step` bytes, stopping at the end of the buffer or of the pixel
/// grid, whichever comes first.
pub open spec fn sample_count(len: int, w: int, h: int, half: bool) -> int {
    let step = est_step(half);
    let chunk_lim = (len + step - 1) / step;
    let pix_lim = if half {
        (w * h + 1) / 2
    } else {
        w * h
    };
    if chunk_lim <= pix_lim {
        chunk_lim
    } else {
        pix_lim
    }
}

/// The estimate for a whole frame: the weighted average of its luma
/// samples, normalized by the full-scale sample value 255 into fixed-point
/// units of [`SCALE`]; an empty frame reads as zero.
pub open spec fn frame_luma_spec(buf: Seq<u8>, w: int, h: int, half: bool) -> int {
    let n = sample_count(buf.len() as int, w, h, half);
    let ws = weight_total(w, h, half, n);
    if ws > 0 {
        weighted_luma_sum(buf, w, h, half, n) * SCALE / (ws * 255)
    } else {
        0
    }
}

/// Every radial weight is a fraction between one fifth and one.
proof fn lemma_weight_at_range(i: int, w: int, h: int, half: bool)
    requires
        w >= 1,
    ensures
        200_000 <= weight_at(i, w, h, half) <= SCALE,
{
    let p = i * est_pixel_step(half);
    let px = p % w;
    let py = p / w;
    let cx = w / 2;
    let cy = h / 2;
    let dist_sq = (px - cx) * (px - cx) + (py - cy) * (py - cy);
    let mds = max_dist_sq(w, h);
    let capped = if dist_sq <= mds {
        dist_sq
    } else {
        mds
    };
    assert((px - cx) * (px - cx) + (py - cy) * (py - cy) >= 0) by (nonlinear_arith);
    assert(0 <= 800_000 * capped / mds <= 800_000) by (nonlinear_arith)
        requires
            0 <= capped <= mds,
            mds >= 1,
    ;
}

/// The walk's stopping index is exactly `sample_count`: the stopping index
/// lies outside the buffer or outside the pixel grid.
proof fn lemma_sample_count_props(len: int, w: int, h: int, half: bool)
    requires
        len >= 0,
        w >= 1,
        h >= 1,
    ensures
        0 <= sample_count(len, w, h, half) <= w * h,
        sample_count(len, w, h, half) * est_step(half) >= len || sample_count(len, w, h, half)
            * est_pixel_step(half) >= w * h,
        sample_count(len, w, h, half) * est_step(half) <= len + est_step(half) - 1,
        sample_count(len, w, h, half) * est_pixel_step(half) <= w * h + est_pixel_step(half) - 1,
{
    let step = est_step(half);
    let pstep = est_pixel_step(half);
    let wh = w * h;
    let chunk_lim = (len + step - 1) / step;
    let pix_lim = if half {
        (wh + 1) / 2
    } else {
        wh
    };
    assert(wh >= 1) by (nonlinear_arith)
        requires
            w >= 1,
            h >= 1,
            wh == w * h,
    ;
    assert(chunk_lim * step <= len + step - 1 && chunk_lim * step >= len && chunk_lim >= 0) by (
    nonlinear_arith)
        requires
            step >= 1,
            len >= 0,
            chunk_lim == (len + step - 1) / step,
    ;
    if half {
        assert(pix_lim * 2 <= wh + 1 && pix_lim * 2 >= wh && pix_lim >= 0 && pix_lim <= wh) by (
        nonlinear_arith)
            requires
                wh >= 1,
                pix_lim == (wh + 1) / 2,
        ;
    }
    let n = sample_count(len, w, h, half);
    assert(n * step <= chunk_lim * step && n * pstep <= pix_lim * pstep) by (nonlinear_arith)
        requires
            n <= chunk_lim,
            n <= pix_lim,
            step >= 1,
            pstep >= 1,
    ;
}

/// Every sample index short of `sample_count` lies inside both the buffer
/// and the pixel grid.
proof fn lemma_sample_in_range(len: int, w: int, h: int, half: bool, i: int)
    requires
        len >= 0,
        w >= 1,
        h >= 1,
        0 <= i < sample_count(len, w, h, half),
    ensures
        i * est_step(half) < len,
        i * est_pixel_step(half) < w * h,
{
    let step = est_step(half);
    let pstep = est_pixel_step(half);
    let wh = w * h;
    let chunk_lim = (len + step - 1) / step;
    let pix_lim = if half {
        (wh + 1) / 2
    } else {
        wh
    };
    assert(wh >= 1) by (nonlinear_arith)
        requires
            w >= 1,
            h >= 1,
            wh == w * h,
    ;
    assert(chunk_lim * step <= len + step - 1) by (nonlinear_arith)
        requires
            step >= 1,
            len >= 0,
            chunk_lim == (len + step - 1) / step,
    ;
    if half {
        assert(pix_lim * 2 <= wh + 1) by (nonlinear_arith)
            requires
                wh >= 1,
                pix_lim == (wh + 1) / 2,
        ;
    }
    assert(pix_lim * pstep <= wh + pstep - 1);
    assert((i + 1) * step <= chunk_lim * step && (i + 1) * pstep <= pix_lim * pstep) by (
    nonlinear_arith)
        requires
            i + 1 <= chunk_lim,
            i + 1 <= pix_lim,
            step >= 1,
            pstep >= 1,
    ;
    assert(i * step == (i + 1) * step - step && i * pstep == (i + 1) * pstep - pstep) by (
    nonlinear_arith);
}

/// A weighted sum of byte-sized samples is at most 255 times the weight
/// total, and both sums grow by one sample's contribution at a time.
proof fn lemma_sums_bounded(buf: Seq<u8>, w: int, h: int, half: bool, n: int)
    requires
        w >= 1,
        n >= 0,
    ensures
        0 <= weight_total(w, h, half, n) <= n * (SCALE as int),
        0 <= weighted_luma_sum(buf, w, h, half, n) <= 255 * weight_total(w, h, half, n),
    decreases n,
{
    if n > 0 {
        lemma_sums_bounded(buf, w, h, half, n - 1);
        lemma_weight_at_range(n - 1, w, h, half);
        assert(buf[(n - 1) * est_step(half)] * weight_at(n - 1, w, h, half) <= 255 * weight_at(
            n - 1,
            w,
            h,
            half,
        ) && buf[(n - 1) * est_step(half)] * weight_at(n - 1, w, h, half) >= 0) by (nonlinear_arith)
            requires
                0 <= buf[(n - 1) * est_step(half)] <= 255,
                0 <= weight_at(n - 1, w, h, half),
        ;
        assert((n - 1) * (SCALE as int) + SCALE == n * (SCALE as int)) by (nonlinear_arith);
    }
}

/// Estimates the ambient luma of one raw frame: the radially weighted
/// average of its luma samples, as a fraction of [`SCALE`].
#[verifier::loop_isolation(false)]
pub fn measure_frame_luma(buf: &[u8], width: usize, height: usize, half_precision: bool) -> (r:
    u32)
    requires
        1 <= width <= 65_535,
        1 <= height <= 65_535,
        buf@.len() + 4 <= usize::MAX,
    ensures
        r == frame_luma_spec(buf@, width as int, height as int, half_precision),
        r <= SCALE,
{
    let w = width;
    let h = height;
    proof {
        assert(w * h <= 65_535 * 65_535) by (nonlinear_arith)
            requires
                1 <= w <= 65_535,
                1 <= h <= 65_535,
        ;
    }
    let wh: usize = w * h;
    let cx: usize = w / 2;
    let cy: usize = h / 2;
    proof {
        assert(cx * cx <= 32_767 * 32_767 && cy * cy <= 32_767 * 32_767) by (nonlinear_arith)
            requires
                0 <= cx <= 32_767,
                0 <= cy <= 32_767,
        ;
    }
    let mds_raw: u64 = (cx as u64) * (cx as u64) + (cy as u64) * (cy as u64);
    let mds: u64 = if mds_raw >= 1 {
        mds_raw
    } else {
        1
    };
    let step: usize = if half_precision {
        4
    } else {
        2
    };
    let pstep: usize = if half_precision {
        2
    } else {
        1
    };
    let ghost n = sample_count(buf@.len() as int, w as int, h as int, half_precision);
    proof {
        lemma_sample_count_props(buf@.len() as int, w as int, h as int, half_precision);
    }
    let mut i: usize = 0;
    let mut sum: u64 = 0;
    let mut wsum: u64 = 0;
    while i * step < buf.len() && i * pstep < wh
        invariant
            0 <= i <= n,
            i * step <= buf@.len() + step - 1,
            i * pstep <= wh + pstep - 1,
            sum == weighted_luma_sum(buf@, w as int, h as int, half_precision, i as int),
            wsum == weight_total(w as int, h as int, half_precision, i as int),
        decreases n - i,
    {
        proof {
            if i == n {
                assert(false);
            }
            assert((i + 1) * step <= n * step && (i + 1) * pstep <= n * pstep) by (nonlinear_arith)
                requires
                    i + 1 <= n,
                    step >= 1,
                    pstep >= 1,
            ;
            assert((i + 1) * step == i * step + step && (i + 1) * pstep == i * pstep + pstep) by (
            nonlinear_arith);
            lemma_sums_bounded(buf@, w as int, h as int, half_precision, i as int);
            lemma_sums_bounded(buf@, w as int, h as int, half_precision, i as int + 1);
            lemma_weight_at_range(i as int, w as int, h as int, half_precision);
        }
        let y: u8 = buf[i * step];
        let pix: usize = i * pstep;
        let px: usize = pix % w;
        let py: usize = pix / w;
        let dx: u64 = if px >= cx {
            (px - cx) as u64
        } else {
            (cx - px) as u64
        };
        let dy: u64 = if py >= cy {
            (py - cy) as u64
        } else {
            (cy - py) as u64
        };
        proof {
            assert(px < w) by (nonlinear_arith)
                requires
                    px == (pix as int) % (w as int),
                    w >= 1,
            ;
            assert(py < h) by (nonlinear_arith)
                requires
                    py == (pix as int) / (w as int),
                    w >= 1,
                    h >= 1,
                    0 <= pix < w * h,
            ;
            assert(dx * dx == ((px as int) - (cx as int)) * ((px as int) - (cx as int)) && dy * dy
                == ((py as int) - (cy as int)) * ((py as int) - (cy as int))) by (nonlinear_arith)
                requires
                    dx == if px >= cx {
                        px - cx
                    } else {
                        cx - px
                    },
                    dy == if py >= cy {
                        py - cy
                    } else {
                        cy - py
                    },
            ;
            assert(dx * dx <= 65_535 * 65_535 && dy * dy <= 65_535 * 65_535) by (nonlinear_arith)
                requires
                    0 <= dx <= 65_535,
                    0 <= dy <= 65_535,
            ;
        }
        let dist_sq: u64 = dx * dx + dy * dy;
        let capped: u64 = if dist_sq <= mds {
            dist_sq
        } else {
            mds
        };
        let weight: u64 = (SCALE as u64) - 800_000u64 * capped / mds;
        assert(weight == weight_at(i as int, w as int, h as int, half_precision));
        sum = sum + (y as u64) * weight;
        wsum = wsum + weight;
        i = i + 1;
    }
    proof {
        if i < n {
            lemma_sample_in_range(buf@.len() as int, w as int, h as int, half_precision, i as int);
        }
        assert(i == n);
        lemma_sums_bounded(buf@, w as int, h as int, half_precision, n);
    }
    if wsum > 0 {
        proof {
            assert(sum * SCALE / (wsum * 255) <= SCALE && sum * SCALE / (wsum * 255) >= 0) by (
            nonlinear_arith)
                requires
                    0 <= sum <= 255 * wsum,
                    wsum >= 1,
        ;
        }
        ((sum as u128) * (SCALE as u128) / ((wsum as u128) * 255u128)) as u32
    } else {
        0
    }
}

/// The sum of a sequence of fixed-point luma readings.
pub open spec fn luma_sum(s: Seq<u32>) -> int
    decreases s.len(),
{
    if s.len() == 0 {
        0
    } else {
        luma_sum(s.drop_last()) + s.last()
    }
}

/// A sum of fractions is at most the count times [`SCALE`].
proof fn lemma_luma_sum_bounded(s: Seq<u32>)
    requires
        forall|j: int| 0 <= j < s.len() ==> s[j] <= SCALE,
    ensures
        0 <= luma_sum(s) <= s.len() * (SCALE as int),
    decreases s.len(),
{
    if s.len() > 0 {
        lemma_luma_sum_bounded(s.drop_last());
        assert((s.len() - 1) * (SCALE as int) + SCALE == s.len() * (SCALE as int)) by (
        nonlinear_arith);
    }
}

/// The arithmetic mean of independent single-frame estimates, used during
/// calibration; an empty batch reads as zero.
pub fn mean_luma(samples: &Vec<u32>) -> (r: u32)
    requires
        forall|j: int| 0 <= j < samples@.len() ==> samples@[j] <= SCALE,
    ensures
        samples@.len() == 0 ==> r == 0,
        samples@.len() > 0 ==> r == luma_sum(samples@) / (samples@.len() as int),
        r <= SCALE,
{
    if samples.len() == 0 {
        return 0;
    }
    let mut acc: u128 = 0;
    let mut j: usize = 0;
    while j < samples.len()
        invariant
            0 <= j <= samples@.len(),
            forall|k: int| 0 <= k < samples@.len() ==> samples@[k] <= SCALE,
            acc == luma_sum(samples@.take(j as int)),
            acc <= j * (SCALE as int),
        decreases samples@.len() - j,
    {
        proof {
            assert(samples@.take(j as int + 1).drop_last() =~= samples@.take(j as int));
            assert(j * (SCALE as int) + SCALE == (j + 1) * (SCALE as int)) by (nonlinear_arith);
            assert((j as int) * (SCALE as int) <= 0xFFFF_FFFF_FFFF_FFFF * 0x10_0000) by (
            nonlinear_arith)
                requires
                    0 <= j <= 0xFFFF_FFFF_FFFF_FFFF,
            ;
        }
        acc = acc + samples[j] as u128;
        j = j + 1;
    }
    proof {
        assert(samples@.take(samples@.len() as int) =~= samples@);
        lemma_luma_sum_bounded(samples@);
        assert(luma_sum(samples@) / (samples@.len() as int) <= SCALE) by (nonlinear_arith)
            requires
                0 <= luma_sum(samples@) <= samples@.len() * (SCALE as int),
                samples@.len() >= 1,
        ;
    }
    (acc / (samples.len() as u128)) as u32
}

} // verus!
