//! Ratio normalization: genome-wide mean coverage, per-window adjusted
//! coverage, and the smoothed fixed-point tumor/normal ratio track.
//!
//! All ratio arithmetic is exact 128-bit fixed point with the scale factor
//! `FLOAT_MULTIPLIER`; quantities beyond the range this arithmetic can hold
//! (which no physical sequencing run reaches) are treated as unknown.

use vstd::prelude::*;
use crate::catalog::{CHR_COUNT, MAX_CHR_LEN};
use crate::scanner::{ChrAgg, ChromosomeCoverage, GenomeCoverage, genome_wf};
use crate::smooth::{smoothed_i64, smooth_windows_i64};

verus! {

/// Fixed-point scale factor for serialized ratios and adjusted coverage.
pub const FLOAT_MULTIPLIER: u64 = 1000;

/// The pre-smoothing ratio of a window with unknown ratio: minus the scale
/// factor.
pub const RATIO_SENTINEL: i64 = -1000;

/// Per-window counts at or above this cap cannot enter a ratio.
pub const MAX_COVERAGE_CAP: u64 = 0x8000_0000;

/// A mean numerator (summed fragment length) at or above this cap makes the
/// mean unusable for fixed-point division.
pub const MEAN_NUM_CAP: u128 = 0x40_0000_0000_0000;

/// A mean denominator (summed chromosome length) at or above this cap makes
/// the mean unusable for fixed-point division; the whole catalog stays below
/// it.
pub const MEAN_DEN_CAP: u64 = 0x2_0000_0000;

/// A genome-wide mean as an exact rational: summed fragment length over
/// summed chromosome length.
#[derive(Clone, Copy)]
pub struct Mean {
    pub num: u128,
    pub den: u64,
}

/// Summed accepted-fragment length over the chromosomes present.
pub open spec fn sum_total_len(cs: Seq<Option<ChrAgg>>) -> int
    decreases cs.len(),
{
    if cs.len() == 0 {
        0
    } else {
        sum_total_len(cs.drop_last()) + match cs.last() {
            Some(c) => c.total_fragment_len as int,
            None => 0,
        }
    }
}

/// Summed genomic length over the chromosomes present.
pub open spec fn sum_chr_len(cs: Seq<Option<ChrAgg>>) -> int
    decreases cs.len(),
{
    if cs.len() == 0 {
        0
    } else {
        sum_chr_len(cs.drop_last()) + match cs.last() {
            Some(c) => c.chr_len as int,
            None => 0,
        }
    }
}

/// Length-weighted mean coverage-per-base across the chromosomes present:
/// since each chromosome's coverage-per-base is its summed fragment length
/// over its length, the weighted mean is exactly total fragment length over
/// total genomic length, kept as an exact rational.
pub fn calculate_genome_wide_cov_mean(g: &GenomeCoverage) -> (m: Mean)
    requires
        genome_wf(g@),
    ensures
        m.num == sum_total_len(g@.chromosomes),
        m.den == sum_chr_len(g@.chromosomes),
        m.den < MEAN_DEN_CAP,
        m.num <= CHR_COUNT * 0xffff_ffff_ffff_ffffu64,
{
    let mut num: u128 = 0;
    let mut den: u64 = 0;
    let n = g.chromosomes.len();
    let mut i: usize = 0;
    while i < n
        invariant
            genome_wf(g@),
            n == g.chromosomes@.len(),
            i <= n,
            n == CHR_COUNT,
            num == sum_total_len(g@.chromosomes.subrange(0, i as int)),
            den == sum_chr_len(g@.chromosomes.subrange(0, i as int)),
            num <= i * 0xffff_ffff_ffff_ffffu64,
            den <= i * MAX_CHR_LEN,
        decreases n - i,
    {
        let ghost prefix = g@.chromosomes.subrange(0, i as int);
        let ghost prefix1 = g@.chromosomes.subrange(0, i + 1);
        proof {
            assert(prefix1.drop_last() =~= prefix);
            assert(prefix1.last() == g@.chromosomes[i as int]);
        }
        match &g.chromosomes[i] {
            Some(c) => {
                num = num + c.total_fragment_len as u128;
                den = den + c.chr_len;
            },
            None => {},
        }
        i += 1;
    }
    proof {
        assert(g@.chromosomes.subrange(0, n as int) =~= g@.chromosomes);
        assert(CHR_COUNT * MAX_CHR_LEN < MEAN_DEN_CAP);
    }
    Mean { num, den }
}

/// The fixed-point scaled tumor/normal ratio of one window.
///
/// It is the sentinel (unknown) unless both window counts are strictly
/// between zero and the coverage cap, both means are positive, and both means
/// fit the fixed-point range; otherwise it is the adjusted-coverage quotient
/// `(t / mean_t) / (n / mean_n)`, scaled by `FLOAT_MULTIPLIER`, floored, and
/// saturated at `i32::MAX`.
pub open spec fn ratio_scaled_spec(t: int, n: int, mt: Mean, mn: Mean, max_cov: int) -> int {
    if 0 < t < max_cov && 0 < n < max_cov
        && 0 < mt.num < MEAN_NUM_CAP && 0 < mn.num < MEAN_NUM_CAP
        && 0 < mt.den < MEAN_DEN_CAP && 0 < mn.den < MEAN_DEN_CAP {
        let q = (t * mt.den * (mn.num as int) * FLOAT_MULTIPLIER) / (n * mn.den * (mt.num as int));
        if q > i32::MAX {
            i32::MAX as int
        } else {
            q
        }
    } else {
        RATIO_SENTINEL as int
    }
}

pub fn ratio_scaled(cov_t: u64, cov_n: u64, mean_t: &Mean, mean_n: &Mean, max_coverage: u64) -> (r: i64)
    requires
        max_coverage <= MAX_COVERAGE_CAP,
    ensures
        r == ratio_scaled_spec(cov_t as int, cov_n as int, *mean_t, *mean_n, max_coverage as int),
{
    if cov_t > 0 && cov_t < max_coverage && cov_n > 0 && cov_n < max_coverage
        && mean_t.num > 0 && mean_t.num < MEAN_NUM_CAP
        && mean_n.num > 0 && mean_n.num < MEAN_NUM_CAP
        && mean_t.den > 0 && mean_t.den < MEAN_DEN_CAP
        && mean_n.den > 0 && mean_n.den < MEAN_DEN_CAP {
        proof {
            let t = cov_t as int;
            let n = cov_n as int;
            let td = mean_t.den as int;
            let nd = mean_n.den as int;
            let tn = mean_t.num as int;
            let nn = mean_n.num as int;
            let b31 = 0x7fff_ffff as int;
            let b33 = 0x1_ffff_ffff as int;
            let b54 = 0x3f_ffff_ffff_ffff as int;
            vstd::arithmetic::mul::lemma_mul_upper_bound(t, b31, td, b33);
            vstd::arithmetic::mul::lemma_mul_upper_bound(t * td, b31 * b33, nn, b54);
            vstd::arithmetic::mul::lemma_mul_upper_bound(t * td * nn, b31 * b33 * b54, 1000, 1000);
            vstd::arithmetic::mul::lemma_mul_upper_bound(n, b31, nd, b33);
            vstd::arithmetic::mul::lemma_mul_upper_bound(n * nd, b31 * b33, tn, b54);
            vstd::arithmetic::mul::lemma_mul_strictly_positive(n, nd);
            vstd::arithmetic::mul::lemma_mul_strictly_positive(n * nd, tn);
            vstd::arithmetic::mul::lemma_mul_nonnegative(t, td);
            vstd::arithmetic::mul::lemma_mul_nonnegative(t * td, nn);
            vstd::arithmetic::mul::lemma_mul_nonnegative(t * td * nn, 1000);
        }
        let num: u128 = cov_t as u128 * mean_t.den as u128 * mean_n.num * FLOAT_MULTIPLIER as u128;
        let den: u128 = cov_n as u128 * mean_n.den as u128 * mean_t.num;
        let q = num / den;
        if q > i32::MAX as u128 {
            i32::MAX as i64
        } else {
            q as i64
        }
    } else {
        RATIO_SENTINEL
    }
}

/// Raw window count divided by the genome-wide mean, as a fixed-point value
/// scaled by `FLOAT_MULTIPLIER`, floored; zero when the mean is unusable
/// (zero, or out of fixed-point range).
pub open spec fn adjusted_scaled_spec(c: int, m: Mean) -> int {
    if 0 < m.num && m.den < MEAN_DEN_CAP {
        let v = c * m.den * FLOAT_MULTIPLIER / (m.num as int);
        if v > u64::MAX {
            u64::MAX as int
        } else {
            v
        }
    } else {
        0
    }
}

pub fn adjusted_scaled(c: u64, m: &Mean) -> (r: u64)
    ensures
        r == adjusted_scaled_spec(c as int, *m),
{
    if m.num > 0 && m.den < MEAN_DEN_CAP {
        proof {
            let c0 = c as int;
            let d0 = m.den as int;
            let b64 = 0xffff_ffff_ffff_ffff as int;
            let b33 = 0x1_ffff_ffff as int;
            vstd::arithmetic::mul::lemma_mul_upper_bound(c0, b64, d0, b33);
            vstd::arithmetic::mul::lemma_mul_upper_bound(c0 * d0, b64 * b33, 1000, 1000);
            vstd::arithmetic::mul::lemma_mul_nonnegative(c0, d0);
            vstd::arithmetic::mul::lemma_mul_nonnegative(c0 * d0, 1000);
        }
        let v: u128 = c as u128 * m.den as u128 * FLOAT_MULTIPLIER as u128 / m.num;
        if v > u64::MAX as u128 {
            u64::MAX
        } else {
            v as u64
        }
    } else {
        0
    }
}

/// One emitted output row: a window with a positive smoothed ratio.
#[derive(Clone, Copy)]
pub struct RatioRow {
    /// 1-based genomic start coordinate of the window.
    pub start: u64,
    /// Smoothed fixed-point ratio, strictly positive.
    pub ratio_scaled: i64,
    /// Stored (count-smoothed) tumor window count.
    pub coverage_tumor: u64,
    /// Stored (count-smoothed) normal window count.
    pub coverage_normal: u64,
    /// Tumor count over tumor mean, fixed point.
    pub coverage_tumor_adj_scaled: u64,
    /// Normal count over normal mean, fixed point.
    pub coverage_normal_adj_scaled: u64,
}

/// The pre-smoothing fixed-point ratio of every window.
pub open spec fn ratio_seq_spec(ct: Seq<u64>, cn: Seq<u64>, mt: Mean, mn: Mean, max_cov: int) -> Seq<i64>
    recommends
        ct.len() == cn.len(),
{
    Seq::new(ct.len(), |i: int| ratio_scaled_spec(ct[i] as int, cn[i] as int, mt, mn, max_cov) as i64)
}

/// The candidate row of every window, smoothed ratio included.
pub open spec fn all_rows_spec(
    ct: Seq<u64>, cn: Seq<u64>, mt: Mean, mn: Mean, w: int, max_cov: int, h: int,
) -> Seq<RatioRow> {
    let sm = smoothed_i64(ratio_seq_spec(ct, cn, mt, mn, max_cov), h);
    Seq::new(ct.len(), |i: int| RatioRow {
        start: (i * w + 1) as u64,
        ratio_scaled: sm[i],
        coverage_tumor: ct[i],
        coverage_normal: cn[i],
        coverage_tumor_adj_scaled: adjusted_scaled_spec(ct[i] as int, mt) as u64,
        coverage_normal_adj_scaled: adjusted_scaled_spec(cn[i] as int, mn) as u64,
    })
}

/// A window produces a row exactly when its smoothed ratio is positive; a
/// non-positive smoothed ratio means the neighborhood was dominated by
/// unknown windows.
pub open spec fn emit_pred() -> spec_fn(RatioRow) -> bool {
    |r: RatioRow| r.ratio_scaled > 0
}

/// The emitted rows, in ascending window order.
pub open spec fn rows_spec(
    ct: Seq<u64>, cn: Seq<u64>, mt: Mean, mn: Mean, w: int, max_cov: int, h: int,
) -> Seq<RatioRow> {
    all_rows_spec(ct, cn, mt, mn, w, max_cov, h).filter(emit_pred())
}

/// The scaled ratio always lies between the sentinel and `i32::MAX`.
pub proof fn lemma_ratio_scaled_range(t: int, n: int, mt: Mean, mn: Mean, max_cov: int)
    requires
        t >= 0,
        n >= 0,
    ensures
        RATIO_SENTINEL as int <= ratio_scaled_spec(t, n, mt, mn, max_cov) <= i32::MAX as int,
{
    if 0 < t < max_cov && 0 < n < max_cov
        && 0 < mt.num < MEAN_NUM_CAP && 0 < mn.num < MEAN_NUM_CAP
        && 0 < mt.den < MEAN_DEN_CAP && 0 < mn.den < MEAN_DEN_CAP {
        let num = t * mt.den * (mn.num as int) * FLOAT_MULTIPLIER;
        let den = n * mn.den * (mt.num as int);
        vstd::arithmetic::mul::lemma_mul_nonnegative(t, mt.den as int);
        vstd::arithmetic::mul::lemma_mul_nonnegative(t * mt.den, mn.num as int);
        vstd::arithmetic::mul::lemma_mul_nonnegative(t * mt.den * (mn.num as int), 1000);
        vstd::arithmetic::mul::lemma_mul_strictly_positive(n, mn.den as int);
        vstd::arithmetic::mul::lemma_mul_strictly_positive(n * mn.den, mt.num as int);
        vstd::arithmetic::div_mod::lemma_div_pos_is_pos(num, den);
    }
}

pub proof fn lemma_filter_push<A>(s: Seq<A>, x: A, p: spec_fn(A) -> bool)
    ensures
        (s.push(x)).filter(p) == (if p(x) {
            s.filter(p).push(x)
        } else {
            s.filter(p)
        }),
{
    reveal(Seq::filter);
    assert((s.push(x)).drop_last() =~= s);
    assert((s.push(x)).last() == x);
}

/// Compute the emitted ratio rows of one chromosome from the matched tumor
/// and normal coverage and the two genome-wide means.
pub fn compute_ratio_rows(
    tumor: &ChromosomeCoverage,
    normal: &ChromosomeCoverage,
    mean_t: &Mean,
    mean_n: &Mean,
    window_size: u64,
    max_coverage: u64,
    smooth_half: usize,
) -> (rows: Vec<RatioRow>)
    requires
        tumor@.counts.len() == normal@.counts.len(),
        tumor@.counts.len() <= MAX_CHR_LEN,
        smooth_half <= crate::scanner::MAX_SMOOTH_HALF,
        max_coverage <= MAX_COVERAGE_CAP,
        window_size >= 1,
        tumor@.counts.len() >= 1 ==> (tumor@.counts.len() - 1) * window_size + 1 <= u64::MAX,
    ensures
        rows@ == rows_spec(
            tumor@.counts, normal@.counts, *mean_t, *mean_n,
            window_size as int, max_coverage as int, smooth_half as int),
{
    let n = tumor.counts.len();
    let ghost ct = tumor@.counts;
    let ghost cn = normal@.counts;
    let ghost w = window_size as int;
    let ghost max_cov = max_coverage as int;
    let ghost h = smooth_half as int;

    let mut ratios: Vec<i64> = Vec::new();
    let mut i: usize = 0;
    while i < n
        invariant
            i <= n,
            n == ct.len() == cn.len(),
            ct == tumor@.counts,
            cn == normal@.counts,
            max_cov == max_coverage as int,
            max_coverage <= MAX_COVERAGE_CAP,
            ratios@.len() == i,
            forall|k: int| 0 <= k < i
                ==> ratios@[k] == ratio_seq_spec(ct, cn, *mean_t, *mean_n, max_cov)[k],
        decreases n - i,
    {
        let r = ratio_scaled(tumor.counts[i], normal.counts[i], mean_t, mean_n, max_coverage);
        proof {
            lemma_ratio_scaled_range(ct[i as int] as int, cn[i as int] as int, *mean_t, *mean_n, max_cov);
            assert(r == ratio_seq_spec(ct, cn, *mean_t, *mean_n, max_cov)[i as int]);
        }
        ratios.push(r);
        i += 1;
    }
    proof {
        assert(ratios@ =~= ratio_seq_spec(ct, cn, *mean_t, *mean_n, max_cov));
    }
    let sm = smooth_windows_i64(&ratios, smooth_half);
    let ghost all = all_rows_spec(ct, cn, *mean_t, *mean_n, w, max_cov, h);

    let mut rows: Vec<RatioRow> = Vec::new();
    let mut i: usize = 0;
    while i < n
        invariant
            i <= n,
            n == ct.len() == cn.len(),
            ct == tumor@.counts,
            cn == normal@.counts,
            w == window_size as int,
            max_cov == max_coverage as int,
            h == smooth_half as int,
            window_size >= 1,
            n >= 1 ==> (n - 1) * window_size + 1 <= u64::MAX,
            sm@ == smoothed_i64(ratio_seq_spec(ct, cn, *mean_t, *mean_n, max_cov), h),
            sm@.len() == n,
            all == all_rows_spec(ct, cn, *mean_t, *mean_n, w, max_cov, h),
            all.len() == n,
            rows@ == all.subrange(0, i as int).filter(emit_pred()),
        decreases n - i,
    {
        proof {
            assert(all.subrange(0, i + 1) =~= all.subrange(0, i as int).push(all[i as int]));
            lemma_filter_push(all.subrange(0, i as int), all[i as int], emit_pred());
            assert((i as int) * w + 1 <= (n - 1) * w + 1) by (nonlinear_arith)
                requires 0 <= i as int <= n - 1 && w >= 1;
        }
        let ratio_here = sm[i];
        if ratio_here > 0 {
            let row = RatioRow {
                start: (i as u64) * window_size + 1,
                ratio_scaled: ratio_here,
                coverage_tumor: tumor.counts[i],
                coverage_normal: normal.counts[i],
                coverage_tumor_adj_scaled: adjusted_scaled(tumor.counts[i], mean_t),
                coverage_normal_adj_scaled: adjusted_scaled(normal.counts[i], mean_n),
            };
            proof {
                assert(row == all[i as int]);
            }
            rows.push(row);
        }
        i += 1;
    }
    proof {
        assert(all.subrange(0, n as int) =~= all);
    }
    rows
}

} // verus!
