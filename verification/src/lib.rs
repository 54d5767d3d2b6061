//! Per-window tumor/normal copy-number ratio track: coverage extraction over
//! fixed-size genomic windows, median smoothing, genome-wide normalization,
//! and fixed-point ratio serialization.

use vstd::prelude::*;

pub mod catalog;
pub mod normalize;
pub mod output;
pub mod ratio;
pub mod scanner;
pub mod smooth;

verus! {

/// Number of windows needed to tile `len` bases with windows of `w` bases:
/// the ceiling of `len / w`.
pub open spec fn window_count_spec(len: int, w: int) -> int
    recommends
        w >= 1,
{
    (len + w - 1) / w
}

/// Number of windows needed to tile a chromosome of `len` bases with windows
/// of `window_size` bases; the last window may cover fewer bases but still
/// counts as one window.
pub fn window_count(len: u64, window_size: u64) -> (n: u64)
    requires
        window_size >= 1,
    ensures
        n == window_count_spec(len as int, window_size as int),
        n == len / window_size + (if len % window_size == 0 { 0int } else { 1int }),
        n <= len,
        len >= 1 ==> n >= 1,
{
    let q = len / window_size;
    proof {
        let l = len as int;
        let w = window_size as int;
        vstd::arithmetic::div_mod::lemma_fundamental_div_mod(l, w);
        vstd::arithmetic::div_mod::lemma_div_nonincreasing(l, w);
        if l % w == 0 {
            if l >= 1 {
                assert(l >= w) by (nonlinear_arith)
                    requires l == w * (l / w) + l % w && l % w == 0 && l >= 1 && w >= 1 && l / w >= 0;
                vstd::arithmetic::div_mod::lemma_div_non_zero(l, w);
            }
            assert(l + w - 1 == (l / w) * w + (w - 1)) by (nonlinear_arith)
                requires l == w * (l / w) + l % w && l % w == 0;
            vstd::arithmetic::div_mod::lemma_fundamental_div_mod_converse_div(
                l + w - 1, w, l / w, w - 1);
        } else {
            assert(l + w - 1 == (l / w + 1) * w + (l % w - 1)) by (nonlinear_arith)
                requires l == w * (l / w) + l % w;
            assert(l / w < l) by (nonlinear_arith)
                requires l == w * (l / w) + l % w && l % w >= 1 && w >= 1 && l / w >= 0;
            vstd::arithmetic::div_mod::lemma_fundamental_div_mod_converse_div(
                l + w - 1, w, l / w + 1, l % w - 1);
        }
    }
    if len % window_size != 0 {
        q + 1
    } else {
        q
    }
}

/// Every window but the last starts strictly inside the chromosome: the last
/// window's 0-based start coordinate is below the chromosome length.
pub proof fn lemma_last_window_start(len: int, w: int)
    requires
        w >= 1,
        len >= 1,
    ensures
        window_count_spec(len, w) >= 1,
        (window_count_spec(len, w) - 1) * w < len,
{
    let n = window_count_spec(len, w);
    vstd::arithmetic::div_mod::lemma_fundamental_div_mod(len + w - 1, w);
    vstd::arithmetic::div_mod::lemma_mod_bound(len + w - 1, w);
    let r = (len + w - 1) % w;
    assert(len + w - 1 == w * n + r);
    assert(n >= 1) by (nonlinear_arith)
        requires len + w - 1 == w * n + r && 0 <= r < w && len >= 1 && w >= 1;
    assert((n - 1) * w == w * n - w) by (nonlinear_arith);
    assert((n - 1) * w == len - 1 - r);
}

} // verus!
