//! Median filtering of per-window sequences.
//!
//! The median of an even-length range is the lower of the two middle values;
//! this one policy is used everywhere a sequence is smoothed, both for raw
//! fragment counts and for the fixed-point ratio signal.

use vstd::prelude::*;
use vstd::relations::{sorted_by, total_ordering};
use vstd::seq_lib::lemma_sorted_unique;
use vstd::multiset::Multiset;

verus! {

pub open spec fn leq_u64() -> spec_fn(u64, u64) -> bool {
    |x: u64, y: u64| x <= y
}

pub open spec fn leq_i64() -> spec_fn(i64, i64) -> bool {
    |x: i64, y: i64| x <= y
}

pub proof fn lemma_leq_u64_total()
    ensures
        total_ordering(leq_u64()),
{
}

pub proof fn lemma_leq_i64_total()
    ensures
        total_ordering(leq_i64()),
{
}

/// Median of a non-empty sequence: the lower middle value of the sorted
/// sequence.
pub open spec fn median_u64(s: Seq<u64>) -> u64
    recommends
        s.len() > 0,
{
    s.sort_by(leq_u64())[(s.len() - 1) / 2]
}

/// Median of a non-empty sequence of signed values, same policy.
pub open spec fn median_i64(s: Seq<i64>) -> i64
    recommends
        s.len() > 0,
{
    s.sort_by(leq_i64())[(s.len() - 1) / 2]
}

fn sort_u64(v: &Vec<u64>) -> (r: Vec<u64>)
    ensures
        r@ == v@.sort_by(leq_u64()),
        r@.len() == v@.len(),
{
    broadcast use vstd::seq_lib::group_to_multiset_ensures;
    broadcast use vstd::multiset::group_multiset_axioms;

    let mut rest: Vec<u64> = Vec::new();
    for i in 0..v.len()
        invariant
            rest@ == v@.subrange(0, i as int),
    {
        rest.push(v[i]);
        proof {
            assert(rest@ =~= v@.subrange(0, i + 1));
        }
    }
    proof {
        assert(rest@ =~= v@);
    }
    let mut r: Vec<u64> = Vec::new();
    while rest.len() > 0
        invariant
            r@.to_multiset().add(rest@.to_multiset()) =~= v@.to_multiset(),
            sorted_by(r@, leq_u64()),
            forall|i: int, j: int|
                0 <= i < r@.len() && 0 <= j < rest@.len() ==> r@[i] <= rest@[j],
        decreases rest.len(),
    {
        let mut mi: usize = 0;
        let mut k: usize = 1;
        while k < rest.len()
            invariant
                0 <= mi < rest@.len(),
                1 <= k <= rest@.len(),
                forall|t: int| 0 <= t < k ==> rest@[mi as int] <= rest@[t],
            decreases rest@.len() - k,
        {
            if rest[k] < rest[mi] {
                mi = k;
            }
            k += 1;
        }
        let x = rest[mi];
        let ghost rest_old = rest@;
        let ghost r_old = r@;
        r.push(x);
        rest.remove(mi);
        proof {
            broadcast use vstd::seq_lib::group_to_multiset_ensures;
            broadcast use vstd::multiset::group_multiset_axioms;

            assert(r@ == r_old.push(x));
            assert(rest@ == rest_old.remove(mi as int));
            assert(r_old.push(x).to_multiset() =~= r_old.to_multiset().insert(x));
            assert(rest_old.remove(mi as int).to_multiset()
                =~= rest_old.to_multiset().remove(rest_old[mi as int]));
            assert(rest_old[mi as int] == x);
            assert(rest_old.to_multiset().contains(x));
            assert(r@.to_multiset().add(rest@.to_multiset()) =~= v@.to_multiset());
            assert forall|i: int, j: int|
                0 <= i < r@.len() && 0 <= j < rest@.len() implies r@[i] <= rest@[j] by {
                if j < mi {
                    assert(rest@[j] == rest_old[j]);
                } else {
                    assert(rest@[j] == rest_old[j + 1]);
                }
                if i < r_old.len() {
                    assert(r@[i] == r_old[i]);
                } else {
                    assert(r@[i] == x);
                }
            }
            assert(sorted_by(r@, leq_u64())) by {
                assert forall|i: int, j: int|
                    0 <= i < j < r@.len() implies leq_u64()(r@[i], r@[j]) by {
                    if j < r_old.len() {
                        assert(leq_u64()(r_old[i], r_old[j]));
                    } else {
                        assert(r@[j] == x);
                        assert(r_old[i] <= rest_old[mi as int]);
                    }
                }
            }
        }
    }
    proof {
        broadcast use vstd::seq_lib::group_to_multiset_ensures;
        broadcast use vstd::multiset::group_multiset_axioms;

        lemma_leq_u64_total();
        assert(rest@ =~= Seq::<u64>::empty());
        assert(rest@.to_multiset() =~= Multiset::<u64>::empty());
        assert(r@.to_multiset() =~= v@.to_multiset());
        v@.lemma_sort_by_ensures(leq_u64());
        lemma_sorted_unique(r@, v@.sort_by(leq_u64()), leq_u64());
        assert(r@.to_multiset().len() == r@.len());
        assert(v@.to_multiset().len() == v@.len());
    }
    r
}

fn sort_i64(v: &Vec<i64>) -> (r: Vec<i64>)
    ensures
        r@ == v@.sort_by(leq_i64()),
        r@.len() == v@.len(),
{
    broadcast use vstd::seq_lib::group_to_multiset_ensures;
    broadcast use vstd::multiset::group_multiset_axioms;

    let mut rest: Vec<i64> = Vec::new();
    for i in 0..v.len()
        invariant
            rest@ == v@.subrange(0, i as int),
    {
        rest.push(v[i]);
        proof {
            assert(rest@ =~= v@.subrange(0, i + 1));
        }
    }
    proof {
        assert(rest@ =~= v@);
    }
    let mut r: Vec<i64> = Vec::new();
    while rest.len() > 0
        invariant
            r@.to_multiset().add(rest@.to_multiset()) =~= v@.to_multiset(),
            sorted_by(r@, leq_i64()),
            forall|i: int, j: int|
                0 <= i < r@.len() && 0 <= j < rest@.len() ==> r@[i] <= rest@[j],
        decreases rest.len(),
    {
        let mut mi: usize = 0;
        let mut k: usize = 1;
        while k < rest.len()
            invariant
                0 <= mi < rest@.len(),
                1 <= k <= rest@.len(),
                forall|t: int| 0 <= t < k ==> rest@[mi as int] <= rest@[t],
            decreases rest@.len() - k,
        {
            if rest[k] < rest[mi] {
                mi = k;
            }
            k += 1;
        }
        let x = rest[mi];
        let ghost rest_old = rest@;
        let ghost r_old = r@;
        r.push(x);
        rest.remove(mi);
        proof {
            broadcast use vstd::seq_lib::group_to_multiset_ensures;
            broadcast use vstd::multiset::group_multiset_axioms;

            assert(r@ == r_old.push(x));
            assert(rest@ == rest_old.remove(mi as int));
            assert(r_old.push(x).to_multiset() =~= r_old.to_multiset().insert(x));
            assert(rest_old.remove(mi as int).to_multiset()
                =~= rest_old.to_multiset().remove(rest_old[mi as int]));
            assert(rest_old[mi as int] == x);
            assert(rest_old.to_multiset().contains(x));
            assert(r@.to_multiset().add(rest@.to_multiset()) =~= v@.to_multiset());
            assert forall|i: int, j: int|
                0 <= i < r@.len() && 0 <= j < rest@.len() implies r@[i] <= rest@[j] by {
                if j < mi {
                    assert(rest@[j] == rest_old[j]);
                } else {
                    assert(rest@[j] == rest_old[j + 1]);
                }
                if i < r_old.len() {
                    assert(r@[i] == r_old[i]);
                } else {
                    assert(r@[i] == x);
                }
            }
            assert(sorted_by(r@, leq_i64())) by {
                assert forall|i: int, j: int|
                    0 <= i < j < r@.len() implies leq_i64()(r@[i], r@[j]) by {
                    if j < r_old.len() {
                        assert(leq_i64()(r_old[i], r_old[j]));
                    } else {
                        assert(r@[j] == x);
                        assert(r_old[i] <= rest_old[mi as int]);
                    }
                }
            }
        }
    }
    proof {
        broadcast use vstd::seq_lib::group_to_multiset_ensures;
        broadcast use vstd::multiset::group_multiset_axioms;

        lemma_leq_i64_total();
        assert(rest@ =~= Seq::<i64>::empty());
        assert(rest@.to_multiset() =~= Multiset::<i64>::empty());
        assert(r@.to_multiset() =~= v@.to_multiset());
        v@.lemma_sort_by_ensures(leq_i64());
        lemma_sorted_unique(r@, v@.sort_by(leq_i64()), leq_i64());
        assert(r@.to_multiset().len() == r@.len());
        assert(v@.to_multiset().len() == v@.len());
    }
    r
}

/// Median of the values in a non-empty vector, lower-middle policy.
pub fn calc_median_u64(v: &Vec<u64>) -> (m: u64)
    requires
        v@.len() > 0,
    ensures
        m == median_u64(v@),
{
    let s = sort_u64(v);
    s[(s.len() - 1) / 2]
}

/// Median of the values in a non-empty vector of signed values.
pub fn calc_median_i64(v: &Vec<i64>) -> (m: i64)
    requires
        v@.len() > 0,
    ensures
        m == median_i64(v@),
{
    let s = sort_i64(v);
    s[(s.len() - 1) / 2]
}

/// The median of a non-empty sequence is one of its values.
pub proof fn lemma_median_in_seq_u64(s: Seq<u64>)
    requires
        s.len() > 0,
    ensures
        s.contains(median_u64(s)),
{
    broadcast use vstd::seq_lib::group_to_multiset_ensures;

    lemma_leq_u64_total();
    s.lemma_sort_by_ensures(leq_u64());
    let t = s.sort_by(leq_u64());
    assert(t.to_multiset().len() == s.to_multiset().len());
    assert(t.len() == s.len());
    let i = (s.len() - 1) / 2;
    assert(0 <= i < t.len());
    assert(t.contains(t[i]));
    assert(t.to_multiset().count(t[i]) > 0);
    assert(s.to_multiset().count(t[i]) > 0);
}

/// The median of a non-empty sequence of signed values is one of its values.
pub proof fn lemma_median_in_seq_i64(s: Seq<i64>)
    requires
        s.len() > 0,
    ensures
        s.contains(median_i64(s)),
{
    broadcast use vstd::seq_lib::group_to_multiset_ensures;

    lemma_leq_i64_total();
    s.lemma_sort_by_ensures(leq_i64());
    let t = s.sort_by(leq_i64());
    assert(t.to_multiset().len() == s.to_multiset().len());
    assert(t.len() == s.len());
    let i = (s.len() - 1) / 2;
    assert(0 <= i < t.len());
    assert(t.contains(t[i]));
    assert(t.to_multiset().count(t[i]) > 0);
    assert(s.to_multiset().count(t[i]) > 0);
}

/// The sub-range around position `i` that a half-width `h` smoothing window
/// covers: `[max(0, i - h), min(len, i + h + 1))`, shrinking at both ends.
pub open spec fn smooth_sub_u64(s: Seq<u64>, h: int, i: int) -> Seq<u64> {
    s.subrange(
        if i - h > 0 { i - h } else { 0 },
        if i + h + 1 < s.len() { i + h + 1 } else { s.len() as int },
    )
}

pub open spec fn smooth_sub_i64(s: Seq<i64>, h: int, i: int) -> Seq<i64> {
    s.subrange(
        if i - h > 0 { i - h } else { 0 },
        if i + h + 1 < s.len() { i + h + 1 } else { s.len() as int },
    )
}

/// The smoothed sequence: each position is replaced by the median of its
/// (boundary-shrunk) neighborhood of the pre-smoothing sequence.
pub open spec fn smoothed_u64(s: Seq<u64>, h: int) -> Seq<u64> {
    Seq::new(s.len(), |i: int| median_u64(smooth_sub_u64(s, h, i)))
}

pub open spec fn smoothed_i64(s: Seq<i64>, h: int) -> Seq<i64> {
    Seq::new(s.len(), |i: int| median_i64(smooth_sub_i64(s, h, i)))
}

/// Median-filter a per-window count sequence with half-width `h`.
pub fn smooth_windows_u64(v: &Vec<u64>, h: usize) -> (r: Vec<u64>)
    requires
        v@.len() + h + 1 <= usize::MAX,
    ensures
        r@ == smoothed_u64(v@, h as int),
{
    let mut r: Vec<u64> = Vec::new();
    for i in 0..v.len()
        invariant
            v@.len() + h + 1 <= usize::MAX,
            r@.len() == i,
            forall|k: int| 0 <= k < i ==> r@[k] == median_u64(smooth_sub_u64(v@, h as int, k)),
    {
        let l: usize = if i > h { i - h } else { 0 };
        let stop: usize = if i + h + 1 < v.len() { i + h + 1 } else { v.len() };
        let mut sub: Vec<u64> = Vec::new();
        let mut j: usize = l;
        while j < stop
            invariant
                l <= j <= stop <= v@.len(),
                sub@ == v@.subrange(l as int, j as int),
            decreases stop - j,
        {
            sub.push(v[j]);
            proof {
                assert(sub@ =~= v@.subrange(l as int, j + 1));
            }
            j += 1;
        }
        proof {
            assert(sub@ =~= smooth_sub_u64(v@, h as int, i as int));
        }
        let m = calc_median_u64(&sub);
        r.push(m);
    }
    proof {
        assert(r@ =~= smoothed_u64(v@, h as int));
    }
    r
}

/// Median-filter a fixed-point ratio sequence with half-width `h`.
pub fn smooth_windows_i64(v: &Vec<i64>, h: usize) -> (r: Vec<i64>)
    requires
        v@.len() + h + 1 <= usize::MAX,
    ensures
        r@ == smoothed_i64(v@, h as int),
{
    let mut r: Vec<i64> = Vec::new();
    for i in 0..v.len()
        invariant
            v@.len() + h + 1 <= usize::MAX,
            r@.len() == i,
            forall|k: int| 0 <= k < i ==> r@[k] == median_i64(smooth_sub_i64(v@, h as int, k)),
    {
        let l: usize = if i > h { i - h } else { 0 };
        let stop: usize = if i + h + 1 < v.len() { i + h + 1 } else { v.len() };
        let mut sub: Vec<i64> = Vec::new();
        let mut j: usize = l;
        while j < stop
            invariant
                l <= j <= stop <= v@.len(),
                sub@ == v@.subrange(l as int, j as int),
            decreases stop - j,
        {
            sub.push(v[j]);
            proof {
                assert(sub@ =~= v@.subrange(l as int, j + 1));
            }
            j += 1;
        }
        proof {
            assert(sub@ =~= smooth_sub_i64(v@, h as int, i as int));
        }
        let m = calc_median_i64(&sub);
        r.push(m);
    }
    proof {
        assert(r@ =~= smoothed_i64(v@, h as int));
    }
    r
}

/// Smoothing is a no-op on a constant sequence: at any half-width, every
/// neighborhood holds only the constant, so every median is the constant.
pub proof fn lemma_smooth_constant_u64(s: Seq<u64>, c: u64, h: int)
    requires
        h >= 0,
        forall|i: int| 0 <= i < s.len() ==> s[i] == c,
    ensures
        smoothed_u64(s, h) =~= s,
{
    assert forall|i: int| 0 <= i < s.len() implies smoothed_u64(s, h)[i] == s[i] by {
        let sub = smooth_sub_u64(s, h, i);
        assert(sub.len() > 0);
        lemma_median_in_seq_u64(sub);
        let m = median_u64(sub);
        let k = choose|k: int| 0 <= k < sub.len() && sub[k] == m;
        assert(sub[k] == s[k + (if i - h > 0 { i - h } else { 0 })]);
    }
}

/// The same no-op law for the signed smoother.
pub proof fn lemma_smooth_constant_i64(s: Seq<i64>, c: i64, h: int)
    requires
        h >= 0,
        forall|i: int| 0 <= i < s.len() ==> s[i] == c,
    ensures
        smoothed_i64(s, h) =~= s,
{
    assert forall|i: int| 0 <= i < s.len() implies smoothed_i64(s, h)[i] == s[i] by {
        let sub = smooth_sub_i64(s, h, i);
        assert(sub.len() > 0);
        lemma_median_in_seq_i64(sub);
        let m = median_i64(sub);
        let k = choose|k: int| 0 <= k < sub.len() && sub[k] == m;
        assert(sub[k] == s[k + (if i - h > 0 { i - h } else { 0 })]);
    }
}

} // verus!
