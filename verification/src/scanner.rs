//! Coverage scanner: a single forward pass over one sample's alignment
//! records, accumulating per-window fragment counts one chromosome at a time.
//!
//! The scanner is a small state machine: no chromosome active, or one
//! chromosome accumulating; a chromosome is finalized (its counts median
//! smoothed) when the stream moves past it or ends.

use vstd::prelude::*;
use vstd::pervasive::VecAdditionalExecFns;
use crate::catalog::{CHR_COUNT, MAX_CHR_LEN, chr_lens_spec, chromosome_length};
use crate::smooth::{smoothed_u64, smooth_windows_u64};
use crate::{window_count, window_count_spec};

verus! {

/// Record positions must stay below this bound so window arithmetic fits in
/// 64 bits.
pub const MAX_POSITION: u64 = 0x4000_0000_0000_0000;

/// Upper bound the scanner accepts for the window size.
pub const MAX_WINDOW_SIZE: u64 = 0x1_0000_0000;

/// Upper bound the scanner accepts for the maximum fragment length.
pub const MAX_FRAGMENT_CAP: u64 = 0x1_0000;

/// Upper bound the scanner accepts for the smoothing half-width.
pub const MAX_SMOOTH_HALF: usize = 0x4000_0000;

/// One alignment record, reduced to the plain fields the scanner reads.
pub struct AlignmentRecord {
    /// Chromosome index as the alignment file reports it; negative when
    /// unmapped.
    pub tid: i32,
    /// 0-based leftmost position of this read.
    pub pos: u64,
    /// 0-based leftmost position of its mate.
    pub mpos: u64,
    /// Reported fragment (template) length.
    pub insert_size: i64,
    /// Mapping quality.
    pub mapq: u8,
    pub is_reverse: bool,
    pub is_proper_pair: bool,
    pub is_mate_unmapped: bool,
    pub is_first_in_template: bool,
    pub is_secondary: bool,
    pub is_duplicate: bool,
    pub is_supplementary: bool,
}

/// A record enters the aggregation only when all acceptance conditions hold.
pub open spec fn accepts(r: AlignmentRecord, max_fragment_len: int) -> bool {
    &&& r.mapq >= 30
    &&& 0 < r.insert_size <= max_fragment_len
    &&& r.is_proper_pair
    &&& !r.is_mate_unmapped
    &&& r.is_first_in_template
    &&& !r.is_secondary
    &&& !r.is_duplicate
    &&& !r.is_supplementary
}

pub fn record_accepted(r: &AlignmentRecord, max_fragment_len: u64) -> (b: bool)
    requires
        max_fragment_len <= MAX_FRAGMENT_CAP,
    ensures
        b == accepts(*r, max_fragment_len as int),
{
    r.mapq >= 30 && r.insert_size > 0 && r.insert_size <= max_fragment_len as i64
        && r.is_proper_pair && !r.is_mate_unmapped && r.is_first_in_template
        && !r.is_secondary && !r.is_duplicate && !r.is_supplementary
}

/// The leftmost genomic coordinate of the fragment: the mate's position when
/// this read is on the reverse strand, the read's own position otherwise.
pub open spec fn fragment_start(r: AlignmentRecord) -> u64 {
    if r.is_reverse {
        r.mpos
    } else {
        r.pos
    }
}

/// First window of the fragment, under the half-window rounding rule: move
/// off the naive start window when less than half of it would be used, never
/// moving into the last window, then clamp into range.
pub open spec fn start_window_spec(start: int, w: int, n: int) -> int
    recommends
        w >= 1,
        n >= 1,
{
    let sw = start / w;
    let sw2 = if (sw + 1) * w - start < w / 2 && sw < n - 1 {
        sw + 1
    } else {
        sw
    };
    if sw2 >= n {
        n - 1
    } else {
        sw2
    }
}

/// One past the last window of the fragment, under the symmetric rule: move
/// past the naive stop window when more than half of it is used, never moving
/// into the last window, then clamp into range.
pub open spec fn stop_window_spec(stop: int, w: int, n: int) -> int
    recommends
        w >= 1,
        n >= 1,
{
    let tw = stop / w;
    let tw2 = if stop - tw * w > w / 2 && tw < n - 1 {
        tw + 1
    } else {
        tw
    };
    if tw2 >= n {
        n - 1
    } else {
        tw2
    }
}

pub fn start_window_index(start: u64, window_size: u64, n_windows: usize) -> (i: usize)
    requires
        1 <= window_size <= MAX_WINDOW_SIZE,
        n_windows >= 1,
        start < MAX_POSITION,
    ensures
        i == start_window_spec(start as int, window_size as int, n_windows as int),
        i < n_windows,
{
    let w = window_size;
    let q = start / w;
    proof {
        vstd::arithmetic::div_mod::lemma_fundamental_div_mod(start as int, w as int);
        assert((q + 1) * w == w * (start as int / w as int) + w) by (nonlinear_arith)
            requires q == start as int / w as int && w >= 1;
    }
    let hanger = (q + 1) * w - start;
    let mut idx = q;
    if hanger < w / 2 && idx < (n_windows as u64) - 1 {
        idx = idx + 1;
    }
    if idx >= n_windows as u64 {
        n_windows - 1
    } else {
        idx as usize
    }
}

pub fn stop_window_index(stop: u64, window_size: u64, n_windows: usize) -> (i: usize)
    requires
        1 <= window_size <= MAX_WINDOW_SIZE,
        n_windows >= 1,
        stop < MAX_POSITION,
    ensures
        i == stop_window_spec(stop as int, window_size as int, n_windows as int),
        i < n_windows,
{
    let w = window_size;
    let q = stop / w;
    proof {
        vstd::arithmetic::div_mod::lemma_fundamental_div_mod(stop as int, w as int);
        assert(q * w == w * (stop as int / w as int)) by (nonlinear_arith)
            requires q == stop as int / w as int && w >= 1;
    }
    let used = stop - q * w;
    let mut idx = q;
    if used > w / 2 && idx < (n_windows as u64) - 1 {
        idx = idx + 1;
    }
    if idx >= n_windows as u64 {
        n_windows - 1
    } else {
        idx as usize
    }
}

/// Per-chromosome aggregation state, as contracts see it.
#[verifier::ext_equal]
pub ghost struct ChrAgg {
    pub chr_idx: int,
    pub chr_len: u64,
    pub counts: Seq<u64>,
    pub n_fragments: u64,
    pub total_fragment_len: u64,
}

/// The whole scanner state, as contracts see it.
#[verifier::ext_equal]
pub ghost struct ScanState {
    pub cur: Option<ChrAgg>,
    pub finalized: Seq<Option<ChrAgg>>,
    pub done: bool,
}

/// A finalized chromosome: identity, the median-smoothed per-window fragment
/// counts, and the unsmoothed totals that coverage-per-base is computed from.
pub struct ChromosomeCoverage {
    pub chr_idx: usize,
    pub chr_len: u64,
    pub counts: Vec<u64>,
    pub n_fragments: u64,
    pub total_fragment_len: u64,
}

impl View for ChromosomeCoverage {
    type V = ChrAgg;

    open spec fn view(&self) -> ChrAgg {
        ChrAgg {
            chr_idx: self.chr_idx as int,
            chr_len: self.chr_len,
            counts: self.counts@,
            n_fragments: self.n_fragments,
            total_fragment_len: self.total_fragment_len,
        }
    }
}

impl ChromosomeCoverage {
    /// Number of windows of this chromosome.
    pub fn no_of_windows(&self) -> (n: usize)
        ensures
            n == self@.counts.len(),
    {
        self.counts.len()
    }
}

pub open spec fn view_slots(v: Seq<Option<ChromosomeCoverage>>) -> Seq<Option<ChrAgg>> {
    v.map(|i: int, o: Option<ChromosomeCoverage>|
        match o {
            Some(c) => Some(c@),
            None => None::<ChrAgg>,
        })
}

/// All zero per-window counts for a fresh chromosome.
pub open spec fn zero_counts(n: int) -> Seq<u64> {
    Seq::new(n as nat, |i: int| 0u64)
}

/// Counts with every window index in `[ws, we)` incremented by one.
pub open spec fn bumped(counts: Seq<u64>, ws: int, we: int) -> Seq<u64> {
    Seq::new(counts.len(), |i: int| if ws <= i < we { (counts[i] + 1) as u64 } else { counts[i] })
}

/// Finalizing a chromosome median-smooths its per-window counts; the totals
/// stay unsmoothed.
pub open spec fn finalized_chr(c: ChrAgg, h: int) -> ChrAgg {
    ChrAgg { counts: smoothed_u64(c.counts, h), ..c }
}

/// The finalized slots after storing the active chromosome, if any.
pub open spec fn store_cur(s: ScanState, h: int) -> Seq<Option<ChrAgg>> {
    match s.cur {
        Some(c) => s.finalized.update(c.chr_idx, Some(finalized_chr(c, h))),
        None => s.finalized,
    }
}

/// Fresh aggregation state for the chromosome at catalog index `tid`.
pub open spec fn fresh_chr(tid: int, w: int) -> ChrAgg {
    let len = chr_lens_spec()[tid];
    ChrAgg {
        chr_idx: tid,
        chr_len: len,
        counts: zero_counts(window_count_spec(len as int, w)),
        n_fragments: 0,
        total_fragment_len: 0,
    }
}

/// One accepted fragment: every window index in the half-open rounded window
/// range is incremented, and the unsmoothed totals grow.
pub open spec fn apply_fragment(c: ChrAgg, r: AlignmentRecord, w: int) -> ChrAgg {
    let start = fragment_start(r) as int;
    let stop = start + r.insert_size;
    let n = c.counts.len() as int;
    let ws = start_window_spec(start, w, n);
    let we = stop_window_spec(stop, w, n);
    ChrAgg {
        counts: bumped(c.counts, ws, we),
        n_fragments: (c.n_fragments + 1) as u64,
        total_fragment_len: (c.total_fragment_len + r.insert_size) as u64,
        ..c
    }
}

/// The scanner's transition on one record: stop for good on a chromosome
/// index outside the catalog (finalizing the active chromosome), switch
/// chromosomes when the index changes, then aggregate the record if it is
/// accepted.
pub open spec fn scan_step(s: ScanState, r: AlignmentRecord, w: int, maxf: int, h: int) -> ScanState {
    if s.done {
        s
    } else if r.tid < 0 || r.tid >= CHR_COUNT {
        ScanState { cur: None, finalized: store_cur(s, h), done: true }
    } else {
        let s1 = if s.cur is Some && s.cur->Some_0.chr_idx == r.tid as int {
            s
        } else {
            ScanState {
                cur: Some(fresh_chr(r.tid as int, w)),
                finalized: store_cur(s, h),
                done: false,
            }
        };
        if accepts(r, maxf) {
            ScanState { cur: Some(apply_fragment(s1.cur->Some_0, r, w)), ..s1 }
        } else {
            s1
        }
    }
}

/// The scanner state after a whole record sequence.
pub open spec fn scan_fold(s: ScanState, rs: Seq<AlignmentRecord>, w: int, maxf: int, h: int) -> ScanState
    decreases rs.len(),
{
    if rs.len() == 0 {
        s
    } else {
        scan_step(scan_fold(s, rs.drop_last(), w, maxf, h), rs.last(), w, maxf, h)
    }
}

/// The scanner state before any record.
pub open spec fn init_scan_state() -> ScanState {
    ScanState { cur: None, finalized: Seq::new(CHR_COUNT as nat, |i: int| None::<ChrAgg>), done: false }
}

/// Streaming coverage scanner for one sample.
pub struct CoverageScanner {
    pub window_size: u64,
    pub max_fragment_len: u64,
    pub smooth_half: usize,
    pub cur_active: bool,
    pub cur_idx: usize,
    pub cur_len: u64,
    pub cur_counts: Vec<u64>,
    pub cur_n_fragments: u64,
    pub cur_total_len: u64,
    pub finalized: Vec<Option<ChromosomeCoverage>>,
    pub done: bool,
}

impl View for CoverageScanner {
    type V = ScanState;

    open spec fn view(&self) -> ScanState {
        ScanState {
            cur: if self.cur_active {
                Some(ChrAgg {
                    chr_idx: self.cur_idx as int,
                    chr_len: self.cur_len,
                    counts: self.cur_counts@,
                    n_fragments: self.cur_n_fragments,
                    total_fragment_len: self.cur_total_len,
                })
            } else {
                None
            },
            finalized: view_slots(self.finalized@),
            done: self.done,
        }
    }
}

/// What a stored slot of the scan result always satisfies.
pub open spec fn slot_wf(i: int, c: ChrAgg, w: int) -> bool {
    &&& c.chr_idx == i
    &&& c.chr_len == chr_lens_spec()[i]
    &&& 1 <= c.chr_len <= MAX_CHR_LEN
    &&& c.counts.len() == window_count_spec(c.chr_len as int, w)
    &&& 1 <= c.counts.len() <= MAX_CHR_LEN
}

impl CoverageScanner {
    pub open spec fn config_wf(self) -> bool {
        &&& 1 <= self.window_size <= MAX_WINDOW_SIZE
        &&& 1 <= self.max_fragment_len <= MAX_FRAGMENT_CAP
        &&& self.smooth_half <= MAX_SMOOTH_HALF
    }

    pub open spec fn wf(self) -> bool {
        &&& self.config_wf()
        &&& self.finalized@.len() == CHR_COUNT
        &&& forall|i: int| 0 <= i < CHR_COUNT && self@.finalized[i] is Some
            ==> slot_wf(i, (#[trigger] self@.finalized[i])->Some_0, self.window_size as int)
        &&& self.cur_active ==> {
            &&& self.cur_idx < CHR_COUNT
            &&& self.cur_len == chr_lens_spec()[self.cur_idx as int]
            &&& 1 <= self.cur_len <= MAX_CHR_LEN
            &&& self.cur_counts@.len() == window_count_spec(self.cur_len as int, self.window_size as int)
            &&& 1 <= self.cur_counts@.len() <= MAX_CHR_LEN
            &&& forall|i: int| 0 <= i < self.cur_counts@.len()
                ==> #[trigger] self.cur_counts@[i] <= self.cur_n_fragments
        }
    }

    /// Room in the 64-bit counters for one more record on the active
    /// chromosome.
    pub open spec fn headroom(self) -> bool {
        self.cur_active ==> {
            &&& self.cur_n_fragments < u64::MAX
            &&& self.cur_total_len <= u64::MAX - self.max_fragment_len
        }
    }

    pub fn has_headroom(&self) -> (b: bool)
        ensures
            b == self.headroom(),
    {
        !self.cur_active
            || (self.cur_n_fragments < u64::MAX
                && self.cur_total_len <= u64::MAX - self.max_fragment_len)
    }

    pub fn new(window_size: u64, max_fragment_len: u64, smooth_half: usize) -> (s: CoverageScanner)
        requires
            1 <= window_size <= MAX_WINDOW_SIZE,
            1 <= max_fragment_len <= MAX_FRAGMENT_CAP,
            smooth_half <= MAX_SMOOTH_HALF,
        ensures
            s.wf(),
            s.headroom(),
            s@ == init_scan_state(),
            s.window_size == window_size,
            s.max_fragment_len == max_fragment_len,
            s.smooth_half == smooth_half,
    {
        let mut finalized: Vec<Option<ChromosomeCoverage>> = Vec::new();
        let mut i: usize = 0;
        while i < CHR_COUNT
            invariant
                i <= CHR_COUNT,
                finalized@.len() == i,
                forall|k: int| 0 <= k < i ==> finalized@[k] is None,
            decreases CHR_COUNT - i,
        {
            finalized.push(None);
            i += 1;
        }
        let s = CoverageScanner {
            window_size,
            max_fragment_len,
            smooth_half,
            cur_active: false,
            cur_idx: 0,
            cur_len: 0,
            cur_counts: Vec::new(),
            cur_n_fragments: 0,
            cur_total_len: 0,
            finalized,
            done: false,
        };
        proof {
            assert(s@.finalized =~= init_scan_state().finalized);
            assert(s@ =~~= init_scan_state());
        }
        s
    }

    /// Store the active chromosome, median smoothing its counts.
    fn finalize_current(&mut self)
        requires
            old(self).wf(),
        ensures
            final(self).wf(),
            final(self)@.cur is None,
            final(self)@.finalized == store_cur(old(self)@, old(self).smooth_half as int),
            final(self)@.done == old(self)@.done,
            final(self).window_size == old(self).window_size,
            final(self).max_fragment_len == old(self).max_fragment_len,
            final(self).smooth_half == old(self).smooth_half,
            final(self).done == old(self).done,
    {
        if self.cur_active {
            let smoothed = smooth_windows_u64(&self.cur_counts, self.smooth_half);
            let cc = ChromosomeCoverage {
                chr_idx: self.cur_idx,
                chr_len: self.cur_len,
                counts: smoothed,
                n_fragments: self.cur_n_fragments,
                total_fragment_len: self.cur_total_len,
            };
            let idx = self.cur_idx;
            self.finalized.set(idx, Some(cc));
            self.cur_active = false;
            proof {
                let oldv = old(self)@;
                let c = oldv.cur->Some_0;
                assert(self@.finalized =~~= oldv.finalized.update(
                    c.chr_idx, Some(finalized_chr(c, old(self).smooth_half as int))));
            }
        }
    }

    /// Begin aggregating the chromosome at catalog index `tid`, with one zero
    /// count per window.
    fn start_chr(&mut self, tid: usize)
        requires
            old(self).wf(),
            !old(self).cur_active,
            tid < CHR_COUNT,
        ensures
            final(self).wf(),
            final(self).headroom(),
            final(self)@ == (ScanState {
                cur: Some(fresh_chr(tid as int, old(self).window_size as int)),
                ..old(self)@
            }),
            final(self).window_size == old(self).window_size,
            final(self).max_fragment_len == old(self).max_fragment_len,
            final(self).smooth_half == old(self).smooth_half,
            final(self).done == old(self).done,
    {
        let chr_len = chromosome_length(tid);
        let n64 = window_count(chr_len, self.window_size);
        let n = n64 as usize;
        let mut counts: Vec<u64> = Vec::new();
        let mut i: usize = 0;
        while i < n
            invariant
                i <= n,
                counts@.len() == i,
                forall|k: int| 0 <= k < i ==> counts@[k] == 0u64,
            decreases n - i,
        {
            counts.push(0);
            i += 1;
        }
        self.cur_active = true;
        self.cur_idx = tid;
        self.cur_len = chr_len;
        self.cur_counts = counts;
        self.cur_n_fragments = 0;
        self.cur_total_len = 0;
        proof {
            assert(self.cur_counts@ =~= zero_counts(
                window_count_spec(chr_len as int, self.window_size as int)));
            assert(self@ =~~= (ScanState {
                cur: Some(fresh_chr(tid as int, old(self).window_size as int)),
                ..old(self)@
            }));
        }
    }

    /// Feed one record, in stream order. The result says whether the scan is
    /// still running; once a record's chromosome index falls outside the
    /// catalog the scan is over and every further record is ignored.
    pub fn push_record(&mut self, r: &AlignmentRecord) -> (cont: bool)
        requires
            old(self).wf(),
            old(self).headroom(),
            r.pos < MAX_POSITION - MAX_FRAGMENT_CAP,
            r.mpos < MAX_POSITION - MAX_FRAGMENT_CAP,
        ensures
            final(self).wf(),
            final(self)@ == scan_step(
                old(self)@, *r, old(self).window_size as int,
                old(self).max_fragment_len as int, old(self).smooth_half as int),
            cont == !final(self)@.done,
            final(self).window_size == old(self).window_size,
            final(self).max_fragment_len == old(self).max_fragment_len,
            final(self).smooth_half == old(self).smooth_half,
    {
        let ghost w = old(self).window_size as int;
        let ghost maxf = old(self).max_fragment_len as int;
        let ghost h = old(self).smooth_half as int;
        if self.done {
            return false;
        }
        if r.tid < 0 || r.tid >= CHR_COUNT as i32 {
            self.finalize_current();
            self.done = true;
            proof {
                assert(self@ =~~= scan_step(old(self)@, *r, w, maxf, h));
            }
            return false;
        }
        let tid = r.tid as usize;
        if !(self.cur_active && self.cur_idx == tid) {
            self.finalize_current();
            self.start_chr(tid);
        }
        let ghost mid = self@;
        proof {
            assert(mid == if old(self)@.cur is Some && old(self)@.cur->Some_0.chr_idx == r.tid as int {
                old(self)@
            } else {
                ScanState {
                    cur: Some(fresh_chr(r.tid as int, w)),
                    finalized: store_cur(old(self)@, h),
                    done: false,
                }
            });
        }
        if record_accepted(r, self.max_fragment_len) {
            let start = if r.is_reverse { r.mpos } else { r.pos };
            let flen = r.insert_size as u64;
            let stop = start + flen;
            let n = self.cur_counts.len();
            let ws = start_window_index(start, self.window_size, n);
            let we = stop_window_index(stop, self.window_size, n);
            let ghost counts0 = self.cur_counts@;
            let ghost pre = *self;
            if ws < we {
                let mut j = ws;
                while j < we
                    invariant
                        ws <= j <= we,
                        we < self.cur_counts@.len(),
                        self.cur_counts@.len() == counts0.len(),
                        self.window_size == pre.window_size,
                        self.max_fragment_len == pre.max_fragment_len,
                        self.smooth_half == pre.smooth_half,
                        self.cur_active == pre.cur_active,
                        self.cur_idx == pre.cur_idx,
                        self.cur_len == pre.cur_len,
                        self.cur_n_fragments == pre.cur_n_fragments,
                        self.cur_total_len == pre.cur_total_len,
                        self.finalized@ == pre.finalized@,
                        self.done == pre.done,
                        self.cur_n_fragments < u64::MAX,
                        forall|k: int| 0 <= k < counts0.len() ==> counts0[k] <= self.cur_n_fragments,
                        self.cur_counts@ =~= Seq::new(counts0.len(), |t: int|
                            if ws <= t < j { (counts0[t] + 1) as u64 } else { counts0[t] }),
                    decreases we - j,
                {
                    let v = self.cur_counts[j];
                    self.cur_counts.set(j, v + 1);
                    j += 1;
                    proof {
                        assert(self.cur_counts@ =~= Seq::new(counts0.len(), |t: int|
                            if ws <= t < j { (counts0[t] + 1) as u64 } else { counts0[t] }));
                    }
                }
            }
            proof {
                assert(self.cur_counts@ =~= bumped(counts0, ws as int, we as int));
            }
            self.cur_n_fragments = self.cur_n_fragments + 1;
            self.cur_total_len = self.cur_total_len + flen;
            proof {
                assert(self@ =~~= (ScanState {
                    cur: Some(apply_fragment(mid.cur->Some_0, *r, w)),
                    ..mid
                }));
                assert(self@ =~~= scan_step(old(self)@, *r, w, maxf, h));
            }
        } else {
            proof {
                assert(self@ =~~= scan_step(old(self)@, *r, w, maxf, h));
            }
        }
        true
    }

    /// End of the record stream: finalize the chromosome in progress and hand
    /// the per-chromosome results out.
    pub fn finish(self) -> (g: GenomeCoverage)
        requires
            self.wf(),
        ensures
            genome_wf(g@),
            g@.window_size == self.window_size,
            g@.chromosomes == store_cur(self@, self.smooth_half as int),
    {
        let mut s = self;
        s.finalize_current();
        let g = GenomeCoverage { window_size: s.window_size, chromosomes: s.finalized };
        proof {
            assert forall|i: int| 0 <= i < CHR_COUNT && g@.chromosomes[i] is Some
                implies slot_wf(i, (#[trigger] g@.chromosomes[i])->Some_0, g@.window_size as int) by {
                assert(s@.finalized[i] == g@.chromosomes[i]);
            }
        }
        g
    }
}

/// A whole sample's finalized coverage, as contracts see it.
#[verifier::ext_equal]
pub ghost struct GenomeView {
    pub window_size: u64,
    pub chromosomes: Seq<Option<ChrAgg>>,
}

/// A whole sample's finalized coverage: one optional slot per catalog
/// chromosome, plus the window size the scan used.
pub struct GenomeCoverage {
    pub window_size: u64,
    pub chromosomes: Vec<Option<ChromosomeCoverage>>,
}

impl View for GenomeCoverage {
    type V = GenomeView;

    open spec fn view(&self) -> GenomeView {
        GenomeView {
            window_size: self.window_size,
            chromosomes: view_slots(self.chromosomes@),
        }
    }
}

pub open spec fn genome_wf(g: GenomeView) -> bool {
    &&& 1 <= g.window_size <= MAX_WINDOW_SIZE
    &&& g.chromosomes.len() == CHR_COUNT
    &&& forall|i: int| 0 <= i < CHR_COUNT && g.chromosomes[i] is Some
        ==> slot_wf(i, (#[trigger] g.chromosomes[i])->Some_0, g.window_size as int)
}

} // verus!
