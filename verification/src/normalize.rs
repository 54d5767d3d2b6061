//! The normalization pipeline: scan both samples' record streams, compute
//! each sample's genome-wide mean, and produce one serialized ratio artifact
//! per catalog chromosome.

use vstd::prelude::*;
use crate::catalog::{CHR_COUNT, MAX_CHR_LEN};
use crate::lemma_last_window_start;
use crate::output::{
    ChromosomeArtifact, artifact_bytes, artifact_name_bytes, gzip_compress, gzip_of,
    render_artifact, render_artifact_name,
};
use crate::ratio::{
    FLOAT_MULTIPLIER, MAX_COVERAGE_CAP, Mean, calculate_genome_wide_cov_mean, compute_ratio_rows,
    emit_pred, rows_spec, sum_chr_len, sum_total_len,
};
use crate::scanner::{
    AlignmentRecord, ChrAgg, ChromosomeCoverage, CoverageScanner, GenomeCoverage,
    MAX_FRAGMENT_CAP, MAX_POSITION, MAX_SMOOTH_HALF, MAX_WINDOW_SIZE, genome_wf,
    init_scan_state, scan_fold, slot_wf, store_cur,
};

verus! {

/// The scanner accepts record streams up to this length, so that the 64-bit
/// per-chromosome totals cannot overflow.
pub const MAX_RECORD_COUNT: usize = 0x4000_0000;

/// Record positions the scanner can window without 64-bit overflow.
pub open spec fn records_ok(records: Seq<AlignmentRecord>) -> bool {
    forall|i: int| 0 <= i < records.len() ==> {
        &&& (#[trigger] records[i]).pos < MAX_POSITION - MAX_FRAGMENT_CAP
        &&& records[i].mpos < MAX_POSITION - MAX_FRAGMENT_CAP
    }
}

/// The per-chromosome slots a whole scan of one record stream produces.
pub open spec fn scan_result_spec(
    records: Seq<AlignmentRecord>, w: int, maxf: int, h: int,
) -> Seq<Option<ChrAgg>> {
    store_cur(scan_fold(init_scan_state(), records, w, maxf, h), h)
}

/// A sample's genome-wide mean as the scan's sums dictate it.
pub open spec fn mean_of(cs: Seq<Option<ChrAgg>>) -> Mean {
    Mean { num: sum_total_len(cs) as u128, den: sum_chr_len(cs) as u64 }
}

/// The one fatal result: a catalog chromosome absent from a completed scan.
#[derive(Clone, Copy, PartialEq, Eq, Structural, Debug)]
pub enum NormalizeError {
    MissingChromosome(usize),
}

/// The configuration and entry points of the ratio pipeline.
pub struct Normalize {
    pub tumor_file_path: String,
    pub normal_file_path: String,
    pub output_folder: String,
    pub window_size: u64,
    pub read_len: u64,
    pub max_fragment_len: u64,
    pub float_multiplier: u64,
    pub max_coverage: u64,
    pub smooth_window_half_size: usize,
    pub debug: i32,
}

impl Normalize {
    pub open spec fn wf(self) -> bool {
        &&& 1 <= self.window_size <= MAX_WINDOW_SIZE
        &&& 1 <= self.max_coverage <= MAX_COVERAGE_CAP
        &&& self.smooth_window_half_size <= MAX_SMOOTH_HALF
        &&& self.max_fragment_len == 1000
        &&& self.float_multiplier == FLOAT_MULTIPLIER
    }

    /// Build the configuration. The fragment-length cap and the fixed-point
    /// scale factor are fixed constants.
    pub fn new(
        tumor_file_path: &str,
        normal_file_path: &str,
        output_folder: &str,
        window_size: u64,
        read_len: u64,
        max_coverage: u64,
        smooth_window_half_size: usize,
        debug: i32,
    ) -> (r: Normalize)
        requires
            1 <= window_size <= MAX_WINDOW_SIZE,
            1 <= max_coverage <= MAX_COVERAGE_CAP,
            smooth_window_half_size <= MAX_SMOOTH_HALF,
        ensures
            r.wf(),
            r.tumor_file_path@ == tumor_file_path@,
            r.normal_file_path@ == normal_file_path@,
            r.output_folder@ == output_folder@,
            r.window_size == window_size,
            r.read_len == read_len,
            r.max_fragment_len == 1000,
            r.float_multiplier == FLOAT_MULTIPLIER,
            r.max_coverage == max_coverage,
            r.smooth_window_half_size == smooth_window_half_size,
            r.debug == debug,
    {
        Normalize {
            tumor_file_path: tumor_file_path.to_owned(),
            normal_file_path: normal_file_path.to_owned(),
            output_folder: output_folder.to_owned(),
            window_size,
            read_len,
            max_fragment_len: 1000,
            float_multiplier: FLOAT_MULTIPLIER,
            max_coverage,
            smooth_window_half_size,
            debug,
        }
    }

    /// Scan one sample's record stream front to back and aggregate its
    /// per-window coverage, one chromosome at a time.
    pub fn read_in_coverage_of_genome(&self, records: &Vec<AlignmentRecord>) -> (g: GenomeCoverage)
        requires
            self.wf(),
            records_ok(records@),
            records@.len() <= MAX_RECORD_COUNT,
        ensures
            genome_wf(g@),
            g@.window_size == self.window_size,
            g@.chromosomes == scan_result_spec(
                records@, self.window_size as int, self.max_fragment_len as int,
                self.smooth_window_half_size as int),
    {
        let ghost w = self.window_size as int;
        let ghost maxf = self.max_fragment_len as int;
        let ghost h = self.smooth_window_half_size as int;
        let mut scanner = CoverageScanner::new(
            self.window_size, self.max_fragment_len, self.smooth_window_half_size);
        let n = records.len();
        let mut i: usize = 0;
        while i < n
            invariant
                i <= n,
                n == records@.len(),
                n <= MAX_RECORD_COUNT,
                records_ok(records@),
                scanner.wf(),
                scanner.window_size == self.window_size,
                scanner.max_fragment_len == self.max_fragment_len,
                scanner.smooth_half == self.smooth_window_half_size,
                self.max_fragment_len == 1000,
                w == self.window_size as int,
                maxf == self.max_fragment_len as int,
                h == self.smooth_window_half_size as int,
                scanner@ == scan_fold(init_scan_state(), records@.subrange(0, i as int), w, maxf, h),
                scanner@.cur matches Some(c) ==> {
                    &&& c.n_fragments <= i
                    &&& c.total_fragment_len <= i * maxf
                },
            decreases n - i,
        {
            proof {
                if scanner@.cur is Some {
                    let c = scanner@.cur->Some_0;
                    vstd::arithmetic::mul::lemma_mul_upper_bound(
                        i as int, MAX_RECORD_COUNT as int, maxf, MAX_FRAGMENT_CAP as int);
                    assert(c.total_fragment_len + scanner.max_fragment_len <= u64::MAX);
                }
                assert(scanner.headroom());
            }
            let ghost before = scanner@;
            scanner.push_record(&records[i]);
            i += 1;
            proof {
                assert(records@.subrange(0, i as int).drop_last()
                    =~= records@.subrange(0, i - 1));
                assert(records@.subrange(0, i as int).last() == records@[i - 1]);
                if scanner@.cur is Some {
                    let c = scanner@.cur->Some_0;
                    assert(c.n_fragments <= i && c.total_fragment_len <= i * maxf)
                        by (nonlinear_arith)
                        requires ({
                            &&& scanner@ == crate::scanner::scan_step(
                                before, records@[i - 1], w, maxf, h)
                            &&& scanner@.cur is Some
                            &&& c == scanner@.cur->Some_0
                            &&& (before.cur matches Some(b) ==> b.n_fragments <= i - 1
                                && b.total_fragment_len <= (i - 1) * maxf)
                            &&& maxf >= 1
                            &&& i >= 1
                        });
                }
            }
        }
        proof {
            assert(records@.subrange(0, n as int) =~= records@);
        }
        scanner.finish()
    }

    /// One chromosome's output artifact: the emitted ratio rows of the
    /// matched tumor/normal coverage, rendered and gzip-compressed, with its
    /// file name.
    pub fn output_coverage_ratio_of_one_chr(
        &self,
        one_chr_data_tumor: &ChromosomeCoverage,
        one_chr_data_normal: &ChromosomeCoverage,
        coverage_mean_tumor: &Mean,
        coverage_mean_normal: &Mean,
    ) -> (a: ChromosomeArtifact)
        requires
            self.wf(),
            one_chr_data_tumor@.chr_idx < CHR_COUNT,
            one_chr_data_tumor@.chr_len >= 1,
            one_chr_data_tumor@.chr_len <= MAX_CHR_LEN,
            one_chr_data_tumor@.counts.len() == crate::window_count_spec(
                one_chr_data_tumor@.chr_len as int, self.window_size as int),
            one_chr_data_tumor@.counts.len() <= MAX_CHR_LEN,
            one_chr_data_normal@.counts.len() == one_chr_data_tumor@.counts.len(),
            coverage_mean_tumor.num <= 0x4000_0000_0000_0000_0000,
            coverage_mean_normal.num <= 0x4000_0000_0000_0000_0000,
        ensures
            a.name@ == artifact_name_bytes(
                one_chr_data_tumor@.chr_idx, self.window_size as int),
            a.data@ == gzip_of(artifact_bytes(
                one_chr_data_tumor@, one_chr_data_normal@,
                *coverage_mean_tumor, *coverage_mean_normal,
                self.window_size as int, self.debug > 0,
                rows_spec(
                    one_chr_data_tumor@.counts, one_chr_data_normal@.counts,
                    *coverage_mean_tumor, *coverage_mean_normal,
                    self.window_size as int, self.max_coverage as int,
                    self.smooth_window_half_size as int))),
    {
        proof {
            lemma_last_window_start(
                one_chr_data_tumor@.chr_len as int, self.window_size as int);
            vstd::arithmetic::mul::lemma_mul_upper_bound(
                one_chr_data_tumor@.counts.len() - 1, MAX_CHR_LEN as int,
                self.window_size as int, MAX_WINDOW_SIZE as int);
        }
        let rows = compute_ratio_rows(
            one_chr_data_tumor, one_chr_data_normal,
            coverage_mean_tumor, coverage_mean_normal,
            self.window_size, self.max_coverage, self.smooth_window_half_size);
        proof {
            let ghost all = crate::ratio::all_rows_spec(
                one_chr_data_tumor@.counts, one_chr_data_normal@.counts,
                *coverage_mean_tumor, *coverage_mean_normal,
                self.window_size as int, self.max_coverage as int,
                self.smooth_window_half_size as int);
            assert forall|k: int| 0 <= k < rows@.len()
                implies (#[trigger] rows@[k]).ratio_scaled > 0 by {
                all.lemma_filter_pred(emit_pred(), k);
            }
        }
        let text = render_artifact(
            one_chr_data_tumor, one_chr_data_normal,
            coverage_mean_tumor, coverage_mean_normal,
            self.window_size, self.debug > 0, &rows);
        let data = gzip_compress(&text);
        let name = render_artifact_name(one_chr_data_tumor.chr_idx, self.window_size);
        ChromosomeArtifact { name, data }
    }

    /// Compute a sample's genome-wide mean coverage.
    pub fn calculate_genome_wide_cov_mean(&self, g: &GenomeCoverage) -> (m: Mean)
        requires
            genome_wf(g@),
        ensures
            m == mean_of(g@.chromosomes),
    {
        calculate_genome_wide_cov_mean(g)
    }

    /// The whole pipeline on two in-memory record streams: scan tumor and
    /// normal, compute both genome-wide means, and produce one artifact per
    /// catalog chromosome, in catalog order. A catalog chromosome missing
    /// from either completed scan is the fatal error; the reported index is
    /// the least missing one.
    #[verifier::rlimit(100)]
    pub fn run(
        &self,
        tumor_records: &Vec<AlignmentRecord>,
        normal_records: &Vec<AlignmentRecord>,
    ) -> (r: Result<Vec<ChromosomeArtifact>, NormalizeError>)
        requires
            self.wf(),
            records_ok(tumor_records@),
            records_ok(normal_records@),
            tumor_records@.len() <= MAX_RECORD_COUNT,
            normal_records@.len() <= MAX_RECORD_COUNT,
        ensures
            ({
                let w = self.window_size as int;
                let maxf = self.max_fragment_len as int;
                let h = self.smooth_window_half_size as int;
                let gt = scan_result_spec(tumor_records@, w, maxf, h);
                let gn = scan_result_spec(normal_records@, w, maxf, h);
                &&& (r is Ok <==> forall|i: int|
                    0 <= i < CHR_COUNT ==> (#[trigger] gt[i]) is Some && gn[i] is Some)
                &&& r matches Ok(artifacts) ==> {
                    &&& artifacts@.len() == CHR_COUNT
                    &&& forall|i: int| 0 <= i < CHR_COUNT ==> {
                        &&& (#[trigger] artifacts@[i]).name@ == artifact_name_bytes(i, w)
                        &&& artifacts@[i].data@ == gzip_of(artifact_bytes(
                            gt[i]->Some_0, gn[i]->Some_0, mean_of(gt), mean_of(gn),
                            w, self.debug > 0,
                            rows_spec(
                                gt[i]->Some_0.counts, gn[i]->Some_0.counts,
                                mean_of(gt), mean_of(gn),
                                w, self.max_coverage as int, h)))
                    }
                }
                &&& r matches Err(e) ==> {
                    let i = e->0;
                    &&& 0 <= i < CHR_COUNT
                    &&& (gt[i as int] is None || gn[i as int] is None)
                    &&& forall|j: int| 0 <= j < i ==> (#[trigger] gt[j]) is Some && gn[j] is Some
                }
            }),
    {
        let ghost w = self.window_size as int;
        let ghost maxf = self.max_fragment_len as int;
        let ghost h = self.smooth_window_half_size as int;
        let gt = self.read_in_coverage_of_genome(tumor_records);
        let coverage_mean_tumor = calculate_genome_wide_cov_mean(&gt);
        let gn = self.read_in_coverage_of_genome(normal_records);
        let coverage_mean_normal = calculate_genome_wide_cov_mean(&gn);
        let ghost gts = scan_result_spec(tumor_records@, w, maxf, h);
        let ghost gns = scan_result_spec(normal_records@, w, maxf, h);
        let mut artifacts: Vec<ChromosomeArtifact> = Vec::new();
        let mut i: usize = 0;
        while i < CHR_COUNT
            invariant
                i <= CHR_COUNT,
                self.wf(),
                genome_wf(gt@),
                genome_wf(gn@),
                gt@.window_size == self.window_size,
                gn@.window_size == self.window_size,
                w == self.window_size as int,
                maxf == self.max_fragment_len as int,
                h == self.smooth_window_half_size as int,
                gt@.chromosomes == gts,
                gn@.chromosomes == gns,
                gts == scan_result_spec(tumor_records@, w, maxf, h),
                gns == scan_result_spec(normal_records@, w, maxf, h),
                coverage_mean_tumor == mean_of(gts),
                coverage_mean_normal == mean_of(gns),
                coverage_mean_tumor.num <= 0x4000_0000_0000_0000_0000,
                coverage_mean_normal.num <= 0x4000_0000_0000_0000_0000,
                artifacts@.len() == i,
                forall|j: int| 0 <= j < i ==> (#[trigger] gts[j]) is Some && gns[j] is Some,
                forall|j: int| 0 <= j < i ==> {
                    &&& (#[trigger] artifacts@[j]).name@ == artifact_name_bytes(j, w)
                    &&& artifacts@[j].data@ == gzip_of(artifact_bytes(
                        gts[j]->Some_0, gns[j]->Some_0, mean_of(gts), mean_of(gns),
                        w, self.debug > 0,
                        rows_spec(
                            gts[j]->Some_0.counts, gns[j]->Some_0.counts,
                            mean_of(gts), mean_of(gns),
                            w, self.max_coverage as int, h)))
                },
            decreases CHR_COUNT - i,
        {
            match (&gt.chromosomes[i], &gn.chromosomes[i]) {
                (Some(t), Some(nrm)) => {
                    proof {
                        assert(gts[i as int] == Some(t@));
                        assert(gns[i as int] == Some(nrm@));
                        assert(slot_wf(i as int, t@, w));
                        assert(slot_wf(i as int, nrm@, w));
                    }
                    let a = self.output_coverage_ratio_of_one_chr(
                        t, nrm, &coverage_mean_tumor, &coverage_mean_normal);
                    artifacts.push(a);
                },
                _ => {
                    proof {
                        let gtp = scan_result_spec(tumor_records@, w, maxf, h);
                        let gnp = scan_result_spec(normal_records@, w, maxf, h);
                        assert(gtp[i as int] is None || gnp[i as int] is None);
                        assert forall|j: int| 0 <= j < i
                            implies (#[trigger] gtp[j]) is Some && gnp[j] is Some by {
                            assert(gts[j] is Some && gns[j] is Some);
                        }
                    }
                    return Err(NormalizeError::MissingChromosome(i));
                },
            }
            i += 1;
        }
        proof {
            let gtp = scan_result_spec(tumor_records@, w, maxf, h);
            let gnp = scan_result_spec(normal_records@, w, maxf, h);
            assert forall|k: int| 0 <= k < CHR_COUNT
                implies (#[trigger] gtp[k]) is Some && gnp[k] is Some by {
                assert(gts[k] is Some && gns[k] is Some);
            }
            assert forall|k: int| 0 <= k < CHR_COUNT implies {
                &&& (#[trigger] artifacts@[k]).name@ == artifact_name_bytes(k, w)
                &&& artifacts@[k].data@ == gzip_of(artifact_bytes(
                    gtp[k]->Some_0, gnp[k]->Some_0, mean_of(gtp), mean_of(gnp),
                    w, self.debug > 0,
                    rows_spec(
                        gtp[k]->Some_0.counts, gnp[k]->Some_0.counts,
                        mean_of(gtp), mean_of(gnp),
                        w, self.max_coverage as int, h)))
            } by {
                assert(artifacts@[k].name@ == artifact_name_bytes(k, w));
                assert(artifacts@[k].data@ == gzip_of(artifact_bytes(
                    gts[k]->Some_0, gns[k]->Some_0, mean_of(gts), mean_of(gns),
                    w, self.debug > 0,
                    rows_spec(
                        gts[k]->Some_0.counts, gns[k]->Some_0.counts,
                        mean_of(gts), mean_of(gns),
                        w, self.max_coverage as int, h))));
            }
        }
        Ok(artifacts)
    }
}

} // verus!
