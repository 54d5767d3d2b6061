use std::io::Read;

use cnv_ratio::normalize::{Normalize, NormalizeError};
use cnv_ratio::output::{gzip_compress, render_artifact_name};
use cnv_ratio::ratio::{
    Mean, RatioRow, adjusted_scaled, calculate_genome_wide_cov_mean, compute_ratio_rows,
    ratio_scaled,
};
use cnv_ratio::scanner::{
    AlignmentRecord, ChromosomeCoverage, CoverageScanner, GenomeCoverage, record_accepted,
    start_window_index, stop_window_index,
};
use cnv_ratio::smooth::{calc_median_i64, calc_median_u64, smooth_windows_i64, smooth_windows_u64};
use cnv_ratio::window_count;

fn accepted_record(tid: i32, pos: u64, insert: i64, reverse: bool, mpos: u64) -> AlignmentRecord {
    AlignmentRecord {
        tid,
        pos,
        mpos,
        insert_size: insert,
        mapq: 60,
        is_reverse: reverse,
        is_proper_pair: true,
        is_mate_unmapped: false,
        is_first_in_template: true,
        is_secondary: false,
        is_duplicate: false,
        is_supplementary: false,
    }
}

fn gunzip(data: &[u8]) -> String {
    let mut d = flate2::read::GzDecoder::new(data);
    let mut s = String::new();
    d.read_to_string(&mut s).expect("valid gzip stream");
    s
}

#[test]
fn window_count_is_ceiling() {
    assert_eq!(window_count(249250621, 1000), 249251);
    assert_eq!(window_count(1000, 1000), 1);
    assert_eq!(window_count(1001, 1000), 2);
    assert_eq!(window_count(999, 1000), 1);
    assert_eq!(window_count(0, 1000), 0);
    assert_eq!(window_count(1, 1), 1);
}

#[test]
fn window_rounding_policy() {
    // A fragment inside one window rounds to an empty half-open range.
    let n = 249251;
    assert_eq!(start_window_index(0, 1000, n), 0);
    assert_eq!(stop_window_index(500, 1000, n), 0);
    // [600, 1600) rounds to the single window 1.
    assert_eq!(start_window_index(600, 1000, n), 1);
    assert_eq!(stop_window_index(1600, 1000, n), 2);
    // Rounding never advances into the last window.
    assert_eq!(start_window_index(1600, 1000, 2), 1);
    // Out-of-range coordinates clamp to the last window.
    assert_eq!(stop_window_index(10_000, 1000, 3), 2);
}

#[test]
fn scanner_counts_fragment_windows() {
    let mut s = CoverageScanner::new(1000, 1000, 0);
    // Forward-strand fragment [600, 1600): increments window 1 of chr1.
    assert!(s.push_record(&accepted_record(0, 600, 1000, false, 600)));
    // Reverse-strand read: the fragment start is the mate's position.
    assert!(s.push_record(&accepted_record(0, 5000, 1000, true, 2600)));
    // Fragment spanning less than one window: no increment, still counted.
    assert!(s.push_record(&accepted_record(0, 0, 500, false, 0)));
    // Rejected records change nothing.
    let mut low_quality = accepted_record(0, 600, 1000, false, 600);
    low_quality.mapq = 10;
    assert!(!record_accepted(&low_quality, 1000));
    assert!(s.push_record(&low_quality));
    let mut negative_insert = accepted_record(0, 600, -200, false, 600);
    assert!(!record_accepted(&negative_insert, 1000));
    negative_insert.insert_size = 0;
    assert!(!record_accepted(&negative_insert, 1000));
    negative_insert.insert_size = 1001;
    assert!(!record_accepted(&negative_insert, 1000));
    assert!(s.push_record(&negative_insert));
    // A chromosome index outside the catalog ends the scan.
    assert!(!s.push_record(&accepted_record(22, 0, 500, false, 0)));
    let g = s.finish();
    let chr1 = g.chromosomes[0].as_ref().expect("chr1 was scanned");
    assert_eq!(chr1.chr_idx, 0);
    assert_eq!(chr1.chr_len, 249250621);
    assert_eq!(chr1.counts.len(), 249251);
    assert_eq!(chr1.n_fragments, 3);
    assert_eq!(chr1.total_fragment_len, 2500);
    // The forward fragment [600,1600) rounds to window 1; the reverse
    // fragment [2600,3600) rounds to window 3; window 2 is used for less
    // than half its span and stays untouched.
    assert_eq!(chr1.counts[0], 0);
    assert_eq!(chr1.counts[1], 1);
    assert_eq!(chr1.counts[2], 0);
    assert_eq!(chr1.counts[3], 1);
    assert!(g.chromosomes[1].is_none());
}

#[test]
fn median_lower_middle_policy() {
    assert_eq!(calc_median_u64(&vec![5]), 5);
    assert_eq!(calc_median_u64(&vec![2, 1]), 1);
    assert_eq!(calc_median_u64(&vec![3, 1, 2]), 2);
    assert_eq!(calc_median_u64(&vec![4, 1, 3, 2]), 2);
    assert_eq!(calc_median_i64(&vec![-1000, 5, -1000]), -1000);
    assert_eq!(calc_median_i64(&vec![7, -3]), -3);
}

#[test]
fn smoothing_constant_sequence_is_identity() {
    for h in [0usize, 1, 2, 7, 100] {
        assert_eq!(smooth_windows_u64(&vec![5, 5, 5, 5, 5], h), vec![5, 5, 5, 5, 5]);
    }
    assert_eq!(smooth_windows_i64(&vec![-1000; 4], 2), vec![-1000; 4]);
}

#[test]
fn smoothing_shrinks_at_boundaries() {
    // Index 0 with half-width 2 uses the sub-range [0, 3) only: the median of
    // [10, 2, 2] is 2, not a wrapped range.
    let smoothed = smooth_windows_u64(&vec![10, 2, 2, 2, 2], 2);
    assert_eq!(smoothed[0], 2);
    assert_eq!(smoothed, vec![2, 2, 2, 2, 2]);
}

#[test]
fn ratio_sentinel_cases() {
    let unit = Mean { num: 1000, den: 1000 };
    // Zero coverage on either side is unknown.
    assert_eq!(ratio_scaled(0, 5, &unit, &unit, 1000), -1000);
    assert_eq!(ratio_scaled(5, 0, &unit, &unit, 1000), -1000);
    // Coverage at or above the cap is unknown.
    assert_eq!(ratio_scaled(1000, 5, &unit, &unit, 1000), -1000);
    assert_eq!(ratio_scaled(5, 1000, &unit, &unit, 1000), -1000);
    // A zero mean is unknown.
    assert_eq!(ratio_scaled(5, 4, &Mean { num: 0, den: 1000 }, &unit, 1000), -1000);
    // Both sides in range: an exact fixed-point quotient.
    assert_eq!(ratio_scaled(5, 4, &unit, &unit, 1000), 1250);
}

#[test]
fn ratio_round_trip_scale_factor() {
    let unit = Mean { num: 1000, den: 1000 };
    let scaled = ratio_scaled(5, 4, &unit, &unit, 1000);
    assert_eq!(scaled, 1250);
    let back = scaled as f64 / 1000.0;
    assert!((back - 1.25).abs() < 1e-12);
}

#[test]
fn adjusted_coverage_fixed_point() {
    // 10 / (2000/1000) = 5.0, scaled to 5000.
    assert_eq!(adjusted_scaled(10, &Mean { num: 2000, den: 1000 }), 5000);
    // A zero mean yields zero, not a fault.
    assert_eq!(adjusted_scaled(10, &Mean { num: 0, den: 1000 }), 0);
}

#[test]
fn genome_wide_mean_is_length_weighted() {
    // Two chromosomes of length 100 and 200 with coverage-per-base 2.0 and
    // 5.0: mean = (2*100 + 5*200) / 300 = 4.0.
    let mut slots: Vec<Option<ChromosomeCoverage>> = Vec::new();
    slots.push(Some(ChromosomeCoverage {
        chr_idx: 0,
        chr_len: 100,
        counts: vec![0],
        n_fragments: 2,
        total_fragment_len: 200,
    }));
    slots.push(Some(ChromosomeCoverage {
        chr_idx: 1,
        chr_len: 200,
        counts: vec![0],
        n_fragments: 2,
        total_fragment_len: 1000,
    }));
    for _ in 2..22 {
        slots.push(None);
    }
    let g = GenomeCoverage { window_size: 1000, chromosomes: slots };
    let m = calculate_genome_wide_cov_mean(&g);
    assert_eq!(m.num, 1200);
    assert_eq!(m.den, 300);
    assert!((m.num as f64 / m.den as f64 - 4.0).abs() < 1e-12);
}

#[test]
fn rows_skip_sentinel_dominated_windows() {
    let unit = Mean { num: 1000, den: 1000 };
    let tumor = ChromosomeCoverage {
        chr_idx: 0,
        chr_len: 2000,
        counts: vec![5, 0],
        n_fragments: 5,
        total_fragment_len: 2500,
    };
    let normal = ChromosomeCoverage {
        chr_idx: 0,
        chr_len: 2000,
        counts: vec![4, 4],
        n_fragments: 8,
        total_fragment_len: 4000,
    };
    let rows = compute_ratio_rows(&tumor, &normal, &unit, &unit, 1000, 1000, 0);
    assert_eq!(rows.len(), 1);
    let row: &RatioRow = &rows[0];
    assert_eq!(row.start, 1);
    assert_eq!(row.ratio_scaled, 1250);
    assert_eq!(row.coverage_tumor, 5);
    assert_eq!(row.coverage_normal, 4);
    assert_eq!(row.coverage_tumor_adj_scaled, 5000);
    assert_eq!(row.coverage_normal_adj_scaled, 4000);

    // All-sentinel input emits nothing.
    let tumor0 = ChromosomeCoverage {
        chr_idx: 0,
        chr_len: 3000,
        counts: vec![0, 0, 0],
        n_fragments: 0,
        total_fragment_len: 0,
    };
    let normal0 = ChromosomeCoverage {
        chr_idx: 0,
        chr_len: 3000,
        counts: vec![5, 5, 5],
        n_fragments: 15,
        total_fragment_len: 7500,
    };
    let rows0 = compute_ratio_rows(&tumor0, &normal0, &unit, &unit, 1000, 1000, 1);
    assert_eq!(rows0.len(), 0);
}

#[test]
fn artifact_name_layout() {
    let name = render_artifact_name(6, 1000);
    assert_eq!(String::from_utf8(name).unwrap(), "chr7.ratio.w1000.csv.gz");
    let name = render_artifact_name(0, 500);
    assert_eq!(String::from_utf8(name).unwrap(), "chr1.ratio.w500.csv.gz");
}

#[test]
fn gzip_wrapper_compresses() {
    let data: Vec<u8> = b"start,coverage_ratio\n1,1.250\n".to_vec();
    let packed = gzip_compress(&data);
    assert_ne!(packed, data);
    assert_eq!(gunzip(&packed).as_bytes(), data.as_slice());
}

#[test]
fn run_reports_first_missing_chromosome() {
    let n = Normalize::new("t.bam", "n.bam", "out", 1000, 100, 1000, 2, 0);
    let records = vec![accepted_record(0, 600, 1000, false, 600)];
    let result = n.run(&records, &records);
    assert_eq!(result.err(), Some(NormalizeError::MissingChromosome(1)));
}

#[test]
fn run_produces_one_artifact_per_chromosome() {
    // One-window chromosomes: window size at the scanner's cap.
    let w: u64 = 0x1_0000_0000;
    let n = Normalize::new("t.bam", "n.bam", "out", w, 100, 1000, 2, 0);
    let mut tumor: Vec<AlignmentRecord> = Vec::new();
    let mut normal: Vec<AlignmentRecord> = Vec::new();
    for tid in 0..22 {
        tumor.push(accepted_record(tid, 600, 1000, false, 600));
        normal.push(accepted_record(tid, 600, 800, false, 600));
    }
    let artifacts = n.run(&tumor, &normal).expect("all chromosomes present");
    assert_eq!(artifacts.len(), 22);
    assert_eq!(
        String::from_utf8(artifacts[0].name.clone()).unwrap(),
        format!("chr1.ratio.w{}.csv.gz", w)
    );
    let text = gunzip(&artifacts[0].data);
    assert!(text.starts_with("#chr: chr1\n#chromosome_len: 249250621\n"));
    assert!(text.contains("#no_of_fragments_tumor: 1\n"));
    assert!(text.contains("#no_of_fragments_normal: 1\n"));
    assert!(text.contains("start,coverage_ratio,coverage_tumor_adj,coverage_normal_adj\n"));
    let last = gunzip(&artifacts[21].data);
    assert!(last.starts_with("#chr: chr22\n"));
}

#[test]
fn verbose_mode_adds_raw_coverage_columns() {
    let w: u64 = 0x1_0000_0000;
    let n = Normalize::new("t.bam", "n.bam", "out", w, 100, 1000, 2, 1);
    let mut tumor: Vec<AlignmentRecord> = Vec::new();
    let mut normal: Vec<AlignmentRecord> = Vec::new();
    for tid in 0..22 {
        tumor.push(accepted_record(tid, 600, 1000, false, 600));
        normal.push(accepted_record(tid, 600, 800, false, 600));
    }
    let artifacts = n.run(&tumor, &normal).expect("all chromosomes present");
    let text = gunzip(&artifacts[0].data);
    assert!(text.contains(
        "start,coverage_ratio,coverage_tumor,coverage_tumor_adj,coverage_normal,coverage_normal_adj\n"
    ));
}

#[test]
fn artifact_rows_render_fixed_point() {
    // 250 windows, constant coverage: every window emits one row.
    let n = Normalize::new("t.bam", "n.bam", "out", 1_000_000, 100, 1000, 2, 0);
    let windows = 250usize;
    let tumor = ChromosomeCoverage {
        chr_idx: 0,
        chr_len: 249250621,
        counts: vec![10; windows],
        n_fragments: 2500,
        total_fragment_len: 1_250_000,
    };
    let normal = ChromosomeCoverage {
        chr_idx: 0,
        chr_len: 249250621,
        counts: vec![8; windows],
        n_fragments: 2000,
        total_fragment_len: 1_000_000,
    };
    let unit = Mean { num: 1000, den: 1000 };
    let artifact = n.output_coverage_ratio_of_one_chr(&tumor, &normal, &unit, &unit);
    assert_eq!(
        String::from_utf8(artifact.name).unwrap(),
        "chr1.ratio.w1000000.csv.gz"
    );
    let text = gunzip(&artifact.data);
    let mut lines = text.lines();
    assert_eq!(lines.next(), Some("#chr: chr1"));
    assert_eq!(lines.next(), Some("#chromosome_len: 249250621"));
    assert_eq!(lines.next(), Some("#window_size: 1000000"));
    assert_eq!(lines.next(), Some("#no_of_windows: 250"));
    assert_eq!(lines.next(), Some("#no_of_fragments_tumor: 2500"));
    assert_eq!(lines.next(), Some("#coverage_per_base_tumor: 0.005"));
    assert_eq!(lines.next(), Some("#no_of_fragments_normal: 2000"));
    assert_eq!(lines.next(), Some("#coverage_per_base_normal: 0.004"));
    assert_eq!(lines.next(), Some("#genome-wide-coverage-mean-tumor: 1.000"));
    assert_eq!(lines.next(), Some("#genome-wide-coverage-mean-normal: 1.000"));
    assert_eq!(lines.next(), Some("start,coverage_ratio,coverage_tumor_adj,coverage_normal_adj"));
    let data_lines: Vec<&str> = text
        .lines()
        .filter(|l| !l.starts_with('#') && !l.starts_with("start,"))
        .collect();
    assert_eq!(data_lines.len(), windows);
    assert_eq!(data_lines[0], "1,1.250,10.000,8.000");
    assert_eq!(data_lines[1], "1000001,1.250,10.000,8.000");
}
