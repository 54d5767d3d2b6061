//! Serialization of one chromosome's ratio track: the uncompressed tabular
//! artifact as bytes (a `#key: value` header block, a column header, and one
//! row per emitted window), and its gzip compression.
//!
//! Fractional values are serialized in fixed point with three decimal digits,
//! matching the scale factor.

use vstd::prelude::*;
use crate::ratio::{FLOAT_MULTIPLIER, Mean, RatioRow};
use crate::scanner::{ChrAgg, ChromosomeCoverage};

verus! {

/// Decimal digits of a non-negative integer, most significant first.
pub open spec fn dec_bytes(n: int) -> Seq<u8>
    recommends
        n >= 0,
    decreases n,
{
    if n < 10 {
        seq![(48 + n) as u8]
    } else {
        dec_bytes(n / 10).push((48 + n % 10) as u8)
    }
}

/// Append the decimal digits of `n`.
pub fn push_dec_u64(out: &mut Vec<u8>, n: u64)
    ensures
        final(out)@ == old(out)@ + dec_bytes(n as int),
    decreases n,
{
    if n < 10 {
        out.push(48 + n as u8);
        proof {
            assert(out@ =~= old(out)@ + dec_bytes(n as int));
        }
    } else {
        push_dec_u64(out, n / 10);
        out.push(48 + (n % 10) as u8);
        proof {
            assert(out@ =~= old(out)@ + dec_bytes(n as int / 10) + seq![(48 + n as int % 10) as u8]);
            assert(out@ =~= old(out)@ + dec_bytes(n as int));
        }
    }
}

/// A non-negative fixed-point value scaled by 1000, as integer digits, a
/// point, and exactly three fractional digits.
pub open spec fn fixed_bytes(v: int) -> Seq<u8>
    recommends
        v >= 0,
{
    dec_bytes(v / 1000) + seq![
        46u8,
        (48 + (v % 1000) / 100) as u8,
        (48 + (v % 100) / 10) as u8,
        (48 + v % 10) as u8,
    ]
}

/// Append a fixed-point value scaled by 1000.
pub fn push_fixed_u64(out: &mut Vec<u8>, v: u64)
    ensures
        final(out)@ == old(out)@ + fixed_bytes(v as int),
{
    push_dec_u64(out, v / 1000);
    out.push(46);
    out.push(48 + ((v % 1000) / 100) as u8);
    out.push(48 + ((v % 100) / 10) as u8);
    out.push(48 + (v % 10) as u8);
    proof {
        assert(out@ =~= old(out)@ + fixed_bytes(v as int));
    }
}

pub open spec fn chr_prefix_bytes() -> Seq<u8> {
    seq![99u8, 104u8, 114u8]
}

fn push_chr_prefix(out: &mut Vec<u8>)
    ensures
        final(out)@ == old(out)@ + chr_prefix_bytes(),
{
    out.push(99u8);
    out.push(104u8);
    out.push(114u8);
    proof {
        assert(out@ =~= old(out)@ + seq![99u8, 104u8, 114u8]);
    }
    proof {
        assert(out@ =~= old(out)@ + chr_prefix_bytes());
    }
}

pub open spec fn key_chr_bytes() -> Seq<u8> {
    seq![35u8, 99u8, 104u8, 114u8, 58u8, 32u8]
}

fn push_key_chr(out: &mut Vec<u8>)
    ensures
        final(out)@ == old(out)@ + key_chr_bytes(),
{
    out.push(35u8);
    out.push(99u8);
    out.push(104u8);
    out.push(114u8);
    out.push(58u8);
    out.push(32u8);
    proof {
        assert(out@ =~= old(out)@ + seq![35u8, 99u8, 104u8, 114u8, 58u8, 32u8]);
    }
    proof {
        assert(out@ =~= old(out)@ + key_chr_bytes());
    }
}

pub open spec fn key_chromosome_len_bytes() -> Seq<u8> {
    seq![35u8, 99u8, 104u8, 114u8, 111u8, 109u8, 111u8, 115u8, 111u8, 109u8, 101u8, 95u8, 108u8, 101u8, 110u8, 58u8]
        + seq![32u8]
}

fn push_key_chromosome_len(out: &mut Vec<u8>)
    ensures
        final(out)@ == old(out)@ + key_chromosome_len_bytes(),
{
    out.push(35u8);
    out.push(99u8);
    out.push(104u8);
    out.push(114u8);
    out.push(111u8);
    out.push(109u8);
    out.push(111u8);
    out.push(115u8);
    out.push(111u8);
    out.push(109u8);
    out.push(101u8);
    out.push(95u8);
    out.push(108u8);
    out.push(101u8);
    out.push(110u8);
    out.push(58u8);
    proof {
        assert(out@ =~= old(out)@ + seq![35u8, 99u8, 104u8, 114u8, 111u8, 109u8, 111u8, 115u8, 111u8, 109u8, 101u8, 95u8, 108u8, 101u8, 110u8, 58u8]);
    }
    out.push(32u8);
    proof {
        assert(out@ =~= old(out)@ + seq![35u8, 99u8, 104u8, 114u8, 111u8, 109u8, 111u8, 115u8, 111u8, 109u8, 101u8, 95u8, 108u8, 101u8, 110u8, 58u8] + seq![32u8]);
    }
    proof {
        assert(out@ =~= old(out)@ + key_chromosome_len_bytes());
    }
}

pub open spec fn key_window_size_bytes() -> Seq<u8> {
    seq![35u8, 119u8, 105u8, 110u8, 100u8, 111u8, 119u8, 95u8, 115u8, 105u8, 122u8, 101u8, 58u8, 32u8]
}

fn push_key_window_size(out: &mut Vec<u8>)
    ensures
        final(out)@ == old(out)@ + key_window_size_bytes(),
{
    out.push(35u8);
    out.push(119u8);
    out.push(105u8);
    out.push(110u8);
    out.push(100u8);
    out.push(111u8);
    out.push(119u8);
    out.push(95u8);
    out.push(115u8);
    out.push(105u8);
    out.push(122u8);
    out.push(101u8);
    out.push(58u8);
    out.push(32u8);
    proof {
        assert(out@ =~= old(out)@ + seq![35u8, 119u8, 105u8, 110u8, 100u8, 111u8, 119u8, 95u8, 115u8, 105u8, 122u8, 101u8, 58u8, 32u8]);
    }
    proof {
        assert(out@ =~= old(out)@ + key_window_size_bytes());
    }
}

pub open spec fn key_no_of_windows_bytes() -> Seq<u8> {
    seq![35u8, 110u8, 111u8, 95u8, 111u8, 102u8, 95u8, 119u8, 105u8, 110u8, 100u8, 111u8, 119u8, 115u8, 58u8, 32u8]
}

fn push_key_no_of_windows(out: &mut Vec<u8>)
    ensures
        final(out)@ == old(out)@ + key_no_of_windows_bytes(),
{
    out.push(35u8);
    out.push(110u8);
    out.push(111u8);
    out.push(95u8);
    out.push(111u8);
    out.push(102u8);
    out.push(95u8);
    out.push(119u8);
    out.push(105u8);
    out.push(110u8);
    out.push(100u8);
    out.push(111u8);
    out.push(119u8);
    out.push(115u8);
    out.push(58u8);
    out.push(32u8);
    proof {
        assert(out@ =~= old(out)@ + seq![35u8, 110u8, 111u8, 95u8, 111u8, 102u8, 95u8, 119u8, 105u8, 110u8, 100u8, 111u8, 119u8, 115u8, 58u8, 32u8]);
    }
    proof {
        assert(out@ =~= old(out)@ + key_no_of_windows_bytes());
    }
}

pub open spec fn key_no_of_fragments_tumor_bytes() -> Seq<u8> {
    seq![35u8, 110u8, 111u8, 95u8, 111u8, 102u8, 95u8, 102u8, 114u8, 97u8, 103u8, 109u8, 101u8, 110u8, 116u8, 115u8]
        + seq![95u8, 116u8, 117u8, 109u8, 111u8, 114u8, 58u8, 32u8]
}

fn push_key_no_of_fragments_tumor(out: &mut Vec<u8>)
    ensures
        final(out)@ == old(out)@ + key_no_of_fragments_tumor_bytes(),
{
    out.push(35u8);
    out.push(110u8);
    out.push(111u8);
    out.push(95u8);
    out.push(111u8);
    out.push(102u8);
    out.push(95u8);
    out.push(102u8);
    out.push(114u8);
    out.push(97u8);
    out.push(103u8);
    out.push(109u8);
    out.push(101u8);
    out.push(110u8);
    out.push(116u8);
    out.push(115u8);
    proof {
        assert(out@ =~= old(out)@ + seq![35u8, 110u8, 111u8, 95u8, 111u8, 102u8, 95u8, 102u8, 114u8, 97u8, 103u8, 109u8, 101u8, 110u8, 116u8, 115u8]);
    }
    out.push(95u8);
    out.push(116u8);
    out.push(117u8);
    out.push(109u8);
    out.push(111u8);
    out.push(114u8);
    out.push(58u8);
    out.push(32u8);
    proof {
        assert(out@ =~= old(out)@ + seq![35u8, 110u8, 111u8, 95u8, 111u8, 102u8, 95u8, 102u8, 114u8, 97u8, 103u8, 109u8, 101u8, 110u8, 116u8, 115u8] + seq![95u8, 116u8, 117u8, 109u8, 111u8, 114u8, 58u8, 32u8]);
    }
    proof {
        assert(out@ =~= old(out)@ + key_no_of_fragments_tumor_bytes());
    }
}

pub open spec fn key_coverage_per_base_tumor_bytes() -> Seq<u8> {
    seq![35u8, 99u8, 111u8, 118u8, 101u8, 114u8, 97u8, 103u8, 101u8, 95u8, 112u8, 101u8, 114u8, 95u8, 98u8, 97u8]
        + seq![115u8, 101u8, 95u8, 116u8, 117u8, 109u8, 111u8, 114u8, 58u8, 32u8]
}

fn push_key_coverage_per_base_tumor(out: &mut Vec<u8>)
    ensures
        final(out)@ == old(out)@ + key_coverage_per_base_tumor_bytes(),
{
    out.push(35u8);
    out.push(99u8);
    out.push(111u8);
    out.push(118u8);
    out.push(101u8);
    out.push(114u8);
    out.push(97u8);
    out.push(103u8);
    out.push(101u8);
    out.push(95u8);
    out.push(112u8);
    out.push(101u8);
    out.push(114u8);
    out.push(95u8);
    out.push(98u8);
    out.push(97u8);
    proof {
        assert(out@ =~= old(out)@ + seq![35u8, 99u8, 111u8, 118u8, 101u8, 114u8, 97u8, 103u8, 101u8, 95u8, 112u8, 101u8, 114u8, 95u8, 98u8, 97u8]);
    }
    out.push(115u8);
    out.push(101u8);
    out.push(95u8);
    out.push(116u8);
    out.push(117u8);
    out.push(109u8);
    out.push(111u8);
    out.push(114u8);
    out.push(58u8);
    out.push(32u8);
    proof {
        assert(out@ =~= old(out)@ + seq![35u8, 99u8, 111u8, 118u8, 101u8, 114u8, 97u8, 103u8, 101u8, 95u8, 112u8, 101u8, 114u8, 95u8, 98u8, 97u8] + seq![115u8, 101u8, 95u8, 116u8, 117u8, 109u8, 111u8, 114u8, 58u8, 32u8]);
    }
    proof {
        assert(out@ =~= old(out)@ + key_coverage_per_base_tumor_bytes());
    }
}

pub open spec fn key_no_of_fragments_normal_bytes() -> Seq<u8> {
    seq![35u8, 110u8, 111u8, 95u8, 111u8, 102u8, 95u8, 102u8, 114u8, 97u8, 103u8, 109u8, 101u8, 110u8, 116u8, 115u8]
        + seq![95u8, 110u8, 111u8, 114u8, 109u8, 97u8, 108u8, 58u8, 32u8]
}

fn push_key_no_of_fragments_normal(out: &mut Vec<u8>)
    ensures
        final(out)@ == old(out)@ + key_no_of_fragments_normal_bytes(),
{
    out.push(35u8);
    out.push(110u8);
    out.push(111u8);
    out.push(95u8);
    out.push(111u8);
    out.push(102u8);
    out.push(95u8);
    out.push(102u8);
    out.push(114u8);
    out.push(97u8);
    out.push(103u8);
    out.push(109u8);
    out.push(101u8);
    out.push(110u8);
    out.push(116u8);
    out.push(115u8);
    proof {
        assert(out@ =~= old(out)@ + seq![35u8, 110u8, 111u8, 95u8, 111u8, 102u8, 95u8, 102u8, 114u8, 97u8, 103u8, 109u8, 101u8, 110u8, 116u8, 115u8]);
    }
    out.push(95u8);
    out.push(110u8);
    out.push(111u8);
    out.push(114u8);
    out.push(109u8);
    out.push(97u8);
    out.push(108u8);
    out.push(58u8);
    out.push(32u8);
    proof {
        assert(out@ =~= old(out)@ + seq![35u8, 110u8, 111u8, 95u8, 111u8, 102u8, 95u8, 102u8, 114u8, 97u8, 103u8, 109u8, 101u8, 110u8, 116u8, 115u8] + seq![95u8, 110u8, 111u8, 114u8, 109u8, 97u8, 108u8, 58u8, 32u8]);
    }
    proof {
        assert(out@ =~= old(out)@ + key_no_of_fragments_normal_bytes());
    }
}

pub open spec fn key_coverage_per_base_normal_bytes() -> Seq<u8> {
    seq![35u8, 99u8, 111u8, 118u8, 101u8, 114u8, 97u8, 103u8, 101u8, 95u8, 112u8, 101u8, 114u8, 95u8, 98u8, 97u8]
        + seq![115u8, 101u8, 95u8, 110u8, 111u8, 114u8, 109u8, 97u8, 108u8, 58u8, 32u8]
}

fn push_key_coverage_per_base_normal(out: &mut Vec<u8>)
    ensures
        final(out)@ == old(out)@ + key_coverage_per_base_normal_bytes(),
{
    out.push(35u8);
    out.push(99u8);
    out.push(111u8);
    out.push(118u8);
    out.push(101u8);
    out.push(114u8);
    out.push(97u8);
    out.push(103u8);
    out.push(101u8);
    out.push(95u8);
    out.push(112u8);
    out.push(101u8);
    out.push(114u8);
    out.push(95u8);
    out.push(98u8);
    out.push(97u8);
    proof {
        assert(out@ =~= old(out)@ + seq![35u8, 99u8, 111u8, 118u8, 101u8, 114u8, 97u8, 103u8, 101u8, 95u8, 112u8, 101u8, 114u8, 95u8, 98u8, 97u8]);
    }
    out.push(115u8);
    out.push(101u8);
    out.push(95u8);
    out.push(110u8);
    out.push(111u8);
    out.push(114u8);
    out.push(109u8);
    out.push(97u8);
    out.push(108u8);
    out.push(58u8);
    out.push(32u8);
    proof {
        assert(out@ =~= old(out)@ + seq![35u8, 99u8, 111u8, 118u8, 101u8, 114u8, 97u8, 103u8, 101u8, 95u8, 112u8, 101u8, 114u8, 95u8, 98u8, 97u8] + seq![115u8, 101u8, 95u8, 110u8, 111u8, 114u8, 109u8, 97u8, 108u8, 58u8, 32u8]);
    }
    proof {
        assert(out@ =~= old(out)@ + key_coverage_per_base_normal_bytes());
    }
}

pub open spec fn key_mean_tumor_bytes() -> Seq<u8> {
    seq![35u8, 103u8, 101u8, 110u8, 111u8, 109u8, 101u8, 45u8, 119u8, 105u8, 100u8, 101u8, 45u8, 99u8, 111u8, 118u8]
        + seq![101u8, 114u8, 97u8, 103u8, 101u8, 45u8, 109u8, 101u8, 97u8, 110u8, 45u8, 116u8, 117u8, 109u8, 111u8, 114u8]
        + seq![58u8, 32u8]
}

fn push_key_mean_tumor(out: &mut Vec<u8>)
    ensures
        final(out)@ == old(out)@ + key_mean_tumor_bytes(),
{
    out.push(35u8);
    out.push(103u8);
    out.push(101u8);
    out.push(110u8);
    out.push(111u8);
    out.push(109u8);
    out.push(101u8);
    out.push(45u8);
    out.push(119u8);
    out.push(105u8);
    out.push(100u8);
    out.push(101u8);
    out.push(45u8);
    out.push(99u8);
    out.push(111u8);
    out.push(118u8);
    proof {
        assert(out@ =~= old(out)@ + seq![35u8, 103u8, 101u8, 110u8, 111u8, 109u8, 101u8, 45u8, 119u8, 105u8, 100u8, 101u8, 45u8, 99u8, 111u8, 118u8]);
    }
    out.push(101u8);
    out.push(114u8);
    out.push(97u8);
    out.push(103u8);
    out.push(101u8);
    out.push(45u8);
    out.push(109u8);
    out.push(101u8);
    out.push(97u8);
    out.push(110u8);
    out.push(45u8);
    out.push(116u8);
    out.push(117u8);
    out.push(109u8);
    out.push(111u8);
    out.push(114u8);
    proof {
        assert(out@ =~= old(out)@ + seq![35u8, 103u8, 101u8, 110u8, 111u8, 109u8, 101u8, 45u8, 119u8, 105u8, 100u8, 101u8, 45u8, 99u8, 111u8, 118u8] + seq![101u8, 114u8, 97u8, 103u8, 101u8, 45u8, 109u8, 101u8, 97u8, 110u8, 45u8, 116u8, 117u8, 109u8, 111u8, 114u8]);
    }
    out.push(58u8);
    out.push(32u8);
    proof {
        assert(out@ =~= old(out)@ + seq![35u8, 103u8, 101u8, 110u8, 111u8, 109u8, 101u8, 45u8, 119u8, 105u8, 100u8, 101u8, 45u8, 99u8, 111u8, 118u8] + seq![101u8, 114u8, 97u8, 103u8, 101u8, 45u8, 109u8, 101u8, 97u8, 110u8, 45u8, 116u8, 117u8, 109u8, 111u8, 114u8] + seq![58u8, 32u8]);
    }
    proof {
        assert(out@ =~= old(out)@ + key_mean_tumor_bytes());
    }
}

pub open spec fn key_mean_normal_bytes() -> Seq<u8> {
    seq![35u8, 103u8, 101u8, 110u8, 111u8, 109u8, 101u8, 45u8, 119u8, 105u8, 100u8, 101u8, 45u8, 99u8, 111u8, 118u8]
        + seq![101u8, 114u8, 97u8, 103u8, 101u8, 45u8, 109u8, 101u8, 97u8, 110u8, 45u8, 110u8, 111u8, 114u8, 109u8, 97u8]
        + seq![108u8, 58u8, 32u8]
}

fn push_key_mean_normal(out: &mut Vec<u8>)
    ensures
        final(out)@ == old(out)@ + key_mean_normal_bytes(),
{
    out.push(35u8);
    out.push(103u8);
    out.push(101u8);
    out.push(110u8);
    out.push(111u8);
    out.push(109u8);
    out.push(101u8);
    out.push(45u8);
    out.push(119u8);
    out.push(105u8);
    out.push(100u8);
    out.push(101u8);
    out.push(45u8);
    out.push(99u8);
    out.push(111u8);
    out.push(118u8);
    proof {
        assert(out@ =~= old(out)@ + seq![35u8, 103u8, 101u8, 110u8, 111u8, 109u8, 101u8, 45u8, 119u8, 105u8, 100u8, 101u8, 45u8, 99u8, 111u8, 118u8]);
    }
    out.push(101u8);
    out.push(114u8);
    out.push(97u8);
    out.push(103u8);
    out.push(101u8);
    out.push(45u8);
    out.push(109u8);
    out.push(101u8);
    out.push(97u8);
    out.push(110u8);
    out.push(45u8);
    out.push(110u8);
    out.push(111u8);
    out.push(114u8);
    out.push(109u8);
    out.push(97u8);
    proof {
        assert(out@ =~= old(out)@ + seq![35u8, 103u8, 101u8, 110u8, 111u8, 109u8, 101u8, 45u8, 119u8, 105u8, 100u8, 101u8, 45u8, 99u8, 111u8, 118u8] + seq![101u8, 114u8, 97u8, 103u8, 101u8, 45u8, 109u8, 101u8, 97u8, 110u8, 45u8, 110u8, 111u8, 114u8, 109u8, 97u8]);
    }
    out.push(108u8);
    out.push(58u8);
    out.push(32u8);
    proof {
        assert(out@ =~= old(out)@ + seq![35u8, 103u8, 101u8, 110u8, 111u8, 109u8, 101u8, 45u8, 119u8, 105u8, 100u8, 101u8, 45u8, 99u8, 111u8, 118u8] + seq![101u8, 114u8, 97u8, 103u8, 101u8, 45u8, 109u8, 101u8, 97u8, 110u8, 45u8, 110u8, 111u8, 114u8, 109u8, 97u8] + seq![108u8, 58u8, 32u8]);
    }
    proof {
        assert(out@ =~= old(out)@ + key_mean_normal_bytes());
    }
}

pub open spec fn columns_debug_a_bytes() -> Seq<u8> {
    seq![115u8, 116u8, 97u8, 114u8, 116u8, 44u8, 99u8, 111u8, 118u8, 101u8, 114u8, 97u8, 103u8, 101u8, 95u8, 114u8]
        + seq![97u8, 116u8, 105u8, 111u8, 44u8, 99u8, 111u8, 118u8, 101u8, 114u8, 97u8, 103u8, 101u8, 95u8, 116u8, 117u8]
        + seq![109u8, 111u8, 114u8, 44u8]
}

#[verifier::rlimit(100)]
fn push_columns_debug_a(out: &mut Vec<u8>)
    ensures
        final(out)@ == old(out)@ + columns_debug_a_bytes(),
{
    out.push(115u8);
    out.push(116u8);
    out.push(97u8);
    out.push(114u8);
    out.push(116u8);
    out.push(44u8);
    out.push(99u8);
    out.push(111u8);
    out.push(118u8);
    out.push(101u8);
    out.push(114u8);
    out.push(97u8);
    out.push(103u8);
    out.push(101u8);
    out.push(95u8);
    out.push(114u8);
    proof {
        assert(out@ =~= old(out)@ + seq![115u8, 116u8, 97u8, 114u8, 116u8, 44u8, 99u8, 111u8, 118u8, 101u8, 114u8, 97u8, 103u8, 101u8, 95u8, 114u8]);
    }
    out.push(97u8);
    out.push(116u8);
    out.push(105u8);
    out.push(111u8);
    out.push(44u8);
    out.push(99u8);
    out.push(111u8);
    out.push(118u8);
    out.push(101u8);
    out.push(114u8);
    out.push(97u8);
    out.push(103u8);
    out.push(101u8);
    out.push(95u8);
    out.push(116u8);
    out.push(117u8);
    proof {
        assert(out@ =~= old(out)@ + seq![115u8, 116u8, 97u8, 114u8, 116u8, 44u8, 99u8, 111u8, 118u8, 101u8, 114u8, 97u8, 103u8, 101u8, 95u8, 114u8] + seq![97u8, 116u8, 105u8, 111u8, 44u8, 99u8, 111u8, 118u8, 101u8, 114u8, 97u8, 103u8, 101u8, 95u8, 116u8, 117u8]);
    }
    out.push(109u8);
    out.push(111u8);
    out.push(114u8);
    out.push(44u8);
    proof {
        assert(out@ =~= old(out)@ + seq![115u8, 116u8, 97u8, 114u8, 116u8, 44u8, 99u8, 111u8, 118u8, 101u8, 114u8, 97u8, 103u8, 101u8, 95u8, 114u8] + seq![97u8, 116u8, 105u8, 111u8, 44u8, 99u8, 111u8, 118u8, 101u8, 114u8, 97u8, 103u8, 101u8, 95u8, 116u8, 117u8] + seq![109u8, 111u8, 114u8, 44u8]);
    }
    proof {
        assert(out@ =~= old(out)@ + columns_debug_a_bytes());
    }
}

pub open spec fn columns_debug_b_bytes() -> Seq<u8> {
    seq![99u8, 111u8, 118u8, 101u8, 114u8, 97u8, 103u8, 101u8, 95u8, 116u8, 117u8, 109u8, 111u8, 114u8, 95u8, 97u8]
        + seq![100u8, 106u8, 44u8, 99u8, 111u8, 118u8, 101u8, 114u8, 97u8, 103u8, 101u8, 95u8, 110u8, 111u8, 114u8, 109u8]
        + seq![97u8, 108u8, 44u8, 99u8, 111u8, 118u8, 101u8, 114u8, 97u8, 103u8, 101u8, 95u8, 110u8, 111u8, 114u8, 109u8]
        + seq![97u8, 108u8, 95u8, 97u8, 100u8, 106u8, 10u8]
}

#[verifier::rlimit(100)]
fn push_columns_debug_b(out: &mut Vec<u8>)
    ensures
        final(out)@ == old(out)@ + columns_debug_b_bytes(),
{
    out.push(99u8);
    out.push(111u8);
    out.push(118u8);
    out.push(101u8);
    out.push(114u8);
    out.push(97u8);
    out.push(103u8);
    out.push(101u8);
    out.push(95u8);
    out.push(116u8);
    out.push(117u8);
    out.push(109u8);
    out.push(111u8);
    out.push(114u8);
    out.push(95u8);
    out.push(97u8);
    proof {
        assert(out@ =~= old(out)@ + seq![99u8, 111u8, 118u8, 101u8, 114u8, 97u8, 103u8, 101u8, 95u8, 116u8, 117u8, 109u8, 111u8, 114u8, 95u8, 97u8]);
    }
    out.push(100u8);
    out.push(106u8);
    out.push(44u8);
    out.push(99u8);
    out.push(111u8);
    out.push(118u8);
    out.push(101u8);
    out.push(114u8);
    out.push(97u8);
    out.push(103u8);
    out.push(101u8);
    out.push(95u8);
    out.push(110u8);
    out.push(111u8);
    out.push(114u8);
    out.push(109u8);
    proof {
        assert(out@ =~= old(out)@ + seq![99u8, 111u8, 118u8, 101u8, 114u8, 97u8, 103u8, 101u8, 95u8, 116u8, 117u8, 109u8, 111u8, 114u8, 95u8, 97u8] + seq![100u8, 106u8, 44u8, 99u8, 111u8, 118u8, 101u8, 114u8, 97u8, 103u8, 101u8, 95u8, 110u8, 111u8, 114u8, 109u8]);
    }
    out.push(97u8);
    out.push(108u8);
    out.push(44u8);
    out.push(99u8);
    out.push(111u8);
    out.push(118u8);
    out.push(101u8);
    out.push(114u8);
    out.push(97u8);
    out.push(103u8);
    out.push(101u8);
    out.push(95u8);
    out.push(110u8);
    out.push(111u8);
    out.push(114u8);
    out.push(109u8);
    proof {
        assert(out@ =~= old(out)@ + seq![99u8, 111u8, 118u8, 101u8, 114u8, 97u8, 103u8, 101u8, 95u8, 116u8, 117u8, 109u8, 111u8, 114u8, 95u8, 97u8] + seq![100u8, 106u8, 44u8, 99u8, 111u8, 118u8, 101u8, 114u8, 97u8, 103u8, 101u8, 95u8, 110u8, 111u8, 114u8, 109u8] + seq![97u8, 108u8, 44u8, 99u8, 111u8, 118u8, 101u8, 114u8, 97u8, 103u8, 101u8, 95u8, 110u8, 111u8, 114u8, 109u8]);
    }
    out.push(97u8);
    out.push(108u8);
    out.push(95u8);
    out.push(97u8);
    out.push(100u8);
    out.push(106u8);
    out.push(10u8);
    proof {
        assert(out@ =~= old(out)@ + seq![99u8, 111u8, 118u8, 101u8, 114u8, 97u8, 103u8, 101u8, 95u8, 116u8, 117u8, 109u8, 111u8, 114u8, 95u8, 97u8] + seq![100u8, 106u8, 44u8, 99u8, 111u8, 118u8, 101u8, 114u8, 97u8, 103u8, 101u8, 95u8, 110u8, 111u8, 114u8, 109u8] + seq![97u8, 108u8, 44u8, 99u8, 111u8, 118u8, 101u8, 114u8, 97u8, 103u8, 101u8, 95u8, 110u8, 111u8, 114u8, 109u8] + seq![97u8, 108u8, 95u8, 97u8, 100u8, 106u8, 10u8]);
    }
    proof {
        assert(out@ =~= old(out)@ + columns_debug_b_bytes());
    }
}

pub open spec fn columns_debug_bytes() -> Seq<u8> {
    columns_debug_a_bytes() + columns_debug_b_bytes()
}

fn push_columns_debug(out: &mut Vec<u8>)
    ensures
        final(out)@ == old(out)@ + columns_debug_bytes(),
{
    push_columns_debug_a(out);
    push_columns_debug_b(out);
    proof {
        assert(out@ =~= old(out)@ + columns_debug_bytes());
    }
}

pub open spec fn columns_plain_bytes() -> Seq<u8> {
    seq![115u8, 116u8, 97u8, 114u8, 116u8, 44u8, 99u8, 111u8, 118u8, 101u8, 114u8, 97u8, 103u8, 101u8, 95u8, 114u8]
        + seq![97u8, 116u8, 105u8, 111u8, 44u8, 99u8, 111u8, 118u8, 101u8, 114u8, 97u8, 103u8, 101u8, 95u8, 116u8, 117u8]
        + seq![109u8, 111u8, 114u8, 95u8, 97u8, 100u8, 106u8, 44u8, 99u8, 111u8, 118u8, 101u8, 114u8, 97u8, 103u8, 101u8]
        + seq![95u8, 110u8, 111u8, 114u8, 109u8, 97u8, 108u8, 95u8, 97u8, 100u8, 106u8, 10u8]
}

#[verifier::rlimit(100)]
#[verifier::spinoff_prover]
fn push_columns_plain(out: &mut Vec<u8>)
    ensures
        final(out)@ == old(out)@ + columns_plain_bytes(),
{
    out.push(115u8);
    out.push(116u8);
    out.push(97u8);
    out.push(114u8);
    out.push(116u8);
    out.push(44u8);
    out.push(99u8);
    out.push(111u8);
    out.push(118u8);
    out.push(101u8);
    out.push(114u8);
    out.push(97u8);
    out.push(103u8);
    out.push(101u8);
    out.push(95u8);
    out.push(114u8);
    proof {
        assert(out@ =~= old(out)@ + seq![115u8, 116u8, 97u8, 114u8, 116u8, 44u8, 99u8, 111u8, 118u8, 101u8, 114u8, 97u8, 103u8, 101u8, 95u8, 114u8]);
    }
    out.push(97u8);
    out.push(116u8);
    out.push(105u8);
    out.push(111u8);
    out.push(44u8);
    out.push(99u8);
    out.push(111u8);
    out.push(118u8);
    out.push(101u8);
    out.push(114u8);
    out.push(97u8);
    out.push(103u8);
    out.push(101u8);
    out.push(95u8);
    out.push(116u8);
    out.push(117u8);
    proof {
        assert(out@ =~= old(out)@ + seq![115u8, 116u8, 97u8, 114u8, 116u8, 44u8, 99u8, 111u8, 118u8, 101u8, 114u8, 97u8, 103u8, 101u8, 95u8, 114u8] + seq![97u8, 116u8, 105u8, 111u8, 44u8, 99u8, 111u8, 118u8, 101u8, 114u8, 97u8, 103u8, 101u8, 95u8, 116u8, 117u8]);
    }
    out.push(109u8);
    out.push(111u8);
    out.push(114u8);
    out.push(95u8);
    out.push(97u8);
    out.push(100u8);
    out.push(106u8);
    out.push(44u8);
    out.push(99u8);
    out.push(111u8);
    out.push(118u8);
    out.push(101u8);
    out.push(114u8);
    out.push(97u8);
    out.push(103u8);
    out.push(101u8);
    proof {
        assert(out@ =~= old(out)@ + seq![115u8, 116u8, 97u8, 114u8, 116u8, 44u8, 99u8, 111u8, 118u8, 101u8, 114u8, 97u8, 103u8, 101u8, 95u8, 114u8] + seq![97u8, 116u8, 105u8, 111u8, 44u8, 99u8, 111u8, 118u8, 101u8, 114u8, 97u8, 103u8, 101u8, 95u8, 116u8, 117u8] + seq![109u8, 111u8, 114u8, 95u8, 97u8, 100u8, 106u8, 44u8, 99u8, 111u8, 118u8, 101u8, 114u8, 97u8, 103u8, 101u8]);
    }
    out.push(95u8);
    out.push(110u8);
    out.push(111u8);
    out.push(114u8);
    out.push(109u8);
    out.push(97u8);
    out.push(108u8);
    out.push(95u8);
    out.push(97u8);
    out.push(100u8);
    out.push(106u8);
    out.push(10u8);
    proof {
        assert(out@ =~= old(out)@ + seq![115u8, 116u8, 97u8, 114u8, 116u8, 44u8, 99u8, 111u8, 118u8, 101u8, 114u8, 97u8, 103u8, 101u8, 95u8, 114u8] + seq![97u8, 116u8, 105u8, 111u8, 44u8, 99u8, 111u8, 118u8, 101u8, 114u8, 97u8, 103u8, 101u8, 95u8, 116u8, 117u8] + seq![109u8, 111u8, 114u8, 95u8, 97u8, 100u8, 106u8, 44u8, 99u8, 111u8, 118u8, 101u8, 114u8, 97u8, 103u8, 101u8] + seq![95u8, 110u8, 111u8, 114u8, 109u8, 97u8, 108u8, 95u8, 97u8, 100u8, 106u8, 10u8]);
    }
    proof {
        assert(out@ =~= old(out)@ + columns_plain_bytes());
    }
}

pub open spec fn name_mid_bytes() -> Seq<u8> {
    seq![46u8, 114u8, 97u8, 116u8, 105u8, 111u8, 46u8, 119u8]
}

fn push_name_mid(out: &mut Vec<u8>)
    ensures
        final(out)@ == old(out)@ + name_mid_bytes(),
{
    out.push(46u8);
    out.push(114u8);
    out.push(97u8);
    out.push(116u8);
    out.push(105u8);
    out.push(111u8);
    out.push(46u8);
    out.push(119u8);
    proof {
        assert(out@ =~= old(out)@ + seq![46u8, 114u8, 97u8, 116u8, 105u8, 111u8, 46u8, 119u8]);
    }
    proof {
        assert(out@ =~= old(out)@ + name_mid_bytes());
    }
}

pub open spec fn name_tail_bytes() -> Seq<u8> {
    seq![46u8, 99u8, 115u8, 118u8, 46u8, 103u8, 122u8]
}

fn push_name_tail(out: &mut Vec<u8>)
    ensures
        final(out)@ == old(out)@ + name_tail_bytes(),
{
    out.push(46u8);
    out.push(99u8);
    out.push(115u8);
    out.push(118u8);
    out.push(46u8);
    out.push(103u8);
    out.push(122u8);
    proof {
        assert(out@ =~= old(out)@ + seq![46u8, 99u8, 115u8, 118u8, 46u8, 103u8, 122u8]);
    }
    proof {
        assert(out@ =~= old(out)@ + name_tail_bytes());
    }
}

/// The catalog name of the chromosome at an index: `chr` and the 1-based
/// index.
pub open spec fn chr_name_bytes(idx: int) -> Seq<u8> {
    chr_prefix_bytes() + dec_bytes(idx + 1)
}

pub fn push_chr_name(out: &mut Vec<u8>, idx: usize)
    requires
        idx < 0xffff,
    ensures
        final(out)@ == old(out)@ + chr_name_bytes(idx as int),
{
    push_chr_prefix(out);
    push_dec_u64(out, idx as u64 + 1);
    proof {
        assert(out@ =~= old(out)@ + chr_name_bytes(idx as int));
    }
}

/// The output artifact's file name:
/// `<chromosome>.ratio.w<window size>.csv.gz`.
pub open spec fn artifact_name_bytes(idx: int, w: int) -> Seq<u8> {
    chr_name_bytes(idx) + name_mid_bytes() + dec_bytes(w) + name_tail_bytes()
}

pub fn render_artifact_name(idx: usize, window_size: u64) -> (out: Vec<u8>)
    requires
        idx < 0xffff,
    ensures
        out@ == artifact_name_bytes(idx as int, window_size as int),
{
    let mut out: Vec<u8> = Vec::new();
    push_chr_name(&mut out, idx);
    push_name_mid(&mut out);
    push_dec_u64(&mut out, window_size);
    push_name_tail(&mut out);
    proof {
        assert(out@ =~= artifact_name_bytes(idx as int, window_size as int));
    }
    out
}

/// One `#key: value` header line.
pub open spec fn header_line(key: Seq<u8>, value: Seq<u8>) -> Seq<u8> {
    key + value + seq![10u8]
}

/// Coverage-per-base (total fragment length over chromosome length) in fixed
/// point, saturated at the 64-bit range; zero on a zero-length denominator.
pub open spec fn cpb_scaled_spec(total: int, len: int) -> int {
    if len > 0 {
        let v = total * FLOAT_MULTIPLIER / len;
        if v > u64::MAX {
            u64::MAX as int
        } else {
            v
        }
    } else {
        0
    }
}

pub fn cpb_scaled(total: u64, len: u64) -> (r: u64)
    ensures
        r == cpb_scaled_spec(total as int, len as int),
{
    if len > 0 {
        proof {
            vstd::arithmetic::mul::lemma_mul_upper_bound(
                total as int, 0xffff_ffff_ffff_ffff as int, 1000, 1000);
            vstd::arithmetic::mul::lemma_mul_nonnegative(total as int, 1000);
        }
        let v: u128 = total as u128 * FLOAT_MULTIPLIER as u128 / len as u128;
        if v > u64::MAX as u128 {
            u64::MAX
        } else {
            v as u64
        }
    } else {
        0
    }
}

/// A genome-wide mean in fixed point, saturated at the 64-bit range; zero
/// when no chromosome was scanned.
pub open spec fn mean_scaled_spec(m: Mean) -> int {
    if m.den > 0 {
        let v = (m.num as int) * FLOAT_MULTIPLIER / (m.den as int);
        if v > u64::MAX {
            u64::MAX as int
        } else {
            v
        }
    } else {
        0
    }
}

pub fn mean_scaled(m: &Mean) -> (r: u64)
    requires
        m.num <= 0x4000_0000_0000_0000_0000,
    ensures
        r == mean_scaled_spec(*m),
{
    if m.den > 0 {
        proof {
            vstd::arithmetic::mul::lemma_mul_upper_bound(
                m.num as int, 0x4000_0000_0000_0000_0000 as int, 1000, 1000);
            vstd::arithmetic::mul::lemma_mul_nonnegative(m.num as int, 1000);
        }
        let v: u128 = m.num * FLOAT_MULTIPLIER as u128 / m.den as u128;
        if v > u64::MAX as u128 {
            u64::MAX
        } else {
            v as u64
        }
    } else {
        0
    }
}

/// The header block and column header of one chromosome's artifact.
pub open spec fn header_bytes(t: ChrAgg, nr: ChrAgg, mt: Mean, mn: Mean, w: int, debug: bool) -> Seq<u8> {
    header_line(key_chr_bytes(), chr_name_bytes(t.chr_idx))
    + header_line(key_chromosome_len_bytes(), dec_bytes(t.chr_len as int))
    + header_line(key_window_size_bytes(), dec_bytes(w))
    + header_line(key_no_of_windows_bytes(), dec_bytes(t.counts.len() as int))
    + header_line(key_no_of_fragments_tumor_bytes(), dec_bytes(t.n_fragments as int))
    + header_line(key_coverage_per_base_tumor_bytes(),
        fixed_bytes(cpb_scaled_spec(t.total_fragment_len as int, t.chr_len as int)))
    + header_line(key_no_of_fragments_normal_bytes(), dec_bytes(nr.n_fragments as int))
    + header_line(key_coverage_per_base_normal_bytes(),
        fixed_bytes(cpb_scaled_spec(nr.total_fragment_len as int, nr.chr_len as int)))
    + header_line(key_mean_tumor_bytes(), fixed_bytes(mean_scaled_spec(mt)))
    + header_line(key_mean_normal_bytes(), fixed_bytes(mean_scaled_spec(mn)))
    + (if debug { columns_debug_bytes() } else { columns_plain_bytes() })
}

/// One data row: start coordinate, the smoothed ratio, and the adjusted (and,
/// in verbose mode, unadjusted) coverage values, comma separated.
pub open spec fn row_bytes(r: RatioRow, debug: bool) -> Seq<u8>
    recommends
        r.ratio_scaled > 0,
{
    dec_bytes(r.start as int) + seq![44u8] + fixed_bytes(r.ratio_scaled as int)
    + (if debug {
        seq![44u8] + dec_bytes(r.coverage_tumor as int)
        + seq![44u8] + fixed_bytes(r.coverage_tumor_adj_scaled as int)
        + seq![44u8] + dec_bytes(r.coverage_normal as int)
        + seq![44u8] + fixed_bytes(r.coverage_normal_adj_scaled as int)
    } else {
        seq![44u8] + fixed_bytes(r.coverage_tumor_adj_scaled as int)
        + seq![44u8] + fixed_bytes(r.coverage_normal_adj_scaled as int)
    })
    + seq![10u8]
}

/// All data rows, in order.
pub open spec fn rows_bytes(rows: Seq<RatioRow>, debug: bool) -> Seq<u8>
    decreases rows.len(),
{
    if rows.len() == 0 {
        Seq::empty()
    } else {
        rows_bytes(rows.drop_last(), debug) + row_bytes(rows.last(), debug)
    }
}

/// The whole uncompressed artifact of one chromosome.
pub open spec fn artifact_bytes(
    t: ChrAgg, nr: ChrAgg, mt: Mean, mn: Mean, w: int, debug: bool, rows: Seq<RatioRow>,
) -> Seq<u8> {
    header_bytes(t, nr, mt, mn, w, debug) + rows_bytes(rows, debug)
}

fn push_row(out: &mut Vec<u8>, r: &RatioRow, debug: bool)
    requires
        r.ratio_scaled > 0,
    ensures
        final(out)@ == old(out)@ + row_bytes(*r, debug),
{
    push_dec_u64(out, r.start);
    out.push(44);
    push_fixed_u64(out, r.ratio_scaled as u64);
    if debug {
        out.push(44);
        push_dec_u64(out, r.coverage_tumor);
        out.push(44);
        push_fixed_u64(out, r.coverage_tumor_adj_scaled);
        out.push(44);
        push_dec_u64(out, r.coverage_normal);
        out.push(44);
        push_fixed_u64(out, r.coverage_normal_adj_scaled);
    } else {
        out.push(44);
        push_fixed_u64(out, r.coverage_tumor_adj_scaled);
        out.push(44);
        push_fixed_u64(out, r.coverage_normal_adj_scaled);
    }
    out.push(10);
    proof {
        assert(out@ =~= old(out)@ + row_bytes(*r, debug));
    }
}

/// Render the header block and column header.
#[verifier::rlimit(100)]
fn render_header(
    tumor: &ChromosomeCoverage,
    normal: &ChromosomeCoverage,
    mean_t: &Mean,
    mean_n: &Mean,
    window_size: u64,
    debug: bool,
) -> (out: Vec<u8>)
    requires
        tumor@.chr_idx < 0xffff,
        mean_t.num <= 0x4000_0000_0000_0000_0000,
        mean_n.num <= 0x4000_0000_0000_0000_0000,
    ensures
        out@ == header_bytes(tumor@, normal@, *mean_t, *mean_n, window_size as int, debug),
{
    let ghost t = tumor@;
    let ghost nr = normal@;
    let mut out: Vec<u8> = Vec::new();
    push_key_chr(&mut out);
    push_chr_name(&mut out, tumor.chr_idx);
    out.push(10);
    proof {
        assert(out@ =~= header_line(key_chr_bytes(), chr_name_bytes(t.chr_idx)));
    }
    let ghost h1 = out@;
    push_key_chromosome_len(&mut out);
    push_dec_u64(&mut out, tumor.chr_len);
    out.push(10);
    push_key_window_size(&mut out);
    push_dec_u64(&mut out, window_size);
    out.push(10);
    proof {
        assert(out@ =~= h1
            + header_line(key_chromosome_len_bytes(), dec_bytes(t.chr_len as int))
            + header_line(key_window_size_bytes(), dec_bytes(window_size as int)));
    }
    let ghost h2 = out@;
    push_key_no_of_windows(&mut out);
    push_dec_u64(&mut out, tumor.counts.len() as u64);
    out.push(10);
    push_key_no_of_fragments_tumor(&mut out);
    push_dec_u64(&mut out, tumor.n_fragments);
    out.push(10);
    proof {
        assert(out@ =~= h2
            + header_line(key_no_of_windows_bytes(), dec_bytes(t.counts.len() as int))
            + header_line(key_no_of_fragments_tumor_bytes(), dec_bytes(t.n_fragments as int)));
    }
    let ghost h3 = out@;
    push_key_coverage_per_base_tumor(&mut out);
    push_fixed_u64(&mut out, cpb_scaled(tumor.total_fragment_len, tumor.chr_len));
    out.push(10);
    push_key_no_of_fragments_normal(&mut out);
    push_dec_u64(&mut out, normal.n_fragments);
    out.push(10);
    proof {
        assert(out@ =~= h3
            + header_line(key_coverage_per_base_tumor_bytes(),
                fixed_bytes(cpb_scaled_spec(t.total_fragment_len as int, t.chr_len as int)))
            + header_line(key_no_of_fragments_normal_bytes(), dec_bytes(nr.n_fragments as int)));
    }
    let ghost h4 = out@;
    push_key_coverage_per_base_normal(&mut out);
    push_fixed_u64(&mut out, cpb_scaled(normal.total_fragment_len, normal.chr_len));
    out.push(10);
    push_key_mean_tumor(&mut out);
    push_fixed_u64(&mut out, mean_scaled(mean_t));
    out.push(10);
    push_key_mean_normal(&mut out);
    push_fixed_u64(&mut out, mean_scaled(mean_n));
    out.push(10);
    proof {
        assert(out@ =~= h4
            + header_line(key_coverage_per_base_normal_bytes(),
                fixed_bytes(cpb_scaled_spec(nr.total_fragment_len as int, nr.chr_len as int)))
            + header_line(key_mean_tumor_bytes(), fixed_bytes(mean_scaled_spec(*mean_t)))
            + header_line(key_mean_normal_bytes(), fixed_bytes(mean_scaled_spec(*mean_n))));
    }
    if debug {
        push_columns_debug(&mut out);
    } else {
        push_columns_plain(&mut out);
    }
    proof {
        assert(out@ =~= header_bytes(t, nr, *mean_t, *mean_n, window_size as int, debug));
    }
    out
}

/// Render one chromosome's whole uncompressed artifact.
pub fn render_artifact(
    tumor: &ChromosomeCoverage,
    normal: &ChromosomeCoverage,
    mean_t: &Mean,
    mean_n: &Mean,
    window_size: u64,
    debug: bool,
    rows: &Vec<RatioRow>,
) -> (out: Vec<u8>)
    requires
        tumor@.chr_idx < 0xffff,
        mean_t.num <= 0x4000_0000_0000_0000_0000,
        mean_n.num <= 0x4000_0000_0000_0000_0000,
        forall|k: int| 0 <= k < rows@.len() ==> (#[trigger] rows@[k]).ratio_scaled > 0,
    ensures
        out@ == artifact_bytes(
            tumor@, normal@, *mean_t, *mean_n, window_size as int, debug, rows@),
{
    let ghost t = tumor@;
    let ghost nr = normal@;
    let mut out = render_header(tumor, normal, mean_t, mean_n, window_size, debug);
    let ghost header = out@;
    let n = rows.len();
    let mut i: usize = 0;
    while i < n
        invariant
            i <= n,
            n == rows@.len(),
            forall|k: int| 0 <= k < rows@.len() ==> (#[trigger] rows@[k]).ratio_scaled > 0,
            out@ == header + rows_bytes(rows@.subrange(0, i as int), debug),
        decreases n - i,
    {
        proof {
            assert(rows@.subrange(0, i + 1).drop_last() =~= rows@.subrange(0, i as int));
            assert(rows@.subrange(0, i + 1).last() == rows@[i as int]);
        }
        push_row(&mut out, &rows[i], debug);
        i += 1;
        proof {
            assert(out@ =~= header + rows_bytes(rows@.subrange(0, i as int), debug));
        }
    }
    proof {
        assert(rows@.subrange(0, n as int) =~= rows@);
        assert(out@ =~= artifact_bytes(
            t, nr, *mean_t, *mean_n, window_size as int, debug, rows@));
    }
    out
}

/// What gzip compression of a byte sequence yields, a pure function of the
/// bytes for this crate's compression settings.
pub uninterp spec fn gzip_of(data: Seq<u8>) -> Seq<u8>;

/// Relies on flate2's `write::GzEncoder` at the default compression level:
/// gzip-compresses the bytes, deterministically for this crate's settings
/// (header mtime 0 and a fixed operating-system byte; writing into a `Vec`
/// cannot fail).
#[verifier::external_body]
pub fn gzip_compress(data: &Vec<u8>) -> (r: Vec<u8>)
    ensures
        r@ == gzip_of(data@),
{
    let mut enc = flate2::write::GzEncoder::new(Vec::new(), flate2::Compression::default());
    std::io::Write::write_all(&mut enc, data.as_slice()).expect("writing into a Vec cannot fail");
    enc.finish().expect("finishing an in-memory gzip stream cannot fail")
}

/// One chromosome's finished output artifact: its file name and the gzipped
/// tabular content.
pub struct ChromosomeArtifact {
    pub name: Vec<u8>,
    pub data: Vec<u8>,
}

} // verus!
