//! The chromosome catalog: the fixed list of modeled chromosomes, ordered as
//! the alignment files index them, with their genomic lengths.

use vstd::prelude::*;

verus! {

/// Number of chromosomes the catalog models.
pub const CHR_COUNT: usize = 22;

/// No modeled chromosome is longer than this many bases.
pub const MAX_CHR_LEN: u64 = 249250621;

/// The genomic length of every modeled chromosome, by catalog index.
pub open spec fn chr_lens_spec() -> Seq<u64> {
    seq![
        249250621u64, 243199373u64, 198022430u64, 191154276u64, 180915260u64,
        171115067u64, 159138663u64, 146364022u64, 141213431u64, 135534747u64,
        135006516u64, 133851895u64, 115169878u64, 107349540u64, 102531392u64,
        90354753u64, 81195210u64, 78077248u64, 59128983u64, 63025520u64,
        48129895u64, 51304566u64,
    ]
}

pub proof fn lemma_chr_lens_wf()
    ensures
        chr_lens_spec().len() == CHR_COUNT,
        forall|i: int|
            0 <= i < CHR_COUNT ==> 1 <= #[trigger] chr_lens_spec()[i] <= MAX_CHR_LEN,
{
    assert forall|i: int|
        0 <= i < CHR_COUNT implies 1 <= #[trigger] chr_lens_spec()[i] <= MAX_CHR_LEN by {
        assert(1 <= chr_lens_spec()[i] <= MAX_CHR_LEN);
    }
}

/// Genomic length of the chromosome at a catalog index.
pub fn chromosome_length(i: usize) -> (l: u64)
    requires
        i < CHR_COUNT,
    ensures
        l == chr_lens_spec()[i as int],
        1 <= l <= MAX_CHR_LEN,
{
    proof {
        lemma_chr_lens_wf();
    }
    if i == 0 { 249250621 }
    else if i == 1 { 243199373 }
    else if i == 2 { 198022430 }
    else if i == 3 { 191154276 }
    else if i == 4 { 180915260 }
    else if i == 5 { 171115067 }
    else if i == 6 { 159138663 }
    else if i == 7 { 146364022 }
    else if i == 8 { 141213431 }
    else if i == 9 { 135534747 }
    else if i == 10 { 135006516 }
    else if i == 11 { 133851895 }
    else if i == 12 { 115169878 }
    else if i == 13 { 107349540 }
    else if i == 14 { 102531392 }
    else if i == 15 { 90354753 }
    else if i == 16 { 81195210 }
    else if i == 17 { 78077248 }
    else if i == 18 { 59128983 }
    else if i == 19 { 63025520 }
    else if i == 20 { 48129895 }
    else { 51304566 }
}

} // verus!
