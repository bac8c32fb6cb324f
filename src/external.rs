//! The parts of `bio` that the library relies on, with the contracts that
//! the rest of the crate is verified against.
use vstd::prelude::*;

use crate::aliner::{GapPanelty, Score};
use crate::distance::{hamming_spec, levenshtein_spec};
use bio::alignment::pairwise::MatchParams;
use bio::alignment::{Alignment, AlignmentMode};

verus! {

#[verifier::external_type_specification]
pub struct ExAlignmentOperation(bio::alignment::AlignmentOperation);

#[verifier::external_type_specification]
pub struct ExAlignmentMode(bio::alignment::AlignmentMode);

#[verifier::external_type_specification]
pub struct ExAlignment(bio::alignment::Alignment);

#[verifier::external_type_specification]
#[verifier::external_body]
pub struct ExMatchParams(bio::alignment::pairwise::MatchParams);

/// A partial-order alignment graph together with bio's aligner over it.
/// Verus refuses a declaration of `poa::Aligner` (its parameter is bound by
/// bio's `MatchFunc`), so the aligner is held here, out of Verus's sight.
#[verifier::external_body]
pub struct PoaGraph {
    inner: bio::alignment::poa::Aligner<MatchParams>,
}

#[verifier::external_type_specification]
#[verifier::external_body]
pub struct ExPoaAlignment(bio::alignment::poa::Alignment);

/// The alignment that bio's pairwise aligner computes in global mode.
pub uninterp spec fn global_alignment_of(
    x: Seq<u8>,
    y: Seq<u8>,
    open: i32,
    extend: i32,
    match_score: i32,
    miss_match: i32,
) -> Alignment;

/// The alignment that bio's pairwise aligner computes in semiglobal mode.
pub uninterp spec fn semiglobal_alignment_of(
    x: Seq<u8>,
    y: Seq<u8>,
    open: i32,
    extend: i32,
    match_score: i32,
    miss_match: i32,
) -> Alignment;

/// The alignment that bio's pairwise aligner computes in local mode.
pub uninterp spec fn local_alignment_of(
    x: Seq<u8>,
    y: Seq<u8>,
    open: i32,
    extend: i32,
    match_score: i32,
    miss_match: i32,
) -> Alignment;

/// The three-row text that `Alignment::pretty` renders.
pub uninterp spec fn pretty_of(a: Alignment, x: Seq<u8>, y: Seq<u8>, ncol: usize) -> Seq<char>;

/// The sequences that a partial-order graph has been built from, seed first.
pub uninterp spec fn poa_sequences_of(a: PoaGraph) -> Seq<Seq<u8>>;

/// The scores (gap open, gap extend, match, mismatch) a partial-order aligner was made with.
pub uninterp spec fn poa_scoring_of(a: PoaGraph) -> (i32, i32, i32, i32);

/// The alignment that bio's partial-order aligner computes for `query`, in
/// global mode, against the graph built from `sequences`.
pub uninterp spec fn poa_alignment_of(
    sequences: Seq<Seq<u8>>,
    scoring: (i32, i32, i32, i32),
    query: Seq<u8>,
) -> bio::alignment::poa::Alignment;

/// The absolute value of `x`.
pub open spec fn abs_int(x: int) -> int {
    if x < 0 { -x } else { x }
}

/// Scores small enough that bio's `i32` score sums over sequences of
/// combined length `len` stay in range, even next to its `MIN_SCORE`
/// sentinel (-858,993,459).
pub open spec fn scores_fit(len: int, open: int, extend: int, match_score: int, miss_match: int) -> bool {
    (len + 2) * (abs_int(open) + abs_int(extend) + abs_int(match_score) + abs_int(miss_match))
        <= 400_000_000
}

/// The combined length of a list of sequences.
pub open spec fn total_len(seqs: Seq<Seq<u8>>) -> int
    decreases seqs.len(),
{
    if seqs.len() == 0 {
        0
    } else {
        total_len(seqs.drop_last()) + seqs.last().len()
    }
}

/// True when no operation of `ops` is a clip.
pub open spec fn clip_free(ops: Seq<bio::alignment::AlignmentOperation>) -> bool {
    forall|i: int|
        0 <= i < ops.len() ==> !(ops[i] is Xclip) && !(ops[i] is Yclip)
}

/// Relies on bio's `distance::levenshtein`, the unit-cost edit distance; its
/// `u32` result is exact while both lengths fit in a `u32`.
#[verifier::external_body]
pub(crate) fn bio_levenshtein(a: &[u8], b: &[u8]) -> (r: u32)
    requires
        a@.len() <= u32::MAX,
        b@.len() <= u32::MAX,
    ensures
        r == levenshtein_spec(a@, b@),
{
    bio::alignment::distance::levenshtein(a, b)
}

/// Relies on bio's `distance::simd::levenshtein` (triple_accel's
/// `levenshtein_exp`), the unit-cost edit distance. Its exponential search
/// doubles a `u32` threshold from 30, which stays in range while both
/// lengths fit in an `i32`.
#[verifier::external_body]
pub(crate) fn bio_levenshtein_simd(a: &[u8], b: &[u8]) -> (r: u32)
    requires
        a@.len() <= i32::MAX,
        b@.len() <= i32::MAX,
    ensures
        r == levenshtein_spec(a@, b@),
{
    bio::alignment::distance::simd::levenshtein(a, b)
}

/// Relies on bio's `distance::hamming`: the number of positions at which
/// two texts of equal length differ; it panics on unequal lengths.
#[verifier::external_body]
pub(crate) fn bio_hamming(a: &[u8], b: &[u8]) -> (r: u64)
    requires
        a@.len() == b@.len(),
    ensures
        r == hamming_spec(a@, b@),
{
    bio::alignment::distance::hamming(a, b)
}

/// Relies on bio's `distance::simd::hamming` (triple_accel's `hamming`, whose
/// `u32` count is widened): the number of differing positions; it panics on
/// unequal lengths.
#[verifier::external_body]
pub(crate) fn bio_hamming_simd(a: &[u8], b: &[u8]) -> (r: u64)
    requires
        a@.len() == b@.len(),
        a@.len() <= u32::MAX,
    ensures
        r == hamming_spec(a@, b@),
{
    bio::alignment::distance::simd::hamming(a, b)
}

/// Relies on bio's `pairwise::Aligner::with_capacity` (which panics on a
/// positive gap score) and `Aligner::global`, which sets the mode, the two
/// lengths, and depends on its arguments alone. Scores are summed in `i32`.
/// With every clip penalty at `MIN_SCORE` no clip wins, so the traceback
/// runs from `(x.len(), y.len())` back to `(0, 0)`.
#[verifier::external_body]
pub(crate) fn bio_global(x: &[u8], y: &[u8], gap: GapPanelty, score: Score) -> (r: Alignment)
    requires
        gap.open <= 0,
        gap.extend <= 0,
        scores_fit(
            (x@.len() + y@.len()) as int,
            gap.open as int,
            gap.extend as int,
            score.match_score as int,
            score.miss_match as int,
        ),
    ensures
        r == global_alignment_of(x@, y@, gap.open, gap.extend, score.match_score, score.miss_match),
        r.mode == AlignmentMode::Global,
        r.xlen == x@.len(),
        r.ylen == y@.len(),
        r.xstart == 0,
        r.ystart == 0,
        r.xend == x@.len(),
        r.yend == y@.len(),
        clip_free(r.operations@),
{
    let params = MatchParams { match_score: score.match_score, mismatch_score: score.miss_match };
    let mut aligner = bio::alignment::pairwise::Aligner::with_capacity(
        x.len(), y.len(), gap.open, gap.extend, params);
    aligner.global(x, y)
}

/// Relies on bio's `pairwise::Aligner::with_capacity` (which panics on a
/// positive gap score) and `Aligner::semiglobal`, which sets the mode, the two
/// lengths, filters out the clip operations, and depends on its arguments alone.
#[verifier::external_body]
pub(crate) fn bio_semiglobal(x: &[u8], y: &[u8], gap: GapPanelty, score: Score) -> (r: Alignment)
    requires
        gap.open <= 0,
        gap.extend <= 0,
        scores_fit(
            (x@.len() + y@.len()) as int,
            gap.open as int,
            gap.extend as int,
            score.match_score as int,
            score.miss_match as int,
        ),
    ensures
        r == semiglobal_alignment_of(x@, y@, gap.open, gap.extend, score.match_score, score.miss_match),
        r.mode == AlignmentMode::Semiglobal,
        r.xlen == x@.len(),
        r.ylen == y@.len(),
        clip_free(r.operations@),
{
    let params = MatchParams { match_score: score.match_score, mismatch_score: score.miss_match };
    let mut aligner = bio::alignment::pairwise::Aligner::with_capacity(
        x.len(), y.len(), gap.open, gap.extend, params);
    aligner.semiglobal(x, y)
}

/// Relies on bio's `pairwise::Aligner::with_capacity` (which panics on a
/// positive gap score) and `Aligner::local`, which sets the mode, the two
/// lengths, filters out the clip operations, and depends on its arguments alone.
#[verifier::external_body]
pub(crate) fn bio_local(x: &[u8], y: &[u8], gap: GapPanelty, score: Score) -> (r: Alignment)
    requires
        gap.open <= 0,
        gap.extend <= 0,
        scores_fit(
            (x@.len() + y@.len()) as int,
            gap.open as int,
            gap.extend as int,
            score.match_score as int,
            score.miss_match as int,
        ),
    ensures
        r == local_alignment_of(x@, y@, gap.open, gap.extend, score.match_score, score.miss_match),
        r.mode == AlignmentMode::Local,
        r.xlen == x@.len(),
        r.ylen == y@.len(),
        clip_free(r.operations@),
{
    let params = MatchParams { match_score: score.match_score, mismatch_score: score.miss_match };
    let mut aligner = bio::alignment::pairwise::Aligner::with_capacity(
        x.len(), y.len(), gap.open, gap.extend, params);
    aligner.local(x, y)
}

/// Relies on bio's `Alignment::pretty`: the x row, the marker row and the y
/// row, wrapped at `ncol` columns. It loops forever on `ncol == 0`, and its
/// row-length assertion fails on bytes that are not ASCII; the alignment
/// must be one computed for `x` and `y`.
#[verifier::external_body]
pub(crate) fn bio_pretty(a: &Alignment, x: &[u8], y: &[u8], ncol: usize) -> (r: String)
    requires
        ncol > 0,
        forall|i: int| 0 <= i < x@.len() ==> x@[i] < 128,
        forall|i: int| 0 <= i < y@.len() ==> y@[i] < 128,
        exists|open: i32, extend: i32, m: i32, mm: i32|
            *a == global_alignment_of(x@, y@, open, extend, m, mm)
            || *a == semiglobal_alignment_of(x@, y@, open, extend, m, mm)
            || *a == local_alignment_of(x@, y@, open, extend, m, mm),
    ensures
        r@ == pretty_of(*a, x@, y@, ncol),
{
    a.pretty(x, y, ncol)
}

/// Relies on bio's `pairwise::Scoring::new` (which panics on a positive gap
/// score) and `poa::Aligner::new`, which builds a one-path graph from the
/// seed and indexes its first symbol.
#[verifier::external_body]
pub(crate) fn bio_poa_new(gap: GapPanelty, score: Score, seed: &[u8]) -> (r: PoaGraph)
    requires
        gap.open <= 0,
        gap.extend <= 0,
        seed@.len() > 0,
    ensures
        poa_sequences_of(r) == seq![seed@],
        poa_scoring_of(r) == (gap.open, gap.extend, score.match_score, score.miss_match),
{
    let params = MatchParams { match_score: score.match_score, mismatch_score: score.miss_match };
    let scoring = bio::alignment::pairwise::Scoring::new(gap.open, gap.extend, params);
    PoaGraph { inner: bio::alignment::poa::Aligner::new(scoring, seed) }
}

/// Relies on bio's `poa::Aligner::global` followed by `add_to_graph`: the
/// sequence is aligned against the graph and merged into it. Scores are
/// summed in `i32` along paths through the graph and the sequence.
#[verifier::external_body]
pub(crate) fn bio_poa_add(aligner: &mut PoaGraph, s: &[u8])
    requires
        scores_fit(
            total_len(poa_sequences_of(*old(aligner))) + s@.len(),
            poa_scoring_of(*old(aligner)).0 as int,
            poa_scoring_of(*old(aligner)).1 as int,
            poa_scoring_of(*old(aligner)).2 as int,
            poa_scoring_of(*old(aligner)).3 as int,
        ),
    ensures
        poa_sequences_of(*final(aligner)) == poa_sequences_of(*old(aligner)).push(s@),
        poa_scoring_of(*final(aligner)) == poa_scoring_of(*old(aligner)),
{
    aligner.inner.global(s).add_to_graph();
}

/// Relies on bio's `poa::Aligner::global` followed by `alignment`: the
/// global alignment of the query against the graph, which is left as it
/// was. Scores are summed in `i32` along paths through the graph and the query.
#[verifier::external_body]
pub(crate) fn bio_poa_align(aligner: &mut PoaGraph, query: &[u8])
    -> (r: bio::alignment::poa::Alignment)
    requires
        scores_fit(
            total_len(poa_sequences_of(*old(aligner))) + query@.len(),
            poa_scoring_of(*old(aligner)).0 as int,
            poa_scoring_of(*old(aligner)).1 as int,
            poa_scoring_of(*old(aligner)).2 as int,
            poa_scoring_of(*old(aligner)).3 as int,
        ),
    ensures
        r == poa_alignment_of(poa_sequences_of(*old(aligner)), poa_scoring_of(*old(aligner)), query@),
        poa_sequences_of(*final(aligner)) == poa_sequences_of(*old(aligner)),
        poa_scoring_of(*final(aligner)) == poa_scoring_of(*old(aligner)),
{
    aligner.inner.global(query).alignment()
}

} // verus!
