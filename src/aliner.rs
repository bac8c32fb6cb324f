//! Alignment of two or more DNA/RNA sequences.
use vstd::prelude::*;

use crate::distance::{
    hamming_spec, lemma_hamming_self, lemma_levenshtein_self, lemma_levenshtein_symmetric,
    lemma_levenshtein_triangle, levenshtein_spec,
};
use crate::external::{
    bio_global, bio_hamming, bio_hamming_simd, bio_levenshtein, bio_levenshtein_simd, bio_local,
    bio_poa_add, bio_poa_align, bio_poa_new, bio_pretty, bio_semiglobal, global_alignment_of,
    local_alignment_of, poa_alignment_of, poa_scoring_of, poa_sequences_of, pretty_of,
    scores_fit, semiglobal_alignment_of, total_len,
};
use bio::alignment::Alignment;

verus! {

/// Errors that the alignment layer reports to its callers.
#[derive(Debug, Clone, Copy, PartialEq, Eq, Structural)]
pub enum DiffError {
    /// A gap penalty was zero or positive.
    ConfigurationError,
    /// Hamming distance was asked for on sequences of different lengths.
    LengthMismatch,
    /// Mutation statistics were asked for before any pairwise alignment.
    NotAligned,
}

/// Substitution scores: one for equal symbols, one for different symbols.
#[derive(Debug, Clone, Copy, PartialEq, Eq, Structural)]
pub struct Score {
    pub match_score: i32,
    pub miss_match: i32,
}

impl Score {
    /// The score of aligning `a` against `b`.
    pub open spec fn spec_score(&self, a: u8, b: u8) -> i32 {
        if a == b {
            self.match_score
        } else {
            self.miss_match
        }
    }

    pub fn new(match_score: i32, miss_match: i32) -> (r: Self)
        ensures
            r.match_score == match_score,
            r.miss_match == miss_match,
    {
        Score { match_score, miss_match }
    }

    pub fn match_score(&self) -> (r: i32)
        ensures
            r == self.match_score,
    {
        self.match_score
    }

    pub fn miss_match(&self) -> (r: i32)
        ensures
            r == self.miss_match,
    {
        self.miss_match
    }

    pub fn score(&self, a: u8, b: u8) -> (r: i32)
        ensures
            r == self.spec_score(a, b),
    {
        if a == b {
            self.match_score
        } else {
            self.miss_match
        }
    }
}

impl From<(i32, i32)> for Score {
    fn from(value: (i32, i32)) -> (r: Self) {
        Score::new(value.0, value.1)
    }
}

impl vstd::std_specs::convert::FromSpecImpl<(i32, i32)> for Score {
    open spec fn obeys_from_spec() -> bool {
        true
    }

    open spec fn from_spec(v: (i32, i32)) -> Self {
        Score { match_score: v.0, miss_match: v.1 }
    }
}

/// Affine gap penalty: a gap is charged `open` once and `extend` per symbol.
#[derive(Debug, Clone, Copy, PartialEq, Eq, Structural)]
pub struct GapPanelty {
    pub open: i32,
    pub extend: i32,
}

impl GapPanelty {
    /// Both penalties are strictly negative.
    pub open spec fn wf(&self) -> bool {
        self.open < 0 && self.extend < 0
    }

    pub fn new(open: i32, extend: i32) -> (r: Result<Self, DiffError>)
        ensures
            (open < 0 && extend < 0) <==> r is Ok,
            r is Ok ==> r->Ok_0.open == open && r->Ok_0.extend == extend && r->Ok_0.wf(),
            r is Err ==> r->Err_0 == DiffError::ConfigurationError,
    {
        if open < 0 && extend < 0 {
            Ok(GapPanelty { open, extend })
        } else {
            Err(DiffError::ConfigurationError)
        }
    }
}

/// True when every byte of `s` is ASCII.
pub open spec fn is_ascii(s: Seq<u8>) -> bool {
    forall|i: int| 0 <= i < s.len() ==> s[i] < 128
}

/// The sequences that a partial-order graph is built from: the seed, then
/// each extra reference in order.
pub open spec fn poa_inputs(seed: Seq<u8>, references: Option<Vec<Vec<u8>>>) -> Seq<Seq<u8>> {
    match references {
        Some(v) => seq![seed] + v@.map_values(|r: Vec<u8>| r@),
        None => seq![seed],
    }
}

/// A reference sequence, a query sequence to align against it, the scores
/// to align them with, and the last pairwise alignment computed.
#[derive(Debug)]
pub struct DiffStat<'seq> {
    /// Master sequence
    reference: &'seq [u8],
    /// The one that will be aligned
    query: &'seq [u8],
    /// Gap penalty used while aligning
    gap_penalty: GapPanelty,
    /// Match and miss-match score used while aligning
    score: Score,
    /// Alignment of the query with respect to the reference
    alignment: Option<Alignment>,
}

impl<'seq> DiffStat<'seq> {
    pub closed spec fn reference_view(&self) -> Seq<u8> {
        self.reference@
    }

    pub closed spec fn query_view(&self) -> Seq<u8> {
        self.query@
    }

    pub closed spec fn gap_view(&self) -> GapPanelty {
        self.gap_penalty
    }

    pub closed spec fn score_view(&self) -> Score {
        self.score
    }

    pub closed spec fn alignment_view(&self) -> Option<Alignment> {
        self.alignment
    }

    /// The global alignment of the query against the reference.
    pub open spec fn global_result(&self) -> Alignment {
        global_alignment_of(
            self.reference_view(),
            self.query_view(),
            self.gap_view().open,
            self.gap_view().extend,
            self.score_view().match_score,
            self.score_view().miss_match,
        )
    }

    /// The semiglobal alignment of the query against the reference.
    pub open spec fn semiglobal_result(&self) -> Alignment {
        semiglobal_alignment_of(
            self.reference_view(),
            self.query_view(),
            self.gap_view().open,
            self.gap_view().extend,
            self.score_view().match_score,
            self.score_view().miss_match,
        )
    }

    /// The local alignment of the query against the reference.
    pub open spec fn local_result(&self) -> Alignment {
        local_alignment_of(
            self.reference_view(),
            self.query_view(),
            self.gap_view().open,
            self.gap_view().extend,
            self.score_view().match_score,
            self.score_view().miss_match,
        )
    }

    /// The gap penalty is valid, and an alignment held is one of the three
    /// alignments of the query against the reference.
    pub open spec fn wf(&self) -> bool {
        &&& self.gap_view().wf()
        &&& match self.alignment_view() {
            Some(a) => a == self.global_result() || a == self.semiglobal_result() || a
                == self.local_result(),
            None => true,
        }
    }

    /// The scores are small enough for the two sequences that no score
    /// computed while aligning them leaves the `i32` range.
    pub open spec fn scores_fit(&self) -> bool {
        scores_fit(
            (self.reference_view().len() + self.query_view().len()) as int,
            self.gap_view().open as int,
            self.gap_view().extend as int,
            self.score_view().match_score as int,
            self.score_view().miss_match as int,
        )
    }

    /// Both hold the same sequences and scores.
    pub open spec fn same_inputs(&self, other: &Self) -> bool {
        &&& other.reference_view() == self.reference_view()
        &&& other.query_view() == self.query_view()
        &&& other.gap_view() == self.gap_view()
        &&& other.score_view() == self.score_view()
    }

    /// A comparison of `query` against `reference`; nothing is aligned yet.
    pub fn new(reference: &'seq [u8], query: &'seq [u8], gap_penalty: GapPanelty, score: Score) -> (r: Self)
        requires
            gap_penalty.wf(),
        ensures
            r.wf(),
            r.reference_view() == reference@,
            r.query_view() == query@,
            r.gap_view() == gap_penalty,
            r.score_view() == score,
            r.alignment_view() is None,
    {
        DiffStat { reference, query, gap_penalty, score, alignment: None }
    }

    pub fn reference(&self) -> (r: &'seq [u8])
        ensures
            r@ == self.reference_view(),
    {
        self.reference
    }

    pub fn query(&self) -> (r: &'seq [u8])
        ensures
            r@ == self.query_view(),
    {
        self.query
    }

    /// Levenshtein (edit) distance between reference and query.
    pub fn levenshtein(&self) -> (r: u32)
        requires
            self.reference_view().len() <= u32::MAX,
            self.query_view().len() <= u32::MAX,
        ensures
            r == levenshtein_spec(self.reference_view(), self.query_view()),
    {
        bio_levenshtein(self.reference, self.query)
    }

    /// Levenshtein (edit) distance between reference and query, computed
    /// with SIMD instructions.
    pub fn levenshtein_simd(&self) -> (r: u32)
        requires
            self.reference_view().len() <= i32::MAX,
            self.query_view().len() <= i32::MAX,
        ensures
            r == levenshtein_spec(self.reference_view(), self.query_view()),
    {
        bio_levenshtein_simd(self.reference, self.query)
    }

    /// Hamming distance between reference and query; defined only when
    /// their lengths are equal.
    pub fn hamming_distance(&self) -> (r: Result<u64, DiffError>)
        ensures
            r is Ok <==> self.reference_view().len() == self.query_view().len(),
            r is Ok ==> r->Ok_0 == hamming_spec(self.reference_view(), self.query_view()),
            r is Err ==> r->Err_0 == DiffError::LengthMismatch,
    {
        if self.reference.len() != self.query.len() {
            return Err(DiffError::LengthMismatch);
        }
        Ok(bio_hamming(self.reference, self.query))
    }

    /// Hamming distance between reference and query, computed with SIMD
    /// instructions; defined only when their lengths are equal.
    pub fn hamming_distance_simd(&self) -> (r: Result<u64, DiffError>)
        requires
            self.reference_view().len() <= u32::MAX,
        ensures
            r is Ok <==> self.reference_view().len() == self.query_view().len(),
            r is Ok ==> r->Ok_0 == hamming_spec(self.reference_view(), self.query_view()),
            r is Err ==> r->Err_0 == DiffError::LengthMismatch,
    {
        if self.reference.len() != self.query.len() {
            return Err(DiffError::LengthMismatch);
        }
        Ok(bio_hamming_simd(self.reference, self.query))
    }

    /// Semiglobal alignment: the reference is aligned whole, the query's
    /// overhangs are free.
    pub fn pairwise_aligner_semiglobal(&mut self)
        requires
            old(self).wf(),
            old(self).scores_fit(),
        ensures
            final(self).wf(),
            old(self).same_inputs(final(self)),
            final(self).alignment_view() == Some(old(self).semiglobal_result()),
    {
        self.alignment = Some(bio_semiglobal(self.reference, self.query, self.gap_penalty, self.score));
    }

    /// Global alignment: both sequences are aligned end to end, with no
    /// clipped ends.
    pub fn pairwise_aligner_global(&mut self)
        requires
            old(self).wf(),
            old(self).scores_fit(),
        ensures
            final(self).wf(),
            old(self).same_inputs(final(self)),
            final(self).alignment_view() == Some(old(self).global_result()),
            final(self).alignment_view()->Some_0.xstart == 0,
            final(self).alignment_view()->Some_0.ystart == 0,
            final(self).alignment_view()->Some_0.xend == old(self).reference_view().len(),
            final(self).alignment_view()->Some_0.yend == old(self).query_view().len(),
            crate::external::clip_free(final(self).alignment_view()->Some_0.operations@),
    {
        self.alignment = Some(bio_global(self.reference, self.query, self.gap_penalty, self.score));
    }

    /// Local alignment: the best-scoring pair of substrings.
    pub fn pairwise_aligner_local(&mut self)
        requires
            old(self).wf(),
            old(self).scores_fit(),
        ensures
            final(self).wf(),
            old(self).same_inputs(final(self)),
            final(self).alignment_view() == Some(old(self).local_result()),
    {
        self.alignment = Some(bio_local(self.reference, self.query, self.gap_penalty, self.score));
    }

    /// Partial-order alignment: a graph is built from the reference and
    /// then from each of `references` in turn, and the query is aligned
    /// globally against it. An empty reference gives no graph to align
    /// against, and the result is then `None`. Its running time grows as `O(N^2 * L^2)` for `N`
    /// sequences of length `L`, so it suits small inputs only.
    pub fn partial_order_alignment(
        &self,
        gap_penalty: GapPanelty,
        score: Score,
        references: Option<Vec<Vec<u8>>>,
    ) -> (r: Option<bio::alignment::poa::Alignment>)
        requires
            gap_penalty.wf(),
            scores_fit(
                total_len(poa_inputs(self.reference_view(), references)) + self.query_view().len(),
                gap_penalty.open as int,
                gap_penalty.extend as int,
                score.match_score as int,
                score.miss_match as int,
            ),
        ensures
            r is None <==> self.reference_view().len() == 0,
            r is Some ==> r->Some_0 == poa_alignment_of(
                poa_inputs(self.reference_view(), references),
                (gap_penalty.open, gap_penalty.extend, score.match_score, score.miss_match),
                self.query_view(),
            ),
    {
        if self.reference.len() == 0 {
            return None;
        }
        let ghost all = poa_inputs(self.reference_view(), references);
        let ghost bound = total_len(all) + self.query_view().len();
        let mut graph = bio_poa_new(gap_penalty, score, self.reference);
        proof {
            assert(all.subrange(0, 1) =~= seq![self.reference@]);
        }
        match &references {
            Some(v) => {
                let n = v.len();
                let mut i: usize = 0;
                while i < n
                    invariant
                        n == v@.len(),
                        i <= n,
                        all == seq![self.reference@] + v@.map_values(|r: Vec<u8>| r@),
                        bound == total_len(all) + self.query_view().len(),
                        scores_fit(
                            bound,
                            gap_penalty.open as int,
                            gap_penalty.extend as int,
                            score.match_score as int,
                            score.miss_match as int,
                        ),
                        poa_sequences_of(graph) == all.subrange(0, i + 1),
                        poa_scoring_of(graph) == (
                            gap_penalty.open,
                            gap_penalty.extend,
                            score.match_score,
                            score.miss_match,
                        ),
                    decreases n - i,
                {
                    proof {
                        assert(all.subrange(0, i + 2).drop_last() =~= all.subrange(0, i + 1));
                        lemma_total_len_prefix(all, i + 2);
                        lemma_scores_fit_shorter(
                            total_len(all.subrange(0, i + 2)),
                            bound,
                            gap_penalty.open as int,
                            gap_penalty.extend as int,
                            score.match_score as int,
                            score.miss_match as int,
                        );
                    }
                    bio_poa_add(&mut graph, v[i].as_slice());
                    proof {
                        assert(all.subrange(0, i + 1).push(v@[i as int]@) =~= all.subrange(0, i + 2));
                    }
                    i = i + 1;
                }
                proof {
                    assert(all.subrange(0, n + 1) =~= all);
                }
            },
            None => {
                proof {
                    assert(all.subrange(0, 1) =~= all);
                }
            },
        }
        proof {
            lemma_total_len_nonneg(all);
            assert(poa_sequences_of(graph) == all);
            lemma_scores_fit_shorter(
                total_len(poa_sequences_of(graph)) + self.query_view().len(),
                bound,
                gap_penalty.open as int,
                gap_penalty.extend as int,
                score.match_score as int,
                score.miss_match as int,
            );
        }
        Some(bio_poa_align(&mut graph, self.query))
    }

    /// The last alignment rendered as three rows (reference, markers,
    /// query) wrapped at `coloumn` columns; `None` when nothing is aligned,
    /// when `coloumn` is zero, or when a sequence holds a byte that is not ASCII.
    pub fn pretty_string(&self, coloumn: usize) -> (r: Option<String>)
        requires
            self.wf(),
        ensures
            r is Some <==> (self.alignment_view() is Some && coloumn > 0 && is_ascii(
                self.reference_view(),
            ) && is_ascii(self.query_view())),
            r is Some ==> r->Some_0@ == pretty_of(
                self.alignment_view()->Some_0,
                self.reference_view(),
                self.query_view(),
                coloumn,
            ),
    {
        if coloumn == 0 || !all_ascii(self.reference) || !all_ascii(self.query) {
            return None;
        }
        match &self.alignment {
            Some(a) => Some(bio_pretty(a, self.reference, self.query, coloumn)),
            None => None,
        }
    }

    /// The last pairwise alignment, if any.
    pub fn alignment(&self) -> (r: Option<&Alignment>)
        ensures
            r is Some <==> self.alignment_view() is Some,
            r is Some ==> *r->Some_0 == self.alignment_view()->Some_0,
    {
        match &self.alignment {
            Some(a) => Some(a),
            None => None,
        }
    }
}

/// Aligning the same sequences with the same scores gives the same
/// alignment, in each of the three modes.
pub proof fn lemma_alignment_repeatable(d1: DiffStat, d2: DiffStat)
    requires
        d1.same_inputs(&d2),
    ensures
        d1.global_result() == d2.global_result(),
        d1.semiglobal_result() == d2.semiglobal_result(),
        d1.local_result() == d2.local_result(),
{
}

/// A comparison of a sequence with itself has edit distance and Hamming
/// distance zero.
pub proof fn lemma_identical_distances(d: DiffStat)
    requires
        d.reference_view() == d.query_view(),
    ensures
        levenshtein_spec(d.reference_view(), d.query_view()) == 0,
        hamming_spec(d.reference_view(), d.query_view()) == 0,
{
    lemma_levenshtein_self(d.reference_view());
    lemma_hamming_self(d.reference_view());
}

/// Swapping reference and query leaves the edit distance unchanged.
pub proof fn lemma_swapped_levenshtein(d1: DiffStat, d2: DiffStat)
    requires
        d1.reference_view() == d2.query_view(),
        d1.query_view() == d2.reference_view(),
    ensures
        levenshtein_spec(d1.reference_view(), d1.query_view()) == levenshtein_spec(
            d2.reference_view(),
            d2.query_view(),
        ),
{
    lemma_levenshtein_symmetric(d1.reference_view(), d1.query_view());
}

/// The edit distance from `a` to `c` is at most the distance from `a` to
/// `b` plus the distance from `b` to `c`.
pub proof fn lemma_levenshtein_through(dab: DiffStat, dbc: DiffStat, dac: DiffStat)
    requires
        dab.query_view() == dbc.reference_view(),
        dab.reference_view() == dac.reference_view(),
        dbc.query_view() == dac.query_view(),
    ensures
        levenshtein_spec(dac.reference_view(), dac.query_view()) <= levenshtein_spec(
            dab.reference_view(),
            dab.query_view(),
        ) + levenshtein_spec(dbc.reference_view(), dbc.query_view()),
{
    lemma_levenshtein_triangle(dab.reference_view(), dab.query_view(), dbc.query_view());
}

/// Partial-order alignment of the same sequences with the same scores gives
/// the same alignment.
pub proof fn lemma_poa_repeatable(
    d: DiffStat,
    gap1: GapPanelty,
    score1: Score,
    references1: Option<Vec<Vec<u8>>>,
    gap2: GapPanelty,
    score2: Score,
    references2: Option<Vec<Vec<u8>>>,
)
    requires
        gap1 == gap2,
        score1 == score2,
        poa_inputs(d.reference_view(), references1) == poa_inputs(d.reference_view(), references2),
    ensures
        poa_alignment_of(
            poa_inputs(d.reference_view(), references1),
            (gap1.open, gap1.extend, score1.match_score, score1.miss_match),
            d.query_view(),
        ) == poa_alignment_of(
            poa_inputs(d.reference_view(), references2),
            (gap2.open, gap2.extend, score2.match_score, score2.miss_match),
            d.query_view(),
        ),
{
}

/// No extra references and an empty list of them build the graph from the
/// same sequences: the seed alone.
pub proof fn lemma_poa_no_references(seed: Seq<u8>, empty: Vec<Vec<u8>>)
    requires
        empty@.len() == 0,
    ensures
        poa_inputs(seed, None) == poa_inputs(seed, Some(empty)),
        poa_inputs(seed, None) == seq![seed],
{
    assert(poa_inputs(seed, Some(empty)) =~= seq![seed]);
}

/// A prefix of a list of sequences is no longer, in combined length, than
/// the whole list.
proof fn lemma_total_len_prefix(seqs: Seq<Seq<u8>>, i: int)
    requires
        0 <= i <= seqs.len(),
    ensures
        0 <= total_len(seqs.subrange(0, i)) <= total_len(seqs),
    decreases seqs.len(),
{
    if i < seqs.len() {
        lemma_total_len_prefix(seqs.drop_last(), i);
        assert(seqs.drop_last().subrange(0, i) =~= seqs.subrange(0, i));
    } else {
        assert(seqs.subrange(0, i) =~= seqs);
        lemma_total_len_nonneg(seqs);
    }
}

proof fn lemma_total_len_nonneg(seqs: Seq<Seq<u8>>)
    ensures
        total_len(seqs) >= 0,
    decreases seqs.len(),
{
    if seqs.len() > 0 {
        lemma_total_len_nonneg(seqs.drop_last());
    }
}

/// Scores that fit a combined length also fit any shorter one.
proof fn lemma_scores_fit_shorter(len: int, bound: int, open: int, extend: int, m: int, mm: int)
    requires
        0 <= len <= bound,
        scores_fit(bound, open, extend, m, mm),
    ensures
        scores_fit(len, open, extend, m, mm),
{
    let w = crate::external::abs_int(open) + crate::external::abs_int(extend)
        + crate::external::abs_int(m) + crate::external::abs_int(mm);
    assert(w >= 0);
    assert((len + 2) * w <= (bound + 2) * w) by (nonlinear_arith)
        requires
            0 <= len <= bound,
            w >= 0,
    ;
}

/// Whether every byte of `s` is ASCII.
pub fn all_ascii(s: &[u8]) -> (r: bool)
    ensures
        r == is_ascii(s@),
{
    let mut i: usize = 0;
    while i < s.len()
        invariant
            i <= s@.len(),
            forall|j: int| 0 <= j < i ==> s@[j] < 128,
        decreases s@.len() - i,
    {
        if s[i] >= 128 {
            return false;
        }
        i = i + 1;
    }
    true
}

} // verus!
