//! Whole-sequence distances: edit (Levenshtein) distance and Hamming distance.
use vstd::prelude::*;

verus! {

/// The smaller of two naturals.
pub open spec fn min_nat(a: nat, b: nat) -> nat {
    if a <= b { a } else { b }
}

/// Unit-cost edit distance: the fewest single-symbol insertions, deletions
/// and substitutions that turn `a` into `b`.
pub open spec fn levenshtein_spec(a: Seq<u8>, b: Seq<u8>) -> nat
    decreases a.len() + b.len(),
{
    if a.len() == 0 {
        b.len()
    } else if b.len() == 0 {
        a.len()
    } else {
        let diag: nat = if a.last() == b.last() { 0 } else { 1 };
        min_nat(
            min_nat(levenshtein_spec(a.drop_last(), b) + 1, levenshtein_spec(a, b.drop_last()) + 1),
            levenshtein_spec(a.drop_last(), b.drop_last()) + diag,
        )
    }
}

/// The number of positions below `n` at which `a` and `b` differ.
pub open spec fn hamming_prefix(a: Seq<u8>, b: Seq<u8>, n: int) -> nat
    decreases n,
{
    if n <= 0 {
        0
    } else {
        hamming_prefix(a, b, n - 1) + if a[n - 1] != b[n - 1] { 1nat } else { 0nat }
    }
}

/// The number of positions at which two sequences of equal length differ.
pub open spec fn hamming_spec(a: Seq<u8>, b: Seq<u8>) -> nat {
    hamming_prefix(a, b, a.len() as int)
}

/// The edit distance from a sequence to itself is zero.
pub proof fn lemma_levenshtein_self(a: Seq<u8>)
    ensures
        levenshtein_spec(a, a) == 0,
    decreases a.len(),
{
    if a.len() > 0 {
        lemma_levenshtein_self(a.drop_last());
    }
}

/// The Hamming distance from a sequence to itself is zero.
pub proof fn lemma_hamming_self(a: Seq<u8>)
    ensures
        hamming_spec(a, a) == 0,
{
    lemma_hamming_prefix_self(a, a.len() as int);
}

proof fn lemma_hamming_prefix_self(a: Seq<u8>, n: int)
    requires
        n <= a.len(),
    ensures
        hamming_prefix(a, a, n) == 0,
    decreases n,
{
    if n > 0 {
        lemma_hamming_prefix_self(a, n - 1);
    }
}

/// The edit distance is zero exactly when the sequences are equal.
pub proof fn lemma_levenshtein_zero_iff_equal(a: Seq<u8>, b: Seq<u8>)
    ensures
        levenshtein_spec(a, b) == 0 <==> a == b,
    decreases a.len() + b.len(),
{
    if a == b {
        lemma_levenshtein_self(a);
    } else if levenshtein_spec(a, b) == 0 {
        lemma_levenshtein_bounds(a, b);
        assert(a.len() == b.len());
        if a.len() == 0 {
            assert(a =~= b);
        } else {
            lemma_levenshtein_zero_iff_equal(a.drop_last(), b.drop_last());
            assert(a =~= a.drop_last().push(a.last()));
            assert(b =~= b.drop_last().push(b.last()));
        }
    }
}

/// Edit distance is symmetric.
pub proof fn lemma_levenshtein_symmetric(a: Seq<u8>, b: Seq<u8>)
    ensures
        levenshtein_spec(a, b) == levenshtein_spec(b, a),
    decreases a.len() + b.len(),
{
    if a.len() > 0 && b.len() > 0 {
        lemma_levenshtein_symmetric(a.drop_last(), b);
        lemma_levenshtein_symmetric(a, b.drop_last());
        lemma_levenshtein_symmetric(a.drop_last(), b.drop_last());
    }
}

/// Edit distance is at least the difference of the lengths and at most
/// their sum.
pub proof fn lemma_levenshtein_bounds(a: Seq<u8>, b: Seq<u8>)
    ensures
        levenshtein_spec(a, b) >= a.len() - b.len(),
        levenshtein_spec(a, b) >= b.len() - a.len(),
        levenshtein_spec(a, b) <= a.len() + b.len(),
    decreases a.len() + b.len(),
{
    if a.len() > 0 && b.len() > 0 {
        lemma_levenshtein_bounds(a.drop_last(), b);
        lemma_levenshtein_bounds(a, b.drop_last());
        lemma_levenshtein_bounds(a.drop_last(), b.drop_last());
    }
}

/// Edit distance obeys the triangle inequality.
pub proof fn lemma_levenshtein_triangle(a: Seq<u8>, b: Seq<u8>, c: Seq<u8>)
    ensures
        levenshtein_spec(a, c) <= levenshtein_spec(a, b) + levenshtein_spec(b, c),
    decreases a.len() + b.len() + c.len(),
{
    lemma_levenshtein_bounds(a, b);
    lemma_levenshtein_bounds(b, c);
    lemma_levenshtein_bounds(a, c);
    if a.len() > 0 && b.len() > 0 && c.len() > 0 {
        let (a1, b1, c1) = (a.drop_last(), b.drop_last(), c.drop_last());
        lemma_levenshtein_triangle(a1, b, c);
        lemma_levenshtein_triangle(a, b, c1);
        lemma_levenshtein_triangle(a, b1, c);
        lemma_levenshtein_triangle(a1, b1, c);
        lemma_levenshtein_triangle(a, b1, c1);
        lemma_levenshtein_triangle(a1, b1, c1);
        lemma_levenshtein_bounds(a1, c);
        lemma_levenshtein_bounds(a, c1);
    }
}

} // verus!
