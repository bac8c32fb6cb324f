//! Tallies of the mutation events that an alignment implies.
use vstd::prelude::*;

use crate::aliner::{DiffError, DiffStat};
use bio::alignment::AlignmentOperation;

verus! {

/// The counts of a [`MutationStats`], as mathematical integers.
pub struct StatsCounts {
    pub matches: nat,
    pub miss_match: nat,
    pub substitution: nat,
    pub insertions: nat,
    pub deletions: nat,
    pub total: nat,
}

impl StatsCounts {
    pub open spec fn zero() -> StatsCounts {
        StatsCounts {
            matches: 0,
            miss_match: 0,
            substitution: 0,
            insertions: 0,
            deletions: 0,
            total: 0,
        }
    }

    /// Every miss-match is a substitution, an insertion or a deletion, and
    /// every counted event is a match or a miss-match.
    pub open spec fn consistent(&self) -> bool {
        &&& self.total == self.matches + self.miss_match
        &&& self.miss_match == self.substitution + self.insertions + self.deletions
    }

    /// The counts after one more operation: clips are not counted.
    pub open spec fn step(self, op: AlignmentOperation) -> StatsCounts {
        match op {
            AlignmentOperation::Match => StatsCounts {
                matches: self.matches + 1,
                total: self.total + 1,
                ..self
            },
            AlignmentOperation::Subst => StatsCounts {
                substitution: self.substitution + 1,
                miss_match: self.miss_match + 1,
                total: self.total + 1,
                ..self
            },
            AlignmentOperation::Ins => StatsCounts {
                insertions: self.insertions + 1,
                miss_match: self.miss_match + 1,
                total: self.total + 1,
                ..self
            },
            AlignmentOperation::Del => StatsCounts {
                deletions: self.deletions + 1,
                miss_match: self.miss_match + 1,
                total: self.total + 1,
                ..self
            },
            _ => self,
        }
    }
}

/// The counts obtained by folding `ops` from left to right, from zero.
pub open spec fn stats_of(ops: Seq<AlignmentOperation>) -> StatsCounts
    decreases ops.len(),
{
    if ops.len() == 0 {
        StatsCounts::zero()
    } else {
        stats_of(ops.drop_last()).step(ops.last())
    }
}

/// True of an operation that is not a clip.
pub open spec fn is_counted(op: AlignmentOperation) -> bool {
    !(op is Xclip) && !(op is Yclip)
}

/// Counts of matches, miss-matches and their kinds along an alignment.
#[derive(Debug, Clone, Copy, PartialEq, Eq, Structural)]
pub struct MutationStats {
    matches: usize,
    miss_match: usize,
    substitution: usize,
    insertions: usize,
    deletions: usize,
    total: usize,
}

impl View for MutationStats {
    type V = StatsCounts;

    closed spec fn view(&self) -> StatsCounts {
        StatsCounts {
            matches: self.matches as nat,
            miss_match: self.miss_match as nat,
            substitution: self.substitution as nat,
            insertions: self.insertions as nat,
            deletions: self.deletions as nat,
            total: self.total as nat,
        }
    }
}

impl Default for MutationStats {
    fn default() -> (r: Self)
        ensures
            r@ == StatsCounts::zero(),
    {
        MutationStats::new()
    }
}

impl MutationStats {
    /// All counts zero.
    pub fn new() -> (r: Self)
        ensures
            r@ == StatsCounts::zero(),
    {
        MutationStats {
            matches: 0,
            miss_match: 0,
            substitution: 0,
            insertions: 0,
            deletions: 0,
            total: 0,
        }
    }

    pub fn matches(&self) -> (r: usize)
        ensures
            r == self@.matches,
    {
        self.matches
    }

    pub fn miss_match(&self) -> (r: usize)
        ensures
            r == self@.miss_match,
    {
        self.miss_match
    }

    pub fn substitution(&self) -> (r: usize)
        ensures
            r == self@.substitution,
    {
        self.substitution
    }

    pub fn insertions(&self) -> (r: usize)
        ensures
            r == self@.insertions,
    {
        self.insertions
    }

    pub fn deletions(&self) -> (r: usize)
        ensures
            r == self@.deletions,
    {
        self.deletions
    }

    pub fn total(&self) -> (r: usize)
        ensures
            r == self@.total,
    {
        self.total
    }

    /// Count one match.
    pub fn inc_match(&mut self)
        requires
            old(self)@.total < usize::MAX,
            old(self)@.matches < usize::MAX,
        ensures
            final(self)@ == old(self)@.step(AlignmentOperation::Match),
            old(self)@.consistent() ==> final(self)@.consistent(),
    {
        self.matches = self.matches + 1;
        self.total = self.total + 1;
    }

    /// Count one miss-match of no particular kind.
    pub fn inc_miss_match(&mut self)
        requires
            old(self)@.total < usize::MAX,
            old(self)@.miss_match < usize::MAX,
        ensures
            final(self)@ == (StatsCounts {
                miss_match: old(self)@.miss_match + 1,
                total: old(self)@.total + 1,
                ..old(self)@
            }),
    {
        self.miss_match = self.miss_match + 1;
        self.total = self.total + 1;
    }

    /// Count one substitution.
    pub fn inc_substitution(&mut self)
        requires
            old(self)@.total < usize::MAX,
            old(self)@.substitution < usize::MAX,
            old(self)@.miss_match < usize::MAX,
        ensures
            final(self)@ == old(self)@.step(AlignmentOperation::Subst),
            old(self)@.consistent() ==> final(self)@.consistent(),
    {
        self.substitution = self.substitution + 1;
        self.inc_miss_match();
    }

    /// Count one insertion.
    pub fn inc_insertions(&mut self)
        requires
            old(self)@.total < usize::MAX,
            old(self)@.insertions < usize::MAX,
            old(self)@.miss_match < usize::MAX,
        ensures
            final(self)@ == old(self)@.step(AlignmentOperation::Ins),
            old(self)@.consistent() ==> final(self)@.consistent(),
    {
        self.insertions = self.insertions + 1;
        self.inc_miss_match();
    }

    /// Count one deletion.
    pub fn inc_deletions(&mut self)
        requires
            old(self)@.total < usize::MAX,
            old(self)@.deletions < usize::MAX,
            old(self)@.miss_match < usize::MAX,
        ensures
            final(self)@ == old(self)@.step(AlignmentOperation::Del),
            old(self)@.consistent() ==> final(self)@.consistent(),
    {
        self.deletions = self.deletions + 1;
        self.inc_miss_match();
    }
}

/// The counts of a sequence of operations: the total is the number of
/// operations that are not clips, and it splits into matches and
/// miss-matches.
pub proof fn lemma_stats_total(ops: Seq<AlignmentOperation>)
    ensures
        stats_of(ops).total == ops.filter(|op: AlignmentOperation| is_counted(op)).len(),
        stats_of(ops).consistent(),
        stats_of(ops).total <= ops.len(),
    decreases ops.len(),
{
    reveal(Seq::filter);
    if ops.len() > 0 {
        lemma_stats_total(ops.drop_last());
    }
}

/// Folds the operations of `ops` into counts.
pub fn count_operations(ops: &Vec<AlignmentOperation>) -> (r: MutationStats)
    ensures
        r@ == stats_of(ops@),
        r@.consistent(),
        r@.total == ops@.filter(|op: AlignmentOperation| is_counted(op)).len(),
{
    proof {
        lemma_stats_total(ops@);
    }
    let mut ms = MutationStats::new();
    let mut i: usize = 0;
    while i < ops.len()
        invariant
            i <= ops@.len(),
            ms@ == stats_of(ops@.subrange(0, i as int)),
            ms@.consistent(),
            ms@.total <= i,
        decreases ops@.len() - i,
    {
        proof {
            assert(ops@.subrange(0, i + 1).drop_last() =~= ops@.subrange(0, i as int));
        }
        match ops[i] {
            AlignmentOperation::Match => ms.inc_match(),
            AlignmentOperation::Subst => ms.inc_substitution(),
            AlignmentOperation::Del => ms.inc_deletions(),
            AlignmentOperation::Ins => ms.inc_insertions(),
            _ => {},
        }
        i = i + 1;
    }
    proof {
        assert(ops@.subrange(0, ops@.len() as int) =~= ops@);
    }
    ms
}

/// Mutation statistics of an aligned [`DiffStat`].
pub struct Muatation<'m> {
    diffstat: &'m DiffStat<'m>,
}

impl<'m> Muatation<'m> {
    pub closed spec fn diffstat_view(&self) -> DiffStat<'m> {
        *self.diffstat
    }

    /// Mutation statistics over `diffstat`, which must hold an alignment.
    pub fn from(diffstat: &'m DiffStat<'m>) -> (r: Result<Self, DiffError>)
        ensures
            r is Ok <==> diffstat.alignment_view() is Some,
            r is Ok ==> r->Ok_0.diffstat_view() == *diffstat,
            r is Err ==> r->Err_0 == DiffError::NotAligned,
    {
        match diffstat.alignment() {
            Some(_) => Ok(Muatation { diffstat }),
            None => Err(DiffError::NotAligned),
        }
    }

    /// The counts of the alignment's operations, folded left to right.
    pub fn mutastion_score(&self) -> (r: Option<MutationStats>)
        ensures
            r is Some <==> self.diffstat_view().alignment_view() is Some,
            r is Some ==> r->Some_0@ == stats_of(
                self.diffstat_view().alignment_view()->Some_0.operations@,
            ),
            r is Some ==> r->Some_0@.consistent(),
    {
        match self.diffstat.alignment() {
            Some(a) => Some(count_operations(&a.operations)),
            None => None,
        }
    }
}

} // verus!
