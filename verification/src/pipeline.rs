//! Outcome accounting for the linking pipeline.
//!
//! The pipeline runs with many concurrent walker producers and a single
//! consumer: the consumer plans a link for each received `Source`,
//! executes it, and tallies what happened. The consumer's decisions —
//! which outcome a planning result and an execution result amount to, and
//! how outcomes accumulate into counts — live here; the caller runs the
//! loop and performs the filesystem work.

use crate::link::{Error, Link, SkipReason};
use vstd::prelude::*;

verus! {

/// What became of one `Source` drained by the consumer.
#[derive(Clone, Copy, Debug, PartialEq, Eq, Structural)]
pub enum Outcome {
    /// A link was planned and created: counted as linked.
    Linked,
    /// Planning declined (already linked, or a conflict): counted as
    /// skipped.
    Skipped,
    /// A hard error — unreadable source, or execution failed: reported by
    /// the caller, counted in neither tally.
    Failed,
}

/// The outcome an entry amounts to: a planned-and-executed link is
/// linked, a skip-class rejection is skipped, and a hard error on either
/// side — an unreadable source, or a failed execution — is a failure that
/// neither tally counts.
pub open spec fn spec_outcome(plan: Result<Link, Error>, exec_ok: bool) -> Outcome {
    match plan {
        Ok(_) => if exec_ok {
            Outcome::Linked
        } else {
            Outcome::Failed
        },
        Err(Error::Skip(_)) => Outcome::Skipped,
        Err(Error::Io) => Outcome::Failed,
    }
}

/// Classifies one entry's planning result together with its execution
/// result (`exec_ok` is ignored when nothing was planned).
pub fn outcome_for(plan: &Result<Link, Error>, exec_ok: bool) -> (o: Outcome)
    ensures
        o == spec_outcome(*plan, exec_ok),
{
    match plan {
        Ok(_) => if exec_ok {
            Outcome::Linked
        } else {
            Outcome::Failed
        },
        Err(Error::Skip(_)) => Outcome::Skipped,
        Err(Error::Io) => Outcome::Failed,
    }
}

/// A skip-class planning failure — an already-linked destination or a
/// conflict — is always counted as skipped, whatever execution reported:
/// nothing was planned for it, so nothing could run.
pub proof fn lemma_skip_class_counts_as_skipped(reason: SkipReason, exec_ok: bool)
    ensures
        spec_outcome(Err(Error::Skip(reason)), exec_ok) == Outcome::Skipped,
{
}

/// How many entries of `s` had outcome `o`.
pub open spec fn count_outcome(s: Seq<Outcome>, o: Outcome) -> int
    decreases s.len(),
{
    if s.len() == 0 {
        0
    } else {
        count_outcome(s.drop_last(), o) + if s.last() == o {
            1int
        } else {
            0int
        }
    }
}

/// An outcome's count never exceeds the run's length.
pub proof fn lemma_count_le_len(s: Seq<Outcome>, o: Outcome)
    ensures
        0 <= count_outcome(s, o) <= s.len(),
    decreases s.len(),
{
    if s.len() > 0 {
        lemma_count_le_len(s.drop_last(), o);
    }
}

/// The two counters the consumer accumulates.
#[derive(Clone, Copy, Debug, PartialEq, Eq, Structural)]
pub struct Tally {
    pub linked: usize,
    pub skipped: usize,
}

impl Tally {
    /// A fresh tally: nothing linked, nothing skipped.
    pub fn new() -> (t: Tally)
        ensures
            t.linked == 0,
            t.skipped == 0,
    {
        Tally { linked: 0, skipped: 0 }
    }

    /// Records one outcome: linked and skipped outcomes each bump their
    /// counter, a failure bumps neither.
    pub fn record(&mut self, o: Outcome)
        requires
            old(self).linked < usize::MAX,
            old(self).skipped < usize::MAX,
        ensures
            final(self).linked == old(self).linked + if o == Outcome::Linked {
                1int
            } else {
                0int
            },
            final(self).skipped == old(self).skipped + if o == Outcome::Skipped {
                1int
            } else {
                0int
            },
    {
        match o {
            Outcome::Linked => {
                self.linked += 1;
            },
            Outcome::Skipped => {
                self.skipped += 1;
            },
            Outcome::Failed => {},
        }
    }
}

/// Accumulates a whole run of outcomes into its tally: the linked counter
/// counts exactly the linked outcomes, the skipped counter exactly the
/// skipped ones.
pub fn tally_outcomes(outcomes: &Vec<Outcome>) -> (t: Tally)
    ensures
        t.linked == count_outcome(outcomes@, Outcome::Linked),
        t.skipped == count_outcome(outcomes@, Outcome::Skipped),
{
    let mut t = Tally::new();
    let mut i: usize = 0;
    while i < outcomes.len()
        invariant
            i <= outcomes@.len(),
            t.linked == count_outcome(outcomes@.take(i as int), Outcome::Linked),
            t.skipped == count_outcome(outcomes@.take(i as int), Outcome::Skipped),
        decreases outcomes@.len() - i,
    {
        proof {
            lemma_count_le_len(outcomes@.take(i as int), Outcome::Linked);
            lemma_count_le_len(outcomes@.take(i as int), Outcome::Skipped);
            assert(outcomes@.take(i + 1).drop_last() =~= outcomes@.take(i as int));
            assert(outcomes@.take(i + 1).last() == outcomes@[i as int]);
        }
        t.record(outcomes[i]);
        i += 1;
    }
    proof {
        assert(outcomes@.take(outcomes@.len() as int) =~= outcomes@);
    }
    t
}

/// A run whose every outcome is a skip links nothing: the linked count is
/// zero and the skipped count is the run's whole length — the shape a
/// second run over an unchanged, fully linked tree takes.
pub proof fn lemma_all_skipped(s: Seq<Outcome>)
    requires
        forall|i: int| 0 <= i < s.len() ==> s[i] == Outcome::Skipped,
    ensures
        count_outcome(s, Outcome::Linked) == 0,
        count_outcome(s, Outcome::Skipped) == s.len(),
    decreases s.len(),
{
    if s.len() > 0 {
        assert(forall|i: int| 0 <= i < s.drop_last().len() ==> s.drop_last()[i] == Outcome::Skipped);
        lemma_all_skipped(s.drop_last());
    }
}

} // verus!
