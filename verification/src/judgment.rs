//! The judgment that every place of the reference text carries, and the
//! counts that a session keeps of them.

use vstd::prelude::*;

verus! {

/// What the typist has made of one character of the reference text.
#[derive(Clone, Copy, Debug, PartialEq, Eq, Structural)]
pub enum JudgmentState {
    /// Not typed, or typed and taken back.
    Untouched,
    /// Typed as the reference has it.
    Correct,
    /// Typed otherwise than the reference has it.
    Incorrect,
    /// Typed as the reference has it over an earlier mistake.
    Corrected,
}

impl JudgmentState {
    /// Counted among the correct characters.
    pub open spec fn counts_correct(self) -> bool {
        self == JudgmentState::Correct || self == JudgmentState::Corrected
    }

    /// Counted among the errors.
    pub open spec fn counts_error(self) -> bool {
        self == JudgmentState::Incorrect
    }

    /// The judgment of a place that held `self` once a keystroke has been
    /// compared with it: a mismatch is `Incorrect`; a match over a mistake is
    /// `Corrected`; any other match is `Correct`.
    pub open spec fn judged(self, matches: bool) -> JudgmentState {
        if !matches {
            JudgmentState::Incorrect
        } else if self == JudgmentState::Incorrect {
            JudgmentState::Corrected
        } else {
            JudgmentState::Correct
        }
    }

    /// Whether a keystroke judged over `self` adds to the count of correct
    /// characters: a match does, unless it only makes up for a mistake.
    pub open spec fn earns_correct(self, matches: bool) -> bool {
        matches && self != JudgmentState::Incorrect
    }

    /// Judges a keystroke over `self`.
    pub fn judge(self, matches: bool) -> (next: JudgmentState)
        ensures
            next == self.judged(matches),
    {
        if !matches {
            JudgmentState::Incorrect
        } else if self == JudgmentState::Incorrect {
            JudgmentState::Corrected
        } else {
            JudgmentState::Correct
        }
    }
}

/// The judgment of a fresh place on which `typed` met `expected`.
pub open spec fn verdict(typed: char, expected: char) -> JudgmentState {
    if typed == expected {
        JudgmentState::Correct
    } else {
        JudgmentState::Incorrect
    }
}

/// Number of judgments in `judgments` that count as correct.
pub open spec fn correct_judgments(judgments: Seq<JudgmentState>) -> nat
    decreases judgments.len(),
{
    if judgments.len() == 0 {
        0
    } else {
        correct_judgments(judgments.drop_last()) + if judgments.last().counts_correct() {
            1nat
        } else {
            0nat
        }
    }
}

/// Number of judgments in `judgments` that count as errors.
pub open spec fn incorrect_judgments(judgments: Seq<JudgmentState>) -> nat
    decreases judgments.len(),
{
    if judgments.len() == 0 {
        0
    } else {
        incorrect_judgments(judgments.drop_last()) + if judgments.last().counts_error() {
            1nat
        } else {
            0nat
        }
    }
}

/// A sequence of untouched judgments holds nothing to count.
pub proof fn lemma_untouched_counts(judgments: Seq<JudgmentState>)
    requires
        forall|i: int| 0 <= i < judgments.len() ==> judgments[i] == JudgmentState::Untouched,
    ensures
        correct_judgments(judgments) == 0,
        incorrect_judgments(judgments) == 0,
    decreases judgments.len(),
{
    if judgments.len() > 0 {
        lemma_untouched_counts(judgments.drop_last());
    }
}

/// Replacing one judgment moves each count by what the old judgment gave
/// and the new one gives.
pub proof fn lemma_update_counts(judgments: Seq<JudgmentState>, i: int, next: JudgmentState)
    requires
        0 <= i < judgments.len(),
    ensures
        correct_judgments(judgments.update(i, next)) == correct_judgments(judgments) - (if judgments[i].counts_correct() {
            1int
        } else {
            0int
        }) + (if next.counts_correct() {
            1int
        } else {
            0int
        }),
        incorrect_judgments(judgments.update(i, next)) == incorrect_judgments(judgments) - (if judgments[i].counts_error() {
            1int
        } else {
            0int
        }) + (if next.counts_error() {
            1int
        } else {
            0int
        }),
    decreases judgments.len(),
{
    let updated = judgments.update(i, next);
    if i == judgments.len() - 1 {
        assert(updated.drop_last() =~= judgments.drop_last());
    } else {
        assert(updated.drop_last() =~= judgments.drop_last().update(i, next));
        lemma_update_counts(judgments.drop_last(), i, next);
    }
}

/// Where every judgment from place `k` on is untouched, at most `k`
/// judgments are counted, and no judgment is counted twice.
pub proof fn lemma_counts_bounded(judgments: Seq<JudgmentState>, k: int)
    requires
        0 <= k <= judgments.len(),
        forall|i: int| k <= i < judgments.len() ==> judgments[i] == JudgmentState::Untouched,
    ensures
        correct_judgments(judgments) + incorrect_judgments(judgments) <= k,
    decreases judgments.len(),
{
    if judgments.len() > 0 {
        let rest = judgments.drop_last();
        if k == judgments.len() {
            lemma_counts_bounded(rest, k - 1);
        } else {
            lemma_counts_bounded(rest, k);
        }
    }
}

} // verus!
