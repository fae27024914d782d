//! The typing session as a mathematical state machine: its state, its
//! transitions, the invariant they keep, and what follows from it.

use vstd::prelude::*;
use crate::config::{Mode, SessionConfig};
use crate::judgment::{
    correct_judgments, incorrect_judgments, lemma_counts_bounded, lemma_untouched_counts,
    lemma_update_counts, verdict, JudgmentState,
};

verus! {

/// The phase of a test.
#[derive(Clone, Copy, Debug, PartialEq, Eq, Structural)]
pub enum GameState {
    /// Nothing has been typed yet.
    NotStarted,
    /// The test is running: the clock started with the first keystroke.
    Started,
    /// The test is over and its results are on show. Only a new
    /// configuration leaves this phase.
    Results,
}

/// Why a keystroke was turned away.
#[derive(Clone, Copy, Debug, PartialEq, Eq, Structural)]
pub enum RejectReason {
    /// A test cannot begin with a space.
    LeadingSpace,
    /// The test is over.
    Finished,
}

/// What became of a keystroke.
#[derive(Clone, Copy, Debug, PartialEq, Eq, Structural)]
pub enum KeystrokeOutcome {
    /// Judged; the cursor moved on and text is left to type.
    Accepted,
    /// Turned away; the session is as it was.
    Rejected(RejectReason),
    /// No text is left to type: the keystroke took the last place of the
    /// reference, or found the cursor already behind it. The host should
    /// load the next batch.
    Completed,
}

/// The abstract state of a session.
#[verifier::ext_equal]
pub struct SessionView {
    pub config: SessionConfig,
    /// The text to type.
    pub reference: Seq<char>,
    /// One judgment for each place of `reference`.
    pub judgments: Seq<JudgmentState>,
    /// The characters that stand typed in this batch.
    pub typed: Seq<char>,
    /// The place that the next keystroke is judged at.
    pub cursor: nat,
    pub phase: GameState,
    /// Clock reading at the first keystroke of the test.
    pub start_time: Option<u64>,
    /// Word boundaries that the cursor has crossed in this test.
    pub words_completed: nat,
    /// Characters that stood typed in the earlier batches of this test.
    pub typed_before: nat,
    pub correct_count: nat,
    pub error_count: nat,
    /// Mismatched keystrokes since the last sample.
    pub errors_this_tick: u64,
    /// Characters per minute, one estimate per sampled second.
    pub speed_samples: Seq<u128>,
    /// Mismatched keystrokes, one count per sampled second.
    pub error_samples: Seq<u64>,
}

/// The cursor at place `p` of `reference` stands before a space.
pub open spec fn boundary_at(reference: Seq<char>, p: int) -> bool {
    0 <= p < reference.len() && reference[p] == ' '
}

/// Number of places `p` with `1 <= p <= cursor` at which the cursor stood
/// before a space: the word boundaries crossed on the way to `cursor`.
pub open spec fn boundaries_crossed(reference: Seq<char>, cursor: nat) -> nat
    decreases cursor,
{
    if cursor == 0 {
        0
    } else {
        boundaries_crossed(reference, (cursor - 1) as nat) + if boundary_at(
            reference,
            cursor as int,
        ) {
            1nat
        } else {
            0nat
        }
    }
}

/// `n` places, all untouched.
pub open spec fn untouched(n: nat) -> Seq<JudgmentState> {
    Seq::new(n, |i: int| JudgmentState::Untouched)
}

impl SessionView {
    /// A session before its first keystroke.
    pub open spec fn initial(config: SessionConfig, reference: Seq<char>) -> SessionView {
        SessionView {
            config,
            reference,
            judgments: untouched(reference.len()),
            typed: Seq::empty(),
            cursor: 0,
            phase: GameState::NotStarted,
            start_time: None,
            words_completed: 0,
            typed_before: 0,
            correct_count: 0,
            error_count: 0,
            errors_this_tick: 0,
            speed_samples: Seq::empty(),
            error_samples: Seq::empty(),
        }
    }

    /// Characters that stand typed in this test, over all its batches.
    pub open spec fn total_typed(self) -> nat {
        self.typed_before + self.cursor
    }

    /// Whether a keystroke `ch` is judged: it is not a space at the very
    /// start, the test is not over, and text is left.
    pub open spec fn accepts(self, ch: char) -> bool {
        &&& !(self.cursor == 0 && ch == ' ')
        &&& self.phase != GameState::Results
        &&& self.cursor < self.reference.len()
    }

    /// What a keystroke `ch` is answered with.
    pub open spec fn outcome(self, ch: char) -> KeystrokeOutcome {
        if self.cursor == 0 && ch == ' ' {
            KeystrokeOutcome::Rejected(RejectReason::LeadingSpace)
        } else if self.phase == GameState::Results {
            KeystrokeOutcome::Rejected(RejectReason::Finished)
        } else if self.cursor + 1 >= self.reference.len() {
            KeystrokeOutcome::Completed
        } else {
            KeystrokeOutcome::Accepted
        }
    }

    /// The state after a keystroke `ch` at clock reading `now`.
    ///
    /// A keystroke that is not accepted changes nothing. An accepted one is
    /// judged against the reference at the cursor, recorded, and moves the
    /// cursor on; it starts the clock if the test had not started. A
    /// mismatch adds to the errors, a match to the correct characters unless
    /// it only makes up for a mistake. Where the cursor comes to stand
    /// before a space, a word is completed. The errors of the current second
    /// stop counting at `u64::MAX`.
    pub open spec fn keystroke(self, ch: char, now: u64) -> SessionView {
        if !self.accepts(ch) {
            self
        } else {
            let at = self.cursor as int;
            let matches = ch == self.reference[at];
            let before = self.judgments[at];
            SessionView {
                judgments: self.judgments.update(at, before.judged(matches)),
                typed: self.typed.push(ch),
                cursor: self.cursor + 1,
                phase: GameState::Started,
                start_time: if self.phase == GameState::NotStarted {
                    Some(now)
                } else {
                    self.start_time
                },
                words_completed: if boundary_at(self.reference, at + 1) {
                    self.words_completed + 1
                } else {
                    self.words_completed
                },
                correct_count: if before.earns_correct(matches) {
                    self.correct_count + 1
                } else {
                    self.correct_count
                },
                error_count: if matches {
                    self.error_count
                } else {
                    self.error_count + 1
                },
                errors_this_tick: if matches || self.errors_this_tick == u64::MAX {
                    self.errors_this_tick
                } else {
                    (self.errors_this_tick + 1) as u64
                },
                ..self
            }
        }
    }

    /// The state after a backspace.
    ///
    /// With nothing typed in this batch it changes nothing. Else the last
    /// character is taken back: its place is untouched again and no longer
    /// counted, and the cursor returns to it. If the cursor stood before a
    /// space, the word that it had completed is open again.
    pub open spec fn backspace(self) -> SessionView {
        if self.cursor == 0 || self.typed.len() == 0 {
            self
        } else {
            let at = self.cursor - 1;
            let before = self.judgments[at];
            SessionView {
                judgments: self.judgments.update(at, JudgmentState::Untouched),
                typed: self.typed.drop_last(),
                cursor: at as nat,
                words_completed: if boundary_at(self.reference, self.cursor as int)
                    && self.words_completed > 0 {
                    (self.words_completed - 1) as nat
                } else {
                    self.words_completed
                },
                correct_count: if before.counts_correct() && self.correct_count > 0 {
                    (self.correct_count - 1) as nat
                } else {
                    self.correct_count
                },
                error_count: if before.counts_error() && self.error_count > 0 {
                    (self.error_count - 1) as nat
                } else {
                    self.error_count
                },
                ..self
            }
        }
    }

    /// Milliseconds from the first keystroke to `now`; zero before the
    /// first keystroke and for a reading that lies before it.
    pub open spec fn elapsed(self, now: u64) -> nat {
        match self.start_time {
            Some(start) => if now >= start {
                (now - start) as nat
            } else {
                0
            },
            None => 0,
        }
    }

    /// Whether a running test is over at `now`: in a time-limited one the
    /// limit has passed; in a word-limited one the text is typed out.
    pub open spec fn expired(self, now: u64) -> bool {
        match self.config.mode {
            Mode::TimeLimited { limit_ms } => self.elapsed(now) >= limit_ms,
            Mode::WordLimited { .. } => self.cursor >= self.reference.len(),
        }
    }

    /// The state after a look at the clock.
    pub open spec fn tick(self, now: u64) -> SessionView {
        if self.phase == GameState::Started && self.expired(now) {
            SessionView { phase: GameState::Results, ..self }
        } else {
            self
        }
    }

    /// The state after the next batch of text was loaded: the new text lies
    /// untouched under a cursor at its start, and the test goes on. What
    /// stood typed counts on in `total_typed`, the completed words stay.
    pub open spec fn next_batch(self, reference: Seq<char>) -> SessionView {
        SessionView {
            reference,
            judgments: untouched(reference.len()),
            typed: Seq::empty(),
            cursor: 0,
            typed_before: self.total_typed(),
            correct_count: 0,
            error_count: 0,
            ..self
        }
    }

    /// The state after a sample was taken with speed `cpm`.
    pub open spec fn sampled(self, cpm: u128) -> SessionView {
        SessionView {
            speed_samples: self.speed_samples.push(cpm),
            error_samples: self.error_samples.push(self.errors_this_tick),
            errors_this_tick: 0,
            ..self
        }
    }

    /// The invariant of a session.
    ///
    /// Each place behind the cursor carries the verdict on the character
    /// typed there, each place from the cursor on is untouched, and the two
    /// counts are those of the judgments. Nothing typed begins with a space.
    /// The clock has a start exactly when the test has started. The
    /// completed words are those crossed in this batch and at most one for
    /// each character of the earlier ones.
    pub open spec fn wf(self) -> bool {
        &&& self.judgments.len() == self.reference.len()
        &&& self.typed.len() == self.cursor
        &&& self.cursor <= self.reference.len()
        &&& forall|i: int|
            0 <= i < self.cursor ==> #[trigger] self.judgments[i] == verdict(
                self.typed[i],
                self.reference[i],
            )
        &&& forall|i: int|
            self.cursor <= i < self.reference.len() ==> #[trigger] self.judgments[i]
                == JudgmentState::Untouched
        &&& self.correct_count == correct_judgments(self.judgments)
        &&& self.error_count == incorrect_judgments(self.judgments)
        &&& self.cursor > 0 ==> self.typed[0] != ' '
        &&& self.phase == GameState::NotStarted ==> self.cursor == 0 && self.start_time is None
        &&& self.phase != GameState::NotStarted ==> self.start_time is Some
        &&& boundaries_crossed(self.reference, self.cursor) <= self.words_completed
        &&& self.words_completed <= boundaries_crossed(self.reference, self.cursor)
            + self.typed_before
        &&& self.speed_samples.len() == self.error_samples.len()
    }
}

/// No more boundaries are crossed than places passed.
pub proof fn lemma_boundaries_bounded(reference: Seq<char>, cursor: nat)
    ensures
        boundaries_crossed(reference, cursor) <= cursor,
    decreases cursor,
{
    if cursor > 0 {
        lemma_boundaries_bounded(reference, (cursor - 1) as nat);
    }
}

/// A new session satisfies the invariant.
pub proof fn lemma_initial_wf(config: SessionConfig, reference: Seq<char>)
    ensures
        SessionView::initial(config, reference).wf(),
{
    lemma_untouched_counts(untouched(reference.len()));
}

/// A keystroke keeps the invariant.
pub proof fn lemma_keystroke_wf(v: SessionView, ch: char, now: u64)
    requires
        v.wf(),
    ensures
        v.keystroke(ch, now).wf(),
{
    if v.accepts(ch) {
        let at = v.cursor as int;
        let next = v.judgments[at].judged(ch == v.reference[at]);
        lemma_update_counts(v.judgments, at, next);
    }
}

/// A backspace keeps the invariant.
pub proof fn lemma_backspace_wf(v: SessionView)
    requires
        v.wf(),
    ensures
        v.backspace().wf(),
{
    if v.cursor > 0 {
        let at = v.cursor - 1;
        lemma_update_counts(v.judgments, at, JudgmentState::Untouched);
    }
}

/// A look at the clock keeps the invariant.
pub proof fn lemma_tick_wf(v: SessionView, now: u64)
    requires
        v.wf(),
    ensures
        v.tick(now).wf(),
{
}

/// Loading the next batch keeps the invariant.
pub proof fn lemma_next_batch_wf(v: SessionView, reference: Seq<char>)
    requires
        v.wf(),
    ensures
        v.next_batch(reference).wf(),
{
    lemma_untouched_counts(untouched(reference.len()));
    lemma_boundaries_bounded(v.reference, v.cursor);
}

/// Taking a sample keeps the invariant.
pub proof fn lemma_sampled_wf(v: SessionView, cpm: u128)
    requires
        v.wf(),
    ensures
        v.sampled(cpm).wf(),
{
}

/// In every session the counted judgments lie behind the cursor and the
/// cursor within the text: the correct characters and the errors together
/// are no more than the cursor, the cursor is no more than the length of the
/// reference, and each count is that of its judgments.
pub proof fn lemma_counts_within_cursor(v: SessionView)
    requires
        v.wf(),
    ensures
        v.correct_count + v.error_count <= v.cursor <= v.reference.len(),
        v.correct_count == correct_judgments(v.judgments),
        v.error_count == incorrect_judgments(v.judgments),
{
    lemma_counts_bounded(v.judgments, v.cursor as int);
}

/// Taking back a correctly typed character and typing it again, while the
/// test is not over, gives back the very state from before the backspace:
/// judgments, counts, cursor and all.
pub proof fn lemma_backspace_retype(v: SessionView, now: u64)
    requires
        v.wf(),
        v.cursor > 0,
        v.judgments[v.cursor - 1] == JudgmentState::Correct,
        v.phase != GameState::Results,
    ensures
        v.backspace().keystroke(v.typed.last(), now) == v,
{
    let at = v.cursor - 1;
    let b = v.backspace();
    let ch = v.typed.last();
    lemma_update_counts(v.judgments, at, JudgmentState::Untouched);
    assert(v.judgments[at] == verdict(v.typed[at], v.reference[at]));
    assert(ch == v.reference[at]);
    assert(b.accepts(ch));
    let r = b.keystroke(ch, now);
    assert(r.judgments =~= v.judgments);
    assert(r.typed =~= v.typed);
    assert(boundary_at(v.reference, v.cursor as int) ==> boundaries_crossed(
        v.reference,
        v.cursor,
    ) >= 1);
    assert(r =~= v);
}

/// A space as the very first keystroke is rejected and changes nothing,
/// whatever the session.
pub proof fn lemma_leading_space_rejected(v: SessionView, now: u64)
    requires
        v.cursor == 0,
    ensures
        v.keystroke(' ', now) == v,
        v.outcome(' ') == KeystrokeOutcome::Rejected(RejectReason::LeadingSpace),
{
}

/// Once a test is over, no keystroke changes the session: each is rejected.
pub proof fn lemma_finished_rejects(v: SessionView, ch: char, now: u64)
    requires
        v.phase == GameState::Results,
    ensures
        v.keystroke(ch, now) == v,
        v.outcome(ch) is Rejected,
{
}

/// The end of a test is final: no keystroke, backspace, look at the clock,
/// new batch or sample leads out of it. Only a new configuration does.
pub proof fn lemma_results_are_final(
    v: SessionView,
    ch: char,
    now: u64,
    reference: Seq<char>,
    cpm: u128,
)
    requires
        v.phase == GameState::Results,
    ensures
        v.keystroke(ch, now).phase == GameState::Results,
        v.backspace().phase == GameState::Results,
        v.tick(now).phase == GameState::Results,
        v.next_batch(reference).phase == GameState::Results,
        v.sampled(cpm).phase == GameState::Results,
{
}

/// A running time-limited test is over at a look at the clock exactly when
/// the time since its first keystroke has reached the limit.
pub proof fn lemma_tick_at_limit(v: SessionView, start: u64, limit_ms: u64, now: u64)
    requires
        v.phase == GameState::Started,
        v.start_time == Some(start),
        v.config.mode == (Mode::TimeLimited { limit_ms }),
        start <= now,
    ensures
        v.tick(now).phase == GameState::Results <==> now - start >= limit_ms,
        v.tick(now).phase != GameState::Results ==> v.tick(now) == v,
{
}

} // verus!
