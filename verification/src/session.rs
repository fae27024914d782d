//! The typing session: the state machine of [`crate::model`] on machine
//! data.

use vstd::prelude::*;
use crate::config::{Mode, SessionConfig};
use crate::judgment::{lemma_counts_bounded, lemma_untouched_counts, JudgmentState};
use crate::model::{
    lemma_backspace_wf, lemma_boundaries_bounded, lemma_keystroke_wf,
    lemma_next_batch_wf, untouched, GameState, KeystrokeOutcome, RejectReason, SessionView,
};

verus! {

/// One typing test over one reference text at a time.
///
/// The session never reads a clock: whoever drives it passes the time in.
pub struct TypingSession {
    config: SessionConfig,
    reference: Vec<char>,
    judgments: Vec<JudgmentState>,
    typed: Vec<char>,
    cursor: usize,
    phase: GameState,
    start_time: Option<u64>,
    words_completed: usize,
    typed_before: usize,
    correct_count: usize,
    error_count: usize,
    errors_this_tick: u64,
    speed_samples: Vec<u128>,
    error_samples: Vec<u64>,
}

impl View for TypingSession {
    type V = SessionView;

    closed spec fn view(&self) -> SessionView {
        SessionView {
            config: self.config,
            reference: self.reference@,
            judgments: self.judgments@,
            typed: self.typed@,
            cursor: self.cursor as nat,
            phase: self.phase,
            start_time: self.start_time,
            words_completed: self.words_completed as nat,
            typed_before: self.typed_before as nat,
            correct_count: self.correct_count as nat,
            error_count: self.error_count as nat,
            errors_this_tick: self.errors_this_tick,
            speed_samples: self.speed_samples@,
            error_samples: self.error_samples@,
        }
    }
}

/// `n` untouched judgments.
fn untouched_judgments(n: usize) -> (judgments: Vec<JudgmentState>)
    ensures
        judgments@ == untouched(n as nat),
{
    let mut judgments: Vec<JudgmentState> = Vec::new();
    let mut i: usize = 0;
    while i < n
        invariant
            i <= n,
            judgments@.len() == i,
            forall|j: int| 0 <= j < i ==> judgments@[j] == JudgmentState::Untouched,
        decreases n - i,
    {
        judgments.push(JudgmentState::Untouched);
        i += 1;
    }
    assert(judgments@ =~= untouched(n as nat));
    judgments
}

impl TypingSession {
    /// The invariant of the session, and room in the machine's counters for
    /// the text at hand: with every character of the reference typed, the
    /// total of typed characters still fits a `usize`.
    pub open spec fn wf(&self) -> bool {
        &&& self@.wf()
        &&& self@.typed_before + self@.reference.len() <= usize::MAX
    }

    /// A session over `reference` that waits for its first keystroke.
    pub fn new(config: SessionConfig, reference: Vec<char>) -> (session: TypingSession)
        ensures
            session@ == SessionView::initial(config, reference@),
            session.wf(),
    {
        let judgments = untouched_judgments(reference.len());
        proof {
            lemma_untouched_counts(untouched(reference@.len()));
        }
        TypingSession {
            config,
            reference,
            judgments,
            typed: Vec::new(),
            cursor: 0,
            phase: GameState::NotStarted,
            start_time: None,
            words_completed: 0,
            typed_before: 0,
            correct_count: 0,
            error_count: 0,
            errors_this_tick: 0,
            speed_samples: Vec::new(),
            error_samples: Vec::new(),
        }
    }

    /// Starts over with new settings and a new text, from whatever state:
    /// the cursor is back at the start, nothing is judged or counted, the
    /// samples are gone, the clock is stopped and the test has not started.
    pub fn configure(&mut self, new_config: SessionConfig, new_reference: Vec<char>)
        ensures
            final(self)@ == SessionView::initial(new_config, new_reference@),
            final(self)@.cursor == 0,
            final(self)@.speed_samples.len() == 0,
            final(self)@.error_samples.len() == 0,
            final(self)@.phase == GameState::NotStarted,
            final(self).wf(),
    {
        *self = TypingSession::new(new_config, new_reference);
    }

    /// Starts over with the settings and the text at hand.
    pub fn restart(&mut self)
        ensures
            final(self)@ == SessionView::initial(old(self)@.config, old(self)@.reference),
            final(self).wf(),
    {
        self.judgments = untouched_judgments(self.reference.len());
        self.typed.clear();
        self.cursor = 0;
        self.phase = GameState::NotStarted;
        self.start_time = None;
        self.words_completed = 0;
        self.typed_before = 0;
        self.correct_count = 0;
        self.error_count = 0;
        self.errors_this_tick = 0;
        self.speed_samples.clear();
        self.error_samples.clear();
        proof {
            lemma_untouched_counts(untouched(self.reference@.len()));
        }
    }

    /// Loads the next batch of text into a test that goes on: phase, clock,
    /// samples and completed words stay, and what stood typed is added to
    /// the characters typed before.
    ///
    /// The total of typed characters must still fit a `usize` once the new
    /// text is typed out.
    pub fn reset(&mut self, new_reference: Vec<char>)
        requires
            old(self).wf(),
            old(self)@.total_typed() + new_reference@.len() <= usize::MAX,
        ensures
            final(self)@ == old(self)@.next_batch(new_reference@),
            final(self).wf(),
    {
        proof {
            lemma_next_batch_wf(self@, new_reference@);
        }
        self.judgments = untouched_judgments(new_reference.len());
        self.reference = new_reference;
        self.typed.clear();
        self.typed_before = self.typed_before + self.cursor;
        self.cursor = 0;
        self.correct_count = 0;
        self.error_count = 0;
    }

    /// Takes a keystroke `ch` at clock reading `now`.
    ///
    /// A space as the very first keystroke and any keystroke after the end
    /// of the test are rejected and change nothing. With no text left the
    /// session stays as it is and answers `Completed`. Any other keystroke
    /// is judged at the cursor and moves it on; the answer is `Completed`
    /// if that took the last place, else `Accepted`.
    pub fn apply_keystroke(&mut self, ch: char, now: u64) -> (outcome: KeystrokeOutcome)
        requires
            old(self).wf(),
        ensures
            final(self)@ == old(self)@.keystroke(ch, now),
            outcome == old(self)@.outcome(ch),
            final(self).wf(),
            outcome is Rejected ==> final(self)@ == old(self)@,
            old(self)@.cursor == 0 && ch == ' ' ==> outcome == KeystrokeOutcome::Rejected(
                RejectReason::LeadingSpace,
            ),
            old(self)@.phase == GameState::Results ==> outcome is Rejected,
    {
        if self.cursor == 0 && ch == ' ' {
            return KeystrokeOutcome::Rejected(RejectReason::LeadingSpace);
        }
        if self.phase == GameState::Results {
            return KeystrokeOutcome::Rejected(RejectReason::Finished);
        }
        if self.cursor >= self.reference.len() {
            return KeystrokeOutcome::Completed;
        }
        proof {
            lemma_keystroke_wf(self@, ch, now);
            lemma_counts_bounded(self@.judgments, self@.cursor as int);
            lemma_boundaries_bounded(self@.reference, (self@.cursor + 1) as nat);
        }
        let at = self.cursor;
        let matches = ch == self.reference[at];
        let before = self.judgments[at];
        self.judgments.set(at, before.judge(matches));
        self.typed.push(ch);
        self.cursor = at + 1;
        if self.phase == GameState::NotStarted {
            self.start_time = Some(now);
        }
        self.phase = GameState::Started;
        if self.cursor < self.reference.len() && self.reference[self.cursor] == ' ' {
            self.words_completed = self.words_completed + 1;
        }
        if !matches {
            self.error_count = self.error_count + 1;
            if self.errors_this_tick < u64::MAX {
                self.errors_this_tick = self.errors_this_tick + 1;
            }
        } else if before != JudgmentState::Incorrect {
            self.correct_count = self.correct_count + 1;
        }
        if self.cursor == self.reference.len() {
            KeystrokeOutcome::Completed
        } else {
            KeystrokeOutcome::Accepted
        }
    }

    /// Takes back the character typed last in this batch, if there is one:
    /// its place is untouched again and its judgment no longer counted.
    /// This works in every phase, also on text that is typed out.
    pub fn apply_backspace(&mut self)
        requires
            old(self).wf(),
        ensures
            final(self)@ == old(self)@.backspace(),
            final(self).wf(),
    {
        if self.cursor == 0 || self.typed.len() == 0 {
            return ;
        }
        proof {
            lemma_backspace_wf(self@);
        }
        let at = self.cursor - 1;
        let before = self.judgments[at];
        if self.cursor < self.reference.len() && self.reference[self.cursor] == ' '
            && self.words_completed > 0 {
            self.words_completed = self.words_completed - 1;
        }
        match before {
            JudgmentState::Correct | JudgmentState::Corrected => {
                if self.correct_count > 0 {
                    self.correct_count = self.correct_count - 1;
                }
            },
            JudgmentState::Incorrect => {
                if self.error_count > 0 {
                    self.error_count = self.error_count - 1;
                }
            },
            JudgmentState::Untouched => {},
        }
        self.judgments.set(at, JudgmentState::Untouched);
        self.typed.pop();
        self.cursor = at;
        assert(self.typed@ =~= old(self)@.typed.drop_last());
    }

    /// Milliseconds from the first keystroke to `now`; zero before the
    /// first keystroke and for a reading that lies before it.
    pub fn elapsed(&self, now: u64) -> (ms: u64)
        ensures
            ms == self@.elapsed(now),
    {
        match self.start_time {
            Some(start) => if now >= start {
                now - start
            } else {
                0
            },
            None => 0,
        }
    }

    /// Looks at the clock. A running test ends when its time limit has
    /// passed or, in word mode, when its text is typed out; otherwise, and
    /// in every other phase, nothing changes.
    pub fn tick(&mut self, now: u64)
        ensures
            final(self)@ == old(self)@.tick(now),
            old(self).wf() ==> final(self).wf(),
    {
        if self.phase != GameState::Started {
            return ;
        }
        let over = match self.config.mode {
            Mode::TimeLimited { limit_ms } => self.elapsed(now) >= limit_ms,
            Mode::WordLimited { .. } => self.cursor >= self.reference.len(),
        };
        if over {
            self.phase = GameState::Results;
        }
    }

    /// Characters that stand typed in this test, over all its batches.
    pub fn total_typed(&self) -> (n: usize)
        requires
            self.wf(),
        ensures
            n == self@.total_typed(),
    {
        self.typed_before + self.cursor
    }

    /// The settings of the test.
    pub fn config(&self) -> (config: SessionConfig)
        ensures
            config == self@.config,
    {
        self.config
    }

    /// The text to type.
    pub fn reference(&self) -> (reference: &Vec<char>)
        ensures
            reference@ == self@.reference,
    {
        &self.reference
    }

    /// One judgment for each place of the reference.
    pub fn judgments(&self) -> (judgments: &Vec<JudgmentState>)
        ensures
            judgments@ == self@.judgments,
    {
        &self.judgments
    }

    /// The characters that stand typed in this batch.
    pub fn typed(&self) -> (typed: &Vec<char>)
        ensures
            typed@ == self@.typed,
    {
        &self.typed
    }

    /// The place that the next keystroke is judged at.
    pub fn cursor(&self) -> (cursor: usize)
        ensures
            cursor == self@.cursor,
    {
        self.cursor
    }

    /// The phase of the test.
    pub fn phase(&self) -> (phase: GameState)
        ensures
            phase == self@.phase,
    {
        self.phase
    }

    /// Clock reading at the first keystroke, once there was one.
    pub fn start_time(&self) -> (start: Option<u64>)
        ensures
            start == self@.start_time,
    {
        self.start_time
    }

    /// Word boundaries that the cursor has crossed in this test.
    pub fn words_completed(&self) -> (words: usize)
        ensures
            words == self@.words_completed,
    {
        self.words_completed
    }

    /// Places of this batch that count as typed correctly.
    pub fn correct_count(&self) -> (count: usize)
        ensures
            count == self@.correct_count,
    {
        self.correct_count
    }

    /// Places of this batch that count as errors.
    pub fn error_count(&self) -> (count: usize)
        ensures
            count == self@.error_count,
    {
        self.error_count
    }

    /// Mismatched keystrokes since the last sample.
    pub fn errors_this_tick(&self) -> (errors: u64)
        ensures
            errors == self@.errors_this_tick,
    {
        self.errors_this_tick
    }

    /// Characters per minute, one estimate per sampled second.
    pub fn speed_samples(&self) -> (samples: &Vec<u128>)
        ensures
            samples@ == self@.speed_samples,
    {
        &self.speed_samples
    }

    /// Mismatched keystrokes, one count per sampled second.
    pub fn error_samples(&self) -> (samples: &Vec<u64>)
        ensures
            samples@ == self@.error_samples,
    {
        &self.error_samples
    }

    /// Closes the current second with the speed `cpm`: appends `cpm` and the
    /// errors of the second to the samples, starts a new count of errors and
    /// returns the old one.
    pub(crate) fn record_sample(&mut self, cpm: u128) -> (errors: u64)
        ensures
            final(self)@ == old(self)@.sampled(cpm),
            errors == old(self)@.errors_this_tick,
            old(self).wf() ==> final(self).wf(),
    {
        let errors = self.errors_this_tick;
        self.speed_samples.push(cpm);
        self.error_samples.push(errors);
        self.errors_this_tick = 0;
        errors
    }
}

} // verus!
