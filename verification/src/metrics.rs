//! Per-second speed and error samples, taken from a session's counters.

use vstd::prelude::*;
use crate::model::{GameState, SessionView};
use crate::session::TypingSession;

verus! {

/// Milliseconds between two samples.
pub const SAMPLE_INTERVAL_MS: u64 = 1_000;

/// Characters per minute, estimated from one second: sixty times what the
/// total of typed characters has grown by since the last sample, and zero
/// where backspaces have made it shrink.
pub open spec fn speed_of(total_now: nat, total_at_last_sample: nat) -> nat {
    if total_now >= total_at_last_sample {
        ((total_now - total_at_last_sample) * 60) as nat
    } else {
        0
    }
}

/// The abstract state of a recorder.
pub struct RecorderView {
    /// Total of typed characters when the last sample was taken.
    pub chars_at_last_sample: nat,
    /// Clock reading that the current second began at.
    pub last_boundary: u64,
}

impl RecorderView {
    /// Whether a sample is due at `now` for a session in `phase`: the test
    /// runs and a full second has passed since the last boundary.
    pub open spec fn due(self, phase: GameState, now: u64) -> bool {
        phase == GameState::Started && now >= self.last_boundary && now - self.last_boundary
            >= SAMPLE_INTERVAL_MS
    }

    /// The speed that a sample of `session` taken now would record.
    pub open spec fn speed(self, session: SessionView) -> nat {
        speed_of(session.total_typed(), self.chars_at_last_sample)
    }

    /// The recorder after a sample of `session`.
    pub open spec fn sampled(self, session: SessionView) -> RecorderView {
        RecorderView { chars_at_last_sample: session.total_typed(), ..self }
    }

    /// The recorder after a look at the clock at `now`. While the test does
    /// not run, the current second begins at `now`. When a sample is due,
    /// it is taken and the boundary moves on by one second. Else nothing
    /// changes.
    pub open spec fn polled(self, session: SessionView, now: u64) -> RecorderView {
        if session.phase != GameState::Started {
            RecorderView { last_boundary: now, ..self }
        } else if self.due(session.phase, now) {
            RecorderView {
                chars_at_last_sample: session.total_typed(),
                last_boundary: (self.last_boundary + SAMPLE_INTERVAL_MS) as u64,
            }
        } else {
            self
        }
    }

    /// The session after the recorder's look at the clock at `now`.
    pub open spec fn polled_session(self, session: SessionView, now: u64) -> SessionView {
        if self.due(session.phase, now) {
            session.sampled(self.speed(session) as u128)
        } else {
            session
        }
    }

    /// The sample that the recorder's look at the clock at `now` gives.
    pub open spec fn polled_sample(self, session: SessionView, now: u64) -> Option<(u128, u64)> {
        if self.due(session.phase, now) {
            Some((self.speed(session) as u128, session.errors_this_tick))
        } else {
            None
        }
    }
}

/// Takes one sample per elapsed second of a running test.
///
/// The recorder keeps the boundary of the current second and moves it on by
/// exactly one second with each sample, so that a host that looks at the
/// clock at uneven times still takes one sample per second and does not
/// drift.
pub struct MetricsRecorder {
    chars_at_last_sample: usize,
    last_boundary: u64,
}

impl View for MetricsRecorder {
    type V = RecorderView;

    closed spec fn view(&self) -> RecorderView {
        RecorderView {
            chars_at_last_sample: self.chars_at_last_sample as nat,
            last_boundary: self.last_boundary,
        }
    }
}

impl MetricsRecorder {
    /// A recorder that has sampled nothing.
    pub fn new() -> (recorder: MetricsRecorder)
        ensures
            recorder@ == (RecorderView { chars_at_last_sample: 0, last_boundary: 0 }),
    {
        MetricsRecorder { chars_at_last_sample: 0, last_boundary: 0 }
    }

    /// Forgets what was sampled; for a session that starts over.
    pub fn reset(&mut self)
        ensures
            final(self)@ == (RecorderView { chars_at_last_sample: 0, last_boundary: 0 }),
    {
        self.chars_at_last_sample = 0;
        self.last_boundary = 0;
    }

    /// Total of typed characters when the last sample was taken.
    pub fn chars_at_last_sample(&self) -> (n: usize)
        ensures
            n == self@.chars_at_last_sample,
    {
        self.chars_at_last_sample
    }

    /// Clock reading that the current second began at.
    pub fn last_boundary(&self) -> (t: u64)
        ensures
            t == self@.last_boundary,
    {
        self.last_boundary
    }

    /// Takes a sample now: the speed of the second that ends, and its
    /// errors. Both are appended to the session's samples and returned; the
    /// session starts a new count of errors, and the recorder remembers the
    /// total of typed characters.
    pub fn sample(&mut self, session: &mut TypingSession) -> (sample: (u128, u64))
        requires
            old(session).wf(),
        ensures
            sample.0 == old(self)@.speed(old(session)@),
            sample.1 == old(session)@.errors_this_tick,
            final(session)@ == old(session)@.sampled(sample.0),
            final(session).wf(),
            final(self)@ == old(self)@.sampled(old(session)@),
    {
        let total = session.total_typed();
        let typed: usize = if total >= self.chars_at_last_sample {
            total - self.chars_at_last_sample
        } else {
            0
        };
        let cpm: u128 = (typed as u128) * 60;
        let errors = session.record_sample(cpm);
        self.chars_at_last_sample = total;
        (cpm, errors)
    }

    /// Looks at the clock and takes a sample if one is due.
    ///
    /// While the test does not run, the current second begins at `now` and
    /// nothing is sampled. While it runs, a sample is taken once a full
    /// second has passed since the last boundary, and the boundary moves on
    /// by one second.
    pub fn poll(&mut self, session: &mut TypingSession, now: u64) -> (sample: Option<(u128, u64)>)
        requires
            old(session).wf(),
        ensures
            sample == old(self)@.polled_sample(old(session)@, now),
            final(session)@ == old(self)@.polled_session(old(session)@, now),
            final(self)@ == old(self)@.polled(old(session)@, now),
            final(session).wf(),
    {
        if session.phase() != GameState::Started {
            self.last_boundary = now;
            return None;
        }
        if now >= self.last_boundary && now - self.last_boundary >= SAMPLE_INTERVAL_MS {
            let sample = self.sample(session);
            self.last_boundary = self.last_boundary + SAMPLE_INTERVAL_MS;
            Some(sample)
        } else {
            None
        }
    }
}

} // verus!
