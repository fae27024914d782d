//! The steps of a front end that redraws frame by frame and reads the
//! session's input once per frame.

use vstd::prelude::*;
use crate::metrics::{MetricsRecorder, RecorderView};
use crate::model::{KeystrokeOutcome, SessionView};
use crate::session::TypingSession;

verus! {

/// The session after one frame at clock reading `now`: the character typed
/// in this frame, if there was one, then a look at the clock.
pub open spec fn frame_step(v: SessionView, input: Option<char>, now: u64) -> SessionView {
    match input {
        Some(ch) => v.keystroke(ch, now).tick(now),
        None => v.tick(now),
    }
}

/// Advances the session by one frame: applies the character typed in this
/// frame, which starts a test that waits for its first keystroke, and ends
/// the test if it is over at `now`. Returns what became of the character.
pub fn update_game_state(session: &mut TypingSession, input: Option<char>, now: u64) -> (outcome:
    Option<KeystrokeOutcome>)
    requires
        old(session).wf(),
    ensures
        final(session)@ == frame_step(old(session)@, input, now),
        outcome == match input {
            Some(ch) => Some(old(session)@.outcome(ch)),
            None => None,
        },
        final(session).wf(),
{
    let outcome = match input {
        Some(ch) => Some(session.apply_keystroke(ch, now)),
        None => None,
    };
    session.tick(now);
    outcome
}

/// Starts the test over on the text and with the settings at hand: nothing
/// is typed, judged, counted or sampled, and the clock is stopped.
pub fn reset_game_state(session: &mut TypingSession, recorder: &mut MetricsRecorder)
    ensures
        final(session)@ == SessionView::initial(old(session)@.config, old(session)@.reference),
        final(recorder)@ == (RecorderView { chars_at_last_sample: 0, last_boundary: 0 }),
        final(session).wf(),
{
    session.restart();
    recorder.reset();
}

} // verus!
