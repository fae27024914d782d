//! The state of a keyboard-driven front end: a session, its recorder, and
//! the focus and selection of the settings bar.
//!
//! The front end reads keys and the clock and draws; every decision is
//! made here. Where a decision needs a new reference text, the handler
//! answers with an [`Action`] and the front end comes back with the text.

use vstd::prelude::*;
use crate::bar::{bar, button_bar, left_neighbour, move_left, move_right, right_neighbour, BarItem};
use crate::config::{ConfigOption, Mode, SessionConfig, DEFAULT_TIME_LIMIT_MS};
use crate::metrics::{MetricsRecorder, RecorderView};
use crate::model::{GameState, KeystrokeOutcome, SessionView};
use crate::session::TypingSession;

verus! {

/// A key of the keyboard, as far as the test tells keys apart.
#[derive(Clone, Copy, Debug, PartialEq, Eq, Structural)]
pub enum Key {
    Esc,
    Backspace,
    Up,
    Down,
    Tab,
    Enter,
    Left,
    Right,
    Char(char),
    /// Any other key.
    Other,
}

/// What happened to a key.
#[derive(Clone, Copy, Debug, PartialEq, Eq, Structural)]
pub enum KeyKind {
    Press,
    Repeat,
    Release,
}

/// One event of the keyboard.
#[derive(Clone, Copy, Debug, PartialEq, Eq, Structural)]
pub struct KeyInput {
    pub key: Key,
    pub kind: KeyKind,
}

/// What the front end is to do after a key was handled.
#[derive(Clone, Copy, Debug, PartialEq, Eq, Structural)]
pub enum Action {
    /// Nothing.
    Nothing,
    /// Produce a reference text for these settings and call
    /// [`App::restart`] with both.
    Configure(SessionConfig),
    /// The text of a time-limited test is typed out: produce the next
    /// batch for the settings at hand and call [`App::next_batch`] with it.
    NextBatch,
}

/// Place of the bar that the selection starts on: time mode.
pub const START_SELECTION: usize = 3;

/// The front end's state.
pub struct App {
    /// The user has asked to leave.
    pub exit: bool,
    /// The settings bar has the focus.
    pub config: bool,
    /// Place of the bar that the selection rests on.
    pub selected_config: usize,
    /// Tab was pressed: the next Enter starts the test over.
    pub tab_pressed: bool,
    pub session: TypingSession,
    pub recorder: MetricsRecorder,
}

/// The abstract state of an [`App`].
pub struct AppView {
    pub exit: bool,
    pub config: bool,
    pub selected_config: usize,
    pub tab_pressed: bool,
    pub session: SessionView,
    pub recorder: RecorderView,
}

impl AppView {
    /// The option under the selection, if the selection rests on a button.
    pub open spec fn selected_option(self) -> Option<ConfigOption> {
        let buttons = bar(self.session.config);
        if self.selected_config < buttons.len() {
            match buttons[self.selected_config as int].item {
                BarItem::Choice(option) => Some(option),
                BarItem::Separator => None,
            }
        } else {
            None
        }
    }

    /// The settings that Enter asks for: with the focus on the bar, those
    /// after the selected option was chosen; else those at hand.
    pub open spec fn entered_config(self) -> SessionConfig {
        if self.config {
            match self.selected_option() {
                Some(option) => self.session.config.after_select(option),
                None => self.session.config,
            }
        } else {
            self.session.config
        }
    }

    /// What the front end is to do after `input`. Enter asks for a new
    /// test if Tab went before or the bar has the focus. A character that
    /// leaves no text to type asks for the next batch in a time-limited
    /// test; a word-limited test ends with its text.
    pub open spec fn action(self, input: KeyInput) -> Action {
        if input.kind != KeyKind::Press {
            Action::Nothing
        } else {
            match input.key {
                Key::Enter => if self.tab_pressed || self.config {
                    Action::Configure(self.entered_config())
                } else {
                    Action::Nothing
                },
                Key::Char(ch) => if self.session.outcome(ch) == KeystrokeOutcome::Completed
                    && self.session.config.mode is TimeLimited {
                    Action::NextBatch
                } else {
                    Action::Nothing
                },
                _ => Action::Nothing,
            }
        }
    }

    /// The state after `input` at clock reading `now`.
    ///
    /// Only a press counts. Esc asks to leave. Backspace and a character go
    /// to the session and take the focus off the bar, unless the character
    /// is rejected. Up gives the bar the focus while the results are not on
    /// show, Down takes it away. Tab arms the restart. Left and Right move
    /// the selection while the bar has the focus. Enter changes nothing by
    /// itself: see [`AppView::action`].
    pub open spec fn key(self, input: KeyInput, now: u64) -> AppView {
        if input.kind != KeyKind::Press {
            self
        } else {
            match input.key {
                Key::Esc => AppView { exit: true, ..self },
                Key::Backspace => AppView {
                    session: self.session.backspace(),
                    config: false,
                    ..self
                },
                Key::Up => AppView {
                    config: self.config || self.session.phase != GameState::Results,
                    ..self
                },
                Key::Down => AppView { config: false, ..self },
                Key::Tab => AppView { tab_pressed: true, ..self },
                Key::Left => if self.config {
                    AppView {
                        selected_config: left_neighbour(
                            bar(self.session.config),
                            self.selected_config as int,
                        ) as usize,
                        ..self
                    }
                } else {
                    self
                },
                Key::Right => if self.config {
                    AppView {
                        selected_config: right_neighbour(
                            bar(self.session.config),
                            self.selected_config as int,
                        ) as usize,
                        ..self
                    }
                } else {
                    self
                },
                Key::Char(ch) => AppView {
                    session: self.session.keystroke(ch, now),
                    config: self.config && self.session.outcome(ch) is Rejected,
                    ..self
                },
                Key::Enter | Key::Other => self,
            }
        }
    }

    /// The state after a look at the clock at `now`: the session's own look
    /// first, then the recorder's at the session that results.
    pub open spec fn tick(self, now: u64) -> AppView {
        let ticked = self.session.tick(now);
        AppView {
            session: self.recorder.polled_session(ticked, now),
            recorder: self.recorder.polled(ticked, now),
            ..self
        }
    }
}

impl View for App {
    type V = AppView;

    open spec fn view(&self) -> AppView {
        AppView {
            exit: self.exit,
            config: self.config,
            selected_config: self.selected_config,
            tab_pressed: self.tab_pressed,
            session: self.session@,
            recorder: self.recorder@,
        }
    }
}

impl App {
    /// The session is well formed.
    pub open spec fn wf(&self) -> bool {
        self.session.wf()
    }

    /// A front end at its start: a time-limited test with plain settings
    /// and no text yet, the selection on time mode, the focus on the text.
    pub fn new() -> (app: App)
        ensures
            app@ == (AppView {
                exit: false,
                config: false,
                selected_config: START_SELECTION,
                tab_pressed: false,
                session: SessionView::initial(
                    SessionConfig {
                        punctuation: false,
                        numbers: false,
                        quote: false,
                        mode: Mode::TimeLimited { limit_ms: DEFAULT_TIME_LIMIT_MS },
                    },
                    Seq::empty(),
                ),
                recorder: RecorderView { chars_at_last_sample: 0, last_boundary: 0 },
            }),
            app.wf(),
    {
        let config = SessionConfig::new(Mode::TimeLimited { limit_ms: DEFAULT_TIME_LIMIT_MS });
        App {
            exit: false,
            config: false,
            selected_config: START_SELECTION,
            tab_pressed: false,
            session: TypingSession::new(config, Vec::new()),
            recorder: MetricsRecorder::new(),
        }
    }

    /// The settings that Enter asks for.
    fn entered_config(&self) -> (config: SessionConfig)
        ensures
            config == self@.entered_config(),
    {
        let current = self.session.config();
        if !self.config {
            return current;
        }
        let buttons = button_bar(&current);
        if self.selected_config < buttons.len() {
            match buttons[self.selected_config].item {
                BarItem::Choice(option) => current.select(option),
                BarItem::Separator => current,
            }
        } else {
            current
        }
    }

    /// Handles one event of the keyboard at clock reading `now` and says
    /// what the front end is to do next.
    pub fn handle_key_event(&mut self, key_event: KeyInput, now: u64) -> (action: Action)
        requires
            old(self).wf(),
        ensures
            final(self)@ == old(self)@.key(key_event, now),
            action == old(self)@.action(key_event),
            final(self).wf(),
    {
        if key_event.kind != KeyKind::Press {
            return Action::Nothing;
        }
        match key_event.key {
            Key::Esc => {
                self.exit = true;
                Action::Nothing
            },
            Key::Backspace => {
                self.session.apply_backspace();
                self.config = false;
                Action::Nothing
            },
            Key::Up => {
                if self.session.phase() != GameState::Results {
                    self.config = true;
                }
                Action::Nothing
            },
            Key::Down => {
                self.config = false;
                Action::Nothing
            },
            Key::Tab => {
                self.tab_pressed = true;
                Action::Nothing
            },
            Key::Enter => {
                if self.tab_pressed || self.config {
                    Action::Configure(self.entered_config())
                } else {
                    Action::Nothing
                }
            },
            Key::Left => {
                if self.config {
                    let buttons = button_bar(&self.session.config());
                    self.selected_config = move_left(&buttons, self.selected_config);
                }
                Action::Nothing
            },
            Key::Right => {
                if self.config {
                    let buttons = button_bar(&self.session.config());
                    self.selected_config = move_right(&buttons, self.selected_config);
                }
                Action::Nothing
            },
            Key::Char(ch) => {
                let outcome = self.session.apply_keystroke(ch, now);
                match outcome {
                    KeystrokeOutcome::Rejected(_) => Action::Nothing,
                    KeystrokeOutcome::Accepted => {
                        self.config = false;
                        Action::Nothing
                    },
                    KeystrokeOutcome::Completed => {
                        self.config = false;
                        match self.session.config().mode {
                            Mode::TimeLimited { .. } => Action::NextBatch,
                            Mode::WordLimited { .. } => Action::Nothing,
                        }
                    },
                }
            },
            Key::Other => Action::Nothing,
        }
    }

    /// Starts the test over with `config` and `reference`: the session is
    /// new, the recorder has sampled nothing, and Tab is forgotten. Exit
    /// flag, focus and selection stay.
    pub fn restart(&mut self, config: SessionConfig, reference: Vec<char>)
        ensures
            final(self)@ == (AppView {
                tab_pressed: false,
                session: SessionView::initial(config, reference@),
                recorder: RecorderView { chars_at_last_sample: 0, last_boundary: 0 },
                ..old(self)@
            }),
            final(self).wf(),
    {
        self.session.configure(config, reference);
        self.recorder.reset();
        self.tab_pressed = false;
    }

    /// Loads the next batch of text into the running test.
    ///
    /// The total of typed characters must still fit a `usize` once the new
    /// text is typed out.
    pub fn next_batch(&mut self, reference: Vec<char>)
        requires
            old(self).wf(),
            old(self)@.session.total_typed() + reference@.len() <= usize::MAX,
        ensures
            final(self)@ == (AppView {
                session: old(self)@.session.next_batch(reference@),
                ..old(self)@
            }),
            final(self).wf(),
    {
        self.session.reset(reference);
    }

    /// Looks at the clock: ends the test if it is over, and takes the
    /// sample of the second if one is due. Returns the sample taken.
    pub fn on_tick(&mut self, now: u64) -> (sample: Option<(u128, u64)>)
        requires
            old(self).wf(),
        ensures
            final(self)@ == old(self)@.tick(now),
            sample == old(self)@.recorder.polled_sample(old(self)@.session.tick(now), now),
            final(self).wf(),
    {
        self.session.tick(now);
        self.recorder.poll(&mut self.session, now)
    }
}

} // verus!
