//! Session settings, and the settings bar that changes them.

use vstd::prelude::*;

verus! {

/// Time limit that a test has when time mode is chosen afresh.
pub const DEFAULT_TIME_LIMIT_MS: u64 = 5_000;

/// Words per batch that a test has when word mode is chosen afresh.
pub const DEFAULT_BATCH_SIZE: usize = 50;

/// What ends a test.
#[derive(Clone, Copy, Debug, PartialEq, Eq, Structural)]
pub enum Mode {
    /// The test ends once `limit_ms` milliseconds have passed since the
    /// first keystroke.
    TimeLimited { limit_ms: u64 },
    /// The text comes in batches of `batch_size` words; the test ends when
    /// a batch is typed out and no further one arrives.
    WordLimited { batch_size: usize },
}

/// The settings of one test.
///
/// A quote is typed as it stands, so a well-formed configuration that asks
/// for a quote asks for neither punctuation nor numbers.
#[derive(Clone, Copy, Debug, PartialEq, Eq, Structural)]
pub struct SessionConfig {
    pub punctuation: bool,
    pub numbers: bool,
    pub quote: bool,
    pub mode: Mode,
}

/// One thing that the settings bar can change.
#[derive(Clone, Copy, Debug, PartialEq, Eq, Structural)]
pub enum ConfigOption {
    Punctuation,
    Numbers,
    Time,
    Words,
    Quote,
    /// A time limit in milliseconds; offered in time mode.
    TimeLimit(u64),
    /// A number of words per batch; offered in word mode.
    BatchSize(usize),
}

impl SessionConfig {
    /// No contradictory flags: a quote excludes punctuation and numbers.
    pub open spec fn wf(self) -> bool {
        self.quote ==> !self.punctuation && !self.numbers
    }

    /// Time mode is in force: the mode is time-limited and no quote is asked for.
    pub open spec fn timed(self) -> bool {
        !self.quote && self.mode is TimeLimited
    }

    /// Word mode is in force: the mode is word-limited and no quote is asked for.
    pub open spec fn worded(self) -> bool {
        !self.quote && self.mode is WordLimited
    }

    /// Whether the bar offers `option` under these settings.
    pub open spec fn enabled(self, option: ConfigOption) -> bool {
        match option {
            ConfigOption::Punctuation | ConfigOption::Numbers => !self.quote,
            ConfigOption::Time | ConfigOption::Words | ConfigOption::Quote => true,
            ConfigOption::TimeLimit(_) => self.timed(),
            ConfigOption::BatchSize(_) => self.worded(),
        }
    }

    /// Whether `option` is what these settings currently say.
    pub open spec fn active(self, option: ConfigOption) -> bool {
        match option {
            ConfigOption::Punctuation => self.punctuation,
            ConfigOption::Numbers => self.numbers,
            ConfigOption::Time => self.timed(),
            ConfigOption::Words => self.worded(),
            ConfigOption::Quote => self.quote,
            ConfigOption::TimeLimit(ms) => self.mode == (Mode::TimeLimited { limit_ms: ms }),
            ConfigOption::BatchSize(n) => self.mode == (Mode::WordLimited { batch_size: n }),
        }
    }

    /// The settings after `option` was chosen.
    ///
    /// An option that the bar does not offer changes nothing. Punctuation
    /// and numbers toggle. Time and words leave quote mode and keep the
    /// mode's parameter if that mode was already set, else install its
    /// default. A quote clears punctuation and numbers. A time limit or a
    /// batch size replaces the mode's parameter.
    pub open spec fn after_select(self, option: ConfigOption) -> SessionConfig {
        if !self.enabled(option) {
            self
        } else {
            match option {
                ConfigOption::Punctuation => SessionConfig {
                    punctuation: !self.punctuation,
                    ..self
                },
                ConfigOption::Numbers => SessionConfig { numbers: !self.numbers, ..self },
                ConfigOption::Time => SessionConfig {
                    quote: false,
                    mode: if self.mode is TimeLimited {
                        self.mode
                    } else {
                        Mode::TimeLimited { limit_ms: DEFAULT_TIME_LIMIT_MS }
                    },
                    ..self
                },
                ConfigOption::Words => SessionConfig {
                    quote: false,
                    mode: if self.mode is WordLimited {
                        self.mode
                    } else {
                        Mode::WordLimited { batch_size: DEFAULT_BATCH_SIZE }
                    },
                    ..self
                },
                ConfigOption::Quote => SessionConfig {
                    punctuation: false,
                    numbers: false,
                    quote: true,
                    mode: self.mode,
                },
                ConfigOption::TimeLimit(ms) => SessionConfig {
                    mode: Mode::TimeLimited { limit_ms: ms },
                    ..self
                },
                ConfigOption::BatchSize(n) => SessionConfig {
                    mode: Mode::WordLimited { batch_size: n },
                    ..self
                },
            }
        }
    }

    /// Plain settings for `mode`: no punctuation, no numbers, no quote.
    pub fn new(mode: Mode) -> (c: SessionConfig)
        ensures
            c == (SessionConfig { punctuation: false, numbers: false, quote: false, mode }),
            c.wf(),
    {
        SessionConfig { punctuation: false, numbers: false, quote: false, mode }
    }

    /// Whether the bar offers `option`.
    pub fn is_enabled(&self, option: ConfigOption) -> (b: bool)
        ensures
            b == self.enabled(option),
    {
        match option {
            ConfigOption::Punctuation | ConfigOption::Numbers => !self.quote,
            ConfigOption::Time | ConfigOption::Words | ConfigOption::Quote => true,
            ConfigOption::TimeLimit(_) => !self.quote && matches!(self.mode, Mode::TimeLimited { .. }),
            ConfigOption::BatchSize(_) => !self.quote && matches!(self.mode, Mode::WordLimited { .. }),
        }
    }

    /// Whether `option` is currently in force.
    pub fn is_active(&self, option: ConfigOption) -> (b: bool)
        ensures
            b == self.active(option),
    {
        match option {
            ConfigOption::Punctuation => self.punctuation,
            ConfigOption::Numbers => self.numbers,
            ConfigOption::Time => !self.quote && matches!(self.mode, Mode::TimeLimited { .. }),
            ConfigOption::Words => !self.quote && matches!(self.mode, Mode::WordLimited { .. }),
            ConfigOption::Quote => self.quote,
            ConfigOption::TimeLimit(ms) => match self.mode {
                Mode::TimeLimited { limit_ms } => limit_ms == ms,
                Mode::WordLimited { .. } => false,
            },
            ConfigOption::BatchSize(n) => match self.mode {
                Mode::TimeLimited { .. } => false,
                Mode::WordLimited { batch_size } => batch_size == n,
            },
        }
    }

    /// Chooses `option` and returns the settings that result.
    pub fn select(&self, option: ConfigOption) -> (c: SessionConfig)
        ensures
            c == self.after_select(option),
            self.wf() ==> c.wf(),
    {
        if !self.is_enabled(option) {
            return *self;
        }
        match option {
            ConfigOption::Punctuation => SessionConfig {
                punctuation: !self.punctuation,
                numbers: self.numbers,
                quote: self.quote,
                mode: self.mode,
            },
            ConfigOption::Numbers => SessionConfig {
                punctuation: self.punctuation,
                numbers: !self.numbers,
                quote: self.quote,
                mode: self.mode,
            },
            ConfigOption::Time => {
                let mode = match self.mode {
                    Mode::TimeLimited { .. } => self.mode,
                    Mode::WordLimited { .. } => Mode::TimeLimited { limit_ms: DEFAULT_TIME_LIMIT_MS },
                };
                SessionConfig {
                    punctuation: self.punctuation,
                    numbers: self.numbers,
                    quote: false,
                    mode,
                }
            },
            ConfigOption::Words => {
                let mode = match self.mode {
                    Mode::TimeLimited { .. } => Mode::WordLimited { batch_size: DEFAULT_BATCH_SIZE },
                    Mode::WordLimited { .. } => self.mode,
                };
                SessionConfig {
                    punctuation: self.punctuation,
                    numbers: self.numbers,
                    quote: false,
                    mode,
                }
            },
            ConfigOption::Quote => SessionConfig {
                punctuation: false,
                numbers: false,
                quote: true,
                mode: self.mode,
            },
            ConfigOption::TimeLimit(ms) => SessionConfig {
                punctuation: self.punctuation,
                numbers: self.numbers,
                quote: self.quote,
                mode: Mode::TimeLimited { limit_ms: ms },
            },
            ConfigOption::BatchSize(n) => SessionConfig {
                punctuation: self.punctuation,
                numbers: self.numbers,
                quote: self.quote,
                mode: Mode::WordLimited { batch_size: n },
            },
        }
    }
}

/// Choosing any option keeps a configuration free of contradictory flags.
pub proof fn lemma_select_keeps_wf(config: SessionConfig, option: ConfigOption)
    requires
        config.wf(),
    ensures
        config.after_select(option).wf(),
{
}

} // verus!
