//! The verbosity of a run.
//!
//! Each message has a loudness; a message is written if the level of the
//! logger is at least that loudness. The level is a value that is handed to
//! whoever logs, not a global.

use vstd::prelude::*;

verus! {

/// The threshold below which messages are written.
#[derive(Debug, Clone, Copy, PartialEq, Eq)]
pub struct Logger {
    level: u8,
}

impl View for Logger {
    type V = u8;

    closed spec fn view(&self) -> u8 {
        self.level
    }
}

impl Logger {
    /// A logger of the given level.
    pub fn new(level: u8) -> (logger: Logger)
        ensures
            logger@ == level,
    {
        Logger { level }
    }

    /// Sets the level.
    pub fn set_log_level(&mut self, level: u8)
        ensures
            final(self)@ == level,
    {
        self.level = level;
    }

    /// The level.
    pub fn get_log_level(&self) -> (level: u8)
        ensures
            level == self@,
    {
        self.level
    }

    /// Whether a message of the given loudness is written.
    pub fn logs(&self, loudness: u8) -> (written: bool)
        ensures
            written == (self@ >= loudness),
    {
        self.level >= loudness
    }
}

} // verus!
