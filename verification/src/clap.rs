//! The command line options, and the start-up decisions they make.

use crate::log::LogLevel;
use vstd::prelude::*;

verus! {

/// The command line options.
#[derive(Debug, Clone, Copy, PartialEq, Eq, Structural)]
pub struct Clap {
    /// Overrides the log levels that the session holds.
    pub log_level: Option<LogLevel>,
    /// Use the application defaults: the saved session is not restored.
    pub defaults: bool,
}

impl Clap {
    /// The level the logger starts with: the level given, else `Default`.
    pub fn initial_log_level(&self) -> (level: LogLevel)
        ensures
            level == match self.log_level {
                Some(given) => given,
                None => LogLevel::Default,
            },
    {
        match self.log_level {
            Some(given) => given,
            None => LogLevel::Default,
        }
    }

    /// Whether the saved session is restored: unless the defaults are
    /// asked for.
    pub fn restores_session(&self) -> (restores: bool)
        ensures
            restores == !self.defaults,
    {
        !self.defaults
    }

    /// Whether the logger takes the log levels of the session: unless a
    /// level is given on the command line.
    pub fn logs_by_session(&self) -> (by_session: bool)
        ensures
            by_session == (self.log_level is None),
    {
        self.log_level.is_none()
    }
}

} // verus!
