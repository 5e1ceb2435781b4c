//! Logging: severity levels, the logging interface and the default backend.
pub mod loguru;

use vstd::prelude::*;

pub use loguru::LoguruLogger;

verus! {

/// Severity levels, ordered from least to most severe.
#[derive(Debug, Clone, Copy, PartialEq, Eq, Structural, PartialOrd, Ord)]
pub enum Level {
    Debug,
    Info,
    Warn,
    Error,
}

/// The rank of a level: 0 for `Debug` up to 3 for `Error`.
pub open spec fn severity(l: Level) -> nat {
    match l {
        Level::Debug => 0,
        Level::Info => 1,
        Level::Warn => 2,
        Level::Error => 3,
    }
}

impl Level {
    /// The rank of this level: 0 for `Debug` up to 3 for `Error`.
    pub fn rank(&self) -> (r: u8)
        ensures
            r == severity(*self),
    {
        match self {
            Level::Debug => 0,
            Level::Info => 1,
            Level::Warn => 2,
            Level::Error => 3,
        }
    }

    /// Whether this level is less severe than `other`.
    pub fn is_below(&self, other: &Level) -> (r: bool)
        ensures
            r == (severity(*self) < severity(*other)),
    {
        self.rank() < other.rank()
    }
}

/// The logging interface. Only `log` must be implemented; the level-specific
/// helpers hand their message to it with their level.
pub trait Logger {
    fn log(&self, level: Level, message: &str);

    fn debug(&self, message: &str) {
        self.log(Level::Debug, message);
    }

    fn info(&self, message: &str) {
        self.log(Level::Info, message);
    }

    fn warn(&self, message: &str) {
        self.log(Level::Warn, message);
    }

    fn error(&self, message: &str) {
        self.log(Level::Error, message);
    }
}

} // verus!
