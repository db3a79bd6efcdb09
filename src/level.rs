use vstd::prelude::*;

verus! {

/// Severity of a record, from the most severe to the most verbose.
#[derive(Clone, Copy, Debug, PartialEq, Eq, Structural)]
pub enum Level {
    Error,
    Warn,
    Info,
    Debug,
    Trace,
}

/// Threshold of a logger: `Off` lets nothing through, `Trace` lets everything through.
#[derive(Clone, Copy, Debug, PartialEq, Eq, Structural)]
pub enum LevelFilter {
    Off,
    Error,
    Warn,
    Info,
    Debug,
    Trace,
}

impl Level {
    /// Position in the severity order: 1 for `Error` up to 5 for `Trace`.
    pub open spec fn rank(self) -> nat {
        match self {
            Level::Error => 1,
            Level::Warn => 2,
            Level::Info => 3,
            Level::Debug => 4,
            Level::Trace => 5,
        }
    }

    /// The plain upper-case name of the level.
    pub open spec fn name(self) -> Seq<char> {
        match self {
            Level::Error => "ERROR"@,
            Level::Warn => "WARN"@,
            Level::Info => "INFO"@,
            Level::Debug => "DEBUG"@,
            Level::Trace => "TRACE"@,
        }
    }

    /// The name wrapped in the ANSI colour codes of the level.
    pub open spec fn colored_name(self) -> Seq<char> {
        match self {
            Level::Error => "\x1b[91;1mERROR\x1b[0m"@,
            Level::Warn => "\x1b[33mWARN\x1b[0m"@,
            Level::Info => "\x1b[32mINFO\x1b[0m"@,
            Level::Debug => "\x1b[34mDEBUG\x1b[0m"@,
            Level::Trace => "\x1b[36mTRACE\x1b[0m"@,
        }
    }

    /// The label written for the level: coloured or plain.
    pub open spec fn label(self, colored: bool) -> Seq<char> {
        if colored {
            self.colored_name()
        } else {
            self.name()
        }
    }

    /// The plain upper-case name of the level.
    pub fn as_str(&self) -> (r: &'static str)
        ensures
            r@ == self.name(),
    {
        match self {
            Level::Error => "ERROR",
            Level::Warn => "WARN",
            Level::Info => "INFO",
            Level::Debug => "DEBUG",
            Level::Trace => "TRACE",
        }
    }

    /// The label of the level as a log line shows it: wrapped in ANSI colour
    /// codes when `colored` holds, the plain name otherwise.
    pub fn styled(&self, colored: bool) -> (r: &'static str)
        ensures
            r@ == self.label(colored),
    {
        if colored {
            match self {
                Level::Error => "\x1b[91;1mERROR\x1b[0m",
                Level::Warn => "\x1b[33mWARN\x1b[0m",
                Level::Info => "\x1b[32mINFO\x1b[0m",
                Level::Debug => "\x1b[34mDEBUG\x1b[0m",
                Level::Trace => "\x1b[36mTRACE\x1b[0m",
            }
        } else {
            self.as_str()
        }
    }
}

impl LevelFilter {
    /// Position in the severity order: 0 for `Off` up to 5 for `Trace`.
    pub open spec fn rank(self) -> nat {
        match self {
            LevelFilter::Off => 0,
            LevelFilter::Error => 1,
            LevelFilter::Warn => 2,
            LevelFilter::Info => 3,
            LevelFilter::Debug => 4,
            LevelFilter::Trace => 5,
        }
    }

    /// The plain upper-case name of the threshold.
    pub open spec fn name(self) -> Seq<char> {
        match self {
            LevelFilter::Off => "OFF"@,
            LevelFilter::Error => "ERROR"@,
            LevelFilter::Warn => "WARN"@,
            LevelFilter::Info => "INFO"@,
            LevelFilter::Debug => "DEBUG"@,
            LevelFilter::Trace => "TRACE"@,
        }
    }

    /// A record of `level` passes this threshold when it is at least as severe.
    pub open spec fn admits(self, level: Level) -> bool {
        level.rank() <= self.rank()
    }

    /// The plain upper-case name of the threshold.
    pub fn as_str(&self) -> (r: &'static str)
        ensures
            r@ == self.name(),
    {
        match self {
            LevelFilter::Off => "OFF",
            LevelFilter::Error => "ERROR",
            LevelFilter::Warn => "WARN",
            LevelFilter::Info => "INFO",
            LevelFilter::Debug => "DEBUG",
            LevelFilter::Trace => "TRACE",
        }
    }

    /// Whether a record of `level` passes this threshold.
    pub fn admits_level(&self, level: Level) -> (r: bool)
        ensures
            r == self.admits(level),
    {
        let rank: u8 = match level {
            Level::Error => 1,
            Level::Warn => 2,
            Level::Info => 3,
            Level::Debug => 4,
            Level::Trace => 5,
        };
        let bound: u8 = match self {
            LevelFilter::Off => 0,
            LevelFilter::Error => 1,
            LevelFilter::Warn => 2,
            LevelFilter::Info => 3,
            LevelFilter::Debug => 4,
            LevelFilter::Trace => 5,
        };
        rank <= bound
    }
}

} // verus!
