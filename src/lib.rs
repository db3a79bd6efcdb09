//! A process-wide line logger: level-gated records are rendered as
//! `[<timestamp> <LEVEL> <module>] - <message>` lines, with an optional
//! appender segment, and handed to a chosen destination.
use vstd::prelude::*;

pub mod appender;
pub mod guard;
pub mod level;
pub mod logger;
pub mod time;
pub mod writer;

pub use appender::{LogAppender, NopAppender};
pub use guard::InitGuard;
pub use level::{Level, LevelFilter};
pub use logger::{BaseLogger, LEVEL_COLOR};
pub use time::format_timestamp;
pub use writer::{Destination, LogFileWriter, LogWriter, Stderr, Stdout};

verus! {

/// The default logger: no appender, lines to standard error.
pub type Logger = BaseLogger<NopAppender>;

/// A logger with no appender that writes its lines to standard output.
pub type StdoutLogger = BaseLogger<NopAppender, Stdout>;

} // verus!
