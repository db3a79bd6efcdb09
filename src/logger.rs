use core::marker::PhantomData;
use vstd::prelude::*;
use vstd::string::*;

use crate::appender::{LogAppender, NopAppender};
use crate::level::{Level, LevelFilter};
use crate::time::{format_timestamp, iso_datetime_of};
use crate::writer::{LogWriter, Stderr, Stdout};

verus! {

/// Whether level labels carry ANSI colour codes.
pub const LEVEL_COLOR: bool = false;

/// The module text of a line: the module path, or `unknown` when there is none.
pub open spec fn module_text(module: Option<&str>) -> Seq<char> {
    match module {
        Some(m) => m@,
        None => "unknown"@,
    }
}

/// The head of every line: `[<timestamp> <label> <module>] `.
pub open spec fn line_head(timestamp: Seq<char>, label: Seq<char>, module: Seq<char>) -> Seq<char> {
    "["@ + timestamp + " "@ + label + " "@ + module + "] "@
}

/// A full line after `head`: the appender's `extra` text, when there is any,
/// followed by one space, then `- <message>` and the line terminator.
pub open spec fn line_with(head: Seq<char>, extra: Seq<char>, message: Seq<char>) -> Seq<char> {
    head + (if extra.len() == 0 {
        Seq::<char>::empty()
    } else {
        extra + " "@
    }) + "- "@ + message + "\n"@
}

/// A line with no appender segment: `[<timestamp> <label> <module>] - <message>\n`.
pub open spec fn plain_line(
    timestamp: Seq<char>,
    label: Seq<char>,
    module: Seq<char>,
    message: Seq<char>,
) -> Seq<char> {
    "["@ + timestamp + " "@ + label + " "@ + module + "] - "@ + message + "\n"@
}

/// The no-op appender leaves a record's line exactly as it is without any
/// appender step: the plain `[<timestamp> <label> <module>] - <message>` line
/// that `print_line` writes.
pub proof fn lemma_silent_appender_line(
    timestamp: Seq<char>,
    label: Seq<char>,
    module: Seq<char>,
    message: Seq<char>,
)
    ensures
        line_with(
            line_head(timestamp, label, module),
            NopAppender::segment(line_head(timestamp, label, module)),
            message,
        ) == plain_line(timestamp, label, module, message),
{
    reveal_strlit("] ");
    reveal_strlit("- ");
    reveal_strlit("] - ");
    assert(line_with(
        line_head(timestamp, label, module),
        NopAppender::segment(line_head(timestamp, label, module)),
        message,
    ) =~= plain_line(timestamp, label, module, message));
}

/// An appender that writes a segment adds exactly that segment and one space
/// between the head and the `- <message>` part of the plain line, which stays
/// as it is.
pub proof fn lemma_appender_segment_line<A: LogAppender>(
    timestamp: Seq<char>,
    label: Seq<char>,
    module: Seq<char>,
    message: Seq<char>,
)
    requires
        A::segment(line_head(timestamp, label, module)).len() > 0,
    ensures
        plain_line(timestamp, label, module, message) == line_head(timestamp, label, module)
            + "- "@ + message + "\n"@,
        line_with(
            line_head(timestamp, label, module),
            A::segment(line_head(timestamp, label, module)),
            message,
        ) == line_head(timestamp, label, module) + A::segment(line_head(timestamp, label, module))
            + " "@ + "- "@ + message + "\n"@,
{
    reveal_strlit("] ");
    reveal_strlit("- ");
    reveal_strlit("] - ");
    let head = line_head(timestamp, label, module);
    assert(plain_line(timestamp, label, module, message) =~= head + "- "@ + message + "\n"@);
    assert(line_with(head, A::segment(head), message) =~= head + A::segment(head) + " "@ + "- "@
        + message + "\n"@);
}

/// A text that holds no line terminator.
pub open spec fn single_line(s: Seq<char>) -> bool {
    forall|i: int| 0 <= i < s.len() ==> s[i] != '\n'
}

/// Each record gives exactly one line: when no part of it holds a line
/// terminator, the rendered text starts with `[`, ends with the terminator
/// and holds no other.
pub proof fn lemma_one_line_per_record(
    timestamp: Seq<char>,
    label: Seq<char>,
    module: Seq<char>,
    extra: Seq<char>,
    message: Seq<char>,
)
    requires
        single_line(timestamp),
        single_line(label),
        single_line(module),
        single_line(extra),
        single_line(message),
    ensures
        line_with(line_head(timestamp, label, module), extra, message)[0] == '[',
        line_with(line_head(timestamp, label, module), extra, message).last() == '\n',
        single_line(
            line_with(line_head(timestamp, label, module), extra, message).drop_last(),
        ),
{
    reveal_strlit("[");
    reveal_strlit(" ");
    reveal_strlit("] ");
    reveal_strlit("- ");
    reveal_strlit("\n");
    let sep = if extra.len() == 0 {
        Seq::<char>::empty()
    } else {
        extra + " "@
    };
    let body = "["@ + timestamp + " "@ + label + " "@ + module + "] "@ + sep + "- "@ + message;
    assert(single_line(sep));
    assert(single_line(body));
    assert(line_with(line_head(timestamp, label, module), extra, message) =~= body + "\n"@);
    assert((body + "\n"@).drop_last() =~= body);
}

/// The logger: a level threshold and a writer, with the appender `A` chosen by type.
pub struct BaseLogger<A: LogAppender, W: LogWriter = Stderr> {
    level: LevelFilter,
    writer: W,
    _appender: PhantomData<A>,
}

/// Builds `[<timestamp> <label> <module>] `.
fn head_of(timestamp: &str, level: Level, module: &str) -> (r: String)
    ensures
        r@ == line_head(timestamp@, level.label(LEVEL_COLOR), module@),
{
    let mut line = String::new();
    line.append("[");
    line.append(timestamp);
    line.append(" ");
    line.append(level.styled(LEVEL_COLOR));
    line.append(" ");
    line.append(module);
    line.append("] ");
    line
}

impl<A: LogAppender, W: LogWriter> BaseLogger<A, W> {
    /// The threshold the logger was configured with.
    pub closed spec fn threshold(&self) -> LevelFilter {
        self.level
    }

    /// The writer the logger was configured with.
    pub closed spec fn destination_writer(&self) -> W {
        self.writer
    }

    /// The logger configured with `level` and `writer`.
    pub fn init_with_writer(level: LevelFilter, writer: W) -> (r: Self)
        ensures
            r.threshold() == level,
            r.destination_writer() == writer,
    {
        BaseLogger { level, writer, _appender: PhantomData }
    }

    /// The configured threshold.
    pub fn level(&self) -> (r: LevelFilter)
        ensures
            r == self.threshold(),
    {
        self.level
    }

    /// The configured writer.
    pub fn writer(&self) -> (r: &W)
        ensures
            *r == self.destination_writer(),
    {
        &self.writer
    }

    /// The label written for `level`.
    pub fn styled_level(level: Level) -> (r: &'static str)
        ensures
            r@ == level.label(LEVEL_COLOR),
    {
        level.styled(LEVEL_COLOR)
    }

    /// Whether a record of `level` passes the configured threshold.
    pub fn enabled(&self, level: Level) -> (r: bool)
        ensures
            r == self.threshold().admits(level),
    {
        self.level.admits_level(level)
    }

    /// The line of a record stamped `timestamp`: the head, then the
    /// appender's segment followed by one space when the segment is not
    /// empty, then `- <message>` and the line terminator.
    pub fn format_record(timestamp: &str, level: Level, module: Option<&str>, message: &str) -> (r:
        String)
        ensures
            r@ == line_with(
                line_head(timestamp@, level.label(LEVEL_COLOR), module_text(module)),
                A::segment(line_head(timestamp@, level.label(LEVEL_COLOR), module_text(module))),
                message@,
            ),
    {
        let module_str: &str = match module {
            Some(m) => m,
            None => "unknown",
        };
        assert(module_str@ == module_text(module));
        let mut line = head_of(timestamp, level, module_str);
        let ghost head = line@;
        let wrote = A::append(&mut line);
        if wrote {
            line.append(" ");
        }
        line.append("- ");
        line.append(message);
        line.append("\n");
        assert(line_with(head, A::segment(head), message@) =~= line@);
        line
    }

    /// The line of a record of `level` that the facade has let through to
    /// this logger, stamped `millis` milliseconds after the Unix epoch. The
    /// threshold is not consulted again here: the facade gates records with
    /// `enabled` before handing them over.
    pub fn log(&self, millis: u64, level: Level, module: Option<&str>, message: &str) -> (r: String)
        ensures
            r@ == line_with(
                line_head(iso_datetime_of(millis as nat), level.label(LEVEL_COLOR), module_text(module)),
                A::segment(
                    line_head(
                        iso_datetime_of(millis as nat),
                        level.label(LEVEL_COLOR),
                        module_text(module),
                    ),
                ),
                message@,
            ),
    {
        let timestamp = format_timestamp(millis);
        Self::format_record(timestamp.as_str(), level, module, message)
    }

    /// The line written directly, before or without initialization, for a
    /// record of `level` at `millis` milliseconds after the Unix epoch: no
    /// threshold and no appender apply.
    pub fn print_line(millis: u64, level: Level, module: &str, message: &str) -> (r: String)
        ensures
            r@ == plain_line(
                iso_datetime_of(millis as nat),
                level.label(LEVEL_COLOR),
                module@,
                message@,
            ),
    {
        let timestamp = format_timestamp(millis);
        let mut line = head_of(timestamp.as_str(), level, module);
        proof {
            reveal_strlit("] ");
            reveal_strlit("- ");
            reveal_strlit("] - ");
        }
        line.append("- ");
        line.append(message);
        line.append("\n");
        assert(line@ =~= plain_line(
            iso_datetime_of(millis as nat),
            level.label(LEVEL_COLOR),
            module@,
            message@,
        ));
        line
    }
}

impl<A: LogAppender> BaseLogger<A, Stderr> {
    /// The logger that writes to standard error, with threshold `level`.
    pub fn init(level: LevelFilter) -> (r: Self)
        ensures
            r.threshold() == level,
            r.destination_writer() == Stderr,
    {
        Self::init_with_writer(level, Stderr)
    }
}

impl<A: LogAppender> BaseLogger<A, Stdout> {
    /// The logger that writes to standard output, with threshold `level`.
    pub fn init(level: LevelFilter) -> (r: Self)
        ensures
            r.threshold() == level,
            r.destination_writer() == Stdout,
    {
        Self::init_with_writer(level, Stdout)
    }
}

} // verus!
