use vstd::prelude::*;

verus! {

/// Adds extra information to a log line, after the time, level and module and
/// before the message: a trace id, a thread id, a process id.
///
/// The appender receives the line built so far, adds its segment at the end
/// and reports whether the segment is non-empty.
pub trait LogAppender {
    /// The segment added to a line that reads `line` so far.
    spec fn segment(line: Seq<char>) -> Seq<char>;

    fn append(line: &mut String) -> (wrote: bool)
        ensures
            final(line)@ == old(line)@ + Self::segment(old(line)@),
            wrote == (Self::segment(old(line)@).len() > 0),
    ;
}

/// The appender that adds nothing.
#[derive(Clone, Copy, Debug, PartialEq, Eq, Structural)]
pub struct NopAppender;

impl LogAppender for NopAppender {
    open spec fn segment(line: Seq<char>) -> Seq<char> {
        Seq::empty()
    }

    fn append(line: &mut String) -> (wrote: bool) {
        assert(line@ =~= line@ + Self::segment(line@));
        false
    }
}

} // verus!
