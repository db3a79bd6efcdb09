use vstd::prelude::*;

verus! {

/// Where the lines of a logger go.
#[derive(Clone, Copy, Debug, PartialEq, Eq, Structural)]
pub enum Destination {
    Stdout,
    Stderr,
    File,
}

/// Resolves the destination of each line a logger emits.
pub trait LogWriter {
    /// The destination this writer stands for.
    spec fn destination(&self) -> Destination;

    fn get(&self) -> (r: Destination)
        ensures
            r == self.destination(),
    ;
}

/// Sends lines to standard output.
#[derive(Clone, Copy, Debug, PartialEq, Eq, Structural)]
pub struct Stdout;

impl LogWriter for Stdout {
    open spec fn destination(&self) -> Destination {
        Destination::Stdout
    }

    fn get(&self) -> (r: Destination) {
        Destination::Stdout
    }
}

/// Sends lines to standard error.
#[derive(Clone, Copy, Debug, PartialEq, Eq, Structural)]
pub struct Stderr;

impl LogWriter for Stderr {
    open spec fn destination(&self) -> Destination {
        Destination::Stderr
    }

    fn get(&self) -> (r: Destination) {
        Destination::Stderr
    }
}

/// Sends lines to one already opened file, reached through the shared handle `F`.
pub struct LogFileWriter<F> {
    file: F,
}

impl<F> LogFileWriter<F> {
    /// The handle the writer was built from.
    pub closed spec fn handle(&self) -> F {
        self.file
    }

    /// The writer for the file behind `file`.
    pub fn new(file: F) -> (r: Self)
        ensures
            r.handle() == file,
    {
        LogFileWriter { file }
    }

    /// The handle lines are written through.
    pub fn file(&self) -> (r: &F)
        ensures
            *r == self.handle(),
    {
        &self.file
    }
}

impl<F> LogWriter for LogFileWriter<F> {
    open spec fn destination(&self) -> Destination {
        Destination::File
    }

    fn get(&self) -> (r: Destination) {
        Destination::File
    }
}

} // verus!
