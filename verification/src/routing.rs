//! Where received bytes go, and where bytes to send come from.
use vstd::prelude::*;
use crate::args::Args;

verus! {

/// The destination of received bytes.
#[derive(Clone, Debug, PartialEq, Eq)]
pub enum Sink {
    /// The input of a shell command.
    Exec(String),
    /// A file, created or overwritten.
    File(String),
    /// Standard output.
    Stdout,
}

/// The origin of the bytes that a client sends.
#[derive(Clone, Debug, PartialEq, Eq)]
pub enum Source {
    /// A file, read whole.
    File(String),
    /// Standard input, read to its end.
    Stdin,
}

/// The sink that a configuration asks for: the command where one is set, else
/// the file where one is set, else standard output.
pub open spec fn sink_of(args: Args) -> Sink {
    match args.exec_command {
        Some(command) => Sink::Exec(command),
        None => match args.file {
            Some(path) => Sink::File(path),
            None => Sink::Stdout,
        },
    }
}

/// The source that a configuration asks for: the file where one is set, else
/// standard input.
pub open spec fn source_of(args: Args) -> Source {
    match args.file {
        Some(path) => Source::File(path),
        None => Source::Stdin,
    }
}

impl Sink {
    /// A copy of the sink.
    pub fn duplicate(&self) -> (r: Sink)
        ensures
            r == *self,
    {
        match self {
            Sink::Exec(command) => Sink::Exec(command.clone()),
            Sink::File(path) => Sink::File(path.clone()),
            Sink::Stdout => Sink::Stdout,
        }
    }
}

impl Source {
    /// A copy of the source.
    pub fn duplicate(&self) -> (r: Source)
        ensures
            r == *self,
    {
        match self {
            Source::File(path) => Source::File(path.clone()),
            Source::Stdin => Source::Stdin,
        }
    }
}

/// Chooses the sink of a server. A command takes precedence over a file.
pub fn select_sink(args: &Args) -> (r: Sink)
    ensures
        r == sink_of(*args),
        args.exec_command is Some ==> r is Exec,
{
    match &args.exec_command {
        Some(command) => Sink::Exec(command.clone()),
        None => match &args.file {
            Some(path) => Sink::File(path.clone()),
            None => Sink::Stdout,
        },
    }
}

/// Chooses the source of a client.
pub fn select_source(args: &Args) -> (r: Source)
    ensures
        r == source_of(*args),
{
    match &args.file {
        Some(path) => Source::File(path.clone()),
        None => Source::Stdin,
    }
}

/// Whenever a command is configured the sink is that command, whatever the
/// file setting is.
pub proof fn lemma_command_takes_precedence(args: Args)
    requires
        args.exec_command is Some,
    ensures
        sink_of(args) == Sink::Exec(args.exec_command->0),
        !(sink_of(args) is File),
{
}

} // verus!
