//! Commands as they arrive through the command directory.
use vstd::prelude::*;
use crate::text::str_eq;

verus! {

/// The record a command artifact holds, and the record handed to the module
/// runner before it is executed.
#[derive(Clone, Debug)]
pub struct Command {
    pub command: String,
    pub profile: Option<String>,
    pub timestamp: String,
    pub module: Option<String>,
    pub args: Option<Vec<String>>,
}

/// The mathematical content of a `Command`.
pub struct CommandView {
    pub command: Seq<char>,
    pub profile: Option<Seq<char>>,
    pub timestamp: Seq<char>,
    pub module: Option<Seq<char>>,
    pub args: Option<Seq<Seq<char>>>,
}

pub open spec fn opt_view(o: Option<String>) -> Option<Seq<char>> {
    match o {
        Some(s) => Some(s@),
        None => None,
    }
}

impl View for Command {
    type V = CommandView;

    open spec fn view(&self) -> CommandView {
        CommandView {
            command: self.command@,
            profile: opt_view(self.profile),
            timestamp: self.timestamp@,
            module: opt_view(self.module),
            args: match self.args {
                Some(a) => Some(a.deep_view()),
                None => None,
            },
        }
    }
}

/// The command that a file of the command directory announces by its name.
#[derive(Clone, Copy, Debug, PartialEq, Eq, Structural)]
pub enum CommandFile {
    Start,
    Stop,
    LogsRequest,
    RunModule,
}

/// The file names that announce commands; any other file is not a command.
pub open spec fn command_file_spec(name: Seq<char>) -> Option<CommandFile> {
    if name == "start.json"@ {
        Some(CommandFile::Start)
    } else if name == "stop.json"@ {
        Some(CommandFile::Stop)
    } else if name == "logs_request.json"@ {
        Some(CommandFile::LogsRequest)
    } else if name == "run_module.json"@ {
        Some(CommandFile::RunModule)
    } else {
        None
    }
}

/// Tells which command, if any, a file name announces.
pub fn command_file(name: &str) -> (r: Option<CommandFile>)
    ensures
        r == command_file_spec(name@),
{
    if str_eq(name, "start.json") {
        Some(CommandFile::Start)
    } else if str_eq(name, "stop.json") {
        Some(CommandFile::Stop)
    } else if str_eq(name, "logs_request.json") {
        Some(CommandFile::LogsRequest)
    } else if str_eq(name, "run_module.json") {
        Some(CommandFile::RunModule)
    } else {
        None
    }
}

/// What was found when a command file was observed.
#[derive(Clone, Debug)]
pub enum Artifact {
    /// The file is no longer there (it was already consumed).
    Missing,
    /// The file is there but holds no command record (or its command needs none).
    Unparsed,
    /// The file is there and holds this record.
    Parsed(Command),
}

/// The mathematical content of an `Artifact`.
pub enum ArtifactView {
    Missing,
    Unparsed,
    Parsed(CommandView),
}

impl View for Artifact {
    type V = ArtifactView;

    open spec fn view(&self) -> ArtifactView {
        match self {
            Artifact::Missing => ArtifactView::Missing,
            Artifact::Unparsed => ArtifactView::Unparsed,
            Artifact::Parsed(c) => ArtifactView::Parsed(c@),
        }
    }
}

} // verus!
