//! The file operations and external commands that a subcommand asks for.
//! The library only plans them; the caller carries them out in order and
//! stops at the first failure.
use vstd::prelude::*;

use crate::paths::texts;

verus! {

/// One step of a plan.
#[derive(Debug, Clone, PartialEq, Eq)]
pub enum Action {
    /// Print a path without touching it.
    Report(String),
    /// Delete a file.
    RemoveFile(String),
    /// Copy a file to a new location.
    CopyFile { from: String, to: String },
    /// Create a directory.
    CreateDir(String),
    /// Write a file with the given contents.
    WriteFile { path: String, contents: String },
    /// Run an external program with arguments in a working directory.
    Run { program: String, args: Vec<String>, dir: String },
}

/// The mathematical content of an [`Action`].
pub enum Effect {
    Report(Seq<char>),
    RemoveFile(Seq<char>),
    CopyFile { from: Seq<char>, to: Seq<char> },
    CreateDir(Seq<char>),
    WriteFile { path: Seq<char>, contents: Seq<char> },
    Run { program: Seq<char>, args: Seq<Seq<char>>, dir: Seq<char> },
}

impl View for Action {
    type V = Effect;

    open spec fn view(&self) -> Effect {
        match self {
            Action::Report(p) => Effect::Report(p@),
            Action::RemoveFile(p) => Effect::RemoveFile(p@),
            Action::CopyFile { from, to } => Effect::CopyFile { from: from@, to: to@ },
            Action::CreateDir(p) => Effect::CreateDir(p@),
            Action::WriteFile { path, contents } => Effect::WriteFile {
                path: path@,
                contents: contents@,
            },
            Action::Run { program, args, dir } => Effect::Run {
                program: program@,
                args: texts(args@),
                dir: dir@,
            },
        }
    }
}

/// The effects of a sequence of actions.
pub open spec fn effects(v: Seq<Action>) -> Seq<Effect> {
    v.map_values(|a: Action| a@)
}

/// Whether carrying out the effect may change anything on disk.
pub open spec fn is_mutation(e: Effect) -> bool {
    !(e is Report)
}

} // verus!
