//! The subcommands: each turns its arguments and what it was shown of the
//! filesystem into a plan of actions.
use vstd::prelude::*;

use crate::action::{effects, is_mutation, Action};
use crate::cli::clean::{clean_compiles, clean_plan, keep_globs, opt_texts, remove_globs};
use crate::cli::copy::copy_effects;
use crate::cli::init::init_effects;
use crate::paths::{comma_pieces, split_commas, texts};

pub mod clean;
pub mod copy;
pub mod init;

verus! {

/// Where the local package repository lives unless told otherwise.
pub const DEFAULT_REPOSITORY: &'static str = "/var/lib/solbuild/local";

/// A subcommand with its arguments.
#[derive(Debug, Clone)]
pub enum Command {
    /// Remove package files from the local repository.
    Clean {
        dry_run: bool,
        index: bool,
        /// Comma-separated names of packages to keep.
        keep: Option<String>,
        /// Names of packages to remove; all packages when absent.
        remove: Option<Vec<String>>,
    },
    /// Copy package files into the local repository.
    Copy { index: bool },
    /// Set up the directory of a new package.
    Init { name: String, url: String, maintain: bool },
}

/// What a subcommand is shown of the filesystem.
pub struct Workspace {
    /// The local repository directory.
    pub repo: String,
    /// The full paths of the repository's entries, in listing order.
    pub repo_entries: Vec<String>,
    /// The package files of the working directory, relative to it.
    pub packages: Vec<String>,
    /// The working directory.
    pub current_dir: String,
}

/// Why a subcommand could not be planned.
#[derive(Debug)]
pub enum Error {
    Clean(clean::Error),
}

/// The keep names given as one comma-separated text.
pub open spec fn keep_names(keep: Option<String>) -> Option<Seq<Seq<char>>> {
    match keep {
        Some(k) => Some(comma_pieces(k@)),
        None => None,
    }
}

/// Splits the comma-separated keep names.
pub fn split_keep(keep: &Option<String>) -> (r: Option<Vec<String>>)
    ensures
        opt_texts(r) == keep_names(*keep),
{
    match keep {
        Some(k) => Some(split_commas(k.as_str())),
        None => None,
    }
}

/// Plans the given subcommand; no subcommand plans nothing.
pub fn process(command: &Option<Command>, ws: &Workspace) -> (r: Result<Vec<Action>, Error>)
    ensures
        *command is None ==> (r matches Ok(plan) && plan@.len() == 0),
        *command matches Some(Command::Copy { index }) ==> (r matches Ok(plan) && effects(plan@)
            == copy_effects(index, ws.repo@, texts(ws.packages@))),
        *command matches Some(Command::Init { name, url, maintain }) ==> (r matches Ok(plan)
            && effects(plan@) == init_effects(name@, url@, maintain, ws.current_dir@)),
        *command matches Some(Command::Clean { dry_run, index, keep, remove }) ==> (r is Ok
            <==> clean_compiles(ws.repo@, opt_texts(remove), keep_names(keep))),
        *command matches Some(Command::Clean { dry_run, index, keep, remove }) ==> (r matches Ok(
            plan,
        ) ==> clean_plan(
            dry_run,
            index,
            ws.repo@,
            opt_texts(remove),
            keep_names(keep),
            texts(ws.repo_entries@),
        ) == Some(effects(plan@))),
        *command matches Some(Command::Clean { dry_run, index, keep, remove }) ==> (
        clean::any_malformed(remove_globs(ws.repo@, opt_texts(remove)))
            || clean::any_malformed(keep_globs(ws.repo@, keep_names(keep))) ==> r is Err),
        *command matches Some(Command::Clean { dry_run, index, keep, remove }) ==> (r matches Ok(
            plan,
        ) ==> (dry_run ==> forall|i: int| 0 <= i < plan@.len() ==> !is_mutation((#[trigger] plan@[i])@))),
{
    match command {
        Some(Command::Clean { dry_run, index, keep, remove }) => {
            let keep_vec = split_keep(keep);
            match clean::handle(
                *dry_run,
                *index,
                remove.clone(),
                keep_vec,
                ws.repo.as_str(),
                &ws.repo_entries,
            ) {
                Ok(plan) => Ok(plan),
                Err(e) => Err(Error::Clean(e)),
            }
        },
        Some(Command::Copy { index }) => Ok(copy::handle(*index, ws.repo.as_str(), &ws.packages)),
        Some(Command::Init { name, url, maintain }) => Ok(
            init::handle(name.clone(), url.clone(), *maintain, ws.current_dir.as_str()),
        ),
        None => Ok(Vec::new()),
    }
}

} // verus!
