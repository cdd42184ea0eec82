//! The two Git operations of a run, as the command lines to execute and as the reading of
//! what the processes left behind.

use vstd::prelude::*;
use vstd::string::*;
use crate::text::{chain, texts};

verus! {

/// A Git operation on one repository.
#[derive(Debug, PartialEq)]
pub enum GitOperation {
    /// Clone `url` into `destination`, whose parent directory is made first.
    Clone { url: String, destination: String },
    /// Fetch all remotes of the repository at `path`.
    Fetch { path: String },
}

/// How a process ended.
#[derive(Debug, PartialEq)]
pub struct ProcessExit {
    /// Whether the exit status was zero.
    pub success: bool,
    /// What the process wrote to its error stream.
    pub stderr: String,
}

/// The arguments after `git` for `operation`, as texts.
pub open spec fn git_arguments(operation: GitOperation) -> Seq<Seq<char>> {
    match operation {
        GitOperation::Clone { url, destination } => seq!["clone"@, url@, destination@],
        GitOperation::Fetch { path } => seq!["-C"@, path@, "fetch"@, "--all"@],
    }
}

/// What `git` is asked to do in `operation`, in the words of the messages.
pub open spec fn git_verb(operation: GitOperation) -> Seq<char> {
    match operation {
        GitOperation::Clone { .. } => "git clone"@,
        GitOperation::Fetch { .. } => "git fetch"@,
    }
}

/// Why `operation` failed, given how its process went: `None` where it succeeded. A
/// process that could not be started fails with the reason, one that ended with another
/// status than zero with what it wrote to its error stream.
pub open spec fn git_failure(operation: GitOperation, exit: Result<ProcessExit, String>) -> Option<
    Seq<char>,
> {
    match exit {
        Err(reason) => Some("Failed to execute "@ + git_verb(operation) + ": "@ + reason@),
        Ok(exit) => if exit.success {
            None
        } else {
            Some(git_verb(operation) + " failed: "@ + exit.stderr@)
        },
    }
}

impl GitOperation {
    /// The arguments after `git`.
    pub fn arguments(&self) -> (arguments: Vec<String>)
        ensures
            texts(arguments@) == git_arguments(*self),
    {
        let mut arguments: Vec<String> = Vec::new();
        match self {
            GitOperation::Clone { url, destination } => {
                arguments.push("clone".to_owned());
                arguments.push(url.clone());
                arguments.push(destination.clone());
            },
            GitOperation::Fetch { path } => {
                arguments.push("-C".to_owned());
                arguments.push(path.clone());
                arguments.push("fetch".to_owned());
                arguments.push("--all".to_owned());
            },
        }
        arguments
    }

    /// Why the operation failed, given how its process went; `None` where it succeeded.
    pub fn failure(&self, exit: Result<ProcessExit, String>) -> (reason: Option<String>)
        ensures
            match git_failure(*self, exit) {
                Some(text) => reason.is_some() && reason.unwrap()@ == text,
                None => reason.is_none(),
            },
    {
        let verb: &str = match self {
            GitOperation::Clone { .. } => "git clone",
            GitOperation::Fetch { .. } => "git fetch",
        };
        match exit {
            Err(reason) => {
                let mut text = chain("Failed to execute ", verb);
                text.append(": ");
                text.append(reason.as_str());
                Some(text)
            },
            Ok(exit) => {
                if exit.success {
                    None
                } else {
                    let mut text = chain(verb, " failed: ");
                    text.append(exit.stderr.as_str());
                    Some(text)
                }
            },
        }
    }
}

} // verus!
