//! From what was read of a repository to the line that is printed.
//!
//! The caller finds the repository with [`crate::detect::detect`], asks
//! [`backend_for`] which backend serves its kind, reads the repository with
//! that backend and hands the outcome to [`run_prompt`].

use crate::config::Config;
use crate::config::ConfigView;
use crate::detect::RepoType;
use crate::error::Error;
use crate::git::Checkout;
use crate::jj::WorkingCopy;
use crate::output::format_git;
use crate::output::format_jj;
use crate::output::git_line;
use crate::output::jj_line;
use vstd::prelude::*;

verus! {

/// The two backends that a repository can be read with.
#[derive(Debug, Clone, Copy, PartialEq, Eq, Structural)]
pub enum Backend {
    /// The change-oriented backend.
    Jj,
    /// The branch-oriented backend.
    Git,
}

/// What was read of a repository, by the backend that read it.
#[derive(Debug)]
pub enum Snapshot {
    /// Read by the change-oriented backend.
    Jj(WorkingCopy),
    /// Read by the branch-oriented backend.
    Git(Checkout),
}

/// The backend that serves a kind of repository. A colocated repository is
/// read as a change-oriented one.
pub open spec fn backend_of(repo_type: RepoType) -> Option<Backend> {
    match repo_type {
        RepoType::Jj | RepoType::JjColocated => Some(Backend::Jj),
        RepoType::Git => Some(Backend::Git),
        RepoType::NoRepo => None,
    }
}

/// The line for a snapshot: its status is collected with the identifier
/// length of `config` and rendered with the symbol and flags of its backend.
pub open spec fn prompt_of(snapshot: Snapshot, config: ConfigView) -> Seq<char> {
    match snapshot {
        Snapshot::Jj(working_copy) => jj_line(
            crate::jj::status_of(working_copy@, config.id_length),
            config,
        ),
        Snapshot::Git(checkout) => git_line(
            crate::git::status_of(checkout@, config.id_length),
            config,
        ),
    }
}

/// Tells which backend is to read a repository of the given kind, if any.
pub fn backend_for(repo_type: RepoType) -> (backend: Option<Backend>)
    ensures
        backend == backend_of(repo_type),
{
    match repo_type {
        RepoType::Jj | RepoType::JjColocated => Some(Backend::Jj),
        RepoType::Git => Some(Backend::Git),
        RepoType::NoRepo => None,
    }
}

/// Produces the prompt line, or nothing. `read` is `None` where there is no
/// repository, and an error where the backend failed. Either way nothing goes
/// out: a failure is not reported, and never is a part of a line printed. A
/// line goes out exactly where a snapshot was read.
pub fn run_prompt(read: Option<Result<Snapshot, Error>>, config: &Config) -> (out: Option<String>)
    ensures
        match read {
            Some(Ok(snapshot)) => out matches Some(line) && line@ == prompt_of(snapshot, config@),
            _ => out is None,
        },
{
    match read {
        Some(Ok(Snapshot::Jj(working_copy))) => {
            let info = crate::jj::collect(&working_copy, config.id_length);
            Some(format_jj(&info, config))
        },
        Some(Ok(Snapshot::Git(checkout))) => {
            let info = crate::git::collect(&checkout, config.id_length);
            Some(format_git(&info, config))
        },
        Some(Err(_)) => None,
        None => None,
    }
}

} // verus!
