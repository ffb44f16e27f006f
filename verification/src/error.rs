//! What can go wrong while the status of a repository is collected.
//!
//! Finding no repository is no error, and a configuration is never refused;
//! what is left is a backend that cannot open a repository, load its state or
//! resolve the working revision.

use vstd::prelude::*;
use vstd::string::*;

verus! {

/// Stands before the message of the change-oriented backend.
pub const JJ_FAILED: &'static str = "jj: ";

/// Stands before the message of the branch-oriented backend.
pub const GIT_FAILED: &'static str = "git: ";

/// A backend failed to read a repository. The message is the backend's own.
#[derive(Debug)]
pub enum Error {
    /// The change-oriented backend failed.
    Jj(String),
    /// The branch-oriented backend failed.
    Git(String),
}

impl Error {
    /// The text of the error: which backend failed, and its message.
    pub open spec fn text(self) -> Seq<char> {
        match self {
            Error::Jj(message) => JJ_FAILED@ + message@,
            Error::Git(message) => GIT_FAILED@ + message@,
        }
    }

    /// Writes the error out.
    pub fn describe(&self) -> (out: String)
        ensures
            out@ == self.text(),
    {
        match self {
            Error::Jj(message) => {
                let mut out = JJ_FAILED.to_owned();
                out.append(message.as_str());
                out
            },
            Error::Git(message) => {
                let mut out = GIT_FAILED.to_owned();
                out.append(message.as_str());
                out
            },
        }
    }
}

} // verus!
