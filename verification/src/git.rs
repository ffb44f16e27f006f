//! Status facts of a branch-oriented repository.
//!
//! Reading a repository is left to the caller, who hands over a [`Checkout`]:
//! what the repository says of its current commit, as plain values.
//! [`collect`] turns it into the [`GitInfo`] that is rendered.

use crate::text::prefix_of;
use crate::text::take_chars;
use vstd::prelude::*;
use vstd::string::*;

verus! {

/// How far a branch and the branch it follows are apart.
#[derive(Debug, Clone, Copy, PartialEq, Eq, Structural)]
pub struct Upstream {
    /// Commits that only the local branch has.
    pub ahead: usize,
    /// Commits that only the branch it follows has.
    pub behind: usize,
}

/// What a repository says of its current commit.
#[derive(Debug)]
pub struct Checkout {
    /// Hash of the current commit, in full.
    pub commit_id: String,
    /// How many leading digits of the hash tell it apart from every other
    /// object.
    pub unique_prefix: usize,
    /// The current branch; `None` where no branch is checked out.
    pub branch: Option<String>,
    /// The index holds unmerged paths.
    pub has_conflict: bool,
    /// The branch that the current one follows, if it follows one.
    pub upstream: Option<Upstream>,
}

/// Status of the current commit.
#[derive(Debug)]
pub struct GitInfo {
    /// Hash of the commit, cut to the length asked for.
    pub commit_id: String,
    /// How many leading characters of `commit_id` belong to its unique prefix.
    pub unique_prefix: usize,
    /// The current branch, if one is checked out.
    pub branch: Option<String>,
    /// The index holds unmerged paths.
    pub conflict: bool,
    /// The branch and the one it follows each have commits of their own.
    pub diverged: bool,
    /// The branch follows another.
    pub has_upstream: bool,
    /// The branch and the one it follows are at the same commit.
    pub is_synced: bool,
}

/// A checkout as the contracts see it.
pub struct CheckoutView {
    pub commit_id: Seq<char>,
    pub unique_prefix: nat,
    pub branch: Option<Seq<char>>,
    pub has_conflict: bool,
    pub upstream: Option<Upstream>,
}

/// The status of a checkout as the contracts see it.
pub struct GitInfoView {
    pub commit_id: Seq<char>,
    pub unique_prefix: nat,
    pub branch: Option<Seq<char>>,
    pub conflict: bool,
    pub diverged: bool,
    pub has_upstream: bool,
    pub is_synced: bool,
}

impl View for Checkout {
    type V = CheckoutView;

    open spec fn view(&self) -> CheckoutView {
        CheckoutView {
            commit_id: self.commit_id@,
            unique_prefix: self.unique_prefix as nat,
            branch: match self.branch {
                Some(name) => Some(name@),
                None => None,
            },
            has_conflict: self.has_conflict,
            upstream: self.upstream,
        }
    }
}

impl View for GitInfo {
    type V = GitInfoView;

    open spec fn view(&self) -> GitInfoView {
        GitInfoView {
            commit_id: self.commit_id@,
            unique_prefix: self.unique_prefix as nat,
            branch: match self.branch {
                Some(name) => Some(name@),
                None => None,
            },
            conflict: self.conflict,
            diverged: self.diverged,
            has_upstream: self.has_upstream,
            is_synced: self.is_synced,
        }
    }
}

/// The facts of a checkout. Without a branch to follow there is nothing that
/// could be out of step, so the commit counts as synced.
pub open spec fn status_of(checkout: CheckoutView, id_length: nat) -> GitInfoView {
    let commit_id = prefix_of(checkout.commit_id, id_length);
    GitInfoView {
        commit_id,
        unique_prefix: if checkout.unique_prefix < commit_id.len() {
            checkout.unique_prefix
        } else {
            commit_id.len()
        },
        branch: checkout.branch,
        conflict: checkout.has_conflict,
        diverged: checkout.upstream matches Some(upstream) && upstream.ahead > 0 && upstream.behind
            > 0,
        has_upstream: checkout.upstream is Some,
        is_synced: match checkout.upstream {
            Some(upstream) => upstream.ahead == 0 && upstream.behind == 0,
            None => true,
        },
    }
}

/// Collects the status of a checkout. The hash is cut to `id_length`
/// characters.
pub fn collect(checkout: &Checkout, id_length: usize) -> (info: GitInfo)
    ensures
        info@ == status_of(checkout@, id_length as nat),
{
    let commit_id = take_chars(checkout.commit_id.as_str(), id_length);
    let shown = commit_id.as_str().unicode_len();
    let unique_prefix = if checkout.unique_prefix < shown {
        checkout.unique_prefix
    } else {
        shown
    };
    let (diverged, has_upstream, is_synced) = match checkout.upstream {
        Some(upstream) => (
            upstream.ahead > 0 && upstream.behind > 0,
            true,
            upstream.ahead == 0 && upstream.behind == 0,
        ),
        None => (false, false, true),
    };
    GitInfo {
        commit_id,
        unique_prefix,
        branch: checkout.branch.clone(),
        conflict: checkout.has_conflict,
        diverged,
        has_upstream,
        is_synced,
    }
}

} // verus!
