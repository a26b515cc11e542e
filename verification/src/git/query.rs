//! The questions a snapshot is built from, and the shapes of their answers.
//!
//! A backend is whatever can answer a [`GitQuery`] with a [`GitAnswer`]: a
//! `git` child process whose output is read, or a repository opened in
//! process. The snapshot is built from the answers alone.

use crate::git::types::{ChangeCounts, GitLocalRepoChanges};
use vstd::prelude::*;

verus! {

/// One primitive question about the repository.
#[derive(Debug, Clone, PartialEq, Eq)]
pub enum GitQuery {
    /// The name of the checked out branch; empty on a detached head.
    LocalBranchName,
    /// The pending changes of the index and the working tree.
    PorcelainStatus,
    /// The remote configured for a branch; empty if there is none.
    RemoteName { local_branch: String },
    /// The ref a branch tracks on its remote; empty if there is none.
    RemoteBranchName { local_branch: String },
    /// The best common ancestor of the merge target and a branch; empty if
    /// either is absent.
    MergeBase { merge_target: String, local_branch: String },
    /// How many commits, merges aside, `from_commit` has that `to_commit`
    /// lacks.
    RevToPull { from_commit: String, to_commit: String },
    /// How many commits, merges aside, `to_commit` has that `from_commit`
    /// lacks.
    RevToPush { from_commit: String, to_commit: String },
    /// The number of stashes.
    StashCount,
    /// The abbreviated id of the head commit; empty before the first commit.
    CommitShortSha,
    /// The tag that names the head commit exactly; empty if there is none.
    CommitTag,
}

/// A question, with its texts as sequences of characters.
pub enum QueryModel {
    LocalBranchName,
    PorcelainStatus,
    RemoteName { local_branch: Seq<char> },
    RemoteBranchName { local_branch: Seq<char> },
    MergeBase { merge_target: Seq<char>, local_branch: Seq<char> },
    RevToPull { from_commit: Seq<char>, to_commit: Seq<char> },
    RevToPush { from_commit: Seq<char>, to_commit: Seq<char> },
    StashCount,
    CommitShortSha,
    CommitTag,
}

impl View for GitQuery {
    type V = QueryModel;

    open spec fn view(&self) -> QueryModel {
        match *self {
            GitQuery::LocalBranchName => QueryModel::LocalBranchName,
            GitQuery::PorcelainStatus => QueryModel::PorcelainStatus,
            GitQuery::RemoteName { local_branch } => QueryModel::RemoteName {
                local_branch: local_branch@,
            },
            GitQuery::RemoteBranchName { local_branch } => QueryModel::RemoteBranchName {
                local_branch: local_branch@,
            },
            GitQuery::MergeBase { merge_target, local_branch } => QueryModel::MergeBase {
                merge_target: merge_target@,
                local_branch: local_branch@,
            },
            GitQuery::RevToPull { from_commit, to_commit } => QueryModel::RevToPull {
                from_commit: from_commit@,
                to_commit: to_commit@,
            },
            GitQuery::RevToPush { from_commit, to_commit } => QueryModel::RevToPush {
                from_commit: from_commit@,
                to_commit: to_commit@,
            },
            GitQuery::StashCount => QueryModel::StashCount,
            GitQuery::CommitShortSha => QueryModel::CommitShortSha,
            GitQuery::CommitTag => QueryModel::CommitTag,
        }
    }
}

impl QueryModel {
    /// Whether the question is about the upstream of the branch: the ref it
    /// tracks, a merge base, or a count of commits ahead or behind.
    pub open spec fn about_upstream(self) -> bool {
        self is RemoteBranchName || self is MergeBase || self is RevToPull || self is RevToPush
    }
}

/// The answer to a question: a text, a count, or a tally of changes.
#[derive(Debug, Clone, PartialEq, Eq)]
pub enum GitAnswer {
    Text(String),
    Count(usize),
    Changes(GitLocalRepoChanges),
}

/// An answer, as a mathematical value.
pub enum AnswerModel {
    Text(Seq<char>),
    Count(nat),
    Changes(ChangeCounts),
}

impl View for GitAnswer {
    type V = AnswerModel;

    open spec fn view(&self) -> AnswerModel {
        match *self {
            GitAnswer::Text(text) => AnswerModel::Text(text@),
            GitAnswer::Count(count) => AnswerModel::Count(count as nat),
            GitAnswer::Changes(changes) => AnswerModel::Changes(changes@),
        }
    }
}

/// The shape of answer that a question calls for.
pub open spec fn answers(query: QueryModel, answer: AnswerModel) -> bool {
    match query {
        QueryModel::PorcelainStatus => answer is Changes,
        QueryModel::RevToPull { .. } | QueryModel::RevToPush { .. } | QueryModel::StashCount
            => answer is Count,
        _ => answer is Text,
    }
}

} // verus!
