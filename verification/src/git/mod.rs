//! The repository snapshot and the queries that fill it.
//!
//! A snapshot is built in steps. The builder names the question it needs
//! answered next; whoever holds the repository answers it and hands the
//! answer to [`get_git_repo_state`], which records it and moves on. The
//! questions come in a fixed order, and those that make no sense without a
//! remote or without a merge base are never asked.

use crate::git::parse::branch::{build_fully_qualified_remote_branch_name, qualified_name};
use crate::git::query::{answers, AnswerModel, GitAnswer, GitQuery, QueryModel};
use crate::git::types::{ChangeCounts, GitRepoState, RepoSnapshot};
use vstd::prelude::*;

pub mod cli;
pub mod libgit;
pub mod parse;
pub mod query;
pub mod types;

verus! {

/// The answer that a builder waits for.
#[derive(Debug, Clone, Copy, PartialEq, Eq, Structural)]
pub enum BuildStage {
    LocalBranch,
    Status,
    Remote,
    TrackingBranch,
    MergeBase,
    CommitsToPull,
    CommitsToPush,
    MergeCommitsToPull,
    MergeCommitsToPush,
    StashCount,
    CommitShortSha,
    CommitTag,
    Done,
}

impl BuildStage {
    /// Whether the stage belongs to the comparison with an upstream.
    pub open spec fn about_upstream(self) -> bool {
        self is TrackingBranch || self is MergeBase || self is CommitsToPull
            || self is CommitsToPush || self is MergeCommitsToPull || self is MergeCommitsToPush
    }

    /// Whether the stage comes before the remote is known.
    pub open spec fn before_remote(self) -> bool {
        self is LocalBranch || self is Status || self is Remote
    }
}

/// Why an answer was not recorded.
#[derive(Debug, Clone, Copy, PartialEq, Eq, Structural)]
pub enum BuildError {
    /// The answer has not the shape that the pending question calls for.
    WrongAnswer,
    /// The snapshot is complete: no question is pending.
    Finished,
}

/// The branch that remote branches are measured against.
pub open spec fn merge_target() -> Seq<char> {
    "origin/master"@
}

/// The name of the checked out commit.
pub open spec fn head() -> Seq<char> {
    "HEAD"@
}

/// A builder as a mathematical value.
pub struct BuilderModel {
    pub stage: BuildStage,
    pub snapshot: RepoSnapshot,
    pub merge_base: Seq<char>,
}

impl BuilderModel {
    /// The builder that has not asked anything yet.
    pub open spec fn initial() -> BuilderModel {
        BuilderModel {
            stage: BuildStage::LocalBranch,
            snapshot: RepoSnapshot::empty(),
            merge_base: Seq::empty(),
        }
    }

    /// The local name of the branch that the checked out branch tracks.
    pub open spec fn remote_branch(self) -> Seq<char> {
        qualified_name(self.snapshot.remote, self.snapshot.remote_tracking_branch)
    }

    /// The question to answer next; none once the snapshot is complete.
    pub open spec fn pending(self) -> Option<QueryModel> {
        match self.stage {
            BuildStage::LocalBranch => Some(QueryModel::LocalBranchName),
            BuildStage::Status => Some(QueryModel::PorcelainStatus),
            BuildStage::Remote => Some(
                QueryModel::RemoteName { local_branch: self.snapshot.local_branch },
            ),
            BuildStage::TrackingBranch => Some(
                QueryModel::RemoteBranchName { local_branch: self.snapshot.local_branch },
            ),
            BuildStage::MergeBase => Some(
                QueryModel::MergeBase {
                    merge_target: merge_target(),
                    local_branch: self.snapshot.local_branch,
                },
            ),
            BuildStage::CommitsToPull => Some(
                QueryModel::RevToPull { from_commit: self.remote_branch(), to_commit: head() },
            ),
            BuildStage::CommitsToPush => Some(
                QueryModel::RevToPush { from_commit: self.remote_branch(), to_commit: head() },
            ),
            BuildStage::MergeCommitsToPull => Some(
                QueryModel::RevToPull {
                    from_commit: merge_target(),
                    to_commit: self.remote_branch(),
                },
            ),
            BuildStage::MergeCommitsToPush => Some(
                QueryModel::RevToPush {
                    from_commit: merge_target(),
                    to_commit: self.remote_branch(),
                },
            ),
            BuildStage::StashCount => Some(QueryModel::StashCount),
            BuildStage::CommitShortSha => Some(QueryModel::CommitShortSha),
            BuildStage::CommitTag => Some(QueryModel::CommitTag),
            BuildStage::Done => None,
        }
    }

    /// The builder after the pending question was answered.
    ///
    /// An empty remote skips everything about the upstream; an empty merge
    /// base skips the comparison of the remote branch with the merge target.
    pub open spec fn advance(self, answer: AnswerModel) -> Result<BuilderModel, BuildError> {
        match (self.stage, answer) {
            (BuildStage::LocalBranch, AnswerModel::Text(name)) => Ok(
                BuilderModel {
                    stage: BuildStage::Status,
                    snapshot: RepoSnapshot { local_branch: name, ..self.snapshot },
                    ..self
                },
            ),
            (BuildStage::Status, AnswerModel::Changes(changes)) => Ok(
                BuilderModel {
                    stage: BuildStage::Remote,
                    snapshot: RepoSnapshot { changes: changes, ..self.snapshot },
                    ..self
                },
            ),
            (BuildStage::Remote, AnswerModel::Text(remote)) => Ok(
                BuilderModel {
                    stage: if remote.len() == 0 {
                        BuildStage::StashCount
                    } else {
                        BuildStage::TrackingBranch
                    },
                    snapshot: RepoSnapshot { remote: remote, ..self.snapshot },
                    ..self
                },
            ),
            (BuildStage::TrackingBranch, AnswerModel::Text(branch)) => Ok(
                BuilderModel {
                    stage: BuildStage::MergeBase,
                    snapshot: RepoSnapshot { remote_tracking_branch: branch, ..self.snapshot },
                    ..self
                },
            ),
            (BuildStage::MergeBase, AnswerModel::Text(id)) => Ok(
                BuilderModel { stage: BuildStage::CommitsToPull, merge_base: id, ..self },
            ),
            (BuildStage::CommitsToPull, AnswerModel::Count(count)) => Ok(
                BuilderModel {
                    stage: BuildStage::CommitsToPush,
                    snapshot: RepoSnapshot { commits_to_pull: count, ..self.snapshot },
                    ..self
                },
            ),
            (BuildStage::CommitsToPush, AnswerModel::Count(count)) => Ok(
                BuilderModel {
                    stage: if self.merge_base.len() == 0 {
                        BuildStage::StashCount
                    } else {
                        BuildStage::MergeCommitsToPull
                    },
                    snapshot: RepoSnapshot { commits_to_push: count, ..self.snapshot },
                    ..self
                },
            ),
            (BuildStage::MergeCommitsToPull, AnswerModel::Count(count)) => Ok(
                BuilderModel {
                    stage: BuildStage::MergeCommitsToPush,
                    snapshot: RepoSnapshot {
                        merge_branch_commits_to_pull: count,
                        ..self.snapshot
                    },
                    ..self
                },
            ),
            (BuildStage::MergeCommitsToPush, AnswerModel::Count(count)) => Ok(
                BuilderModel {
                    stage: BuildStage::StashCount,
                    snapshot: RepoSnapshot {
                        merge_branch_commits_to_push: count,
                        ..self.snapshot
                    },
                    ..self
                },
            ),
            (BuildStage::StashCount, AnswerModel::Count(count)) => Ok(
                BuilderModel {
                    stage: BuildStage::CommitShortSha,
                    snapshot: RepoSnapshot { stash_count: count, ..self.snapshot },
                    ..self
                },
            ),
            (BuildStage::CommitShortSha, AnswerModel::Text(id)) => Ok(
                BuilderModel {
                    stage: BuildStage::CommitTag,
                    snapshot: RepoSnapshot { commit_short_sha: id, ..self.snapshot },
                    ..self
                },
            ),
            (BuildStage::CommitTag, AnswerModel::Text(tag)) => Ok(
                BuilderModel {
                    stage: BuildStage::Done,
                    snapshot: RepoSnapshot { commit_tag: tag, ..self.snapshot },
                    ..self
                },
            ),
            (BuildStage::Done, _) => Err(BuildError::Finished),
            _ => Err(BuildError::WrongAnswer),
        }
    }
}

/// Builds a snapshot of a repository, one answer at a time.
#[derive(Debug, Clone, PartialEq, Eq)]
pub struct RepoStateBuilder {
    pub stage: BuildStage,
    pub state: GitRepoState,
    pub merge_base: String,
}

impl View for RepoStateBuilder {
    type V = BuilderModel;

    open spec fn view(&self) -> BuilderModel {
        BuilderModel { stage: self.stage, snapshot: self.state@, merge_base: self.merge_base@ }
    }
}

/// A question, or none, as a mathematical value.
pub open spec fn query_view(query: Option<GitQuery>) -> Option<QueryModel> {
    match query {
        Some(q) => Some(q@),
        None => None,
    }
}

/// A builder, or the reason why there is none, as a mathematical value.
pub open spec fn builder_view(builder: Result<RepoStateBuilder, BuildError>) -> Result<
    BuilderModel,
    BuildError,
> {
    match builder {
        Ok(b) => Ok(b@),
        Err(error) => Err(error),
    }
}

impl RepoStateBuilder {
    /// A builder that has not asked anything yet.
    pub fn new() -> (builder: Self)
        ensures
            builder@ == BuilderModel::initial(),
    {
        RepoStateBuilder {
            stage: BuildStage::LocalBranch,
            state: GitRepoState::default(),
            merge_base: String::new(),
        }
    }

    /// The question to answer next; none once the snapshot is complete.
    pub fn pending(&self) -> (query: Option<GitQuery>)
        ensures
            query_view(query) == self@.pending(),
    {
        match self.stage {
            BuildStage::LocalBranch => Some(GitQuery::LocalBranchName),
            BuildStage::Status => Some(GitQuery::PorcelainStatus),
            BuildStage::Remote => Some(
                GitQuery::RemoteName { local_branch: self.state.local_branch.clone() },
            ),
            BuildStage::TrackingBranch => Some(
                GitQuery::RemoteBranchName { local_branch: self.state.local_branch.clone() },
            ),
            BuildStage::MergeBase => Some(
                GitQuery::MergeBase {
                    merge_target: String::from_str("origin/master"),
                    local_branch: self.state.local_branch.clone(),
                },
            ),
            BuildStage::CommitsToPull => Some(
                GitQuery::RevToPull {
                    from_commit: self.remote_branch(),
                    to_commit: String::from_str("HEAD"),
                },
            ),
            BuildStage::CommitsToPush => Some(
                GitQuery::RevToPush {
                    from_commit: self.remote_branch(),
                    to_commit: String::from_str("HEAD"),
                },
            ),
            BuildStage::MergeCommitsToPull => Some(
                GitQuery::RevToPull {
                    from_commit: String::from_str("origin/master"),
                    to_commit: self.remote_branch(),
                },
            ),
            BuildStage::MergeCommitsToPush => Some(
                GitQuery::RevToPush {
                    from_commit: String::from_str("origin/master"),
                    to_commit: self.remote_branch(),
                },
            ),
            BuildStage::StashCount => Some(GitQuery::StashCount),
            BuildStage::CommitShortSha => Some(GitQuery::CommitShortSha),
            BuildStage::CommitTag => Some(GitQuery::CommitTag),
            BuildStage::Done => None,
        }
    }

    /// The local name of the branch that the checked out branch tracks.
    pub fn remote_branch(&self) -> (name: String)
        ensures
            name@ == self@.remote_branch(),
    {
        build_fully_qualified_remote_branch_name(
            self.state.remote.as_str(),
            self.state.remote_tracking_branch.as_str(),
        )
    }

    /// The snapshot, once it is complete.
    pub fn finish(self) -> (state: Option<GitRepoState>)
        ensures
            state is Some <==> self.stage is Done,
            state matches Some(s) ==> s@ == self@.snapshot,
    {
        match self.stage {
            BuildStage::Done => Some(self.state),
            _ => None,
        }
    }
}

/// Records the answer to the pending question and moves on to the next one.
///
/// The answer must have the shape that the pending question calls for, and a
/// question must be pending; otherwise nothing is recorded.
pub fn get_git_repo_state(builder: RepoStateBuilder, answer: GitAnswer) -> (next: Result<
    RepoStateBuilder,
    BuildError,
>)
    ensures
        builder_view(next) == builder@.advance(answer@),
{
    let mut builder = builder;
    match builder.stage {
        BuildStage::LocalBranch => match answer {
            GitAnswer::Text(name) => {
                builder.state.local_branch = name;
                builder.stage = BuildStage::Status;
                Ok(builder)
            },
            _ => Err(BuildError::WrongAnswer),
        },
        BuildStage::Status => match answer {
            GitAnswer::Changes(changes) => {
                builder.state.git_local_repo_changes = changes;
                builder.stage = BuildStage::Remote;
                Ok(builder)
            },
            _ => Err(BuildError::WrongAnswer),
        },
        BuildStage::Remote => match answer {
            GitAnswer::Text(remote) => {
                builder.stage = if remote.as_str().is_empty() {
                    BuildStage::StashCount
                } else {
                    BuildStage::TrackingBranch
                };
                builder.state.remote = remote;
                Ok(builder)
            },
            _ => Err(BuildError::WrongAnswer),
        },
        BuildStage::TrackingBranch => match answer {
            GitAnswer::Text(branch) => {
                builder.state.remote_tracking_branch = branch;
                builder.stage = BuildStage::MergeBase;
                Ok(builder)
            },
            _ => Err(BuildError::WrongAnswer),
        },
        BuildStage::MergeBase => match answer {
            GitAnswer::Text(id) => {
                builder.merge_base = id;
                builder.stage = BuildStage::CommitsToPull;
                Ok(builder)
            },
            _ => Err(BuildError::WrongAnswer),
        },
        BuildStage::CommitsToPull => match answer {
            GitAnswer::Count(count) => {
                builder.state.commits_to_pull = count;
                builder.stage = BuildStage::CommitsToPush;
                Ok(builder)
            },
            _ => Err(BuildError::WrongAnswer),
        },
        BuildStage::CommitsToPush => match answer {
            GitAnswer::Count(count) => {
                builder.state.commits_to_push = count;
                builder.stage = if builder.merge_base.as_str().is_empty() {
                    BuildStage::StashCount
                } else {
                    BuildStage::MergeCommitsToPull
                };
                Ok(builder)
            },
            _ => Err(BuildError::WrongAnswer),
        },
        BuildStage::MergeCommitsToPull => match answer {
            GitAnswer::Count(count) => {
                builder.state.merge_branch_commits_to_pull = count;
                builder.stage = BuildStage::MergeCommitsToPush;
                Ok(builder)
            },
            _ => Err(BuildError::WrongAnswer),
        },
        BuildStage::MergeCommitsToPush => match answer {
            GitAnswer::Count(count) => {
                builder.state.merge_branch_commits_to_push = count;
                builder.stage = BuildStage::StashCount;
                Ok(builder)
            },
            _ => Err(BuildError::WrongAnswer),
        },
        BuildStage::StashCount => match answer {
            GitAnswer::Count(count) => {
                builder.state.stash_count = count;
                builder.stage = BuildStage::CommitShortSha;
                Ok(builder)
            },
            _ => Err(BuildError::WrongAnswer),
        },
        BuildStage::CommitShortSha => match answer {
            GitAnswer::Text(id) => {
                builder.state.commit_short_sha = id;
                builder.stage = BuildStage::CommitTag;
                Ok(builder)
            },
            _ => Err(BuildError::WrongAnswer),
        },
        BuildStage::CommitTag => match answer {
            GitAnswer::Text(tag) => {
                builder.state.commit_tag = tag;
                builder.stage = BuildStage::Done;
                Ok(builder)
            },
            _ => Err(BuildError::WrongAnswer),
        },
        BuildStage::Done => Err(BuildError::Finished),
    }
}

/// The outcome of one more answer, once an earlier one was refused.
pub open spec fn and_then_advance(
    builder: Result<BuilderModel, BuildError>,
    answer: AnswerModel,
) -> Result<BuilderModel, BuildError> {
    match builder {
        Ok(b) => b.advance(answer),
        Err(error) => Err(error),
    }
}

impl BuilderModel {
    /// The builder after a run of answers, each given to the question that
    /// was pending when it came.
    pub open spec fn run(self, answers: Seq<AnswerModel>) -> Result<BuilderModel, BuildError>
        decreases answers.len(),
    {
        if answers.len() == 0 {
            Ok(self)
        } else {
            and_then_advance(self.run(answers.drop_last()), answers.last())
        }
    }

    /// Whether the builder is about to ask about the upstream of the branch.
    pub open spec fn asks_about_upstream(self) -> bool {
        self.pending() matches Some(query) && query.about_upstream()
    }

    /// What holds of every builder that answers alone have led to.
    ///
    /// Questions about the upstream are asked only with a remote, and the
    /// remote branch is compared with the merge target only with a merge
    /// base; without a remote nothing is recorded about an upstream, and
    /// without a merge base nothing about the merge target.
    pub open spec fn consistent(self) -> bool {
        &&& self.stage.before_remote() ==> self.snapshot.remote.len() == 0
        &&& self.stage.about_upstream() ==> self.snapshot.remote.len() > 0
        &&& self.snapshot.remote.len() == 0 ==> self.snapshot.without_upstream()
            && self.merge_base.len() == 0
        &&& (self.stage is TrackingBranch || self.stage is MergeBase) ==> self.merge_base.len()
            == 0
        &&& (self.stage is MergeCommitsToPull || self.stage is MergeCommitsToPush)
            ==> self.merge_base.len() > 0
        &&& self.merge_base.len() == 0 ==> self.snapshot.merge_branch_commits_to_pull == 0
            && self.snapshot.merge_branch_commits_to_push == 0
    }

    /// An answer is recorded exactly when a question is pending and the answer
    /// has the shape that the question calls for; the builder then waits for
    /// something else.
    pub proof fn lemma_advance_takes_fitting_answers(self, answer: AnswerModel)
        ensures
            self.advance(answer) is Ok <==> (self.pending() matches Some(query) && answers(
                query,
                answer,
            )),
            self.pending() is None ==> self.advance(answer) == Err::<BuilderModel, BuildError>(
                BuildError::Finished,
            ),
            self.pending() is Some && self.advance(answer) is Err ==> self.advance(answer) == Err::<
                BuilderModel,
                BuildError,
            >(BuildError::WrongAnswer),
            self.advance(answer) matches Ok(next) ==> next.stage != self.stage,
    {
    }

    /// A new builder is consistent.
    pub proof fn lemma_initial_consistent()
        ensures
            Self::initial().consistent(),
            !Self::initial().asks_about_upstream(),
    {
    }

    /// Recording an answer keeps a builder consistent, and never changes a
    /// remote that is already known.
    pub proof fn lemma_advance_consistent(self, answer: AnswerModel)
        requires
            self.consistent(),
            self.advance(answer) is Ok,
        ensures
            self.advance(answer)->Ok_0.consistent(),
            !self.stage.before_remote() ==> !self.advance(answer)->Ok_0.stage.before_remote()
                && self.advance(answer)->Ok_0.snapshot.remote == self.snapshot.remote,
    {
    }

    /// A consistent builder asks about the upstream only when a remote is
    /// known; and one without a remote holds nothing about an upstream.
    pub proof fn lemma_consistent_without_remote(self)
        requires
            self.consistent(),
            self.snapshot.remote.len() == 0,
        ensures
            !self.asks_about_upstream(),
            self.snapshot.without_upstream(),
    {
    }

    /// Every builder reached from a new one is consistent.
    pub proof fn lemma_run_consistent(answers: Seq<AnswerModel>)
        requires
            Self::initial().run(answers) is Ok,
        ensures
            Self::initial().run(answers)->Ok_0.consistent(),
        decreases answers.len(),
    {
        if answers.len() > 0 {
            Self::lemma_run_consistent(answers.drop_last());
            let before = Self::initial().run(answers.drop_last())->Ok_0;
            before.lemma_advance_consistent(answers.last());
        }
    }

    /// A run that succeeds has succeeded at each of its answers.
    pub proof fn lemma_run_prefix(self, answers: Seq<AnswerModel>, len: int)
        requires
            0 <= len <= answers.len(),
            self.run(answers) is Ok,
        ensures
            self.run(answers.take(len)) is Ok,
        decreases answers.len(),
    {
        if len == answers.len() {
            assert(answers.take(len) =~= answers);
        } else {
            self.lemma_run_prefix(answers.drop_last(), len);
            assert(answers.drop_last().take(len) =~= answers.take(len));
        }
    }

    /// Once the remote is known, no further answer changes it.
    pub proof fn lemma_run_keeps_remote(self, answers: Seq<AnswerModel>)
        requires
            self.consistent(),
            !self.stage.before_remote(),
            self.run(answers) is Ok,
        ensures
            self.run(answers)->Ok_0.consistent(),
            !self.run(answers)->Ok_0.stage.before_remote(),
            self.run(answers)->Ok_0.snapshot.remote == self.snapshot.remote,
        decreases answers.len(),
    {
        if answers.len() > 0 {
            self.lemma_run_keeps_remote(answers.drop_last());
            let before = self.run(answers.drop_last())->Ok_0;
            before.lemma_advance_consistent(answers.last());
        }
    }

    /// A run splits at any point into the run up to there and the run from
    /// there.
    pub proof fn lemma_run_split(self, answers: Seq<AnswerModel>, len: int)
        requires
            0 <= len <= answers.len(),
            self.run(answers.take(len)) is Ok,
        ensures
            self.run(answers) == self.run(answers.take(len))->Ok_0.run(answers.skip(len)),
        decreases answers.len() - len,
    {
        let middle = self.run(answers.take(len))->Ok_0;
        if len == answers.len() {
            assert(answers.take(len) =~= answers);
            assert(answers.skip(len) =~= Seq::<AnswerModel>::empty());
        } else {
            let shorter = answers.drop_last();
            assert(shorter.take(len) =~= answers.take(len));
            self.lemma_run_split(shorter, len);
            assert(answers.skip(len).drop_last() =~= shorter.skip(len));
            assert(answers.skip(len).last() == answers.last());
        }
    }

    /// Where a run of answers ends without a remote, nothing about an upstream
    /// was asked at any point of it, neither the tracked ref nor a merge base
    /// nor a count of commits ahead or behind, and the snapshot holds nothing
    /// about an upstream.
    pub proof fn lemma_no_remote_no_upstream_question(answers: Seq<AnswerModel>, len: int)
        requires
            0 <= len <= answers.len(),
            Self::initial().run(answers) is Ok,
            Self::initial().run(answers)->Ok_0.snapshot.remote.len() == 0,
        ensures
            Self::initial().run(answers.take(len)) is Ok,
            !Self::initial().run(answers.take(len))->Ok_0.asks_about_upstream(),
            Self::initial().run(answers)->Ok_0.snapshot.without_upstream(),
    {
        let start = Self::initial();
        start.lemma_run_prefix(answers, len);
        Self::lemma_run_consistent(answers);
        Self::lemma_run_consistent(answers.take(len));
        let middle = start.run(answers.take(len))->Ok_0;
        start.lemma_run_split(answers, len);
        if !middle.stage.before_remote() {
            middle.lemma_run_keeps_remote(answers.skip(len));
        }
    }

    /// A branch without a remote: six questions are asked, none of them about
    /// an upstream, and the snapshot holds the five answers that say
    /// something, with nothing about an upstream.
    pub proof fn lemma_branch_without_remote(
        branch: Seq<char>,
        changes: ChangeCounts,
        stashes: nat,
        short_sha: Seq<char>,
        tag: Seq<char>,
    )
        ensures
            ({
                let s0 = Self::initial();
                let s1 = s0.advance(AnswerModel::Text(branch));
                let s2 = and_then_advance(s1, AnswerModel::Changes(changes));
                let s3 = and_then_advance(s2, AnswerModel::Text(Seq::empty()));
                let s4 = and_then_advance(s3, AnswerModel::Count(stashes));
                let s5 = and_then_advance(s4, AnswerModel::Text(short_sha));
                let s6 = and_then_advance(s5, AnswerModel::Text(tag));
                &&& s0.pending() == Some(QueryModel::LocalBranchName)
                &&& s1 is Ok && s1->Ok_0.pending() == Some(QueryModel::PorcelainStatus)
                &&& s2 is Ok && s2->Ok_0.pending() == Some(
                    QueryModel::RemoteName { local_branch: branch },
                )
                &&& s3 is Ok && s3->Ok_0.pending() == Some(QueryModel::StashCount)
                &&& s4 is Ok && s4->Ok_0.pending() == Some(QueryModel::CommitShortSha)
                &&& s5 is Ok && s5->Ok_0.pending() == Some(QueryModel::CommitTag)
                &&& s6 is Ok && s6->Ok_0.pending() is None
                &&& s6->Ok_0.snapshot == RepoSnapshot {
                    changes: changes,
                    local_branch: branch,
                    stash_count: stashes,
                    commit_short_sha: short_sha,
                    commit_tag: tag,
                    ..RepoSnapshot::empty()
                }
            }),
    {
    }

    /// A branch with a remote but without a merge base: the commits to pull
    /// and to push are asked for and recorded, the remote branch is not
    /// compared with the merge target, and the two counts of that comparison
    /// stay zero.
    pub proof fn lemma_branch_without_merge_base(
        branch: Seq<char>,
        changes: ChangeCounts,
        remote: Seq<char>,
        tracking: Seq<char>,
        to_pull: nat,
        to_push: nat,
        stashes: nat,
        short_sha: Seq<char>,
        tag: Seq<char>,
    )
        requires
            remote.len() > 0,
        ensures
            ({
                let upstream = qualified_name(remote, tracking);
                let s0 = Self::initial();
                let s1 = s0.advance(AnswerModel::Text(branch));
                let s2 = and_then_advance(s1, AnswerModel::Changes(changes));
                let s3 = and_then_advance(s2, AnswerModel::Text(remote));
                let s4 = and_then_advance(s3, AnswerModel::Text(tracking));
                let s5 = and_then_advance(s4, AnswerModel::Text(Seq::empty()));
                let s6 = and_then_advance(s5, AnswerModel::Count(to_pull));
                let s7 = and_then_advance(s6, AnswerModel::Count(to_push));
                let s8 = and_then_advance(s7, AnswerModel::Count(stashes));
                let s9 = and_then_advance(s8, AnswerModel::Text(short_sha));
                let s10 = and_then_advance(s9, AnswerModel::Text(tag));
                &&& s3 is Ok && s3->Ok_0.pending() == Some(
                    QueryModel::RemoteBranchName { local_branch: branch },
                )
                &&& s4 is Ok && s4->Ok_0.pending() == Some(
                    QueryModel::MergeBase { merge_target: merge_target(), local_branch: branch },
                )
                &&& s5 is Ok && s5->Ok_0.pending() == Some(
                    QueryModel::RevToPull { from_commit: upstream, to_commit: head() },
                )
                &&& s6 is Ok && s6->Ok_0.pending() == Some(
                    QueryModel::RevToPush { from_commit: upstream, to_commit: head() },
                )
                &&& s7 is Ok && s7->Ok_0.pending() == Some(QueryModel::StashCount)
                &&& s8 is Ok && s8->Ok_0.pending() == Some(QueryModel::CommitShortSha)
                &&& s9 is Ok && s9->Ok_0.pending() == Some(QueryModel::CommitTag)
                &&& s10 is Ok && s10->Ok_0.pending() is None
                &&& s10->Ok_0.snapshot == RepoSnapshot {
                    changes: changes,
                    local_branch: branch,
                    remote: remote,
                    remote_tracking_branch: tracking,
                    commits_to_pull: to_pull,
                    commits_to_push: to_push,
                    merge_branch_commits_to_pull: 0,
                    merge_branch_commits_to_push: 0,
                    stash_count: stashes,
                    commit_short_sha: short_sha,
                    commit_tag: tag,
                }
            }),
    {
    }

    /// A branch with a remote and a merge base: after the commits to pull and
    /// to push, the remote branch is compared with the merge target, and all
    /// four counts are recorded.
    pub proof fn lemma_branch_with_merge_base(
        branch: Seq<char>,
        changes: ChangeCounts,
        remote: Seq<char>,
        tracking: Seq<char>,
        merge_base: Seq<char>,
        to_pull: nat,
        to_push: nat,
        merge_to_pull: nat,
        merge_to_push: nat,
        stashes: nat,
        short_sha: Seq<char>,
        tag: Seq<char>,
    )
        requires
            remote.len() > 0,
            merge_base.len() > 0,
        ensures
            ({
                let upstream = qualified_name(remote, tracking);
                let s0 = Self::initial();
                let s1 = s0.advance(AnswerModel::Text(branch));
                let s2 = and_then_advance(s1, AnswerModel::Changes(changes));
                let s3 = and_then_advance(s2, AnswerModel::Text(remote));
                let s4 = and_then_advance(s3, AnswerModel::Text(tracking));
                let s5 = and_then_advance(s4, AnswerModel::Text(merge_base));
                let s6 = and_then_advance(s5, AnswerModel::Count(to_pull));
                let s7 = and_then_advance(s6, AnswerModel::Count(to_push));
                let s8 = and_then_advance(s7, AnswerModel::Count(merge_to_pull));
                let s9 = and_then_advance(s8, AnswerModel::Count(merge_to_push));
                let s10 = and_then_advance(s9, AnswerModel::Count(stashes));
                let s11 = and_then_advance(s10, AnswerModel::Text(short_sha));
                let s12 = and_then_advance(s11, AnswerModel::Text(tag));
                &&& s7 is Ok && s7->Ok_0.pending() == Some(
                    QueryModel::RevToPull { from_commit: merge_target(), to_commit: upstream },
                )
                &&& s8 is Ok && s8->Ok_0.pending() == Some(
                    QueryModel::RevToPush { from_commit: merge_target(), to_commit: upstream },
                )
                &&& s9 is Ok && s9->Ok_0.pending() == Some(QueryModel::StashCount)
                &&& s12 is Ok && s12->Ok_0.pending() is None
                &&& s12->Ok_0.snapshot == RepoSnapshot {
                    changes: changes,
                    local_branch: branch,
                    remote: remote,
                    remote_tracking_branch: tracking,
                    commits_to_pull: to_pull,
                    commits_to_push: to_push,
                    merge_branch_commits_to_pull: merge_to_pull,
                    merge_branch_commits_to_push: merge_to_push,
                    stash_count: stashes,
                    commit_short_sha: short_sha,
                    commit_tag: tag,
                }
            }),
    {
    }
}

} // verus!
