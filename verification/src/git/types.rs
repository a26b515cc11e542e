//! The change categories, their tally, and the repository snapshot.

use vstd::prelude::*;

verus! {

/// What one status line says about one side of a file: the index side or the
/// working tree side. `Skip` is a line that carries no countable change.
#[derive(Debug, Clone, Copy, PartialEq, Eq, Structural)]
pub enum GitFileState {
    LocalMod,
    LocalAdd,
    LocalDel,
    IndexMod,
    IndexAdd,
    IndexDel,
    Renamed,
    Conflict,
    Skip,
}

/// The mathematical tally: one unbounded count for each category but `Skip`.
pub struct ChangeCounts {
    pub local_mod: nat,
    pub local_add: nat,
    pub local_del: nat,
    pub index_mod: nat,
    pub index_add: nat,
    pub index_del: nat,
    pub renamed: nat,
    pub conflict: nat,
}

impl ChangeCounts {
    /// The tally in which nothing was counted.
    pub open spec fn zero() -> ChangeCounts {
        ChangeCounts {
            local_mod: 0,
            local_add: 0,
            local_del: 0,
            index_mod: 0,
            index_add: 0,
            index_del: 0,
            renamed: 0,
            conflict: 0,
        }
    }

    /// The tally of a single state: one in the field of its category, and
    /// nothing at all for `Skip`.
    pub open spec fn one(state: GitFileState) -> ChangeCounts {
        match state {
            GitFileState::LocalMod => ChangeCounts { local_mod: 1, ..Self::zero() },
            GitFileState::LocalAdd => ChangeCounts { local_add: 1, ..Self::zero() },
            GitFileState::LocalDel => ChangeCounts { local_del: 1, ..Self::zero() },
            GitFileState::IndexMod => ChangeCounts { index_mod: 1, ..Self::zero() },
            GitFileState::IndexAdd => ChangeCounts { index_add: 1, ..Self::zero() },
            GitFileState::IndexDel => ChangeCounts { index_del: 1, ..Self::zero() },
            GitFileState::Renamed => ChangeCounts { renamed: 1, ..Self::zero() },
            GitFileState::Conflict => ChangeCounts { conflict: 1, ..Self::zero() },
            GitFileState::Skip => Self::zero(),
        }
    }

    /// Field-by-field sum.
    pub open spec fn plus(self, rhs: ChangeCounts) -> ChangeCounts {
        ChangeCounts {
            local_mod: self.local_mod + rhs.local_mod,
            local_add: self.local_add + rhs.local_add,
            local_del: self.local_del + rhs.local_del,
            index_mod: self.index_mod + rhs.index_mod,
            index_add: self.index_add + rhs.index_add,
            index_del: self.index_del + rhs.index_del,
            renamed: self.renamed + rhs.renamed,
            conflict: self.conflict + rhs.conflict,
        }
    }

    /// How many states were counted, over all categories.
    pub open spec fn total(self) -> nat {
        self.local_mod + self.local_add + self.local_del + self.index_mod + self.index_add
            + self.index_del + self.renamed + self.conflict
    }

    /// Whether no single count exceeds `limit`.
    pub open spec fn fits(self, limit: int) -> bool {
        &&& self.local_mod <= limit
        &&& self.local_add <= limit
        &&& self.local_del <= limit
        &&& self.index_mod <= limit
        &&& self.index_add <= limit
        &&& self.index_del <= limit
        &&& self.renamed <= limit
        &&& self.conflict <= limit
    }

    /// The tally of a sequence of states: each state adds one to the field of
    /// its category, `Skip` adds nothing.
    pub open spec fn of(states: Seq<GitFileState>) -> ChangeCounts
        decreases states.len(),
    {
        if states.len() == 0 {
            Self::zero()
        } else {
            Self::of(states.drop_last()).plus(Self::one(states.last()))
        }
    }

    /// Addition of tallies does not depend on the order of its operands.
    pub proof fn lemma_plus_commutative(a: ChangeCounts, b: ChangeCounts)
        ensures
            a.plus(b) == b.plus(a),
    {
    }

    /// Addition of tallies does not depend on how its operands are grouped.
    pub proof fn lemma_plus_associative(a: ChangeCounts, b: ChangeCounts, c: ChangeCounts)
        ensures
            a.plus(b).plus(c) == a.plus(b.plus(c)),
    {
    }

    /// The empty tally is neutral for addition, on either side.
    pub proof fn lemma_plus_zero(a: ChangeCounts)
        ensures
            a.plus(Self::zero()) == a,
            Self::zero().plus(a) == a,
    {
    }

    /// Tallying no states at all counts nothing.
    pub proof fn lemma_of_empty()
        ensures
            Self::of(Seq::<GitFileState>::empty()) == Self::zero(),
    {
    }

    /// Tallying one sequence after another is adding their tallies.
    pub proof fn lemma_of_concat(a: Seq<GitFileState>, b: Seq<GitFileState>)
        ensures
            Self::of(a + b) == Self::of(a).plus(Self::of(b)),
        decreases b.len(),
    {
        if b.len() == 0 {
            assert(a + b =~= a);
        } else {
            Self::lemma_of_concat(a, b.drop_last());
            assert((a + b).drop_last() =~= a + b.drop_last());
            assert((a + b).last() == b.last());
        }
    }

    /// A tally never counts more than there were states.
    pub proof fn lemma_of_total(states: Seq<GitFileState>)
        ensures
            Self::of(states).total() <= states.len(),
            Self::of(states).fits(states.len() as int),
        decreases states.len(),
    {
        if states.len() > 0 {
            Self::lemma_of_total(states.drop_last());
        }
    }
}

/// The tally of pending changes, as machine integers.
#[derive(Debug, Clone, Copy, PartialEq, Eq, Structural)]
pub struct GitLocalRepoChanges {
    pub local_mod: usize,
    pub local_add: usize,
    pub local_del: usize,
    pub index_mod: usize,
    pub index_add: usize,
    pub index_del: usize,
    pub renamed: usize,
    pub conflict: usize,
}

impl View for GitLocalRepoChanges {
    type V = ChangeCounts;

    open spec fn view(&self) -> ChangeCounts {
        ChangeCounts {
            local_mod: self.local_mod as nat,
            local_add: self.local_add as nat,
            local_del: self.local_del as nat,
            index_mod: self.index_mod as nat,
            index_add: self.index_add as nat,
            index_del: self.index_del as nat,
            renamed: self.renamed as nat,
            conflict: self.conflict as nat,
        }
    }
}

impl Default for GitLocalRepoChanges {
    fn default() -> (changes: Self)
        ensures
            changes@ == ChangeCounts::zero(),
    {
        GitLocalRepoChanges {
            local_mod: 0,
            local_add: 0,
            local_del: 0,
            index_mod: 0,
            index_add: 0,
            index_del: 0,
            renamed: 0,
            conflict: 0,
        }
    }
}

impl GitLocalRepoChanges {
    /// Counts one more state.
    pub fn record(&mut self, state: GitFileState)
        requires
            old(self)@.plus(ChangeCounts::one(state)).fits(usize::MAX as int),
        ensures
            final(self)@ == old(self)@.plus(ChangeCounts::one(state)),
    {
        match state {
            GitFileState::LocalMod => self.local_mod += 1,
            GitFileState::LocalAdd => self.local_add += 1,
            GitFileState::LocalDel => self.local_del += 1,
            GitFileState::IndexMod => self.index_mod += 1,
            GitFileState::IndexAdd => self.index_add += 1,
            GitFileState::IndexDel => self.index_del += 1,
            GitFileState::Renamed => self.renamed += 1,
            GitFileState::Conflict => self.conflict += 1,
            GitFileState::Skip => (),
        }
    }

    /// Tallies a list of states.
    pub fn from_iter(states: &Vec<GitFileState>) -> (changes: Self)
        ensures
            changes@ == ChangeCounts::of(states@),
    {
        let mut changes = GitLocalRepoChanges::default();
        let mut i: usize = 0;
        while i < states.len()
            invariant
                i <= states.len(),
                changes@ == ChangeCounts::of(states@.take(i as int)),
            decreases states.len() - i,
        {
            proof {
                assert(states@.take(i + 1).drop_last() =~= states@.take(i as int));
                ChangeCounts::lemma_of_total(states@.take(i + 1));
            }
            changes.record(states[i]);
            i += 1;
        }
        assert(states@.take(i as int) =~= states@);
        changes
    }

    /// Adds two tallies field by field.
    pub fn add(self, rhs: Self) -> (sum: Self)
        requires
            self@.plus(rhs@).fits(usize::MAX as int),
        ensures
            sum@ == self@.plus(rhs@),
    {
        GitLocalRepoChanges {
            local_mod: self.local_mod + rhs.local_mod,
            local_add: self.local_add + rhs.local_add,
            local_del: self.local_del + rhs.local_del,
            index_mod: self.index_mod + rhs.index_mod,
            index_add: self.index_add + rhs.index_add,
            index_del: self.index_del + rhs.index_del,
            renamed: self.renamed + rhs.renamed,
            conflict: self.conflict + rhs.conflict,
        }
    }
}

/// The mathematical snapshot of a repository: texts as sequences of
/// characters, counts as natural numbers.
pub struct RepoSnapshot {
    pub changes: ChangeCounts,
    pub local_branch: Seq<char>,
    pub commit_short_sha: Seq<char>,
    pub commit_tag: Seq<char>,
    pub remote: Seq<char>,
    pub remote_tracking_branch: Seq<char>,
    pub stash_count: nat,
    pub commits_to_pull: nat,
    pub commits_to_push: nat,
    pub merge_branch_commits_to_pull: nat,
    pub merge_branch_commits_to_push: nat,
}

impl RepoSnapshot {
    /// The snapshot about which nothing is known yet: every text empty,
    /// every count zero.
    pub open spec fn empty() -> RepoSnapshot {
        RepoSnapshot {
            changes: ChangeCounts::zero(),
            local_branch: Seq::empty(),
            commit_short_sha: Seq::empty(),
            commit_tag: Seq::empty(),
            remote: Seq::empty(),
            remote_tracking_branch: Seq::empty(),
            stash_count: 0,
            commits_to_pull: 0,
            commits_to_push: 0,
            merge_branch_commits_to_pull: 0,
            merge_branch_commits_to_push: 0,
        }
    }

    /// Whether nothing is recorded about an upstream: no tracking branch and
    /// no commits to pull or push, on either comparison.
    pub open spec fn without_upstream(self) -> bool {
        &&& self.remote_tracking_branch.len() == 0
        &&& self.commits_to_pull == 0
        &&& self.commits_to_push == 0
        &&& self.merge_branch_commits_to_pull == 0
        &&& self.merge_branch_commits_to_push == 0
    }
}

/// The state of a repository at one point in time.
///
/// An empty `local_branch` is a detached head, an empty `commit_tag` a head
/// without an exact tag, an empty `remote` a branch without a configured
/// remote, an empty `remote_tracking_branch` a branch without an upstream.
#[derive(Debug, Clone, PartialEq, Eq)]
pub struct GitRepoState {
    pub git_local_repo_changes: GitLocalRepoChanges,
    pub local_branch: String,
    pub commit_short_sha: String,
    pub commit_tag: String,
    pub remote: String,
    pub remote_tracking_branch: String,
    pub stash_count: usize,
    pub commits_to_pull: usize,
    pub commits_to_push: usize,
    pub merge_branch_commits_to_pull: usize,
    pub merge_branch_commits_to_push: usize,
}

impl View for GitRepoState {
    type V = RepoSnapshot;

    open spec fn view(&self) -> RepoSnapshot {
        RepoSnapshot {
            changes: self.git_local_repo_changes@,
            local_branch: self.local_branch@,
            commit_short_sha: self.commit_short_sha@,
            commit_tag: self.commit_tag@,
            remote: self.remote@,
            remote_tracking_branch: self.remote_tracking_branch@,
            stash_count: self.stash_count as nat,
            commits_to_pull: self.commits_to_pull as nat,
            commits_to_push: self.commits_to_push as nat,
            merge_branch_commits_to_pull: self.merge_branch_commits_to_pull as nat,
            merge_branch_commits_to_push: self.merge_branch_commits_to_push as nat,
        }
    }
}

impl Default for GitRepoState {
    fn default() -> (state: Self)
        ensures
            state@ == RepoSnapshot::empty(),
    {
        GitRepoState {
            git_local_repo_changes: GitLocalRepoChanges::default(),
            local_branch: String::new(),
            commit_short_sha: String::new(),
            commit_tag: String::new(),
            remote: String::new(),
            remote_tracking_branch: String::new(),
            stash_count: 0,
            commits_to_pull: 0,
            commits_to_push: 0,
            merge_branch_commits_to_pull: 0,
            merge_branch_commits_to_push: 0,
        }
    }
}

} // verus!
