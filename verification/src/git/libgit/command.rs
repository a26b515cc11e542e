//! The answers to the questions, from what the repository holds.

use crate::git::libgit::{ignore_error_code, ignoring, ErrorCode, LibgitError};
use crate::git::types::{ChangeCounts, GitFileState, GitLocalRepoChanges};
use crate::text::{join, strip_prefix, text_view};
use vstd::prelude::*;
use vstd::utf8::{encode_utf8, is_char_boundary};

verus! {

/// The number of bytes an abbreviated commit id has.
pub const SHORT_ID_LEN: usize = 7;

/// The status flags of one path, as the repository reports them.
#[derive(Debug, Clone, Copy, PartialEq, Eq, Structural)]
pub struct EntryStatus {
    pub conflicted: bool,
    pub index_renamed: bool,
    pub index_new: bool,
    pub index_deleted: bool,
    pub index_modified: bool,
    pub wt_new: bool,
    pub wt_deleted: bool,
    pub wt_modified: bool,
}

/// A tag and the id of what it points at directly, if it points at
/// anything.
#[derive(Debug, Clone, PartialEq, Eq)]
pub struct TagTarget {
    pub name: String,
    pub target: Option<String>,
}

/// A walk through history: from `start` back in time, leaving out `hide` and
/// everything before it.
#[derive(Debug, Clone, PartialEq, Eq)]
pub struct RevWalk {
    pub start: String,
    pub hide: String,
}

/// What the flags of a path say about the index. A conflict outweighs a
/// rename, a rename an addition, an addition a deletion, a deletion a
/// modification.
pub open spec fn entry_index_state(entry: EntryStatus) -> GitFileState {
    if entry.conflicted {
        GitFileState::Conflict
    } else if entry.index_renamed {
        GitFileState::Renamed
    } else if entry.index_new {
        GitFileState::IndexAdd
    } else if entry.index_deleted {
        GitFileState::IndexDel
    } else if entry.index_modified {
        GitFileState::IndexMod
    } else {
        GitFileState::Skip
    }
}

/// What the flags of a path say about the working tree. An addition
/// outweighs a deletion, a deletion a modification.
pub open spec fn entry_local_state(entry: EntryStatus) -> GitFileState {
    if entry.wt_new {
        GitFileState::LocalAdd
    } else if entry.wt_deleted {
        GitFileState::LocalDel
    } else if entry.wt_modified {
        GitFileState::LocalMod
    } else {
        GitFileState::Skip
    }
}

/// The tally of a list of paths: that of what they say about the working
/// tree plus that of what they say about the index.
pub open spec fn entries_counts(entries: Seq<EntryStatus>) -> ChangeCounts {
    ChangeCounts::of(entries.map_values(|entry: EntryStatus| entry_local_state(entry))).plus(
        ChangeCounts::of(entries.map_values(|entry: EntryStatus| entry_index_state(entry))),
    )
}

/// The branch that a head points to: the target of the head without the
/// prefix of local branches. A head that points to no branch, or to
/// something else than a local branch, is detached: its branch is empty.
pub open spec fn branch_of_head(symbolic_target: Option<Seq<char>>) -> Seq<char> {
    match symbolic_target {
        Some(target) => if "refs/heads/"@.is_prefix_of(target) {
            target.skip("refs/heads/"@.len() as int)
        } else {
            Seq::empty()
        },
        None => Seq::empty(),
    }
}

/// The branch a remote is assumed to have as its main one where it does not
/// say.
pub open spec fn assumed_default_branch(remote: Seq<char>) -> Seq<char> {
    remote + "/master"@
}

/// The main branch of a remote, from the target of the remote's head: the
/// target without the prefix of remote branches, or the assumed one where
/// there is no such target.
pub open spec fn default_branch_of(remote: Seq<char>, head_target: Option<Seq<char>>) -> Seq<
    char,
> {
    match head_target {
        Some(target) => if "refs/remotes/"@.is_prefix_of(target) {
            target.skip("refs/remotes/"@.len() as int)
        } else {
            assumed_default_branch(remote)
        },
        None => assumed_default_branch(remote),
    }
}

/// The number of commits that are no merges: those with at most one parent.
pub open spec fn non_merges(parent_counts: Seq<usize>) -> nat
    decreases parent_counts.len(),
{
    if parent_counts.len() == 0 {
        0
    } else {
        non_merges(parent_counts.drop_last()) + if parent_counts.last() <= 1 {
            1nat
        } else {
            0nat
        }
    }
}

/// Where the first tag that points at the commit stands in the list; the
/// length of the list if none does.
pub open spec fn first_tag_at(tags: Seq<TagTarget>, id: Seq<char>, from: int) -> int
    decreases tags.len() - from,
{
    if from < 0 || from >= tags.len() {
        tags.len() as int
    } else if tags[from].target matches Some(target) && target@ == id {
        from
    } else {
        first_tag_at(tags, id, from + 1)
    }
}

/// The name of the first tag that points at the commit; empty if none does.
pub open spec fn tag_of(tags: Seq<TagTarget>, id: Seq<char>) -> Seq<char> {
    let at = first_tag_at(tags, id, 0);
    if at < tags.len() {
        tags[at].name@
    } else {
        Seq::empty()
    }
}

/// The name of the checked out branch, from the symbolic target of the head.
pub fn local_branch_name(symbolic_target: Option<&str>) -> (name: String)
    ensures
        name@ == branch_of_head(
            match symbolic_target {
                Some(target) => Some(target@),
                None => None,
            },
        ),
{
    if let Some(target) = symbolic_target {
        if let Some(branch_name) = strip_prefix(target, "refs/heads/") {
            return branch_name.to_owned();
        }
    }
    String::new()
}

/// Classifies the flags of a path for the index.
fn index_state_of(entry: &EntryStatus) -> (state: GitFileState)
    ensures
        state == entry_index_state(*entry),
{
    if entry.conflicted {
        GitFileState::Conflict
    } else if entry.index_renamed {
        GitFileState::Renamed
    } else if entry.index_new {
        GitFileState::IndexAdd
    } else if entry.index_deleted {
        GitFileState::IndexDel
    } else if entry.index_modified {
        GitFileState::IndexMod
    } else {
        GitFileState::Skip
    }
}

/// Classifies the flags of a path for the working tree.
fn local_state_of(entry: &EntryStatus) -> (state: GitFileState)
    ensures
        state == entry_local_state(*entry),
{
    if entry.wt_new {
        GitFileState::LocalAdd
    } else if entry.wt_deleted {
        GitFileState::LocalDel
    } else if entry.wt_modified {
        GitFileState::LocalMod
    } else {
        GitFileState::Skip
    }
}

/// One more path adds to the tally what its flags say about the index and
/// what they say about the working tree, and at most one to any count.
proof fn lemma_entries_counts_step(entries: Seq<EntryStatus>, i: int)
    requires
        0 <= i < entries.len(),
        entries_counts(entries.take(i)).fits(i),
    ensures
        entries_counts(entries.take(i + 1)) == entries_counts(entries.take(i)).plus(
            ChangeCounts::one(entry_index_state(entries[i])),
        ).plus(ChangeCounts::one(entry_local_state(entries[i]))),
        entries_counts(entries.take(i)).plus(
            ChangeCounts::one(entry_index_state(entries[i])),
        ).fits(i + 1),
        entries_counts(entries.take(i + 1)).fits(i + 1),
{
    let local = |entry: EntryStatus| entry_local_state(entry);
    let index = |entry: EntryStatus| entry_index_state(entry);
    let before = entries.take(i);
    let after = entries.take(i + 1);
    assert(after.map_values(local).drop_last() =~= before.map_values(local));
    assert(after.map_values(index).drop_last() =~= before.map_values(index));
    assert(after.map_values(local).last() == entry_local_state(entries[i]));
    assert(after.map_values(index).last() == entry_index_state(entries[i]));
}

/// Tallies the status flags of the paths of a repository: each path counts
/// once for what its flags say about the index and once for what they say
/// about the working tree.
pub fn local_repo_changes(entries: &Vec<EntryStatus>) -> (changes: GitLocalRepoChanges)
    ensures
        changes@ == entries_counts(entries@),
{
    let mut result = GitLocalRepoChanges::default();
    let mut i: usize = 0;
    proof {
        assert(entries@.take(0).map_values(|entry: EntryStatus| entry_local_state(entry))
            =~= Seq::<GitFileState>::empty());
        assert(entries@.take(0).map_values(|entry: EntryStatus| entry_index_state(entry))
            =~= Seq::<GitFileState>::empty());
    }
    while i < entries.len()
        invariant
            i <= entries@.len(),
            result@ == entries_counts(entries@.take(i as int)),
            result@.fits(i as int),
        decreases entries@.len() - i,
    {
        proof {
            lemma_entries_counts_step(entries@, i as int);
        }
        let staged = index_state_of(&entries[i]);
        let unstaged = local_state_of(&entries[i]);
        result.record(staged);
        result.record(unstaged);
        i += 1;
    }
    assert(entries@.take(i as int) =~= entries@);
    result
}

/// The name of the ref that holds the head of a remote.
pub fn remote_head_ref(remote: &str) -> (name: String)
    ensures
        name@ == "refs/remotes/"@ + remote@ + "/HEAD"@,
{
    let mut name = join("refs/remotes/", remote);
    name.append("/HEAD");
    name
}

/// The name of the ref that holds a branch of a remote.
pub fn remote_branch_ref(remote_branch: &str) -> (name: String)
    ensures
        name@ == "refs/remotes/"@ + remote_branch@,
{
    join("refs/remotes/", remote_branch)
}

/// The name of the ref that holds a local branch.
pub fn local_branch_ref(local_branch: &str) -> (name: String)
    ensures
        name@ == "refs/heads/"@ + local_branch@,
{
    join("refs/heads/", local_branch)
}

/// The name of the ref that holds a tag.
pub fn tag_ref(tag: &str) -> (name: String)
    ensures
        name@ == "refs/tags/"@ + tag@,
{
    join("refs/tags/", tag)
}

/// The main branch of a remote, from the lookup of the remote's head and its
/// symbolic target. A remote without a head has the assumed main branch; a
/// lookup that failed for another reason is a failure.
pub fn remote_default_branch(
    remote: &str,
    remote_head: Result<Option<String>, LibgitError>,
) -> (branch: Result<String, LibgitError>)
    ensures
        text_view(branch) == match remote_head {
            Ok(target) => Ok::<Seq<char>, LibgitError>(
                default_branch_of(
                    remote@,
                    match target {
                        Some(t) => Some(t@),
                        None => None,
                    },
                ),
            ),
            Err(error) => if error.code == ErrorCode::NotFound {
                Ok(assumed_default_branch(remote@))
            } else {
                Err(error)
            },
        },
{
    match remote_head {
        Ok(Some(target)) => match strip_prefix(target.as_str(), "refs/remotes/") {
            Some(branch) => Ok(branch.to_owned()),
            None => Ok(join(remote, "/master")),
        },
        Ok(None) => Ok(join(remote, "/master")),
        Err(error) => if error.code == ErrorCode::NotFound {
            Ok(join(remote, "/master"))
        } else {
            Err(error)
        },
    }
}

/// The two commits whose merge base is looked for, from the lookups of the
/// merge target and of the local branch: none where either of the two is
/// absent, and a lookup that failed for another reason is a failure. The
/// lookup of the merge target comes first.
pub open spec fn merge_base_ends<T>(
    remote_oid: Result<T, LibgitError>,
    local_oid: Result<T, LibgitError>,
) -> Result<Option<(T, T)>, LibgitError> {
    match remote_oid {
        Ok(remote) => match local_oid {
            Ok(local) => Ok(Some((remote, local))),
            Err(error) => if error.code == ErrorCode::NotFound {
                Ok(None)
            } else {
                Err(error)
            },
        },
        Err(error) => if error.code == ErrorCode::NotFound {
            Ok(None)
        } else {
            Err(error)
        },
    }
}

/// Pairs the two commits whose merge base is looked for, from the lookups of
/// the ref of the merge target and of the ref of the local branch.
pub fn merge_base<T>(remote_oid: Result<T, LibgitError>, local_oid: Result<T, LibgitError>) -> (ends:
    Result<Option<(T, T)>, LibgitError>)
    ensures
        ends == merge_base_ends(remote_oid, local_oid),
{
    match remote_oid {
        Ok(remote) => match local_oid {
            Ok(local) => Ok(Some((remote, local))),
            Err(error) => if error.code == ErrorCode::NotFound {
                Ok(None)
            } else {
                Err(error)
            },
        },
        Err(error) => if error.code == ErrorCode::NotFound {
            Ok(None)
        } else {
            Err(error)
        },
    }
}

/// The id of a merge base, from the search for it: empty where the two
/// commits have no common ancestor.
pub fn merge_base_id(found: Result<String, LibgitError>) -> (id: Result<String, LibgitError>)
    ensures
        text_view(id) == ignoring(ErrorCode::NotFound, text_view(found), Seq::empty()),
{
    ignore_error_code(ErrorCode::NotFound, found, String::new())
}

/// The remote of a branch, from the lookup of its configuration key: empty
/// where the key is not set.
pub fn remote_name(configured: Result<String, LibgitError>) -> (name: Result<String, LibgitError>)
    ensures
        text_view(name) == ignoring(ErrorCode::NotFound, text_view(configured), Seq::empty()),
{
    ignore_error_code(ErrorCode::NotFound, configured, String::new())
}

/// The ref a branch tracks, from the lookup of its configuration key: empty
/// where the key is not set.
pub fn remote_branch_name(configured: Result<String, LibgitError>) -> (name: Result<
    String,
    LibgitError,
>)
    ensures
        text_view(name) == ignoring(ErrorCode::NotFound, text_view(configured), Seq::empty()),
{
    ignore_error_code(ErrorCode::NotFound, configured, String::new())
}

/// The abbreviated id of the head commit, from the id of the head commit in
/// full: its first seven bytes. Before the first commit there is no head
/// commit, and the abbreviated id is empty.
pub fn commit_short_sha(head_id: Result<String, LibgitError>) -> (short: Result<
    String,
    LibgitError,
>)
    requires
        head_id matches Ok(id) ==> is_char_boundary(encode_utf8(id@), SHORT_ID_LEN as int),
    ensures
        match head_id {
            Ok(id) => short matches Ok(s) && encode_utf8(s@) == encode_utf8(id@).subrange(
                0,
                SHORT_ID_LEN as int,
            ),
            Err(error) => if error.code == ErrorCode::UnbornBranch {
                short matches Ok(s) && s@.len() == 0
            } else {
                short == Err::<String, LibgitError>(error)
            },
        },
{
    match head_id {
        Ok(id) => {
            let (short, _) = id.as_str().split_at(SHORT_ID_LEN);
            Ok(short.to_owned())
        },
        Err(error) => if error.code == ErrorCode::UnbornBranch {
            Ok(String::new())
        } else {
            Err(error)
        },
    }
}

/// The tag of the head commit: the first tag of the list that points at it,
/// empty if none does.
pub fn commit_tag(head_id: &str, tags: &Vec<TagTarget>) -> (tag: String)
    ensures
        tag@ == tag_of(tags@, head_id@),
{
    let head = head_id.to_owned();
    let mut i: usize = 0;
    while i < tags.len()
        invariant
            i <= tags@.len(),
            head@ == head_id@,
            first_tag_at(tags@, head_id@, 0) == first_tag_at(tags@, head_id@, i as int),
        decreases tags@.len() - i,
    {
        let found = match &tags[i].target {
            Some(target) => *target == head,
            None => false,
        };
        if found {
            return tags[i].name.clone();
        }
        i += 1;
    }
    String::new()
}

/// The walk that finds the commits to push: those that `to_commit` has and
/// `from_commit` lacks.
pub fn rev_to_push(from_commit: &str, to_commit: &str) -> (walk: RevWalk)
    ensures
        walk.start@ == to_commit@,
        walk.hide@ == from_commit@,
{
    RevWalk { start: to_commit.to_owned(), hide: from_commit.to_owned() }
}

/// The walk that finds the commits to pull: those that `from_commit` has and
/// `to_commit` lacks.
pub fn rev_to_pull(from_commit: &str, to_commit: &str) -> (walk: RevWalk)
    ensures
        walk.start@ == from_commit@,
        walk.hide@ == to_commit@,
{
    RevWalk { start: from_commit.to_owned(), hide: to_commit.to_owned() }
}

/// Counts the commits of a walk, merges aside, from the number of parents of
/// each.
pub fn count_commits(parent_counts: &Vec<usize>) -> (count: usize)
    ensures
        count == non_merges(parent_counts@),
{
    let mut count: usize = 0;
    let mut i: usize = 0;
    while i < parent_counts.len()
        invariant
            i <= parent_counts@.len(),
            count <= i,
            count == non_merges(parent_counts@.take(i as int)),
        decreases parent_counts@.len() - i,
    {
        assert(parent_counts@.take(i + 1).drop_last() =~= parent_counts@.take(i as int));
        if parent_counts[i] <= 1 {
            count += 1;
        }
        i += 1;
    }
    assert(parent_counts@.take(i as int) =~= parent_counts@);
    count
}

} // verus!
