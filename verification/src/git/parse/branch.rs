//! Names of remote branches.

use crate::text::{join, strip_prefix};
use vstd::prelude::*;

verus! {

/// The prefix under which git keeps local branches.
pub open spec fn heads_prefix() -> Seq<char> {
    "refs/heads/"@
}

/// The name of a branch without the prefix of local branches, if it has
/// one.
pub open spec fn simple_name(branch: Seq<char>) -> Seq<char> {
    if heads_prefix().is_prefix_of(branch) {
        branch.skip(heads_prefix().len() as int)
    } else {
        branch
    }
}

/// The name by which a remote's branch is known locally: the remote, a
/// slash, and the simple name of the branch.
pub open spec fn qualified_name(remote: Seq<char>, branch: Seq<char>) -> Seq<char> {
    remote + seq!['/'] + simple_name(branch)
}

/// A name that carries the prefix and the same name without it have the same
/// simple name, provided that the bare name does not itself start with the
/// prefix: so they give the same qualified name for every remote.
pub proof fn lemma_simple_name_of_prefixed(remote: Seq<char>, name: Seq<char>)
    requires
        !heads_prefix().is_prefix_of(name),
    ensures
        simple_name(heads_prefix() + name) == name,
        simple_name(name) == name,
        qualified_name(remote, heads_prefix() + name) == qualified_name(remote, name),
{
    let prefixed = heads_prefix() + name;
    assert(prefixed.subrange(0, heads_prefix().len() as int) =~= heads_prefix());
    assert(prefixed.skip(heads_prefix().len() as int) =~= name);
}

/// Strips the prefix of local branches from a branch name.
pub fn simple_remote_branch_name(remote_branch_name: &str) -> (name: &str)
    ensures
        name@ == simple_name(remote_branch_name@),
{
    match strip_prefix(remote_branch_name, "refs/heads/") {
        Some(branch) => branch,
        None => remote_branch_name,
    }
}

/// Builds the name by which the branch of a remote is known locally.
pub fn build_fully_qualified_remote_branch_name(remote: &str, remote_branch_name: &str) -> (name:
    String)
    ensures
        name@ == qualified_name(remote@, remote_branch_name@),
{
    let mut name = join(remote, "/");
    proof {
        reveal_strlit("/");
        assert("/"@ =~= seq!['/']);
    }
    name.append(simple_remote_branch_name(remote_branch_name));
    name
}

} // verus!
