use git_radar_rs::git::parse::branch::{
    build_fully_qualified_remote_branch_name, simple_remote_branch_name,
};

#[test]
fn the_prefix_of_local_branches_is_stripped() {
    assert_eq!(build_fully_qualified_remote_branch_name("origin", "refs/heads/main"), "origin/main");
}

#[test]
fn a_bare_branch_name_is_kept() {
    assert_eq!(build_fully_qualified_remote_branch_name("origin", "main"), "origin/main");
}

#[test]
fn stripping_again_changes_nothing() {
    let once = simple_remote_branch_name("refs/heads/feature/x");
    assert_eq!(once, "feature/x");
    assert_eq!(simple_remote_branch_name(once), "feature/x");
    assert_eq!(
        build_fully_qualified_remote_branch_name("upstream", once),
        build_fully_qualified_remote_branch_name("upstream", "refs/heads/feature/x")
    );
}

#[test]
fn only_a_leading_prefix_is_stripped() {
    assert_eq!(simple_remote_branch_name("refs/heads/"), "");
    assert_eq!(simple_remote_branch_name("refs/heads"), "refs/heads");
    assert_eq!(simple_remote_branch_name("refs/tags/v1"), "refs/tags/v1");
    assert_eq!(simple_remote_branch_name("x/refs/heads/main"), "x/refs/heads/main");
    assert_eq!(simple_remote_branch_name("refs/heads/refs/heads/main"), "refs/heads/main");
    assert_eq!(simple_remote_branch_name(""), "");
}

#[test]
fn empty_parts_still_give_a_slash() {
    assert_eq!(build_fully_qualified_remote_branch_name("", ""), "/");
    assert_eq!(build_fully_qualified_remote_branch_name("origin", ""), "origin/");
    assert_eq!(build_fully_qualified_remote_branch_name("", "refs/heads/main"), "/main");
}
