use git_radar_rs::git::cli::command::{git_cmd_answer, git_cmd_args};
use git_radar_rs::git::query::{GitAnswer, GitQuery};
use git_radar_rs::git::types::{GitLocalRepoChanges, GitRepoState};
use git_radar_rs::git::{get_git_repo_state, BuildError, BuildStage, RepoStateBuilder};
use git_radar_rs::process::ProcessOutput;

fn text(t: &str) -> GitAnswer {
    GitAnswer::Text(t.to_string())
}

/// Builds a snapshot from the answers, in order, and returns it with the
/// questions that were asked.
fn build(answers: Vec<GitAnswer>) -> (GitRepoState, Vec<GitQuery>) {
    let mut builder = RepoStateBuilder::new();
    let mut asked = Vec::new();
    for answer in answers {
        asked.push(builder.pending().expect("a question is pending"));
        builder = get_git_repo_state(builder, answer).expect("the answer is taken");
    }
    assert_eq!(builder.pending(), None);
    (builder.finish().expect("the snapshot is complete"), asked)
}

/// Builds a snapshot by answering each question as a `git` that prints
/// `stdout(args)` would; `None` stands for a `git` that fails.
fn build_from_git(stdout: fn(&[String]) -> Option<&'static str>) -> (GitRepoState, Vec<GitQuery>) {
    let mut builder = RepoStateBuilder::new();
    let mut asked = Vec::new();
    while let Some(query) = builder.pending() {
        let output = match stdout(&git_cmd_args(&query)) {
            Some(printed) => ProcessOutput { success: true, stdout: printed.as_bytes().to_vec() },
            None => ProcessOutput { success: false, stdout: Vec::new() },
        };
        let answer = git_cmd_answer(&query, output).expect("the output is read");
        builder = get_git_repo_state(builder, answer).expect("the answer is taken");
        asked.push(query);
    }
    (builder.finish().expect("the snapshot is complete"), asked)
}

fn about_upstream(query: &GitQuery) -> bool {
    matches!(
        query,
        GitQuery::RemoteBranchName { .. }
            | GitQuery::MergeBase { .. }
            | GitQuery::RevToPull { .. }
            | GitQuery::RevToPush { .. }
    )
}

#[test]
fn a_new_builder_asks_for_the_branch() {
    let builder = RepoStateBuilder::new();
    assert_eq!(builder.stage, BuildStage::LocalBranch);
    assert_eq!(builder.state, GitRepoState::default());
    assert_eq!(builder.pending(), Some(GitQuery::LocalBranchName));
    assert_eq!(builder.finish(), None);
}

#[test]
fn a_branch_without_a_remote_asks_nothing_about_an_upstream() {
    let changes = GitLocalRepoChanges { local_mod: 2, ..Default::default() };
    let (state, asked) = build(vec![
        text("feature"),
        GitAnswer::Changes(changes),
        text(""),
        GitAnswer::Count(3),
        text("abc1234"),
        text("v1"),
    ]);
    assert_eq!(
        asked,
        vec![
            GitQuery::LocalBranchName,
            GitQuery::PorcelainStatus,
            GitQuery::RemoteName { local_branch: "feature".to_string() },
            GitQuery::StashCount,
            GitQuery::CommitShortSha,
            GitQuery::CommitTag,
        ]
    );
    assert!(!asked.iter().any(about_upstream));
    assert_eq!(
        state,
        GitRepoState {
            git_local_repo_changes: changes,
            local_branch: "feature".to_string(),
            commit_short_sha: "abc1234".to_string(),
            commit_tag: "v1".to_string(),
            remote: String::new(),
            remote_tracking_branch: String::new(),
            stash_count: 3,
            commits_to_pull: 0,
            commits_to_push: 0,
            merge_branch_commits_to_pull: 0,
            merge_branch_commits_to_push: 0,
        }
    );
}

#[test]
fn a_branch_without_a_merge_base_is_compared_with_its_upstream_only() {
    let (state, asked) = build(vec![
        text("feature"),
        GitAnswer::Changes(GitLocalRepoChanges::default()),
        text("origin"),
        text("refs/heads/feature"),
        text(""),
        GitAnswer::Count(4),
        GitAnswer::Count(5),
        GitAnswer::Count(0),
        text("abc1234"),
        text(""),
    ]);
    assert_eq!(
        asked,
        vec![
            GitQuery::LocalBranchName,
            GitQuery::PorcelainStatus,
            GitQuery::RemoteName { local_branch: "feature".to_string() },
            GitQuery::RemoteBranchName { local_branch: "feature".to_string() },
            GitQuery::MergeBase {
                merge_target: "origin/master".to_string(),
                local_branch: "feature".to_string()
            },
            GitQuery::RevToPull {
                from_commit: "origin/feature".to_string(),
                to_commit: "HEAD".to_string()
            },
            GitQuery::RevToPush {
                from_commit: "origin/feature".to_string(),
                to_commit: "HEAD".to_string()
            },
            GitQuery::StashCount,
            GitQuery::CommitShortSha,
            GitQuery::CommitTag,
        ]
    );
    assert_eq!(state.remote, "origin");
    assert_eq!(state.remote_tracking_branch, "refs/heads/feature");
    assert_eq!(state.commits_to_pull, 4);
    assert_eq!(state.commits_to_push, 5);
    assert_eq!(state.merge_branch_commits_to_pull, 0);
    assert_eq!(state.merge_branch_commits_to_push, 0);
}

#[test]
fn a_branch_with_a_merge_base_is_compared_with_the_merge_target_too() {
    let changes = GitLocalRepoChanges { index_add: 1, conflict: 2, ..Default::default() };
    let (state, asked) = build(vec![
        text("feature"),
        GitAnswer::Changes(changes),
        text("upstream"),
        text("topic"),
        text("1f0c5e8a"),
        GitAnswer::Count(1),
        GitAnswer::Count(2),
        GitAnswer::Count(3),
        GitAnswer::Count(4),
        GitAnswer::Count(5),
        text("abc1234"),
        text("v2"),
    ]);
    assert_eq!(
        asked[5..9].to_vec(),
        vec![
            GitQuery::RevToPull {
                from_commit: "upstream/topic".to_string(),
                to_commit: "HEAD".to_string()
            },
            GitQuery::RevToPush {
                from_commit: "upstream/topic".to_string(),
                to_commit: "HEAD".to_string()
            },
            GitQuery::RevToPull {
                from_commit: "origin/master".to_string(),
                to_commit: "upstream/topic".to_string()
            },
            GitQuery::RevToPush {
                from_commit: "origin/master".to_string(),
                to_commit: "upstream/topic".to_string()
            },
        ]
    );
    assert_eq!(
        state,
        GitRepoState {
            git_local_repo_changes: changes,
            local_branch: "feature".to_string(),
            commit_short_sha: "abc1234".to_string(),
            commit_tag: "v2".to_string(),
            remote: "upstream".to_string(),
            remote_tracking_branch: "topic".to_string(),
            stash_count: 5,
            commits_to_pull: 1,
            commits_to_push: 2,
            merge_branch_commits_to_pull: 3,
            merge_branch_commits_to_push: 4,
        }
    );
}

#[test]
fn a_remote_without_an_upstream_is_still_compared() {
    let (state, asked) = build(vec![
        text("feature"),
        GitAnswer::Changes(GitLocalRepoChanges::default()),
        text("origin"),
        text(""),
        text(""),
        GitAnswer::Count(0),
        GitAnswer::Count(0),
        GitAnswer::Count(0),
        text(""),
        text(""),
    ]);
    assert_eq!(
        asked[5],
        GitQuery::RevToPull { from_commit: "origin/".to_string(), to_commit: "HEAD".to_string() }
    );
    assert_eq!(state.remote, "origin");
    assert_eq!(state.remote_tracking_branch, "");
}

#[test]
fn an_answer_of_the_wrong_shape_is_refused() {
    let builder = RepoStateBuilder::new();
    assert_eq!(get_git_repo_state(builder, GitAnswer::Count(1)), Err(BuildError::WrongAnswer));
    let builder = RepoStateBuilder::new();
    assert_eq!(
        get_git_repo_state(builder, GitAnswer::Changes(GitLocalRepoChanges::default())),
        Err(BuildError::WrongAnswer)
    );
    let builder = get_git_repo_state(RepoStateBuilder::new(), text("main")).unwrap();
    assert_eq!(builder.stage, BuildStage::Status);
    assert_eq!(get_git_repo_state(builder.clone(), text("x")), Err(BuildError::WrongAnswer));
    assert_eq!(get_git_repo_state(builder, GitAnswer::Count(0)), Err(BuildError::WrongAnswer));
}

#[test]
fn every_stage_refuses_the_shapes_it_does_not_wait_for() {
    let answers = vec![
        text("feature"),
        GitAnswer::Changes(GitLocalRepoChanges::default()),
        text("origin"),
        text("main"),
        text("1f0c5e8a"),
        GitAnswer::Count(1),
        GitAnswer::Count(2),
        GitAnswer::Count(3),
        GitAnswer::Count(4),
        GitAnswer::Count(5),
        text("abc1234"),
        text("v2"),
    ];
    let shapes =
        [text("x"), GitAnswer::Count(9), GitAnswer::Changes(GitLocalRepoChanges::default())];
    let mut builder = RepoStateBuilder::new();
    for answer in answers {
        let mut taken = 0;
        for shape in &shapes {
            match get_git_repo_state(builder.clone(), shape.clone()) {
                Ok(_) => taken += 1,
                Err(error) => assert_eq!(error, BuildError::WrongAnswer),
            }
        }
        assert_eq!(taken, 1);
        builder = get_git_repo_state(builder, answer).unwrap();
    }
    assert_eq!(builder.stage, BuildStage::Done);
}

#[test]
fn a_complete_snapshot_takes_no_more_answers() {
    let mut builder = RepoStateBuilder::new();
    for answer in [
        text(""),
        GitAnswer::Changes(GitLocalRepoChanges::default()),
        text(""),
        GitAnswer::Count(0),
        text(""),
        text(""),
    ] {
        assert_eq!(builder.clone().finish(), None);
        builder = get_git_repo_state(builder, answer).unwrap();
    }
    assert_eq!(builder.stage, BuildStage::Done);
    assert_eq!(builder.pending(), None);
    for shape in [text("x"), GitAnswer::Count(9), GitAnswer::Changes(GitLocalRepoChanges::default())]
    {
        assert_eq!(get_git_repo_state(builder.clone(), shape), Err(BuildError::Finished));
    }
    assert_eq!(builder.finish(), Some(GitRepoState::default()));
}

#[test]
fn two_added_files_one_of_them_staged() {
    fn git(args: &[String]) -> Option<&'static str> {
        match args[0].as_str() {
            "symbolic-ref" => Some("feature\n"),
            "status" => Some("?? new.txt\nA  staged.txt\n"),
            "config" => None,
            "stash" => Some(""),
            "rev-parse" => Some("abc1234\n"),
            "describe" => None,
            other => panic!("git {} was not to be run", other),
        }
    }
    let (state, asked) = build_from_git(git);
    assert_eq!(asked.len(), 6);
    assert!(!asked.iter().any(about_upstream));
    assert_eq!(
        state.git_local_repo_changes,
        GitLocalRepoChanges { local_add: 1, index_add: 1, ..Default::default() }
    );
    assert_eq!(state.remote, "");
    assert_eq!(state.stash_count, 0);
    assert_eq!(state.local_branch, "feature");
    assert_eq!(state.remote_tracking_branch, "");
    assert_eq!(state.commits_to_pull, 0);
    assert_eq!(state.commits_to_push, 0);
    assert_eq!(state.merge_branch_commits_to_pull, 0);
    assert_eq!(state.merge_branch_commits_to_push, 0);
    assert_eq!(state.commit_short_sha, "abc1234");
    assert_eq!(state.commit_tag, "");
}

#[test]
fn a_detached_head_at_a_tag() {
    fn git(args: &[String]) -> Option<&'static str> {
        match args[0].as_str() {
            "symbolic-ref" => None,
            "status" => Some(""),
            "config" => None,
            "stash" => Some(""),
            "rev-parse" => Some("abc1234\n"),
            "describe" => Some("v1.2.0\n"),
            other => panic!("git {} was not to be run", other),
        }
    }
    let (state, asked) = build_from_git(git);
    assert_eq!(asked[2], GitQuery::RemoteName { local_branch: String::new() });
    assert_eq!(state.local_branch, "");
    assert_eq!(state.commit_tag, "v1.2.0");
    assert_eq!(state.commit_short_sha, "abc1234");
}

#[test]
fn a_repository_without_commits() {
    fn git(args: &[String]) -> Option<&'static str> {
        match args[0].as_str() {
            "symbolic-ref" => Some("main\n"),
            "status" => Some("?? a\n"),
            "config" => None,
            "stash" => None,
            "rev-parse" => None,
            "describe" => None,
            other => panic!("git {} was not to be run", other),
        }
    }
    let (state, _) = build_from_git(git);
    assert_eq!(state.local_branch, "main");
    assert_eq!(state.commit_short_sha, "");
    assert_eq!(state.commit_tag, "");
    assert_eq!(state.stash_count, 0);
}

#[test]
fn a_tracked_branch_from_the_output_of_git() {
    fn git(args: &[String]) -> Option<&'static str> {
        let last = args[args.len() - 1].as_str();
        match (args[0].as_str(), last) {
            ("symbolic-ref", _) => Some("main\n"),
            ("status", _) => Some(" M a\n"),
            ("config", "branch.main.remote") => Some("origin\n"),
            ("config", "branch.main.merge") => Some("refs/heads/main\n"),
            ("merge-base", "main") => Some("1f0c5e8a2b\n"),
            ("rev-list", "origin/main...HEAD") => {
                Some(if args[2] == "--left-only" { "1\n" } else { "2\n" })
            }
            ("rev-list", "origin/master...origin/main") => {
                Some(if args[2] == "--left-only" { "3\n" } else { "4\n" })
            }
            ("stash", _) => Some("stash@{0}: x\nstash@{1}: y\n"),
            ("rev-parse", _) => Some("abc1234\n"),
            ("describe", _) => None,
            _ => panic!("git {:?} was not to be run", args),
        }
    }
    let (state, asked) = build_from_git(git);
    assert_eq!(asked.len(), 12);
    assert_eq!(
        state,
        GitRepoState {
            git_local_repo_changes: GitLocalRepoChanges { local_mod: 1, ..Default::default() },
            local_branch: "main".to_string(),
            commit_short_sha: "abc1234".to_string(),
            commit_tag: String::new(),
            remote: "origin".to_string(),
            remote_tracking_branch: "refs/heads/main".to_string(),
            stash_count: 2,
            commits_to_pull: 1,
            commits_to_push: 2,
            merge_branch_commits_to_pull: 3,
            merge_branch_commits_to_push: 4,
        }
    );
}
