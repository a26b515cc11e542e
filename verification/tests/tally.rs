use git_radar_rs::git::types::{GitFileState, GitLocalRepoChanges, GitRepoState};

fn sample(seed: usize) -> GitLocalRepoChanges {
    GitLocalRepoChanges {
        local_mod: seed,
        local_add: seed * 2 + 1,
        local_del: seed * 3,
        index_mod: seed + 7,
        index_add: 11,
        index_del: seed * seed,
        renamed: 0,
        conflict: seed % 3,
    }
}

#[test]
fn the_default_tally_is_all_zero() {
    assert_eq!(
        GitLocalRepoChanges::default(),
        GitLocalRepoChanges {
            local_mod: 0,
            local_add: 0,
            local_del: 0,
            index_mod: 0,
            index_add: 0,
            index_del: 0,
            renamed: 0,
            conflict: 0,
        }
    );
}

#[test]
fn tallying_nothing_counts_nothing() {
    assert_eq!(GitLocalRepoChanges::from_iter(&Vec::new()), GitLocalRepoChanges::default());
    assert_eq!(
        GitLocalRepoChanges::from_iter(&vec![GitFileState::Skip, GitFileState::Skip]),
        GitLocalRepoChanges::default()
    );
}

#[test]
fn each_state_counts_in_its_own_field() {
    let states = vec![
        GitFileState::LocalMod,
        GitFileState::LocalAdd,
        GitFileState::LocalAdd,
        GitFileState::LocalDel,
        GitFileState::LocalDel,
        GitFileState::LocalDel,
        GitFileState::IndexMod,
        GitFileState::IndexMod,
        GitFileState::IndexMod,
        GitFileState::IndexMod,
        GitFileState::IndexAdd,
        GitFileState::IndexAdd,
        GitFileState::IndexAdd,
        GitFileState::IndexAdd,
        GitFileState::IndexAdd,
        GitFileState::IndexDel,
        GitFileState::Skip,
        GitFileState::Renamed,
        GitFileState::Renamed,
        GitFileState::Conflict,
    ];
    assert_eq!(
        GitLocalRepoChanges::from_iter(&states),
        GitLocalRepoChanges {
            local_mod: 1,
            local_add: 2,
            local_del: 3,
            index_mod: 4,
            index_add: 5,
            index_del: 1,
            renamed: 2,
            conflict: 1,
        }
    );
}

#[test]
fn record_adds_one() {
    let mut changes = GitLocalRepoChanges::default();
    changes.record(GitFileState::Conflict);
    changes.record(GitFileState::Skip);
    changes.record(GitFileState::Conflict);
    changes.record(GitFileState::Renamed);
    assert_eq!(changes, GitLocalRepoChanges { conflict: 2, renamed: 1, ..Default::default() });
}

#[test]
fn addition_sums_field_by_field() {
    let a = GitLocalRepoChanges {
        local_mod: 1,
        local_add: 2,
        local_del: 3,
        index_mod: 4,
        index_add: 5,
        index_del: 6,
        renamed: 7,
        conflict: 8,
    };
    let b = GitLocalRepoChanges {
        local_mod: 10,
        local_add: 20,
        local_del: 30,
        index_mod: 40,
        index_add: 50,
        index_del: 60,
        renamed: 70,
        conflict: 80,
    };
    assert_eq!(
        a.add(b),
        GitLocalRepoChanges {
            local_mod: 11,
            local_add: 22,
            local_del: 33,
            index_mod: 44,
            index_add: 55,
            index_del: 66,
            renamed: 77,
            conflict: 88,
        }
    );
}

#[test]
fn addition_is_commutative_and_associative() {
    for x in 0..6 {
        for y in 0..6 {
            let (a, b) = (sample(x), sample(y + 10));
            assert_eq!(a.add(b), b.add(a));
            for z in 0..6 {
                let c = sample(z + 100);
                assert_eq!(a.add(b).add(c), a.add(b.add(c)));
            }
        }
    }
}

#[test]
fn the_default_tally_is_neutral() {
    for x in 0..6 {
        let a = sample(x);
        assert_eq!(a.add(GitLocalRepoChanges::default()), a);
        assert_eq!(GitLocalRepoChanges::default().add(a), a);
    }
}

#[test]
fn tallying_a_concatenation_adds_the_tallies() {
    let first = vec![GitFileState::IndexAdd, GitFileState::LocalMod, GitFileState::Skip];
    let second = vec![GitFileState::LocalMod, GitFileState::Conflict];
    let mut both = first.clone();
    both.extend(second.iter().copied());
    assert_eq!(
        GitLocalRepoChanges::from_iter(&both),
        GitLocalRepoChanges::from_iter(&first).add(GitLocalRepoChanges::from_iter(&second))
    );
}

#[test]
fn the_default_snapshot_is_empty() {
    let state = GitRepoState::default();
    assert_eq!(state.git_local_repo_changes, GitLocalRepoChanges::default());
    assert_eq!(state.local_branch, "");
    assert_eq!(state.commit_short_sha, "");
    assert_eq!(state.commit_tag, "");
    assert_eq!(state.remote, "");
    assert_eq!(state.remote_tracking_branch, "");
    assert_eq!(state.stash_count, 0);
    assert_eq!(state.commits_to_pull, 0);
    assert_eq!(state.commits_to_push, 0);
    assert_eq!(state.merge_branch_commits_to_pull, 0);
    assert_eq!(state.merge_branch_commits_to_push, 0);
}
