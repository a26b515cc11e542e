use git_radar_rs::config::types::Config;
use git_radar_rs::git::types::{GitLocalRepoChanges, GitRepoState};
use git_radar_rs::terminal::output::TerminalOutput;
use git_radar_rs::terminal::prompt::{add_state_elem, Prompt};
use git_radar_rs::terminal::types::{BaseColor, Color, ColorIntensity, ColoredTag, Shell};

fn feature_without_remote() -> GitRepoState {
    GitRepoState {
        git_local_repo_changes: GitLocalRepoChanges {
            local_add: 1,
            index_add: 1,
            ..Default::default()
        },
        local_branch: "feature".to_string(),
        commit_short_sha: "abc1234".to_string(),
        ..Default::default()
    }
}

fn tracked_main() -> GitRepoState {
    GitRepoState {
        git_local_repo_changes: GitLocalRepoChanges {
            index_add: 1,
            index_del: 2,
            index_mod: 3,
            renamed: 4,
            local_del: 5,
            local_mod: 6,
            local_add: 7,
            conflict: 8,
        },
        local_branch: "main".to_string(),
        commit_short_sha: "abc1234".to_string(),
        commit_tag: String::new(),
        remote: "origin".to_string(),
        remote_tracking_branch: "refs/heads/main".to_string(),
        stash_count: 6,
        commits_to_pull: 2,
        commits_to_push: 3,
        merge_branch_commits_to_pull: 4,
        merge_branch_commits_to_push: 5,
    }
}

fn clean_main() -> GitRepoState {
    GitRepoState {
        local_branch: "main".to_string(),
        commit_short_sha: "abc1234".to_string(),
        remote: "origin".to_string(),
        remote_tracking_branch: "refs/heads/main".to_string(),
        ..Default::default()
    }
}

fn plain(state: GitRepoState) -> String {
    Prompt::new(Shell::Plain, Config::default(), state).render()
}

fn part(write: fn(&Prompt, &mut TerminalOutput), state: GitRepoState) -> String {
    let prompt = Prompt::new(Shell::Plain, Config::default(), state);
    let mut output = TerminalOutput::new(Shell::Plain, String::from("|"));
    write(&prompt, &mut output);
    output.write_str("|");
    output.into_string()
}

#[test]
fn a_prompt_keeps_what_it_was_made_of() {
    let prompt = Prompt::new(Shell::Zsh, Config::default(), tracked_main());
    assert_eq!(prompt.shell, Shell::Zsh);
    assert_eq!(prompt.config, Config::default());
    assert_eq!(prompt.repo_state, tracked_main());
}

#[test]
fn a_branch_without_an_upstream() {
    assert_eq!(plain(feature_without_remote()), "ᚴ upstream \u{26A1} [feature] 1A 1A");
}

#[test]
fn a_branch_without_an_upstream_for_tmux() {
    let prompt = Prompt::new(Shell::Tmux, Config::default(), feature_without_remote());
    assert_eq!(
        prompt.render(),
        "#[fg=default]ᚴ #[fg=brightred]upstream#[fg=default] \
         #[fg=brightred]\u{26A1}#[fg=default] [#[fg=default]feature#[fg=default]] \
         1#[fg=brightgreen]A#[fg=default] 1#[fg=brightwhite]A#[fg=default]"
    );
}

#[test]
fn a_tracked_branch_with_everything_to_show() {
    assert_eq!(
        plain(tracked_main()),
        "ᚴ \u{1D62E} 4\u{21C4} 5 [main] 2⥯3 1A2D3M4R 5D6M 7A 8C 6≡"
    );
}

#[test]
fn a_tracked_branch_for_bash() {
    let state = GitRepoState { commits_to_push: 3, ..clean_main() };
    let prompt = Prompt::new(Shell::Bash, Config::default(), state);
    assert_eq!(
        prompt.render(),
        "\x01\x1b[0;39m\x02ᚴ [\x01\x1b[0;39m\x02main\x01\x1b[0;39m\x02] \
         3\x01\x1b[1;32m\x02\u{2191}\x01\x1b[0;39m\x02"
    );
}

#[test]
fn a_tracked_branch_for_zsh_and_for_other_shells() {
    let state = GitRepoState { commits_to_pull: 2, ..clean_main() };
    let prompt = Prompt::new(Shell::Zsh, Config::default(), state.clone());
    assert_eq!(
        prompt.render(),
        "%{\x1b[0;39m%}ᚴ [%{\x1b[0;39m%}main%{\x1b[0;39m%}] \
         2%{\x1b[1;31m%}\u{2193}%{\x1b[0;39m%}"
    );
    let prompt = Prompt::new(Shell::Other, Config::default(), state);
    assert_eq!(
        prompt.render(),
        "\x1b[0;39mᚴ [\x1b[0;39mmain\x1b[0;39m] 2\x1b[1;31m\u{2193}\x1b[0;39m"
    );
}

#[test]
fn a_clean_tracked_branch_shows_its_name_only() {
    assert_eq!(plain(clean_main()), "ᚴ [main]");
}

#[test]
fn a_detached_head_goes_by_its_tag() {
    let state = GitRepoState {
        commit_short_sha: "abc1234".to_string(),
        commit_tag: "v1.2.0".to_string(),
        ..Default::default()
    };
    assert_eq!(plain(state), "ᚴ upstream \u{26A1} [detached@v1.2.0]");
}

#[test]
fn a_detached_head_without_a_tag_goes_by_its_commit() {
    let state = GitRepoState { commit_short_sha: "abc1234".to_string(), ..Default::default() };
    assert_eq!(plain(state), "ᚴ upstream \u{26A1} [detached@abc1234]");
}

#[test]
fn a_detached_head_is_shown_in_its_own_color() {
    let state = GitRepoState { commit_tag: "v1".to_string(), ..clean_main() };
    let state = GitRepoState { local_branch: String::new(), ..state };
    let prompt = Prompt::new(Shell::Tmux, Config::default(), state);
    assert_eq!(
        prompt.render(),
        "#[fg=default]ᚴ [#[fg=brightyellow]detached@v1#[fg=default]]"
    );
}

#[test]
fn an_ignored_branch_is_not_compared_with_the_merge_target() {
    let state = GitRepoState {
        local_branch: "gh-pages".to_string(),
        merge_branch_commits_to_pull: 4,
        merge_branch_commits_to_push: 5,
        ..Default::default()
    };
    let prompt = Prompt::new(Shell::Plain, Config::default(), state.clone());
    assert!(!prompt.show_merge_branch_indicator());
    assert_eq!(prompt.render(), "ᚴ [gh-pages]");

    let mut config = Config::default();
    config.merge_branch_ignore_branches = vec!["a".to_string(), "main".to_string()];
    let prompt = Prompt::new(Shell::Plain, config, state);
    assert!(prompt.show_merge_branch_indicator());
    assert_eq!(prompt.render(), "ᚴ upstream \u{26A1} \u{1D62E} 4\u{21C4} 5 [gh-pages]");
}

#[test]
fn the_comparison_with_the_merge_target_can_be_switched_off() {
    let mut config = Config::default();
    config.parts.show_merge_branch_commits_diff = false;
    let prompt = Prompt::new(Shell::Plain, config, tracked_main());
    assert!(!prompt.show_merge_branch_indicator());
    assert_eq!(prompt.render(), "ᚴ [main] 2⥯3 1A2D3M4R 5D6M 7A 8C 6≡");
    let prompt = Prompt::new(Shell::Plain, Config::default(), tracked_main());
    assert!(prompt.show_merge_branch_indicator());
}

#[test]
fn commits_of_the_merge_target_in_one_direction() {
    let state = GitRepoState { merge_branch_commits_to_pull: 4, ..clean_main() };
    assert_eq!(plain(state), "ᚴ \u{1D62E} \u{2192} 4 [main]");
    let state = GitRepoState { merge_branch_commits_to_push: 5, ..clean_main() };
    assert_eq!(plain(state), "ᚴ \u{1D62E} \u{2190} 5 [main]");
}

#[test]
fn commits_of_the_upstream_in_one_direction() {
    let state = GitRepoState { commits_to_pull: 2, ..clean_main() };
    assert_eq!(plain(state), "ᚴ [main] 2\u{2193}");
    let state = GitRepoState { commits_to_push: 3, ..clean_main() };
    assert_eq!(plain(state), "ᚴ [main] 3\u{2191}");
    let state = GitRepoState { commits_to_pull: 10, commits_to_push: 20, ..clean_main() };
    assert_eq!(plain(state), "ᚴ [main] 10⥯20");
}

#[test]
fn stashes_follow_the_changes() {
    let state = GitRepoState { stash_count: 2, ..clean_main() };
    assert_eq!(plain(state), "ᚴ [main] 2≡");
    let state = GitRepoState {
        stash_count: 2,
        git_local_repo_changes: GitLocalRepoChanges { conflict: 1, ..Default::default() },
        ..clean_main()
    };
    assert_eq!(plain(state), "ᚴ [main] 1C 2≡");
}

#[test]
fn with_every_part_off_only_the_reset_is_left() {
    let mut config = Config::default();
    config.parts.show_repo_indicator = false;
    config.parts.show_merge_branch_commits_diff = false;
    config.parts.show_local_branch = false;
    config.parts.show_commits_to_origin = false;
    config.parts.show_local_changes_state = false;
    config.parts.show_stashes = false;
    for (shell, expected) in [
        (Shell::Plain, ""),
        (Shell::Bash, "\x01\x1b[0;39m\x02"),
        (Shell::Zsh, "%{\x1b[0;39m%}"),
        (Shell::Other, "\x1b[0;39m"),
        (Shell::Tmux, "#[fg=default]"),
    ] {
        let prompt = Prompt::new(shell, config.clone(), tracked_main());
        assert_eq!(prompt.render(), expected);
    }
}

#[test]
fn each_part_can_be_switched_off() {
    let mut config = Config::default();
    config.parts.show_repo_indicator = false;
    let prompt = Prompt::new(Shell::Plain, config, tracked_main());
    assert_eq!(prompt.render(), "\u{1D62E} 4\u{21C4} 5 [main] 2⥯3 1A2D3M4R 5D6M 7A 8C 6≡");

    let mut config = Config::default();
    config.parts.show_local_branch = false;
    let prompt = Prompt::new(Shell::Plain, config, tracked_main());
    assert_eq!(prompt.render(), "ᚴ \u{1D62E} 4\u{21C4} 5 2⥯3 1A2D3M4R 5D6M 7A 8C 6≡");

    let mut config = Config::default();
    config.parts.show_commits_to_origin = false;
    let prompt = Prompt::new(Shell::Plain, config, tracked_main());
    assert_eq!(prompt.render(), "ᚴ \u{1D62E} 4\u{21C4} 5 [main] 1A2D3M4R 5D6M 7A 8C 6≡");

    let mut config = Config::default();
    config.parts.show_local_changes_state = false;
    let prompt = Prompt::new(Shell::Plain, config, tracked_main());
    assert_eq!(prompt.render(), "ᚴ \u{1D62E} 4\u{21C4} 5 [main] 2⥯3 6≡");

    let mut config = Config::default();
    config.parts.show_stashes = false;
    let prompt = Prompt::new(Shell::Plain, config, tracked_main());
    assert_eq!(prompt.render(), "ᚴ \u{1D62E} 4\u{21C4} 5 [main] 2⥯3 1A2D3M4R 5D6M 7A 8C");
}

#[test]
fn the_parts_one_by_one() {
    assert_eq!(part(Prompt::add_repo_indicator, tracked_main()), "|ᚴ |");
    assert_eq!(part(Prompt::add_no_tracked_upstream_indicator, tracked_main()), "||");
    assert_eq!(
        part(Prompt::add_no_tracked_upstream_indicator, feature_without_remote()),
        "|upstream \u{26A1} |"
    );
    assert_eq!(part(Prompt::add_merge_branch_commits, tracked_main()), "|\u{1D62E} 4\u{21C4} 5 |");
    assert_eq!(part(Prompt::add_merge_branch_commits, clean_main()), "||");
    assert_eq!(part(Prompt::add_local_branch_name, tracked_main()), "|[main] |");
    assert_eq!(part(Prompt::add_local_commits, tracked_main()), "|2⥯3 |");
    assert_eq!(part(Prompt::add_local_commits, clean_main()), "||");
    assert_eq!(part(Prompt::add_repo_state, tracked_main()), "|1A2D3M4R 5D6M 7A 8C |");
    assert_eq!(part(Prompt::add_repo_state, clean_main()), "| |");
    assert_eq!(part(Prompt::add_stashes, tracked_main()), "|6≡|");
    assert_eq!(part(Prompt::add_stashes, clean_main()), "||");
}

#[test]
fn a_count_of_zero_writes_nothing() {
    let tag = ColoredTag {
        color: Color { color: BaseColor::Blue, intensity: ColorIntensity::Dull },
        tag: "x".to_string(),
    };
    let mut output = TerminalOutput::new(Shell::Tmux, String::new());
    add_state_elem(&mut output, 0, &tag);
    assert_eq!(output.into_string(), "");
    let mut output = TerminalOutput::new(Shell::Tmux, String::new());
    add_state_elem(&mut output, 15, &tag);
    assert_eq!(output.into_string(), "15#[fg=blue]x#[fg=default]");
}
