use git_radar_rs::config::types::{Config, Parts};
use git_radar_rs::terminal::types::{BaseColor, Color, ColorIntensity, ColoredTag};

fn vivid(color: BaseColor) -> Color {
    Color { color, intensity: ColorIntensity::Vivid }
}

fn tag(text: &str, color: BaseColor) -> ColoredTag {
    ColoredTag { color: vivid(color), tag: text.to_string() }
}

#[test]
fn every_part_is_shown_by_default() {
    assert_eq!(
        Parts::default(),
        Parts {
            show_repo_indicator: true,
            show_merge_branch_commits_diff: true,
            show_local_branch: true,
            show_commits_to_origin: true,
            show_local_changes_state: true,
            show_stashes: true,
        }
    );
}

#[test]
fn the_default_texts_and_colors() {
    assert_eq!(
        Config::default(),
        Config {
            parts: Parts::default(),
            repo_indicator: "\u{16b4}".to_string(),
            no_tracked_upstream_string: tag("upstream", BaseColor::Red),
            no_tracked_upstream_indicator: tag("\u{26A1}", BaseColor::Red),
            merge_branch_commits_indicator: "\u{1D62E}".to_string(),
            merge_branch_commits_only_push: tag("\u{2190}", BaseColor::Green),
            merge_branch_commits_only_pull: tag("\u{2192}", BaseColor::Green),
            merge_branch_commits_both_pull_push: tag("\u{21C4}", BaseColor::Green),
            merge_branch_ignore_branches: vec!["gh-pages".to_string()],
            local_branch_name_prefix: "[".to_string(),
            local_branch_name_suffix: "]".to_string(),
            local_detached_prefix: "detached@".to_string(),
            local_branch_color: vivid(BaseColor::NoColor),
            local_detached_color: vivid(BaseColor::Yellow),
            local_commits_push_suffix: tag("\u{2191}", BaseColor::Green),
            local_commits_pull_suffix: tag("\u{2193}", BaseColor::Red),
            local_commits_push_pull_infix: tag("\u{296f}", BaseColor::Green),
            change_index_add_suffix: tag("A", BaseColor::Green),
            change_index_mod_suffix: tag("M", BaseColor::Green),
            change_index_del_suffix: tag("D", BaseColor::Green),
            change_local_add_suffix: tag("A", BaseColor::White),
            change_local_mod_suffix: tag("M", BaseColor::Red),
            change_local_del_suffix: tag("D", BaseColor::Red),
            change_renamed_suffix: tag("R", BaseColor::Green),
            change_conflicted_suffix: tag("C", BaseColor::Green),
            stash_suffix: tag("\u{2261}", BaseColor::Green),
        }
    );
}
