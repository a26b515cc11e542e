//! The parts of the prompt, their texts and their colors.

use crate::terminal::types::{BaseColor, Color, ColorIntensity, ColoredTag};
use vstd::prelude::*;

verus! {

/// Which parts of the prompt are shown.
#[derive(Debug, Clone, Copy, PartialEq, Eq, Structural)]
pub struct Parts {
    pub show_repo_indicator: bool,
    pub show_merge_branch_commits_diff: bool,
    pub show_local_branch: bool,
    pub show_commits_to_origin: bool,
    pub show_local_changes_state: bool,
    pub show_stashes: bool,
}

impl Default for Parts {
    /// Every part is shown.
    fn default() -> (parts: Self)
        ensures
            parts.show_repo_indicator,
            parts.show_merge_branch_commits_diff,
            parts.show_local_branch,
            parts.show_commits_to_origin,
            parts.show_local_changes_state,
            parts.show_stashes,
    {
        Self {
            show_repo_indicator: true,
            show_merge_branch_commits_diff: true,
            show_local_branch: true,
            show_commits_to_origin: true,
            show_local_changes_state: true,
            show_stashes: true,
        }
    }
}

/// The texts and colors of the prompt.
#[derive(Debug, Clone, PartialEq, Eq)]
pub struct Config {
    pub parts: Parts,
    pub repo_indicator: String,
    pub no_tracked_upstream_string: ColoredTag,
    pub no_tracked_upstream_indicator: ColoredTag,
    pub merge_branch_commits_indicator: String,
    pub merge_branch_commits_only_push: ColoredTag,
    pub merge_branch_commits_only_pull: ColoredTag,
    pub merge_branch_commits_both_pull_push: ColoredTag,
    pub merge_branch_ignore_branches: Vec<String>,
    pub local_branch_name_prefix: String,
    pub local_branch_name_suffix: String,
    pub local_detached_prefix: String,
    pub local_branch_color: Color,
    pub local_detached_color: Color,
    pub local_commits_push_suffix: ColoredTag,
    pub local_commits_pull_suffix: ColoredTag,
    pub local_commits_push_pull_infix: ColoredTag,
    pub change_index_add_suffix: ColoredTag,
    pub change_index_mod_suffix: ColoredTag,
    pub change_index_del_suffix: ColoredTag,
    pub change_local_add_suffix: ColoredTag,
    pub change_local_mod_suffix: ColoredTag,
    pub change_local_del_suffix: ColoredTag,
    pub change_renamed_suffix: ColoredTag,
    pub change_conflicted_suffix: ColoredTag,
    pub stash_suffix: ColoredTag,
}

/// A color in its vivid variant.
pub open spec fn vivid(color: BaseColor) -> Color {
    Color { color: color, intensity: ColorIntensity::Vivid }
}

/// Whether a tag has the given text and the given color, vivid.
pub open spec fn is_vivid_tag(tag: ColoredTag, text: Seq<char>, color: BaseColor) -> bool {
    tag.tag@ == text && tag.color == vivid(color)
}

/// A tag in a vivid color.
fn vivid_tag(text: &str, color: BaseColor) -> (tag: ColoredTag)
    ensures
        is_vivid_tag(tag, text@, color),
{
    ColoredTag {
        tag: String::from_str(text),
        color: Color { color, intensity: ColorIntensity::Vivid },
    }
}

impl Default for Config {
    /// Every part shown, arrows for the commits, letters for the changes;
    /// green for what is staged or ahead, red for what is unstaged or
    /// behind.
    fn default() -> (config: Self)
        ensures
            config.parts.show_repo_indicator,
            config.parts.show_merge_branch_commits_diff,
            config.parts.show_local_branch,
            config.parts.show_commits_to_origin,
            config.parts.show_local_changes_state,
            config.parts.show_stashes,
            config.repo_indicator@ == "ᚴ"@,
            is_vivid_tag(config.no_tracked_upstream_string, "upstream"@, BaseColor::Red),
            is_vivid_tag(config.no_tracked_upstream_indicator, "\u{26A1}"@, BaseColor::Red),
            config.merge_branch_commits_indicator@ == "\u{1D62E}"@,
            is_vivid_tag(config.merge_branch_commits_only_push, "\u{2190}"@, BaseColor::Green),
            is_vivid_tag(config.merge_branch_commits_only_pull, "\u{2192}"@, BaseColor::Green),
            is_vivid_tag(
                config.merge_branch_commits_both_pull_push,
                "\u{21C4}"@,
                BaseColor::Green,
            ),
            config.merge_branch_ignore_branches.deep_view() == seq!["gh-pages"@],
            config.local_branch_name_prefix@ == "["@,
            config.local_branch_name_suffix@ == "]"@,
            config.local_detached_prefix@ == "detached@"@,
            config.local_branch_color == vivid(BaseColor::NoColor),
            config.local_detached_color == vivid(BaseColor::Yellow),
            is_vivid_tag(config.local_commits_push_suffix, "\u{2191}"@, BaseColor::Green),
            is_vivid_tag(config.local_commits_pull_suffix, "\u{2193}"@, BaseColor::Red),
            is_vivid_tag(config.local_commits_push_pull_infix, "⥯"@, BaseColor::Green),
            is_vivid_tag(config.change_index_add_suffix, "A"@, BaseColor::Green),
            is_vivid_tag(config.change_index_mod_suffix, "M"@, BaseColor::Green),
            is_vivid_tag(config.change_index_del_suffix, "D"@, BaseColor::Green),
            is_vivid_tag(config.change_local_add_suffix, "A"@, BaseColor::White),
            is_vivid_tag(config.change_local_mod_suffix, "M"@, BaseColor::Red),
            is_vivid_tag(config.change_local_del_suffix, "D"@, BaseColor::Red),
            is_vivid_tag(config.change_renamed_suffix, "R"@, BaseColor::Green),
            is_vivid_tag(config.change_conflicted_suffix, "C"@, BaseColor::Green),
            is_vivid_tag(config.stash_suffix, "≡"@, BaseColor::Green),
    {
        let mut merge_branch_ignore_branches: Vec<String> = Vec::new();
        merge_branch_ignore_branches.push(String::from_str("gh-pages"));
        assert(merge_branch_ignore_branches.deep_view() =~= seq!["gh-pages"@]);
        Self {
            parts: Parts::default(),
            repo_indicator: String::from_str("ᚴ"),
            no_tracked_upstream_string: vivid_tag("upstream", BaseColor::Red),
            no_tracked_upstream_indicator: vivid_tag("\u{26A1}", BaseColor::Red),
            merge_branch_commits_indicator: String::from_str("\u{1D62E}"),
            merge_branch_commits_only_push: vivid_tag("\u{2190}", BaseColor::Green),
            merge_branch_commits_only_pull: vivid_tag("\u{2192}", BaseColor::Green),
            merge_branch_commits_both_pull_push: vivid_tag("\u{21C4}", BaseColor::Green),
            merge_branch_ignore_branches,
            local_branch_name_prefix: String::from_str("["),
            local_branch_name_suffix: String::from_str("]"),
            local_detached_prefix: String::from_str("detached@"),
            local_branch_color: Color {
                color: BaseColor::NoColor,
                intensity: ColorIntensity::Vivid,
            },
            local_detached_color: Color {
                color: BaseColor::Yellow,
                intensity: ColorIntensity::Vivid,
            },
            local_commits_push_suffix: vivid_tag("\u{2191}", BaseColor::Green),
            local_commits_pull_suffix: vivid_tag("\u{2193}", BaseColor::Red),
            local_commits_push_pull_infix: vivid_tag("⥯", BaseColor::Green),
            change_index_add_suffix: vivid_tag("A", BaseColor::Green),
            change_index_mod_suffix: vivid_tag("M", BaseColor::Green),
            change_index_del_suffix: vivid_tag("D", BaseColor::Green),
            change_local_add_suffix: vivid_tag("A", BaseColor::White),
            change_local_mod_suffix: vivid_tag("M", BaseColor::Red),
            change_local_del_suffix: vivid_tag("D", BaseColor::Red),
            change_renamed_suffix: vivid_tag("R", BaseColor::Green),
            change_conflicted_suffix: vivid_tag("C", BaseColor::Green),
            stash_suffix: vivid_tag("≡", BaseColor::Green),
        }
    }
}

} // verus!
