//! The prompt: the snapshot of a repository as one line.
//!
//! The line is made of parts, each of which can be switched off: the
//! repository indicator, the commits that set the tracked branch apart from
//! the merge target, the branch, the commits to pull and to push, the pending
//! changes and the stashes. A part that has nothing to say writes nothing.

use crate::config::types::Config;
use crate::git::types::{GitRepoState, RepoSnapshot};
use crate::terminal::output::{OutputModel, TerminalOutput};
use crate::terminal::types::{ColoredTag, Shell};
use crate::text::join;
use vstd::prelude::*;

verus! {

/// Whether a list of names holds a name.
pub open spec fn holds_name(names: Seq<String>, name: Seq<char>) -> bool {
    exists|i: int| 0 <= i < names.len() && (#[trigger] names[i])@ == name
}

/// The repository indicator.
pub open spec fn with_repo_indicator(out: OutputModel, config: Config) -> OutputModel {
    out.write(config.repo_indicator@).delimited()
}

/// The warning that the branch tracks no upstream.
pub open spec fn with_no_tracked_upstream_indicator(
    out: OutputModel,
    config: Config,
    state: RepoSnapshot,
) -> OutputModel {
    if state.remote_tracking_branch.len() == 0 {
        out.tag(config.no_tracked_upstream_string).delimited().tag(
            config.no_tracked_upstream_indicator,
        ).delimited()
    } else {
        out
    }
}

/// The commits that set the tracked branch apart from the merge target.
pub open spec fn with_merge_branch_commits(
    out: OutputModel,
    config: Config,
    state: RepoSnapshot,
) -> OutputModel {
    let push = state.merge_branch_commits_to_push;
    let pull = state.merge_branch_commits_to_pull;
    let start = out.write(config.merge_branch_commits_indicator@).delimited();
    if push > 0 && pull > 0 {
        start.number(pull).tag(config.merge_branch_commits_both_pull_push).delimited().number(
            push,
        ).delimited()
    } else if pull > 0 {
        start.tag(config.merge_branch_commits_only_pull).delimited().number(pull).delimited()
    } else if push > 0 {
        start.tag(config.merge_branch_commits_only_push).delimited().number(push).delimited()
    } else {
        out
    }
}

/// The name the head goes by: the branch; on a detached head the tag, or the
/// abbreviated commit id where there is no tag, behind the prefix for
/// detached heads.
pub open spec fn with_local_branch_name(
    out: OutputModel,
    config: Config,
    state: RepoSnapshot,
) -> OutputModel {
    let start = out.write(config.local_branch_name_prefix@);
    let name = if state.local_branch.len() > 0 {
        start.colored(config.local_branch_color, state.local_branch)
    } else if state.commit_tag.len() > 0 {
        start.colored(config.local_detached_color, config.local_detached_prefix@ + state.commit_tag)
    } else {
        start.colored(
            config.local_detached_color,
            config.local_detached_prefix@ + state.commit_short_sha,
        )
    };
    name.write(config.local_branch_name_suffix@).delimited()
}

/// The commits to pull and to push.
pub open spec fn with_local_commits(
    out: OutputModel,
    config: Config,
    state: RepoSnapshot,
) -> OutputModel {
    let push = state.commits_to_push;
    let pull = state.commits_to_pull;
    if push > 0 && pull > 0 {
        out.number(pull).tag(config.local_commits_push_pull_infix).number(push).delimited()
    } else if pull > 0 {
        out.number(pull).tag(config.local_commits_pull_suffix).delimited()
    } else if push > 0 {
        out.number(push).tag(config.local_commits_push_suffix).delimited()
    } else {
        out
    }
}

/// A count and its tag; nothing for a count of zero.
pub open spec fn with_state_elem(out: OutputModel, count: nat, tag: ColoredTag) -> OutputModel {
    if count > 0 {
        out.number(count).tag(tag)
    } else {
        out
    }
}

/// The pending changes, in four groups: staged, unstaged, untracked and
/// conflicting.
pub open spec fn with_repo_state(
    out: OutputModel,
    config: Config,
    state: RepoSnapshot,
) -> OutputModel {
    let changes = state.changes;
    let staged = with_state_elem(
        with_state_elem(
            with_state_elem(
                with_state_elem(out, changes.index_add, config.change_index_add_suffix),
                changes.index_del,
                config.change_index_del_suffix,
            ),
            changes.index_mod,
            config.change_index_mod_suffix,
        ),
        changes.renamed,
        config.change_renamed_suffix,
    ).delimited();
    let unstaged = with_state_elem(
        with_state_elem(staged, changes.local_del, config.change_local_del_suffix),
        changes.local_mod,
        config.change_local_mod_suffix,
    ).delimited();
    let untracked = with_state_elem(
        unstaged,
        changes.local_add,
        config.change_local_add_suffix,
    ).delimited();
    with_state_elem(untracked, changes.conflict, config.change_conflicted_suffix).delimited()
}

/// The stashes.
pub open spec fn with_stashes(
    out: OutputModel,
    config: Config,
    state: RepoSnapshot,
) -> OutputModel {
    with_state_elem(out, state.stash_count, config.stash_suffix)
}

/// Whether the comparison with the merge target is shown: it is switched on,
/// and the branch is not among those it is left out for.
pub open spec fn shows_merge_branch(config: Config, state: RepoSnapshot) -> bool {
    config.parts.show_merge_branch_commits_diff && !holds_name(
        config.merge_branch_ignore_branches@,
        state.local_branch,
    )
}

/// The line of a prompt: a switch to the default color, then each part that
/// is switched on, in order.
pub open spec fn prompt_line(shell: Shell, config: Config, state: RepoSnapshot) -> OutputModel {
    let reset = (OutputModel { shell: shell, text: Seq::empty(), delimiter: false }).end_color();
    let indicator = if config.parts.show_repo_indicator {
        with_repo_indicator(reset, config)
    } else {
        reset
    };
    let merge = if shows_merge_branch(config, state) {
        with_merge_branch_commits(
            with_no_tracked_upstream_indicator(indicator, config, state),
            config,
            state,
        )
    } else {
        indicator
    };
    let branch = if config.parts.show_local_branch {
        with_local_branch_name(merge, config, state)
    } else {
        merge
    };
    let commits = if config.parts.show_commits_to_origin {
        with_local_commits(branch, config, state)
    } else {
        branch
    };
    let changes = if config.parts.show_local_changes_state {
        with_repo_state(commits, config, state)
    } else {
        commits
    };
    if config.parts.show_stashes {
        with_stashes(changes, config, state)
    } else {
        changes
    }
}

/// A snapshot together with the shell and the configuration to show it with.
pub struct Prompt {
    pub shell: Shell,
    pub config: Config,
    pub repo_state: GitRepoState,
}

impl Prompt {
    /// A prompt for a snapshot.
    pub fn new(shell: Shell, config: Config, repo_state: GitRepoState) -> (prompt: Prompt)
        ensures
            prompt.shell == shell,
            prompt.config == config,
            prompt.repo_state == repo_state,
    {
        Self { shell, config, repo_state }
    }

    /// Writes the repository indicator.
    pub fn add_repo_indicator(&self, output: &mut TerminalOutput)
        ensures
            final(output)@ == with_repo_indicator(old(output)@, self.config),
    {
        output.write_str(self.config.repo_indicator.as_str());
        output.add_delimter();
    }

    /// Writes the warning that the branch tracks no upstream, if it tracks
    /// none.
    pub fn add_no_tracked_upstream_indicator(&self, output: &mut TerminalOutput)
        ensures
            final(output)@ == with_no_tracked_upstream_indicator(
                old(output)@,
                self.config,
                self.repo_state@,
            ),
    {
        if self.repo_state.remote_tracking_branch.as_str().is_empty() {
            output.colored_tag(&self.config.no_tracked_upstream_string);
            output.add_delimter();
            output.colored_tag(&self.config.no_tracked_upstream_indicator);
            output.add_delimter();
        }
    }

    /// Writes the commits that set the tracked branch apart from the merge
    /// target, if there are any.
    pub fn add_merge_branch_commits(&self, output: &mut TerminalOutput)
        ensures
            final(output)@ == with_merge_branch_commits(
                old(output)@,
                self.config,
                self.repo_state@,
            ),
    {
        let push: usize = self.repo_state.merge_branch_commits_to_push;
        let pull: usize = self.repo_state.merge_branch_commits_to_pull;

        if push > 0 && pull > 0 {
            output.write_str(self.config.merge_branch_commits_indicator.as_str());
            output.add_delimter();
            output.write_number(pull);
            output.colored_tag(&self.config.merge_branch_commits_both_pull_push);
            output.add_delimter();
            output.write_number(push);
            output.add_delimter();
        } else if pull > 0 {
            output.write_str(self.config.merge_branch_commits_indicator.as_str());
            output.add_delimter();
            output.colored_tag(&self.config.merge_branch_commits_only_pull);
            output.add_delimter();
            output.write_number(pull);
            output.add_delimter();
        } else if push > 0 {
            output.write_str(self.config.merge_branch_commits_indicator.as_str());
            output.add_delimter();
            output.colored_tag(&self.config.merge_branch_commits_only_push);
            output.add_delimter();
            output.write_number(push);
            output.add_delimter();
        }
    }

    /// Writes the name the head goes by.
    pub fn add_local_branch_name(&self, output: &mut TerminalOutput)
        ensures
            final(output)@ == with_local_branch_name(old(output)@, self.config, self.repo_state@),
    {
        output.write_str(self.config.local_branch_name_prefix.as_str());

        if !self.repo_state.local_branch.as_str().is_empty() {
            output.string_in_color(
                self.config.local_branch_color,
                self.repo_state.local_branch.as_str(),
            );
        } else if !self.repo_state.commit_tag.as_str().is_empty() {
            let name = join(
                self.config.local_detached_prefix.as_str(),
                self.repo_state.commit_tag.as_str(),
            );
            output.string_in_color(self.config.local_detached_color, name.as_str());
        } else {
            let name = join(
                self.config.local_detached_prefix.as_str(),
                self.repo_state.commit_short_sha.as_str(),
            );
            output.string_in_color(self.config.local_detached_color, name.as_str());
        }

        output.write_str(self.config.local_branch_name_suffix.as_str());
        output.add_delimter();
    }

    /// Writes the commits to pull and to push, if there are any.
    pub fn add_local_commits(&self, output: &mut TerminalOutput)
        ensures
            final(output)@ == with_local_commits(old(output)@, self.config, self.repo_state@),
    {
        let push: usize = self.repo_state.commits_to_push;
        let pull: usize = self.repo_state.commits_to_pull;

        if push > 0 && pull > 0 {
            output.write_number(pull);
            output.colored_tag(&self.config.local_commits_push_pull_infix);
            output.write_number(push);
            output.add_delimter();
        } else if pull > 0 {
            output.write_number(pull);
            output.colored_tag(&self.config.local_commits_pull_suffix);
            output.add_delimter();
        } else if push > 0 {
            output.write_number(push);
            output.colored_tag(&self.config.local_commits_push_suffix);
            output.add_delimter();
        }
    }

    /// Writes the pending changes.
    pub fn add_repo_state(&self, output: &mut TerminalOutput)
        ensures
            final(output)@ == with_repo_state(old(output)@, self.config, self.repo_state@),
    {
        let changes = &self.repo_state.git_local_repo_changes;
        add_state_elem(output, changes.index_add, &self.config.change_index_add_suffix);
        add_state_elem(output, changes.index_del, &self.config.change_index_del_suffix);
        add_state_elem(output, changes.index_mod, &self.config.change_index_mod_suffix);
        add_state_elem(output, changes.renamed, &self.config.change_renamed_suffix);
        output.add_delimter();

        add_state_elem(output, changes.local_del, &self.config.change_local_del_suffix);
        add_state_elem(output, changes.local_mod, &self.config.change_local_mod_suffix);
        output.add_delimter();

        add_state_elem(output, changes.local_add, &self.config.change_local_add_suffix);
        output.add_delimter();

        add_state_elem(output, changes.conflict, &self.config.change_conflicted_suffix);
        output.add_delimter();
    }

    /// Writes the stashes, if there are any.
    pub fn add_stashes(&self, output: &mut TerminalOutput)
        ensures
            final(output)@ == with_stashes(old(output)@, self.config, self.repo_state@),
    {
        add_state_elem(output, self.repo_state.stash_count, &self.config.stash_suffix);
    }

    /// Tells whether the comparison with the merge target is shown.
    pub fn show_merge_branch_indicator(&self) -> (shown: bool)
        ensures
            shown == shows_merge_branch(self.config, self.repo_state@),
    {
        if !self.config.parts.show_merge_branch_commits_diff {
            return false;
        }
        let names = &self.config.merge_branch_ignore_branches;
        let mut i: usize = 0;
        while i < names.len()
            invariant
                names@ == self.config.merge_branch_ignore_branches@,
                self.config.parts.show_merge_branch_commits_diff,
                i <= names@.len(),
                forall|j: int|
                    0 <= j < i ==> (#[trigger] names@[j])@ != self.repo_state.local_branch@,
            decreases names@.len() - i,
        {
            if names[i] == self.repo_state.local_branch {
                assert(names@[i as int]@ == self.repo_state@.local_branch);
                return false;
            }
            i += 1;
        }
        true
    }

    /// The prompt as a line of text.
    pub fn render(&self) -> (line: String)
        ensures
            line@ == prompt_line(self.shell, self.config, self.repo_state@).text,
    {
        let mut output = TerminalOutput::new(self.shell, String::new());

        output.end_color_marker();
        if self.config.parts.show_repo_indicator {
            self.add_repo_indicator(&mut output);
        }
        if self.show_merge_branch_indicator() {
            self.add_no_tracked_upstream_indicator(&mut output);
            self.add_merge_branch_commits(&mut output);
        }
        if self.config.parts.show_local_branch {
            self.add_local_branch_name(&mut output);
        }
        if self.config.parts.show_commits_to_origin {
            self.add_local_commits(&mut output);
        }
        if self.config.parts.show_local_changes_state {
            self.add_repo_state(&mut output);
        }
        if self.config.parts.show_stashes {
            self.add_stashes(&mut output);
        }
        output.into_string()
    }
}

/// Writes a count and its tag; nothing for a count of zero.
pub fn add_state_elem(output: &mut TerminalOutput, state_elem: usize, colored_tag: &ColoredTag)
    ensures
        final(output)@ == with_state_elem(old(output)@, state_elem as nat, *colored_tag),
{
    if state_elem > 0 {
        output.write_number(state_elem);
        output.colored_tag(colored_tag);
    }
}

} // verus!
