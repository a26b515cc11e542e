//! The rendering of a snapshot as one line of a shell prompt.

use crate::terminal::types::{
    terminal_code, terminal_reset_code, tmux_code, tmux_reset_code, Color, Shell,
};
use vstd::prelude::*;

pub mod output;
pub mod prompt;
pub mod types;

verus! {

/// A marker wrapped so that the shell does not count its characters when it
/// measures the prompt: between `%{` and `%}` for zsh, between the control
/// characters 1 and 2 for bash, as it is for the others.
pub open spec fn shell_marked(shell: Shell, marker: Seq<char>) -> Seq<char> {
    match shell {
        Shell::Zsh => seq!['%', '{'] + marker + seq!['%', '}'],
        Shell::Bash => seq!['\x01'] + marker + seq!['\x02'],
        _ => marker,
    }
}

/// What switches the output to a color.
pub open spec fn start_marker(shell: Shell, color: Color) -> Seq<char> {
    match shell {
        Shell::Tmux => tmux_code(color),
        Shell::Plain => Seq::empty(),
        _ => shell_marked(shell, terminal_code(color)),
    }
}

/// What switches the output back to the default color.
pub open spec fn end_marker(shell: Shell) -> Seq<char> {
    match shell {
        Shell::Tmux => tmux_reset_code(),
        Shell::Plain => Seq::empty(),
        _ => shell_marked(shell, terminal_reset_code()),
    }
}

/// A text between the markers that show it in a color.
pub open spec fn in_color(shell: Shell, color: Color, text: Seq<char>) -> Seq<char> {
    start_marker(shell, color) + text + end_marker(shell)
}

/// A text in a color, for a shell.
pub fn tell_string_in_color(shell: Shell, color: Color, str: &str) -> (colored: String)
    ensures
        colored@ == in_color(shell, color, str@),
{
    let mut colored = start_color_marker(shell, color);
    colored.append(str);
    let end = end_color_marker(shell);
    colored.append(end.as_str());
    colored
}

/// What switches the output of a shell to a color.
pub fn start_color_marker(shell: Shell, color: Color) -> (marker: String)
    ensures
        marker@ == start_marker(shell, color),
{
    match shell {
        Shell::Tmux => String::from_str(color.tmux_start_code()),
        Shell::Plain => String::new(),
        _ => apply_shell_markers(shell, color.terminal_start_code()),
    }
}

/// What switches the output of a shell back to the default color.
pub fn end_color_marker(shell: Shell) -> (marker: String)
    ensures
        marker@ == end_marker(shell),
{
    proof {
        reveal_strlit("\x1b[0;39m");
        assert("\x1b[0;39m"@ =~= terminal_reset_code());
    }
    match shell {
        Shell::Tmux => String::from_str("#[fg=default]"),
        Shell::Plain => String::new(),
        _ => apply_shell_markers(shell, "\x1b[0;39m"),
    }
}

/// Wraps a marker for a shell.
pub fn apply_shell_markers(shell: Shell, marker: &str) -> (marked: String)
    ensures
        marked@ == shell_marked(shell, marker@),
{
    proof {
        reveal_strlit("%{");
        reveal_strlit("%}");
        reveal_strlit("\x01");
        reveal_strlit("\x02");
        assert("%{"@ =~= seq!['%', '{']);
        assert("%}"@ =~= seq!['%', '}']);
        assert("\x01"@ =~= seq!['\x01']);
        assert("\x02"@ =~= seq!['\x02']);
    }
    match shell {
        Shell::Zsh => {
            let mut marked = String::from_str("%{");
            marked.append(marker);
            marked.append("%}");
            marked
        },
        Shell::Bash => {
            let mut marked = String::from_str("\x01");
            marked.append(marker);
            marked.append("\x02");
            marked
        },
        _ => String::from_str(marker),
    }
}

} // verus!
