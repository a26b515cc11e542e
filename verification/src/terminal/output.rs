//! The line under construction.
//!
//! The parts of a prompt are set apart by single spaces. A part does not know
//! whether another one follows, so it only asks for a delimiter behind it; the
//! space is written when the next thing is, and never at the end of the line.

use crate::terminal::types::{terminal_reset_code, Color, ColoredTag, Shell};
use crate::terminal::{end_marker, shell_marked, start_marker};
use crate::text::{decimal, push_decimal};
use vstd::prelude::*;

verus! {

/// A line under construction, as a mathematical value.
pub struct OutputModel {
    pub shell: Shell,
    pub text: Seq<char>,
    pub delimiter: bool,
}

impl OutputModel {
    /// The line with the pending delimiter, if any, written out.
    pub open spec fn flushed(self) -> OutputModel {
        if self.delimiter {
            OutputModel { text: self.text.push(' '), delimiter: false, ..self }
        } else {
            self
        }
    }

    /// The line with a text appended as it is.
    pub open spec fn raw(self, s: Seq<char>) -> OutputModel {
        OutputModel { text: self.text + s, ..self }
    }

    /// The line after a text was written: the pending delimiter, then the
    /// text.
    pub open spec fn write(self, s: Seq<char>) -> OutputModel {
        self.flushed().raw(s)
    }

    /// The line after a number was written in decimal notation.
    pub open spec fn number(self, n: nat) -> OutputModel {
        self.write(decimal(n))
    }

    /// The line after a marker was written, wrapped for the shell.
    pub open spec fn marked(self, marker: Seq<char>) -> OutputModel {
        self.raw(shell_marked(self.shell, marker))
    }

    /// The line after the switch to a color.
    pub open spec fn start_color(self, color: Color) -> OutputModel {
        self.flushed().raw(start_marker(self.shell, color))
    }

    /// The line after the switch back to the default color.
    pub open spec fn end_color(self) -> OutputModel {
        self.flushed().raw(end_marker(self.shell))
    }

    /// The line after a text was written in a color.
    pub open spec fn colored(self, color: Color, s: Seq<char>) -> OutputModel {
        self.start_color(color).raw(s).end_color()
    }

    /// The line after a tag was written in its color.
    pub open spec fn tag(self, tag: ColoredTag) -> OutputModel {
        self.colored(tag.color, tag.tag@)
    }

    /// The line with a delimiter asked for.
    pub open spec fn delimited(self) -> OutputModel {
        OutputModel { delimiter: true, ..self }
    }
}

/// A line under construction for a shell.
pub struct TerminalOutput {
    shell: Shell,
    writer: String,
    add_delimiter: bool,
}

impl View for TerminalOutput {
    type V = OutputModel;

    closed spec fn view(&self) -> OutputModel {
        OutputModel { shell: self.shell, text: self.writer@, delimiter: self.add_delimiter }
    }
}

impl TerminalOutput {
    /// Starts a line for a shell, behind what `writer` already holds.
    pub fn new(shell: Shell, writer: String) -> (output: Self)
        ensures
            output@ == (OutputModel { shell: shell, text: writer@, delimiter: false }),
    {
        Self { shell, writer, add_delimiter: false }
    }

    /// Writes a text in a color.
    pub fn string_in_color(&mut self, color: Color, str: &str)
        ensures
            final(self)@ == old(self)@.colored(color, str@),
    {
        self.start_color_marker(color);
        self.writer.append(str);
        self.end_color_marker();
    }

    /// Writes a tag in its color.
    pub fn colored_tag(&mut self, tag: &ColoredTag)
        ensures
            final(self)@ == old(self)@.tag(*tag),
    {
        self.string_in_color(tag.color, tag.tag.as_str());
    }

    /// Switches to a color.
    pub fn start_color_marker(&mut self, color: Color)
        ensures
            final(self)@ == old(self)@.start_color(color),
    {
        self.flush_delimiter();
        match self.shell {
            Shell::Tmux => self.writer.append(color.tmux_start_code()),
            Shell::Plain => {
                assert(self.writer@ + Seq::<char>::empty() =~= self.writer@);
            },
            _ => self.apply_shell_markers(color.terminal_start_code()),
        }
    }

    /// Switches back to the default color.
    pub fn end_color_marker(&mut self)
        ensures
            final(self)@ == old(self)@.end_color(),
    {
        self.flush_delimiter();
        proof {
            reveal_strlit("\x1b[0;39m");
            assert("\x1b[0;39m"@ =~= terminal_reset_code());
        }
        match self.shell {
            Shell::Tmux => self.writer.append("#[fg=default]"),
            Shell::Plain => {
                assert(self.writer@ + Seq::<char>::empty() =~= self.writer@);
            },
            _ => self.apply_shell_markers("\x1b[0;39m"),
        }
    }

    /// Asks for a space before whatever is written next.
    pub fn add_delimter(&mut self)
        ensures
            final(self)@ == old(self)@.delimited(),
    {
        self.add_delimiter = true;
    }

    /// Writes a text, behind the delimiter if one was asked for.
    pub fn write_str(&mut self, s: &str)
        ensures
            final(self)@ == old(self)@.write(s@),
    {
        self.flush_delimiter();
        self.writer.append(s);
    }

    /// Writes a number in decimal notation, behind the delimiter if one was
    /// asked for.
    pub fn write_number(&mut self, n: usize)
        ensures
            final(self)@ == old(self)@.number(n as nat),
    {
        self.flush_delimiter();
        push_decimal(&mut self.writer, n);
    }

    /// The line as far as it was written. A delimiter that nothing followed
    /// is dropped.
    pub fn into_string(self) -> (line: String)
        ensures
            line@ == self@.text,
    {
        self.writer
    }

    /// Writes the delimiter, if one was asked for.
    fn flush_delimiter(&mut self)
        ensures
            final(self)@ == old(self)@.flushed(),
    {
        if self.add_delimiter {
            proof {
                reveal_strlit(" ");
                assert(self.writer@ + " "@ =~= self.writer@.push(' '));
            }
            self.writer.append(" ");
            self.add_delimiter = false;
        }
    }

    /// Writes a marker, wrapped for the shell.
    fn apply_shell_markers(&mut self, marker: &str)
        ensures
            final(self)@ == old(self)@.marked(marker@),
    {
        proof {
            reveal_strlit("%{");
            reveal_strlit("%}");
            reveal_strlit("\x01");
            reveal_strlit("\x02");
            assert("%{"@ =~= seq!['%', '{']);
            assert("%}"@ =~= seq!['%', '}']);
            assert("\x01"@ =~= seq!['\x01']);
            assert("\x02"@ =~= seq!['\x02']);
        }
        match self.shell {
            Shell::Zsh => {
                self.writer.append("%{");
                self.writer.append(marker);
                self.writer.append("%}");
            },
            Shell::Bash => {
                self.writer.append("\x01");
                self.writer.append(marker);
                self.writer.append("\x02");
            },
            _ => self.writer.append(marker),
        }
        assert(self.writer@ =~= old(self).writer@ + shell_marked(self.shell, marker@));
    }
}

} // verus!
