//! Colors, colored tags and the shells a prompt is rendered for.

use vstd::prelude::*;

verus! {

/// The eight colors of a terminal, and the terminal's own default.
#[derive(Debug, Clone, Copy, PartialEq, Eq, Structural)]
pub enum BaseColor {
    Black,
    Red,
    Green,
    Yellow,
    Blue,
    Magenta,
    Cyan,
    White,
    NoColor,
}

/// Whether a color is shown in its plain or in its bright variant.
#[derive(Debug, Clone, Copy, PartialEq, Eq, Structural)]
pub enum ColorIntensity {
    Dull,
    Vivid,
}

/// A color and its intensity.
#[derive(Debug, Clone, Copy, PartialEq, Eq, Structural)]
pub struct Color {
    pub color: BaseColor,
    pub intensity: ColorIntensity,
}

/// A short text and the color to show it in.
#[derive(Debug, Clone, PartialEq, Eq)]
pub struct ColoredTag {
    pub color: Color,
    pub tag: String,
}

/// The program that will show the prompt. Each has its own way to mark
/// characters that take no room on the line; `Plain` stands for no shell at
/// all: text without colors.
#[derive(Debug, Clone, Copy, PartialEq, Eq, Structural)]
pub enum Shell {
    Bash,
    Zsh,
    Tmux,
    Plain,
    Other,
}

/// The digit that selects a color in an escape sequence.
pub open spec fn color_digit(color: BaseColor) -> char {
    match color {
        BaseColor::Black => '0',
        BaseColor::Red => '1',
        BaseColor::Green => '2',
        BaseColor::Yellow => '3',
        BaseColor::Blue => '4',
        BaseColor::Magenta => '5',
        BaseColor::Cyan => '6',
        BaseColor::White => '7',
        BaseColor::NoColor => '9',
    }
}

/// The name of a color in tmux.
pub open spec fn color_name(color: BaseColor) -> Seq<char> {
    match color {
        BaseColor::Black => "black"@,
        BaseColor::Red => "red"@,
        BaseColor::Green => "green"@,
        BaseColor::Yellow => "yellow"@,
        BaseColor::Blue => "blue"@,
        BaseColor::Magenta => "magenta"@,
        BaseColor::Cyan => "cyan"@,
        BaseColor::White => "white"@,
        BaseColor::NoColor => "default"@,
    }
}

/// The escape character.
pub open spec fn escape() -> char {
    '\x1b'
}

/// The escape sequence that switches back to the default color.
pub open spec fn terminal_reset_code() -> Seq<char> {
    seq![escape(), '[', '0', ';', '3', '9', 'm']
}

/// The escape sequence that switches a terminal to a color: the bold
/// attribute for a vivid color, then the foreground color.
pub open spec fn terminal_code(color: Color) -> Seq<char> {
    match (color.color, color.intensity) {
        (BaseColor::NoColor, _) => terminal_reset_code(),
        (base, ColorIntensity::Vivid) => seq![escape(), '[', '1', ';', '3', color_digit(base), 'm'],
        (base, ColorIntensity::Dull) => seq![escape(), '[', '3', color_digit(base), 'm'],
    }
}

/// The style that returns tmux to its default color.
pub open spec fn tmux_reset_code() -> Seq<char> {
    "#[fg=default]"@
}

/// The style that switches tmux to a color: the name of the color, with
/// `bright` before it for a vivid one.
pub open spec fn tmux_code(color: Color) -> Seq<char> {
    match (color.color, color.intensity) {
        (BaseColor::NoColor, _) => tmux_reset_code(),
        (base, ColorIntensity::Vivid) => "#[fg=bright"@ + color_name(base) + "]"@,
        (base, ColorIntensity::Dull) => "#[fg="@ + color_name(base) + "]"@,
    }
}

/// Reveals the texts that the tmux styles are made of.
proof fn lemma_tmux_parts()
    ensures
        "#[fg=bright"@ == seq!['#', '[', 'f', 'g', '=', 'b', 'r', 'i', 'g', 'h', 't'],
        "#[fg="@ == seq!['#', '[', 'f', 'g', '='],
        "]"@ == seq![']'],
        "black"@ == seq!['b', 'l', 'a', 'c', 'k'],
        "red"@ == seq!['r', 'e', 'd'],
        "green"@ == seq!['g', 'r', 'e', 'e', 'n'],
        "yellow"@ == seq!['y', 'e', 'l', 'l', 'o', 'w'],
        "blue"@ == seq!['b', 'l', 'u', 'e'],
        "magenta"@ == seq!['m', 'a', 'g', 'e', 'n', 't', 'a'],
        "cyan"@ == seq!['c', 'y', 'a', 'n'],
        "white"@ == seq!['w', 'h', 'i', 't', 'e'],
{
    reveal_strlit("#[fg=bright");
    reveal_strlit("#[fg=");
    reveal_strlit("]");
    reveal_strlit("black");
    reveal_strlit("red");
    reveal_strlit("green");
    reveal_strlit("yellow");
    reveal_strlit("blue");
    reveal_strlit("magenta");
    reveal_strlit("cyan");
    reveal_strlit("white");
    assert("#[fg=bright"@ =~= seq!['#', '[', 'f', 'g', '=', 'b', 'r', 'i', 'g', 'h', 't']);
    assert("#[fg="@ =~= seq!['#', '[', 'f', 'g', '=']);
    assert("]"@ =~= seq![']']);
    assert("black"@ =~= seq!['b', 'l', 'a', 'c', 'k']);
    assert("red"@ =~= seq!['r', 'e', 'd']);
    assert("green"@ =~= seq!['g', 'r', 'e', 'e', 'n']);
    assert("yellow"@ =~= seq!['y', 'e', 'l', 'l', 'o', 'w']);
    assert("blue"@ =~= seq!['b', 'l', 'u', 'e']);
    assert("magenta"@ =~= seq!['m', 'a', 'g', 'e', 'n', 't', 'a']);
    assert("cyan"@ =~= seq!['c', 'y', 'a', 'n']);
    assert("white"@ =~= seq!['w', 'h', 'i', 't', 'e']);
}

impl Color {
    /// The escape sequence that switches a terminal to this color.
    pub fn terminal_start_code(&self) -> (code: &'static str)
        ensures
            code@ == terminal_code(*self),
    {
        proof {
            reveal_strlit("\x1b[1;30m");
            reveal_strlit("\x1b[1;31m");
            reveal_strlit("\x1b[1;32m");
            reveal_strlit("\x1b[1;33m");
            reveal_strlit("\x1b[1;34m");
            reveal_strlit("\x1b[1;35m");
            reveal_strlit("\x1b[1;36m");
            reveal_strlit("\x1b[1;37m");
            reveal_strlit("\x1b[30m");
            reveal_strlit("\x1b[31m");
            reveal_strlit("\x1b[32m");
            reveal_strlit("\x1b[33m");
            reveal_strlit("\x1b[34m");
            reveal_strlit("\x1b[35m");
            reveal_strlit("\x1b[36m");
            reveal_strlit("\x1b[37m");
            reveal_strlit("\x1b[0;39m");
        }
        let code = match (self.color, self.intensity) {
            (BaseColor::Black, ColorIntensity::Vivid) => "\x1b[1;30m",
            (BaseColor::Red, ColorIntensity::Vivid) => "\x1b[1;31m",
            (BaseColor::Green, ColorIntensity::Vivid) => "\x1b[1;32m",
            (BaseColor::Yellow, ColorIntensity::Vivid) => "\x1b[1;33m",
            (BaseColor::Blue, ColorIntensity::Vivid) => "\x1b[1;34m",
            (BaseColor::Magenta, ColorIntensity::Vivid) => "\x1b[1;35m",
            (BaseColor::Cyan, ColorIntensity::Vivid) => "\x1b[1;36m",
            (BaseColor::White, ColorIntensity::Vivid) => "\x1b[1;37m",
            (BaseColor::Black, ColorIntensity::Dull) => "\x1b[30m",
            (BaseColor::Red, ColorIntensity::Dull) => "\x1b[31m",
            (BaseColor::Green, ColorIntensity::Dull) => "\x1b[32m",
            (BaseColor::Yellow, ColorIntensity::Dull) => "\x1b[33m",
            (BaseColor::Blue, ColorIntensity::Dull) => "\x1b[34m",
            (BaseColor::Magenta, ColorIntensity::Dull) => "\x1b[35m",
            (BaseColor::Cyan, ColorIntensity::Dull) => "\x1b[36m",
            (BaseColor::White, ColorIntensity::Dull) => "\x1b[37m",
            (BaseColor::NoColor, _) => "\x1b[0;39m",
        };
        assert(code@ =~= terminal_code(*self));
        code
    }

    /// The style that switches tmux to this color.
    pub fn tmux_start_code(&self) -> (code: &'static str)
        ensures
            code@ == tmux_code(*self),
    {
        proof {
            lemma_tmux_parts();
            reveal_strlit("#[fg=brightblack]");
            reveal_strlit("#[fg=brightred]");
            reveal_strlit("#[fg=brightgreen]");
            reveal_strlit("#[fg=brightyellow]");
            reveal_strlit("#[fg=brightblue]");
            reveal_strlit("#[fg=brightmagenta]");
            reveal_strlit("#[fg=brightcyan]");
            reveal_strlit("#[fg=brightwhite]");
            reveal_strlit("#[fg=black]");
            reveal_strlit("#[fg=red]");
            reveal_strlit("#[fg=green]");
            reveal_strlit("#[fg=yellow]");
            reveal_strlit("#[fg=blue]");
            reveal_strlit("#[fg=magenta]");
            reveal_strlit("#[fg=cyan]");
            reveal_strlit("#[fg=white]");
        }
        let code = match (self.color, self.intensity) {
            (BaseColor::Black, ColorIntensity::Vivid) => "#[fg=brightblack]",
            (BaseColor::Red, ColorIntensity::Vivid) => "#[fg=brightred]",
            (BaseColor::Green, ColorIntensity::Vivid) => "#[fg=brightgreen]",
            (BaseColor::Yellow, ColorIntensity::Vivid) => "#[fg=brightyellow]",
            (BaseColor::Blue, ColorIntensity::Vivid) => "#[fg=brightblue]",
            (BaseColor::Magenta, ColorIntensity::Vivid) => "#[fg=brightmagenta]",
            (BaseColor::Cyan, ColorIntensity::Vivid) => "#[fg=brightcyan]",
            (BaseColor::White, ColorIntensity::Vivid) => "#[fg=brightwhite]",
            (BaseColor::Black, ColorIntensity::Dull) => "#[fg=black]",
            (BaseColor::Red, ColorIntensity::Dull) => "#[fg=red]",
            (BaseColor::Green, ColorIntensity::Dull) => "#[fg=green]",
            (BaseColor::Yellow, ColorIntensity::Dull) => "#[fg=yellow]",
            (BaseColor::Blue, ColorIntensity::Dull) => "#[fg=blue]",
            (BaseColor::Magenta, ColorIntensity::Dull) => "#[fg=magenta]",
            (BaseColor::Cyan, ColorIntensity::Dull) => "#[fg=cyan]",
            (BaseColor::White, ColorIntensity::Dull) => "#[fg=white]",
            (BaseColor::NoColor, _) => "#[fg=default]",
        };
        assert(code@ =~= tmux_code(*self));
        code
    }
}

} // verus!
