//! Spinner styling: the tick characters of each preset. The progress bars
//! themselves are drawn outside the library; the presets' contents are
//! pinned here.

use vstd::prelude::*;

verus! {

/// The spinner presets.
#[derive(Debug, Clone, Copy, PartialEq, Eq, Structural)]
pub enum SpinnerStyle {
    Dots,
    Braille,
    Line,
    Arrow,
}

/// The tick characters of each preset.
pub open spec fn tick_chars_text(s: SpinnerStyle) -> Seq<char> {
    match s {
        SpinnerStyle::Dots => "⠋⠙⠹⠸⠼⠴⠦⠧⠇⠏"@,
        SpinnerStyle::Braille => "⣾⣽⣻⢿⡿⣟⣯⣷"@,
        SpinnerStyle::Line => "|/-\\"@,
        SpinnerStyle::Arrow => "←↖↑↗→↘↓↙"@,
    }
}

impl SpinnerStyle {
    /// The tick characters a spinner of this style runs through.
    pub fn tick_chars(&self) -> (r: &'static str)
        ensures
            r@ == tick_chars_text(*self),
    {
        match self {
            SpinnerStyle::Dots => "⠋⠙⠹⠸⠼⠴⠦⠧⠇⠏",
            SpinnerStyle::Braille => "⣾⣽⣻⢿⡿⣟⣯⣷",
            SpinnerStyle::Line => "|/-\\",
            SpinnerStyle::Arrow => "←↖↑↗→↘↓↙",
        }
    }
}

} // verus!
