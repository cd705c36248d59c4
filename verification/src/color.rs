//! The colours a terminal can show by name.

use vstd::prelude::*;
use crate::text::same_text;

verus! {

/// One of the sixteen named terminal colours.
#[derive(Clone, Copy, Debug, PartialEq, Eq, Hash, Structural)]
pub enum Color {
    Black,
    DarkGrey,
    Red,
    DarkRed,
    Green,
    DarkGreen,
    Yellow,
    DarkYellow,
    Blue,
    DarkBlue,
    Magenta,
    DarkMagenta,
    Cyan,
    DarkCyan,
    White,
    Grey,
}

/// The colour that goes by `name`, if one does. Names are in lower case;
/// the dark colours and dark grey go by two names each, with and without
/// an underscore.
pub open spec fn color_named(name: Seq<char>) -> Option<Color> {
    if name == "black"@ {
        Some(Color::Black)
    } else if name == "dark_grey"@ || name == "darkgrey"@ {
        Some(Color::DarkGrey)
    } else if name == "red"@ {
        Some(Color::Red)
    } else if name == "dark_red"@ || name == "darkred"@ {
        Some(Color::DarkRed)
    } else if name == "green"@ {
        Some(Color::Green)
    } else if name == "dark_green"@ || name == "darkgreen"@ {
        Some(Color::DarkGreen)
    } else if name == "yellow"@ {
        Some(Color::Yellow)
    } else if name == "dark_yellow"@ || name == "darkyellow"@ {
        Some(Color::DarkYellow)
    } else if name == "blue"@ {
        Some(Color::Blue)
    } else if name == "dark_blue"@ || name == "darkblue"@ {
        Some(Color::DarkBlue)
    } else if name == "magenta"@ {
        Some(Color::Magenta)
    } else if name == "dark_magenta"@ || name == "darkmagenta"@ {
        Some(Color::DarkMagenta)
    } else if name == "cyan"@ {
        Some(Color::Cyan)
    } else if name == "dark_cyan"@ || name == "darkcyan"@ {
        Some(Color::DarkCyan)
    } else if name == "white"@ {
        Some(Color::White)
    } else if name == "grey"@ {
        Some(Color::Grey)
    } else {
        None
    }
}

impl Color {
    /// The colour that goes by `name`, written in lower case: see
    /// [`color_named`].
    pub fn from_name(name: &str) -> (color: Option<Color>)
        ensures
            color == color_named(name@),
    {
        if same_text(name, "black") {
            Some(Color::Black)
        } else if same_text(name, "dark_grey") || same_text(name, "darkgrey") {
            Some(Color::DarkGrey)
        } else if same_text(name, "red") {
            Some(Color::Red)
        } else if same_text(name, "dark_red") || same_text(name, "darkred") {
            Some(Color::DarkRed)
        } else if same_text(name, "green") {
            Some(Color::Green)
        } else if same_text(name, "dark_green") || same_text(name, "darkgreen") {
            Some(Color::DarkGreen)
        } else if same_text(name, "yellow") {
            Some(Color::Yellow)
        } else if same_text(name, "dark_yellow") || same_text(name, "darkyellow") {
            Some(Color::DarkYellow)
        } else if same_text(name, "blue") {
            Some(Color::Blue)
        } else if same_text(name, "dark_blue") || same_text(name, "darkblue") {
            Some(Color::DarkBlue)
        } else if same_text(name, "magenta") {
            Some(Color::Magenta)
        } else if same_text(name, "dark_magenta") || same_text(name, "darkmagenta") {
            Some(Color::DarkMagenta)
        } else if same_text(name, "cyan") {
            Some(Color::Cyan)
        } else if same_text(name, "dark_cyan") || same_text(name, "darkcyan") {
            Some(Color::DarkCyan)
        } else if same_text(name, "white") {
            Some(Color::White)
        } else if same_text(name, "grey") {
            Some(Color::Grey)
        } else {
            None
        }
    }
}

} // verus!
