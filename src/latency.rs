//! The colours a configuration can give to latencies in log lines.
use vstd::prelude::*;

use crate::targets::{ascii_lower_seq, lower_equals};

verus! {

/// One of the sixteen ANSI terminal colours.
#[derive(Debug, Clone, Copy, PartialEq, Eq, Structural)]
pub enum LatencyColour {
    Black,
    Red,
    Green,
    Yellow,
    Blue,
    Magenta,
    Cyan,
    White,
    BrightBlack,
    BrightRed,
    BrightGreen,
    BrightYellow,
    BrightBlue,
    BrightMagenta,
    BrightCyan,
    BrightWhite,
}

/// The colour a configuration names, in any ASCII case; `purple`, `teal`,
/// `gray` and `grey` are other names of magenta, cyan and bright black, and
/// the bright colours take `_` or `-` after `bright`.
pub open spec fn colour_from_name(s: Seq<char>) -> Option<LatencyColour> {
    let l = ascii_lower_seq(s);
    if l == "black"@ {
        Some(LatencyColour::Black)
    } else if l == "red"@ {
        Some(LatencyColour::Red)
    } else if l == "green"@ {
        Some(LatencyColour::Green)
    } else if l == "yellow"@ {
        Some(LatencyColour::Yellow)
    } else if l == "blue"@ {
        Some(LatencyColour::Blue)
    } else if l == "magenta"@ || l == "purple"@ {
        Some(LatencyColour::Magenta)
    } else if l == "cyan"@ || l == "teal"@ {
        Some(LatencyColour::Cyan)
    } else if l == "white"@ {
        Some(LatencyColour::White)
    } else if l == "bright_black"@ || l == "bright-black"@ || l == "gray"@ || l == "grey"@ {
        Some(LatencyColour::BrightBlack)
    } else if l == "bright_red"@ || l == "bright-red"@ {
        Some(LatencyColour::BrightRed)
    } else if l == "bright_green"@ || l == "bright-green"@ {
        Some(LatencyColour::BrightGreen)
    } else if l == "bright_yellow"@ || l == "bright-yellow"@ {
        Some(LatencyColour::BrightYellow)
    } else if l == "bright_blue"@ || l == "bright-blue"@ {
        Some(LatencyColour::BrightBlue)
    } else if l == "bright_magenta"@ || l == "bright-magenta"@ {
        Some(LatencyColour::BrightMagenta)
    } else if l == "bright_cyan"@ || l == "bright-cyan"@ {
        Some(LatencyColour::BrightCyan)
    } else if l == "bright_white"@ || l == "bright-white"@ {
        Some(LatencyColour::BrightWhite)
    } else {
        None
    }
}

impl LatencyColour {
    /// Reads a colour name; see `colour_from_name`.
    pub fn parse(name: &str) -> (r: Option<LatencyColour>)
        ensures
            r == colour_from_name(name@),
    {
        if lower_equals(name, "black") {
            Some(LatencyColour::Black)
        } else if lower_equals(name, "red") {
            Some(LatencyColour::Red)
        } else if lower_equals(name, "green") {
            Some(LatencyColour::Green)
        } else if lower_equals(name, "yellow") {
            Some(LatencyColour::Yellow)
        } else if lower_equals(name, "blue") {
            Some(LatencyColour::Blue)
        } else if lower_equals(name, "magenta") || lower_equals(name, "purple") {
            Some(LatencyColour::Magenta)
        } else if lower_equals(name, "cyan") || lower_equals(name, "teal") {
            Some(LatencyColour::Cyan)
        } else if lower_equals(name, "white") {
            Some(LatencyColour::White)
        } else if lower_equals(name, "bright_black") || lower_equals(name, "bright-black") || lower_equals(name, "gray") || lower_equals(name, "grey") {
            Some(LatencyColour::BrightBlack)
        } else if lower_equals(name, "bright_red") || lower_equals(name, "bright-red") {
            Some(LatencyColour::BrightRed)
        } else if lower_equals(name, "bright_green") || lower_equals(name, "bright-green") {
            Some(LatencyColour::BrightGreen)
        } else if lower_equals(name, "bright_yellow") || lower_equals(name, "bright-yellow") {
            Some(LatencyColour::BrightYellow)
        } else if lower_equals(name, "bright_blue") || lower_equals(name, "bright-blue") {
            Some(LatencyColour::BrightBlue)
        } else if lower_equals(name, "bright_magenta") || lower_equals(name, "bright-magenta") {
            Some(LatencyColour::BrightMagenta)
        } else if lower_equals(name, "bright_cyan") || lower_equals(name, "bright-cyan") {
            Some(LatencyColour::BrightCyan)
        } else if lower_equals(name, "bright_white") || lower_equals(name, "bright-white") {
            Some(LatencyColour::BrightWhite)
        } else {
            None
        }
    }
}

} // verus!
