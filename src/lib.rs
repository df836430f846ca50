//! Styling and cursor control for terminal output through ANSI escape
//! sequences.
//!
//! A [`Style`] collects at most one text attribute, one foreground color and
//! one background color for a piece of text and renders them as a single SGR
//! sequence. [`Term`] builds the sequences that scroll, clear the screen or a
//! line, show or hide the cursor and move it.

pub mod decimal;
pub mod sgr;
pub mod style;
pub mod term;

pub use sgr::{Attr, Bg, Fg};
pub use style::Style;
pub use term::{CenterError, Term};

use vstd::prelude::*;

verus! {

/// Control sequence introducer.
pub const CSI: &'static str = "\x1b[";

/// The characters of [`CSI`]: escape, then `[`.
pub open spec fn csi() -> Seq<char> {
    seq!['\x1b', '[']
}

/// A new string that holds [`CSI`].
pub(crate) fn csi_string() -> (r: String)
    ensures
        r@ == csi(),
{
    proof {
        reveal_strlit("\x1b[");
    }
    String::from_str(CSI)
}

} // verus!
