//! The parameters of the SGR (select graphic rendition) sequence: one for a
//! text attribute, one for a foreground and one for a background color.

use vstd::prelude::*;

use crate::decimal::{dec, push_decimal};

verus! {

/// Text attributes.
#[derive(Clone, Copy)]
pub enum Attr {
    /// Bold text
    Bold,
    /// Faint text
    Faint,
    /// Italicized text
    Italic,
    /// Underlined text
    Underline,
    /// Invert text colors
    Invert,
    /// Strike out text
    Strike,
    /// Hide text
    Hide,
}

/// Foreground colors.
#[derive(Clone, Copy)]
pub enum Fg {
    /// Black
    Black,
    /// Red
    Red,
    /// Green
    Green,
    /// Yellow
    Yellow,
    /// Blue
    Blue,
    /// Magenta
    Magenta,
    /// Cyan
    Cyan,
    /// White
    White,
    /// Bright black
    BrightBlack,
    /// Bright red
    BrightRed,
    /// Bright green
    BrightGreen,
    /// Bright yellow
    BrightYellow,
    /// Bright blue
    BrightBlue,
    /// Bright magenta
    BrightMagenta,
    /// Bright cyan
    BrightCyan,
    /// Bright white
    BrightWhite,
    /// A 256-color mode color
    Color256(u8),
    /// A 24-bit RGB color
    Rgb(u8, u8, u8),
}

/// Background colors.
#[derive(Clone, Copy)]
pub enum Bg {
    /// Black
    Black,
    /// Red
    Red,
    /// Green
    Green,
    /// Yellow
    Yellow,
    /// Blue
    Blue,
    /// Magenta
    Magenta,
    /// Cyan
    Cyan,
    /// White
    White,
    /// Bright black
    BrightBlack,
    /// Bright red
    BrightRed,
    /// Bright green
    BrightGreen,
    /// Bright yellow
    BrightYellow,
    /// Bright blue
    BrightBlue,
    /// Bright magenta
    BrightMagenta,
    /// Bright cyan
    BrightCyan,
    /// Bright white
    BrightWhite,
    /// A 256-color mode color
    Color256(u8),
    /// A 24-bit RGB color
    Rgb(u8, u8, u8),
}

/// `"<mode>;5;<c>"`: the parameters that select color `c` of the 256-color
/// palette, where `mode` is `38` for the foreground and `48` for the background.
pub open spec fn indexed_color(mode: nat, c: u8) -> Seq<char> {
    dec(mode) + seq![';', '5', ';'] + dec(c as nat)
}

/// `"<mode>;2;<r>;<g>;<b>"`: the parameters that select a 24-bit color.
pub open spec fn rgb_color(mode: nat, r: u8, g: u8, b: u8) -> Seq<char> {
    dec(mode) + seq![';', '2', ';'] + dec(r as nat) + seq![';'] + dec(g as nat) + seq![';']
        + dec(b as nat)
}

/// Appends `"<mode>;5;<c>"` to `out`.
fn push_indexed(out: &mut String, mode: u8, c: u8)
    ensures
        final(out)@ == old(out)@ + indexed_color(mode as nat, c),
{
    proof {
        reveal_strlit(";5;");
    }
    push_decimal(out, mode);
    out.append(";5;");
    push_decimal(out, c);
    assert(out@ =~= old(out)@ + indexed_color(mode as nat, c));
}

/// Appends `"<mode>;2;<r>;<g>;<b>"` to `out`.
fn push_rgb(out: &mut String, mode: u8, r: u8, g: u8, b: u8)
    ensures
        final(out)@ == old(out)@ + rgb_color(mode as nat, r, g, b),
{
    proof {
        reveal_strlit(";2;");
        reveal_strlit(";");
    }
    push_decimal(out, mode);
    out.append(";2;");
    push_decimal(out, r);
    out.append(";");
    push_decimal(out, g);
    out.append(";");
    push_decimal(out, b);
    assert(out@ =~= old(out)@ + rgb_color(mode as nat, r, g, b));
}

impl Attr {
    /// The SGR parameter of the attribute.
    pub open spec fn number(self) -> nat {
        match self {
            Attr::Bold => 1,
            Attr::Faint => 2,
            Attr::Italic => 3,
            Attr::Underline => 4,
            Attr::Invert => 7,
            Attr::Hide => 8,
            Attr::Strike => 9,
        }
    }

    /// The attribute's part of an SGR sequence.
    pub open spec fn code(self) -> Seq<char> {
        dec(self.number())
    }

    /// Appends the attribute's code to `out`.
    pub fn push_code(&self, out: &mut String)
        ensures
            final(out)@ == old(out)@ + self.code(),
    {
        let n: u8 = match *self {
            Attr::Bold => 1,
            Attr::Faint => 2,
            Attr::Italic => 3,
            Attr::Underline => 4,
            Attr::Invert => 7,
            Attr::Hide => 8,
            Attr::Strike => 9,
        };
        push_decimal(out, n);
    }
}

impl Fg {
    /// Whether the color is one of the sixteen named ones.
    pub open spec fn is_named(self) -> bool {
        !(self is Color256) && !(self is Rgb)
    }

    /// The SGR parameter of a named color: 30 to 37, and 90 to 97 for the
    /// bright variants, in the order black, red, green, yellow, blue, magenta,
    /// cyan, white.
    pub open spec fn number(self) -> nat {
        match self {
            Fg::Black => 30,
            Fg::Red => 31,
            Fg::Green => 32,
            Fg::Yellow => 33,
            Fg::Blue => 34,
            Fg::Magenta => 35,
            Fg::Cyan => 36,
            Fg::White => 37,
            Fg::BrightBlack => 90,
            Fg::BrightRed => 91,
            Fg::BrightGreen => 92,
            Fg::BrightYellow => 93,
            Fg::BrightBlue => 94,
            Fg::BrightMagenta => 95,
            Fg::BrightCyan => 96,
            Fg::BrightWhite => 97,
            _ => 0,
        }
    }

    /// The color's part of an SGR sequence.
    pub open spec fn code(self) -> Seq<char> {
        match self {
            Fg::Color256(c) => indexed_color(38, c),
            Fg::Rgb(r, g, b) => rgb_color(38, r, g, b),
            _ => dec(self.number()),
        }
    }

    /// Appends the color's code to `out`.
    pub fn push_code(&self, out: &mut String)
        ensures
            final(out)@ == old(out)@ + self.code(),
    {
        let n: u8 = match *self {
            Fg::Black => 30,
            Fg::Red => 31,
            Fg::Green => 32,
            Fg::Yellow => 33,
            Fg::Blue => 34,
            Fg::Magenta => 35,
            Fg::Cyan => 36,
            Fg::White => 37,
            Fg::BrightBlack => 90,
            Fg::BrightRed => 91,
            Fg::BrightGreen => 92,
            Fg::BrightYellow => 93,
            Fg::BrightBlue => 94,
            Fg::BrightMagenta => 95,
            Fg::BrightCyan => 96,
            Fg::BrightWhite => 97,
            Fg::Color256(c) => {
                push_indexed(out, 38, c);
                return;
            },
            Fg::Rgb(r, g, b) => {
                push_rgb(out, 38, r, g, b);
                return;
            },
        };
        push_decimal(out, n);
    }
}

impl Bg {
    /// Whether the color is one of the sixteen named ones.
    pub open spec fn is_named(self) -> bool {
        !(self is Color256) && !(self is Rgb)
    }

    /// The SGR parameter of a named color: 40 to 47, and 100 to 107 for the
    /// bright variants, in the order black, red, green, yellow, blue, magenta,
    /// cyan, white.
    pub open spec fn number(self) -> nat {
        match self {
            Bg::Black => 40,
            Bg::Red => 41,
            Bg::Green => 42,
            Bg::Yellow => 43,
            Bg::Blue => 44,
            Bg::Magenta => 45,
            Bg::Cyan => 46,
            Bg::White => 47,
            Bg::BrightBlack => 100,
            Bg::BrightRed => 101,
            Bg::BrightGreen => 102,
            Bg::BrightYellow => 103,
            Bg::BrightBlue => 104,
            Bg::BrightMagenta => 105,
            Bg::BrightCyan => 106,
            Bg::BrightWhite => 107,
            _ => 0,
        }
    }

    /// The color's part of an SGR sequence.
    pub open spec fn code(self) -> Seq<char> {
        match self {
            Bg::Color256(c) => indexed_color(48, c),
            Bg::Rgb(r, g, b) => rgb_color(48, r, g, b),
            _ => dec(self.number()),
        }
    }

    /// Appends the color's code to `out`.
    pub fn push_code(&self, out: &mut String)
        ensures
            final(out)@ == old(out)@ + self.code(),
    {
        let n: u8 = match *self {
            Bg::Black => 40,
            Bg::Red => 41,
            Bg::Green => 42,
            Bg::Yellow => 43,
            Bg::Blue => 44,
            Bg::Magenta => 45,
            Bg::Cyan => 46,
            Bg::White => 47,
            Bg::BrightBlack => 100,
            Bg::BrightRed => 101,
            Bg::BrightGreen => 102,
            Bg::BrightYellow => 103,
            Bg::BrightBlue => 104,
            Bg::BrightMagenta => 105,
            Bg::BrightCyan => 106,
            Bg::BrightWhite => 107,
            Bg::Color256(c) => {
                push_indexed(out, 48, c);
                return;
            },
            Bg::Rgb(r, g, b) => {
                push_rgb(out, 48, r, g, b);
                return;
            },
        };
        push_decimal(out, n);
    }
}

} // verus!
