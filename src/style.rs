//! The style builder and its serialization into one SGR sequence.

use vstd::prelude::*;

use crate::decimal::{dec, digit_char};
use crate::sgr::{Attr, Bg, Fg};
use crate::{csi, csi_string};

verus! {

/// Primary structure for building a stylized string.
///
/// Each category (attribute, foreground, background) holds at most one value:
/// a setter overwrites what an earlier call of a setter of the same category
/// put there.
#[derive(Clone, Copy)]
pub struct Style<'a> {
    /// Text attribute
    pub attr: Option<Attr>,
    /// Background color
    pub bg: Option<Bg>,
    /// Text color
    pub fg: Option<Fg>,
    /// Text to be stylized
    pub text: &'a str,
}

/// The parameters `ps` joined into one list, with a `;` between each two.
pub open spec fn join_params(ps: Seq<Seq<char>>) -> Seq<char>
    decreases ps.len(),
{
    if ps.len() == 0 {
        Seq::empty()
    } else if ps.len() == 1 {
        ps[0]
    } else {
        join_params(ps.drop_last()) + seq![';'] + ps.last()
    }
}

/// The sequence that turns every attribute and color off again.
pub open spec fn reset() -> Seq<char> {
    csi() + seq!['0', 'm']
}

/// The text `text` wrapped in the SGR sequence with parameters `params`.
pub open spec fn wrap(params: Seq<char>, text: Seq<char>) -> Seq<char> {
    csi() + params + seq!['m'] + text + reset()
}

impl<'a> Style<'a> {
    /// The codes of the fields that are set, in the order attribute,
    /// foreground, background.
    pub open spec fn codes(self) -> Seq<Seq<char>> {
        let a = match self.attr {
            Some(x) => seq![x.code()],
            None => Seq::empty(),
        };
        let f = match self.fg {
            Some(x) => seq![x.code()],
            None => Seq::empty(),
        };
        let b = match self.bg {
            Some(x) => seq![x.code()],
            None => Seq::empty(),
        };
        a + f + b
    }

    /// What the style renders as: the text wrapped in one SGR sequence whose
    /// parameters are the codes of the fields that are set, or the text
    /// unchanged when no field is set.
    pub open spec fn ansi(self) -> Seq<char> {
        if self.codes().len() == 0 {
            self.text@
        } else {
            wrap(join_params(self.codes()), self.text@)
        }
    }

    /// The attribute's share of the parameters.
    pub open spec fn attr_part(self) -> Seq<char> {
        match self.attr {
            Some(a) => a.code(),
            None => Seq::empty(),
        }
    }

    /// The foreground's share of the parameters, with the `;` that parts it
    /// from an attribute.
    pub open spec fn fg_part(self) -> Seq<char> {
        match self.fg {
            Some(f) => if self.attr is Some {
                seq![';'] + f.code()
            } else {
                f.code()
            },
            None => Seq::empty(),
        }
    }

    /// The background's share of the parameters, with the `;` that parts it
    /// from an attribute or a foreground.
    pub open spec fn bg_part(self) -> Seq<char> {
        match self.bg {
            Some(b) => if self.attr is Some || self.fg is Some {
                seq![';'] + b.code()
            } else {
                b.code()
            },
            None => Seq::empty(),
        }
    }

    /// The style of `text` with no field set.
    pub open spec fn unstyled(text: &'a str) -> Style<'a> {
        Style { attr: None, bg: None, fg: None, text }
    }

    /// What printing the style writes: nothing but the text when the text is
    /// empty, what the style renders as otherwise; then a line break when
    /// `newline` holds.
    pub open spec fn printed(self, newline: bool) -> Seq<char> {
        let body = if self.text@.len() == 0 {
            self.text@
        } else {
            self.ansi()
        };
        if newline {
            body.push('\n')
        } else {
            body
        }
    }

    /// The style with its attribute set to `a`.
    pub open spec fn with_attr(self, a: Attr) -> Style<'a> {
        Style { attr: Some(a), ..self }
    }

    /// The style with its foreground set to `f`.
    pub open spec fn with_fg(self, f: Fg) -> Style<'a> {
        Style { fg: Some(f), ..self }
    }

    /// The style with its background set to `b`.
    pub open spec fn with_bg(self, b: Bg) -> Style<'a> {
        Style { bg: Some(b), ..self }
    }
}

proof fn lemma_join_push(ps: Seq<Seq<char>>, p: Seq<char>)
    ensures
        join_params(ps.push(p)) == if ps.len() == 0 {
            p
        } else {
            join_params(ps) + seq![';'] + p
        },
{
    assert(ps.push(p).drop_last() =~= ps);
    if ps.len() == 0 {
        assert(ps.push(p)[0] == p);
    }
}

/// The parameters of a style are its attribute's, foreground's and
/// background's shares one after the other.
pub proof fn lemma_params_by_part(s: Style)
    ensures
        join_params(s.codes()) == s.attr_part() + s.fg_part() + s.bg_part(),
{
    let e = Seq::<Seq<char>>::empty();
    let a = match s.attr {
        Some(x) => e.push(x.code()),
        None => e,
    };
    let af = match s.fg {
        Some(x) => a.push(x.code()),
        None => a,
    };
    let afb = match s.bg {
        Some(x) => af.push(x.code()),
        None => af,
    };
    assert(afb =~= s.codes());
    if let Some(x) = s.attr {
        lemma_join_push(e, x.code());
    }
    assert(join_params(a) =~= s.attr_part());
    if let Some(x) = s.fg {
        lemma_join_push(a, x.code());
    }
    assert(join_params(af) =~= s.attr_part() + s.fg_part());
    if let Some(x) = s.bg {
        lemma_join_push(af, x.code());
    }
    assert(join_params(afb) =~= s.attr_part() + s.fg_part() + s.bg_part());
}

impl<'a> Style<'a> {
    /// Constructs a style with no text and no field set.
    #[must_use]
    pub fn new() -> (r: Self)
        ensures
            r.attr is None,
            r.fg is None,
            r.bg is None,
            r.text@.len() == 0,
    {
        proof {
            reveal_strlit("");
        }
        Style { attr: None, bg: None, fg: None, text: "" }
    }

    /// Constructs the text object that will be stylized, with no field set.
    #[must_use]
    pub fn this(s: &'a str) -> (r: Self)
        ensures
            r == Style::unstyled(s),
    {
        Style { text: s, ..Self::new() }
    }

    /// Makes the text bold.
    #[must_use]
    pub fn bold(&mut self) -> (r: Self)
        ensures
            *final(self) == old(self).with_attr(Attr::Bold),
            r == *final(self),
    {
        self.attr = Some(Attr::Bold);
        *self
    }

    /// Makes the text faint.
    #[must_use]
    pub fn faint(&mut self) -> (r: Self)
        ensures
            *final(self) == old(self).with_attr(Attr::Faint),
            r == *final(self),
    {
        self.attr = Some(Attr::Faint);
        *self
    }

    /// Makes the text italicized.
    #[must_use]
    pub fn italic(&mut self) -> (r: Self)
        ensures
            *final(self) == old(self).with_attr(Attr::Italic),
            r == *final(self),
    {
        self.attr = Some(Attr::Italic);
        *self
    }

    /// Makes the text underlined.
    #[must_use]
    pub fn underline(&mut self) -> (r: Self)
        ensures
            *final(self) == old(self).with_attr(Attr::Underline),
            r == *final(self),
    {
        self.attr = Some(Attr::Underline);
        *self
    }

    /// Inverts the text and background colors.
    #[must_use]
    pub fn invert(&mut self) -> (r: Self)
        ensures
            *final(self) == old(self).with_attr(Attr::Invert),
            r == *final(self),
    {
        self.attr = Some(Attr::Invert);
        *self
    }

    /// Strikes the text through.
    #[must_use]
    pub fn strike(&mut self) -> (r: Self)
        ensures
            *final(self) == old(self).with_attr(Attr::Strike),
            r == *final(self),
    {
        self.attr = Some(Attr::Strike);
        *self
    }

    /// Hides the text.
    #[must_use]
    pub fn hidden(&mut self) -> (r: Self)
        ensures
            *final(self) == old(self).with_attr(Attr::Hide),
            r == *final(self),
    {
        self.attr = Some(Attr::Hide);
        *self
    }

    /// Sets the text color to red.
    #[must_use]
    pub fn red(&mut self) -> (r: Self)
        ensures
            *final(self) == old(self).with_fg(Fg::Red),
            r == *final(self),
    {
        self.fg = Some(Fg::Red);
        *self
    }

    /// Sets the text color to green.
    #[must_use]
    pub fn green(&mut self) -> (r: Self)
        ensures
            *final(self) == old(self).with_fg(Fg::Green),
            r == *final(self),
    {
        self.fg = Some(Fg::Green);
        *self
    }

    /// Sets the text color to yellow.
    #[must_use]
    pub fn yellow(&mut self) -> (r: Self)
        ensures
            *final(self) == old(self).with_fg(Fg::Yellow),
            r == *final(self),
    {
        self.fg = Some(Fg::Yellow);
        *self
    }

    /// Sets the text color to blue.
    #[must_use]
    pub fn blue(&mut self) -> (r: Self)
        ensures
            *final(self) == old(self).with_fg(Fg::Blue),
            r == *final(self),
    {
        self.fg = Some(Fg::Blue);
        *self
    }

    /// Sets the text color to magenta.
    #[must_use]
    pub fn magenta(&mut self) -> (r: Self)
        ensures
            *final(self) == old(self).with_fg(Fg::Magenta),
            r == *final(self),
    {
        self.fg = Some(Fg::Magenta);
        *self
    }

    /// Sets the text color to cyan.
    #[must_use]
    pub fn cyan(&mut self) -> (r: Self)
        ensures
            *final(self) == old(self).with_fg(Fg::Cyan),
            r == *final(self),
    {
        self.fg = Some(Fg::Cyan);
        *self
    }

    /// Sets the text color to black.
    #[must_use]
    pub fn black(&mut self) -> (r: Self)
        ensures
            *final(self) == old(self).with_fg(Fg::Black),
            r == *final(self),
    {
        self.fg = Some(Fg::Black);
        *self
    }

    /// Sets the text color to white.
    #[must_use]
    pub fn white(&mut self) -> (r: Self)
        ensures
            *final(self) == old(self).with_fg(Fg::White),
            r == *final(self),
    {
        self.fg = Some(Fg::White);
        *self
    }

    /// Sets the text color to bright red.
    #[must_use]
    pub fn br_red(&mut self) -> (r: Self)
        ensures
            *final(self) == old(self).with_fg(Fg::BrightRed),
            r == *final(self),
    {
        self.fg = Some(Fg::BrightRed);
        *self
    }

    /// Sets the text color to bright green.
    #[must_use]
    pub fn br_green(&mut self) -> (r: Self)
        ensures
            *final(self) == old(self).with_fg(Fg::BrightGreen),
            r == *final(self),
    {
        self.fg = Some(Fg::BrightGreen);
        *self
    }

    /// Sets the text color to bright yellow.
    #[must_use]
    pub fn br_yellow(&mut self) -> (r: Self)
        ensures
            *final(self) == old(self).with_fg(Fg::BrightYellow),
            r == *final(self),
    {
        self.fg = Some(Fg::BrightYellow);
        *self
    }

    /// Sets the text color to bright blue.
    #[must_use]
    pub fn br_blue(&mut self) -> (r: Self)
        ensures
            *final(self) == old(self).with_fg(Fg::BrightBlue),
            r == *final(self),
    {
        self.fg = Some(Fg::BrightBlue);
        *self
    }

    /// Sets the text color to bright magenta.
    #[must_use]
    pub fn br_magenta(&mut self) -> (r: Self)
        ensures
            *final(self) == old(self).with_fg(Fg::BrightMagenta),
            r == *final(self),
    {
        self.fg = Some(Fg::BrightMagenta);
        *self
    }

    /// Sets the text color to bright cyan.
    #[must_use]
    pub fn br_cyan(&mut self) -> (r: Self)
        ensures
            *final(self) == old(self).with_fg(Fg::BrightCyan),
            r == *final(self),
    {
        self.fg = Some(Fg::BrightCyan);
        *self
    }

    /// Sets the text color to bright black.
    #[must_use]
    pub fn br_black(&mut self) -> (r: Self)
        ensures
            *final(self) == old(self).with_fg(Fg::BrightBlack),
            r == *final(self),
    {
        self.fg = Some(Fg::BrightBlack);
        *self
    }

    /// Sets the text color to bright white.
    #[must_use]
    pub fn br_white(&mut self) -> (r: Self)
        ensures
            *final(self) == old(self).with_fg(Fg::BrightWhite),
            r == *final(self),
    {
        self.fg = Some(Fg::BrightWhite);
        *self
    }

    /// Sets the text color to color `c` of the 256-color palette.
    #[must_use]
    pub fn fg_256(&mut self, c: u8) -> (r: Self)
        ensures
            *final(self) == old(self).with_fg(Fg::Color256(c)),
            r == *final(self),
    {
        self.fg = Some(Fg::Color256(c));
        *self
    }

    /// Sets the text color to the 24-bit color `(r, g, b)`.
    #[must_use]
    pub fn fg_rgb(&mut self, r: u8, g: u8, b: u8) -> (styled: Self)
        ensures
            *final(self) == old(self).with_fg(Fg::Rgb(r, g, b)),
            styled == *final(self),
    {
        self.fg = Some(Fg::Rgb(r, g, b));
        *self
    }

    /// Sets the background to red.
    #[must_use]
    pub fn bg_red(&mut self) -> (r: Self)
        ensures
            *final(self) == old(self).with_bg(Bg::Red),
            r == *final(self),
    {
        self.bg = Some(Bg::Red);
        *self
    }

    /// Sets the background to green.
    #[must_use]
    pub fn bg_green(&mut self) -> (r: Self)
        ensures
            *final(self) == old(self).with_bg(Bg::Green),
            r == *final(self),
    {
        self.bg = Some(Bg::Green);
        *self
    }

    /// Sets the background to yellow.
    #[must_use]
    pub fn bg_yellow(&mut self) -> (r: Self)
        ensures
            *final(self) == old(self).with_bg(Bg::Yellow),
            r == *final(self),
    {
        self.bg = Some(Bg::Yellow);
        *self
    }

    /// Sets the background to blue.
    #[must_use]
    pub fn bg_blue(&mut self) -> (r: Self)
        ensures
            *final(self) == old(self).with_bg(Bg::Blue),
            r == *final(self),
    {
        self.bg = Some(Bg::Blue);
        *self
    }

    /// Sets the background to magenta.
    #[must_use]
    pub fn bg_magenta(&mut self) -> (r: Self)
        ensures
            *final(self) == old(self).with_bg(Bg::Magenta),
            r == *final(self),
    {
        self.bg = Some(Bg::Magenta);
        *self
    }

    /// Sets the background to cyan.
    #[must_use]
    pub fn bg_cyan(&mut self) -> (r: Self)
        ensures
            *final(self) == old(self).with_bg(Bg::Cyan),
            r == *final(self),
    {
        self.bg = Some(Bg::Cyan);
        *self
    }

    /// Sets the background to black.
    #[must_use]
    pub fn bg_black(&mut self) -> (r: Self)
        ensures
            *final(self) == old(self).with_bg(Bg::Black),
            r == *final(self),
    {
        self.bg = Some(Bg::Black);
        *self
    }

    /// Sets the background to white.
    #[must_use]
    pub fn bg_white(&mut self) -> (r: Self)
        ensures
            *final(self) == old(self).with_bg(Bg::White),
            r == *final(self),
    {
        self.bg = Some(Bg::White);
        *self
    }

    /// Sets the background to bright red.
    #[must_use]
    pub fn bg_br_red(&mut self) -> (r: Self)
        ensures
            *final(self) == old(self).with_bg(Bg::BrightRed),
            r == *final(self),
    {
        self.bg = Some(Bg::BrightRed);
        *self
    }

    /// Sets the background to bright green.
    #[must_use]
    pub fn bg_br_green(&mut self) -> (r: Self)
        ensures
            *final(self) == old(self).with_bg(Bg::BrightGreen),
            r == *final(self),
    {
        self.bg = Some(Bg::BrightGreen);
        *self
    }

    /// Sets the background to bright yellow.
    #[must_use]
    pub fn bg_br_yellow(&mut self) -> (r: Self)
        ensures
            *final(self) == old(self).with_bg(Bg::BrightYellow),
            r == *final(self),
    {
        self.bg = Some(Bg::BrightYellow);
        *self
    }

    /// Sets the background to bright blue.
    #[must_use]
    pub fn bg_br_blue(&mut self) -> (r: Self)
        ensures
            *final(self) == old(self).with_bg(Bg::BrightBlue),
            r == *final(self),
    {
        self.bg = Some(Bg::BrightBlue);
        *self
    }

    /// Sets the background to bright magenta.
    #[must_use]
    pub fn bg_br_magenta(&mut self) -> (r: Self)
        ensures
            *final(self) == old(self).with_bg(Bg::BrightMagenta),
            r == *final(self),
    {
        self.bg = Some(Bg::BrightMagenta);
        *self
    }

    /// Sets the background to bright cyan.
    #[must_use]
    pub fn bg_br_cyan(&mut self) -> (r: Self)
        ensures
            *final(self) == old(self).with_bg(Bg::BrightCyan),
            r == *final(self),
    {
        self.bg = Some(Bg::BrightCyan);
        *self
    }

    /// Sets the background to bright black.
    #[must_use]
    pub fn bg_br_black(&mut self) -> (r: Self)
        ensures
            *final(self) == old(self).with_bg(Bg::BrightBlack),
            r == *final(self),
    {
        self.bg = Some(Bg::BrightBlack);
        *self
    }

    /// Sets the background to bright white.
    #[must_use]
    pub fn bg_br_white(&mut self) -> (r: Self)
        ensures
            *final(self) == old(self).with_bg(Bg::BrightWhite),
            r == *final(self),
    {
        self.bg = Some(Bg::BrightWhite);
        *self
    }

    /// Sets the background to color `c` of the 256-color palette.
    #[must_use]
    pub fn bg_256(&mut self, c: u8) -> (r: Self)
        ensures
            *final(self) == old(self).with_bg(Bg::Color256(c)),
            r == *final(self),
    {
        self.bg = Some(Bg::Color256(c));
        *self
    }

    /// Sets the background to the 24-bit color `(r, g, b)`.
    #[must_use]
    pub fn bg_rgb(&mut self, r: u8, g: u8, b: u8) -> (styled: Self)
        ensures
            *final(self) == old(self).with_bg(Bg::Rgb(r, g, b)),
            styled == *final(self),
    {
        self.bg = Some(Bg::Rgb(r, g, b));
        *self
    }

    /// Appends the attribute's code to `ansi_str`; returns whether an
    /// attribute is set.
    pub fn get_attr_code(&mut self, ansi_str: &mut String) -> (r: bool)
        ensures
            *final(self) == *old(self),
            r == old(self).attr is Some,
            final(ansi_str)@ == old(ansi_str)@ + old(self).attr_part(),
    {
        if let Some(attr) = self.attr {
            attr.push_code(ansi_str);
            true
        } else {
            false
        }
    }

    /// Appends the foreground's code to `ansi_str`, after a `;` when an
    /// attribute comes before it; returns whether a foreground is set.
    fn get_fg_code(&mut self, ansi_str: &mut String) -> (r: bool)
        ensures
            *final(self) == *old(self),
            r == old(self).fg is Some,
            final(ansi_str)@ == old(ansi_str)@ + old(self).fg_part(),
    {
        proof {
            reveal_strlit(";");
        }
        match self.fg {
            None => false,
            Some(fg_color) => {
                if self.attr.is_some() {
                    ansi_str.append(";");
                }
                fg_color.push_code(ansi_str);
                assert(ansi_str@ =~= old(ansi_str)@ + old(self).fg_part());
                true
            },
        }
    }

    /// Appends the background's code to `ansi_str`, after a `;` when an
    /// attribute or a foreground comes before it; returns whether a
    /// background is set.
    fn get_bg_code(&mut self, ansi_str: &mut String) -> (r: bool)
        ensures
            *final(self) == *old(self),
            r == old(self).bg is Some,
            final(ansi_str)@ == old(ansi_str)@ + old(self).bg_part(),
    {
        proof {
            reveal_strlit(";");
        }
        match self.bg {
            None => false,
            Some(bg_color) => {
                if self.attr.is_some() || self.fg.is_some() {
                    ansi_str.append(";");
                }
                bg_color.push_code(ansi_str);
                assert(ansi_str@ =~= old(ansi_str)@ + old(self).bg_part());
                true
            },
        }
    }

    /// Builds the string that the style stands for: the text wrapped in one
    /// SGR sequence, or the text alone when no field is set.
    pub fn get_ansi(&mut self) -> (r: String)
        ensures
            *final(self) == *old(self),
            r@ == old(self).ansi(),
    {
        let mut ansi_str = csi_string();
        let has_attr = self.get_attr_code(&mut ansi_str);
        let has_foreground = self.get_fg_code(&mut ansi_str);
        let has_background = self.get_bg_code(&mut ansi_str);
        proof {
            lemma_params_by_part(*self);
            reveal_strlit("m");
            reveal_strlit("0m");
            reveal_strlit("\x1b[");
        }
        if has_attr || has_foreground || has_background {
            ansi_str.append("m");
            ansi_str.append(self.text);
            ansi_str.append(crate::CSI);
            ansi_str.append("0m");
            assert(self.codes().len() > 0);
            assert(ansi_str@ =~= self.ansi());
            ansi_str
        } else {
            assert(self.codes() =~= Seq::<Seq<char>>::empty());
            String::from_str(self.text)
        }
    }
}

impl<'a> Style<'a> {
    /// Builds what printing the style writes, as `printed` states: the text
    /// alone when it is empty, else the rendered style, followed by a line
    /// break when `newline` holds.
    pub fn print_string(&mut self, newline: bool) -> (r: String)
        ensures
            *final(self) == *old(self),
            r@ == old(self).printed(newline),
    {
        let mut out = if self.text.is_empty() {
            String::from_str(self.text)
        } else {
            self.get_ansi()
        };
        if newline {
            proof {
                reveal_strlit("\n");
            }
            out.append("\n");
        }
        out
    }
}

impl<'a> Default for Style<'a> {
    fn default() -> (r: Self)
        ensures
            r.attr is None,
            r.fg is None,
            r.bg is None,
            r.text@.len() == 0,
    {
        Self::new()
    }
}


/// A style of any text whose only field is a named foreground color renders
/// as that text between `ESC[<n>m` and `ESC[0m`, where `<n>` is the color's
/// number: 30 to 37 for the base colors, 90 to 97 for the bright ones.
pub proof fn lemma_named_foreground(text: &str, f: Fg)
    requires
        f.is_named(),
    ensures
        Style::unstyled(text).with_fg(f).ansi() == wrap(dec(f.number()), text@),
        30 <= f.number() <= 37 || 90 <= f.number() <= 97,
        dec(f.number()) == seq![digit_char(f.number() / 10), digit_char(f.number() % 10)],
{
    let s = Style::unstyled(text).with_fg(f);
    assert(s.codes() =~= seq![f.code()]);
    lemma_params_by_part(s);
    assert(dec(f.number() / 10) == seq![digit_char(f.number() / 10)]);
}

/// A style of any text whose only field is a named background color renders
/// as that text between `ESC[<n>m` and `ESC[0m`, where `<n>` is the color's
/// number: 40 to 47 for the base colors, 100 to 107 for the bright ones.
pub proof fn lemma_named_background(text: &str, b: Bg)
    requires
        b.is_named(),
    ensures
        Style::unstyled(text).with_bg(b).ansi() == wrap(dec(b.number()), text@),
        40 <= b.number() <= 47 || 100 <= b.number() <= 107,
        b.number() < 100 ==> dec(b.number()) == seq![
            digit_char(b.number() / 10),
            digit_char(b.number() % 10),
        ],
        b.number() >= 100 ==> dec(b.number()) == seq!['1', '0', digit_char(b.number() % 10)],
{
    let s = Style::unstyled(text).with_bg(b);
    assert(s.codes() =~= seq![b.code()]);
    lemma_params_by_part(s);
    let n = b.number();
    if n >= 100 {
        assert(dec(n / 100) == seq![digit_char(1)]);
        assert(dec(n / 10) == seq![digit_char(1), digit_char(0)]);
        assert(digit_char(1) == '1' && digit_char(0) == '0');
    } else {
        assert(dec(n / 10) == seq![digit_char(n / 10)]);
    }
}

/// A style of any text whose only field is an attribute renders as that text
/// between `ESC[<d>m` and `ESC[0m`, where `<d>` is the attribute's single
/// digit: 1 bold, 2 faint, 3 italic, 4 underline, 7 invert, 8 hide, 9 strike.
pub proof fn lemma_single_attribute(text: &str, a: Attr)
    ensures
        Style::unstyled(text).with_attr(a).ansi() == wrap(seq![digit_char(a.number())], text@),
        1 <= a.number() <= 9,
        a.number() != 5 && a.number() != 6,
{
    let s = Style::unstyled(text).with_attr(a);
    assert(s.codes() =~= seq![a.code()]);
    lemma_params_by_part(s);
}

/// The codes of the fields that are set stand in the order attribute,
/// foreground, background, with exactly one `;` between two neighbours;
/// whichever field is unset leaves no separator behind.
pub proof fn lemma_semicolon_rule(s: Style)
    ensures
        s.attr is Some && s.fg is Some && s.bg is Some ==> join_params(s.codes()) == s.attr->0.code()
            + seq![';'] + s.fg->0.code() + seq![';'] + s.bg->0.code(),
        s.attr is Some && s.fg is Some && s.bg is None ==> join_params(s.codes())
            == s.attr->0.code() + seq![';'] + s.fg->0.code(),
        s.attr is Some && s.fg is None && s.bg is Some ==> join_params(s.codes())
            == s.attr->0.code() + seq![';'] + s.bg->0.code(),
        s.attr is None && s.fg is Some && s.bg is Some ==> join_params(s.codes())
            == s.fg->0.code() + seq![';'] + s.bg->0.code(),
        s.attr is Some && s.fg is None && s.bg is None ==> join_params(s.codes())
            == s.attr->0.code(),
        s.attr is None && s.fg is Some && s.bg is None ==> join_params(s.codes())
            == s.fg->0.code(),
        s.attr is None && s.fg is None && s.bg is Some ==> join_params(s.codes())
            == s.bg->0.code(),
        s.codes().len() > 0 ==> s.ansi() == wrap(join_params(s.codes()), s.text@),
{
    lemma_params_by_part(s);
    assert(join_params(s.codes()) =~= s.attr_part() + s.fg_part() + s.bg_part());
}

/// 256-color and 24-bit colors take the parameters `38;5;<n>` / `48;5;<n>`
/// and `38;2;<r>;<g>;<b>` / `48;2;<r>;<g>;<b>`, joined to each other and to an
/// attribute by the same `;` rule as named colors.
pub proof fn lemma_extended_colors(text: &str, n: u8, m: u8, r: u8, g: u8, b: u8, a: Attr)
    ensures
        Style::unstyled(text).with_fg(Fg::Color256(n)).with_bg(Bg::Color256(m)).ansi() == wrap(
            seq!['3', '8', ';', '5', ';'] + dec(n as nat) + seq![';', '4', '8', ';', '5', ';']
                + dec(m as nat),
            text@,
        ),
        Style::unstyled(text).with_attr(a).with_fg(Fg::Rgb(r, g, b)).with_bg(Bg::Rgb(b, g, r)).ansi()
            == wrap(
            a.code() + seq![';', '3', '8', ';', '2', ';'] + dec(r as nat) + seq![';'] + dec(
                g as nat,
            ) + seq![';'] + dec(b as nat) + seq![';', '4', '8', ';', '2', ';'] + dec(b as nat)
                + seq![';'] + dec(g as nat) + seq![';'] + dec(r as nat),
            text@,
        ),
{
    assert(dec(38) =~= seq!['3', '8']) by {
        assert(dec(3) == seq![digit_char(3)]);
    }
    assert(dec(48) =~= seq!['4', '8']) by {
        assert(dec(4) == seq![digit_char(4)]);
    }
    let s1 = Style::unstyled(text).with_fg(Fg::Color256(n)).with_bg(Bg::Color256(m));
    lemma_semicolon_rule(s1);
    assert(join_params(s1.codes()) =~= seq!['3', '8', ';', '5', ';'] + dec(n as nat) + seq![
        ';',
        '4',
        '8',
        ';',
        '5',
        ';',
    ] + dec(m as nat));
    let s2 = Style::unstyled(text).with_attr(a).with_fg(Fg::Rgb(r, g, b)).with_bg(Bg::Rgb(b, g, r));
    lemma_semicolon_rule(s2);
    assert(join_params(s2.codes()) =~= a.code() + seq![';', '3', '8', ';', '2', ';'] + dec(
        r as nat,
    ) + seq![';'] + dec(g as nat) + seq![';'] + dec(b as nat) + seq![';', '4', '8', ';', '2', ';']
        + dec(b as nat) + seq![';'] + dec(g as nat) + seq![';'] + dec(r as nat));
}

/// A style with no field set renders as its text, unchanged.
pub proof fn lemma_unstyled_is_verbatim(s: Style)
    requires
        s.attr is None,
        s.fg is None,
        s.bg is None,
    ensures
        s.ansi() == s.text@,
{
    assert(s.codes() =~= Seq::<Seq<char>>::empty());
}

} // verus!
