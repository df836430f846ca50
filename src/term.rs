//! Cursor and screen control sequences, and the terminal's size as a
//! terminal query reports it.

use vstd::prelude::*;

use crate::csi;
use crate::decimal::{dec, decimal_u8, is_digit_byte, parse_decimal_u8, push_decimal};

verus! {

/// Terminal manipulation methods.
pub struct Term;

/// Rows assumed when the terminal's size cannot be learned.
pub const DEFAULT_ROWS: u8 = 20;

/// Columns assumed when the terminal's size cannot be learned.
pub const DEFAULT_COLS: u8 = 80;

/// Why a message cannot be centered.
#[derive(Clone, Copy, Debug, PartialEq, Eq)]
pub enum CenterError {
    /// The message is longer than 255 bytes.
    LengthOverflow,
    /// The message is longer than the screen is wide.
    TooWide,
}

/// `ESC[<params><fin>`: a control sequence with parameters `params`.
pub open spec fn control(params: Seq<char>, fin: char) -> Seq<char> {
    csi() + params + seq![fin]
}

/// `ESC[<row>;<col>H`: the sequence that moves the cursor to row `row` and
/// column `col`.
pub open spec fn goto(row: nat, col: nat) -> Seq<char> {
    control(dec(row) + seq![';'] + dec(col), 'H')
}

/// The column at which a message of `len` bytes starts when it is centered
/// on a screen `width` columns wide.
pub open spec fn centered_col(width: nat, len: nat) -> nat {
    (width / 2 - len / 2) as nat
}

/// The index of the first line feed of `s` at or after `from`, or the length
/// of `s` when there is none.
pub open spec fn line_end(s: Seq<u8>, from: int) -> int
    decreases s.len() - from,
{
    if from >= s.len() {
        s.len() as int
    } else if s[from] == 10 {
        from
    } else {
        line_end(s, from + 1)
    }
}

/// The size `(rows, columns)` that the output `out` of a query for the
/// columns and then the lines of the terminal reports: its first line read as
/// the columns and its second as the rows, each a decimal byte; the default
/// size when the output holds no line feed or either line is no such number.
pub open spec fn reported_size(out: Seq<u8>) -> (u8, u8) {
    let e0 = line_end(out, 0);
    if e0 >= out.len() {
        (DEFAULT_ROWS, DEFAULT_COLS)
    } else {
        let e1 = line_end(out, e0 + 1);
        match (
            decimal_u8(out.subrange(0, e0)),
            decimal_u8(out.subrange(e0 + 1, e1)),
        ) {
            (Some(cols), Some(rows)) => (rows, cols),
            _ => (DEFAULT_ROWS, DEFAULT_COLS),
        }
    }
}

/// The index of the first line feed of `s` at or after `from`, or `s.len()`.
fn find_line_end(s: &[u8], from: usize) -> (r: usize)
    requires
        from <= s@.len(),
    ensures
        r == line_end(s@, from as int),
        from <= r <= s@.len(),
        r < s@.len() ==> s@[r as int] == 10,
{
    let mut i = from;
    while i < s.len()
        invariant
            from <= i <= s@.len(),
            line_end(s@, from as int) == line_end(s@, i as int),
        decreases s@.len() - i,
    {
        if s[i] == 10u8 {
            return i;
        }
        i = i + 1;
    }
    i
}

/// `ESC[<num><fin>`.
fn numbered(num: u8, fin: &str) -> (r: String)
    ensures
        r@ == csi() + dec(num as nat) + fin@,
{
    let mut out = crate::csi_string();
    push_decimal(&mut out, num);
    out.append(fin);
    out
}

/// `ESC[<row>;<col>H`.
fn goto_string(row: u8, col: u8) -> (r: String)
    ensures
        r@ == goto(row as nat, col as nat),
{
    proof {
        reveal_strlit(";");
        reveal_strlit("H");
    }
    let mut out = crate::csi_string();
    push_decimal(&mut out, row);
    out.append(";");
    push_decimal(&mut out, col);
    out.append("H");
    assert(out@ =~= goto(row as nat, col as nat));
    out
}


/// A message no wider than the screen starts at a column that the
/// subtraction reaches without going below zero, and its middle meets the
/// screen's middle.
pub proof fn lemma_centered_col_fits(width: nat, len: nat)
    requires
        len <= width,
    ensures
        len / 2 <= width / 2,
        centered_col(width, len) + len / 2 == width / 2,
        centered_col(width, len) <= width,
{
}

proof fn lemma_line_end_without_feed(s: Seq<u8>, from: int)
    requires
        0 <= from <= s.len(),
        forall|i: int| from <= i < s.len() ==> s[i] != 10,
    ensures
        line_end(s, from) == s.len(),
    decreases s.len() - from,
{
    if from < s.len() {
        lemma_line_end_without_feed(s, from + 1);
    }
}

proof fn lemma_line_end_bounds(s: Seq<u8>, from: int)
    requires
        0 <= from <= s.len(),
    ensures
        from <= line_end(s, from) <= s.len(),
    decreases s.len() - from,
{
    if from < s.len() {
        lemma_line_end_bounds(s, from + 1);
    }
}

/// Output that the query cannot have meant as a size gives the default size:
/// output with no line feed (empty output among it), and output whose first
/// byte is neither a digit nor `+`.
pub proof fn lemma_unreadable_size_is_default(out: Seq<u8>)
    ensures
        (forall|i: int| 0 <= i < out.len() ==> out[i] != 10) ==> reported_size(out) == (
            DEFAULT_ROWS,
            DEFAULT_COLS,
        ),
        out.len() > 0 && !is_digit_byte(out[0]) && out[0] != 43 ==> reported_size(out) == (
            DEFAULT_ROWS,
            DEFAULT_COLS,
        ),
{
    if forall|i: int| 0 <= i < out.len() ==> out[i] != 10 {
        lemma_line_end_without_feed(out, 0);
    }
    if out.len() > 0 && !is_digit_byte(out[0]) && out[0] != 43 {
        let e0 = line_end(out, 0);
        lemma_line_end_bounds(out, 0);
        if e0 < out.len() {
            let first = out.subrange(0, e0);
            if first.len() > 0 {
                assert(first[0] == out[0]);
                assert(!crate::decimal::all_digits(first));
            }
            assert(decimal_u8(first) is None);
        }
    }
}

impl Term {
    /// Scrolls the terminal screen up `num` lines.
    pub fn scroll_u(num: u8) -> (r: String)
        ensures
            r@ == control(dec(num as nat), 'S'),
    {
        proof {
            reveal_strlit("S");
        }
        let r = numbered(num, "S");
        assert(r@ =~= control(dec(num as nat), 'S'));
        r
    }

    /// Scrolls the terminal screen up `num` lines.
    pub fn scroll_up(num: u8) -> (r: String)
        ensures
            r@ == control(dec(num as nat), 'S'),
    {
        Self::scroll_u(num)
    }

    /// Scrolls the terminal screen down `num` lines.
    pub fn scroll_d(num: u8) -> (r: String)
        ensures
            r@ == control(dec(num as nat), 'T'),
    {
        proof {
            reveal_strlit("T");
        }
        let r = numbered(num, "T");
        assert(r@ =~= control(dec(num as nat), 'T'));
        r
    }

    /// Scrolls the terminal screen down `num` lines.
    pub fn scroll_down(num: u8) -> (r: String)
        ensures
            r@ == control(dec(num as nat), 'T'),
    {
        Self::scroll_d(num)
    }

    /// Moves the cursor `num` cells up.
    pub fn cursor_u(num: u8) -> (r: String)
        ensures
            r@ == control(dec(num as nat), 'A'),
    {
        proof {
            reveal_strlit("A");
        }
        let r = numbered(num, "A");
        assert(r@ =~= control(dec(num as nat), 'A'));
        r
    }

    /// Moves the cursor `num` cells up.
    pub fn cursor_up(num: u8) -> (r: String)
        ensures
            r@ == control(dec(num as nat), 'A'),
    {
        Self::cursor_u(num)
    }

    /// Moves the cursor `num` cells down.
    pub fn cursor_d(num: u8) -> (r: String)
        ensures
            r@ == control(dec(num as nat), 'B'),
    {
        proof {
            reveal_strlit("B");
        }
        let r = numbered(num, "B");
        assert(r@ =~= control(dec(num as nat), 'B'));
        r
    }

    /// Moves the cursor `num` cells down.
    pub fn cursor_down(num: u8) -> (r: String)
        ensures
            r@ == control(dec(num as nat), 'B'),
    {
        Self::cursor_d(num)
    }

    /// Moves the cursor `num` cells right.
    pub fn cursor_r(num: u8) -> (r: String)
        ensures
            r@ == control(dec(num as nat), 'C'),
    {
        proof {
            reveal_strlit("C");
        }
        let r = numbered(num, "C");
        assert(r@ =~= control(dec(num as nat), 'C'));
        r
    }

    /// Moves the cursor `num` cells right.
    pub fn cursor_right(num: u8) -> (r: String)
        ensures
            r@ == control(dec(num as nat), 'C'),
    {
        Self::cursor_r(num)
    }

    /// Moves the cursor `num` cells left.
    pub fn cursor_l(num: u8) -> (r: String)
        ensures
            r@ == control(dec(num as nat), 'D'),
    {
        proof {
            reveal_strlit("D");
        }
        let r = numbered(num, "D");
        assert(r@ =~= control(dec(num as nat), 'D'));
        r
    }

    /// Moves the cursor `num` cells left.
    pub fn cursor_left(num: u8) -> (r: String)
        ensures
            r@ == control(dec(num as nat), 'D'),
    {
        Self::cursor_l(num)
    }

    /// Moves the cursor to column `num`.
    pub fn cursor_col(num: u8) -> (r: String)
        ensures
            r@ == control(dec(num as nat), 'G'),
    {
        proof {
            reveal_strlit("G");
        }
        let r = numbered(num, "G");
        assert(r@ =~= control(dec(num as nat), 'G'));
        r
    }

    /// Moves the cursor to column `num`.
    pub fn cursor_to_col(num: u8) -> (r: String)
        ensures
            r@ == control(dec(num as nat), 'G'),
    {
        Self::cursor_col(num)
    }

    /// Clears the full terminal screen.
    pub fn clr_scr() -> (r: String)
        ensures
            r@ == control(seq!['2'], 'J'),
    {
        proof {
            reveal_strlit("\x1b[2J");
        }
        let r = String::from_str("\x1b[2J");
        assert(r@ =~= control(seq!['2'], 'J'));
        r
    }

    /// Clears the terminal screen from the cursor to the beginning of the screen.
    pub fn clr_scr_to_start() -> (r: String)
        ensures
            r@ == control(seq!['1'], 'J'),
    {
        proof {
            reveal_strlit("\x1b[1J");
        }
        let r = String::from_str("\x1b[1J");
        assert(r@ =~= control(seq!['1'], 'J'));
        r
    }

    /// Clears the terminal screen from the cursor to the end of the screen.
    pub fn clr_scr_to_end() -> (r: String)
        ensures
            r@ == control(seq!['0'], 'J'),
    {
        proof {
            reveal_strlit("\x1b[0J");
        }
        let r = String::from_str("\x1b[0J");
        assert(r@ =~= control(seq!['0'], 'J'));
        r
    }

    /// Clears the current line.
    pub fn clr_ln() -> (r: String)
        ensures
            r@ == control(seq!['2'], 'K'),
    {
        proof {
            reveal_strlit("\x1b[2K");
        }
        let r = String::from_str("\x1b[2K");
        assert(r@ =~= control(seq!['2'], 'K'));
        r
    }

    /// Clears the current line.
    pub fn clr_line() -> (r: String)
        ensures
            r@ == control(seq!['2'], 'K'),
    {
        Self::clr_ln()
    }

    /// Clears the current line from the cursor to the beginning of the line.
    pub fn clr_ln_to_start() -> (r: String)
        ensures
            r@ == control(seq!['1'], 'K'),
    {
        proof {
            reveal_strlit("\x1b[1K");
        }
        let r = String::from_str("\x1b[1K");
        assert(r@ =~= control(seq!['1'], 'K'));
        r
    }

    /// Clears the current line from the cursor to the beginning of the line.
    pub fn clr_line_to_start() -> (r: String)
        ensures
            r@ == control(seq!['1'], 'K'),
    {
        Self::clr_ln_to_start()
    }

    /// Clears the current line from the cursor to the end of the line.
    pub fn clr_ln_to_end() -> (r: String)
        ensures
            r@ == control(seq!['0'], 'K'),
    {
        proof {
            reveal_strlit("\x1b[0K");
        }
        let r = String::from_str("\x1b[0K");
        assert(r@ =~= control(seq!['0'], 'K'));
        r
    }

    /// Clears the current line from the cursor to the end of the line.
    pub fn clr_line_to_end() -> (r: String)
        ensures
            r@ == control(seq!['0'], 'K'),
    {
        Self::clr_ln_to_end()
    }

    /// Shows the terminal cursor.
    pub fn show_cursor() -> (r: String)
        ensures
            r@ == control(seq!['?', '2', '5'], 'h'),
    {
        proof {
            reveal_strlit("\x1b[?25h");
        }
        let r = String::from_str("\x1b[?25h");
        assert(r@ =~= control(seq!['?', '2', '5'], 'h'));
        r
    }

    /// Hides the terminal cursor.
    pub fn hide_cursor() -> (r: String)
        ensures
            r@ == control(seq!['?', '2', '5'], 'l'),
    {
        proof {
            reveal_strlit("\x1b[?25l");
        }
        let r = String::from_str("\x1b[?25l");
        assert(r@ =~= control(seq!['?', '2', '5'], 'l'));
        r
    }

    /// Moves the cursor to row `row` and column `col`.
    pub fn cursor_goto(row: u8, col: u8) -> (r: String)
        ensures
            r@ == goto(row as nat, col as nat),
    {
        goto_string(row, col)
    }

    /// Moves the cursor to the bottom left position of a screen of `rows`
    /// rows.
    pub fn cursor_bl(rows: u8) -> (r: String)
        ensures
            r@ == goto(rows as nat, 1),
    {
        goto_string(rows, 1)
    }

    /// Moves the cursor to the bottom left position of a screen of `rows`
    /// rows.
    pub fn cursor_bottomleft(rows: u8) -> (r: String)
        ensures
            r@ == goto(rows as nat, 1),
    {
        Self::cursor_bl(rows)
    }

    /// Moves the cursor to the top left position on the screen.
    pub fn cursor_tl() -> (r: String)
        ensures
            r@ == goto(1, 1),
    {
        goto_string(1, 1)
    }

    /// Moves the cursor to the top left position on the screen.
    pub fn cursor_topleft() -> (r: String)
        ensures
            r@ == goto(1, 1),
    {
        Self::cursor_tl()
    }

    /// The message `msg` placed at row `row` and column `col`.
    pub fn write(row: u8, col: u8, msg: &str) -> (r: String)
        ensures
            r@ == goto(row as nat, col as nat) + msg@,
    {
        let mut out = goto_string(row, col);
        out.append(msg);
        out
    }

    /// The message `msg` placed at row `row`, centered on a screen `width`
    /// columns wide. A message longer than 255 bytes, or longer than the
    /// screen is wide, is refused.
    pub fn write_centered(row: u8, width: u8, msg: &str) -> (r: Result<String, CenterError>)
        ensures
            msg.len() > 255 ==> r == Err::<String, CenterError>(CenterError::LengthOverflow),
            width < msg.len() <= 255 ==> r == Err::<String, CenterError>(CenterError::TooWide),
            msg.len() <= width ==> (r matches Ok(s) && s@ == goto(
                row as nat,
                centered_col(width as nat, msg.len() as nat),
            ) + msg@),
    {
        let n = msg.len();
        if n > 255 {
            return Err(CenterError::LengthOverflow);
        }
        let len = n as u8;
        if len > width {
            return Err(CenterError::TooWide);
        }
        let col = (width / 2) - (len / 2);
        Ok(Self::write(row, col, msg))
    }

    /// The size `(rows, columns)` of the terminal, given the standard output
    /// of a query for its columns and then its lines, or `None` when the query
    /// could not be run: the default size when it could not, and otherwise as
    /// `reported_size` reads the output.
    pub fn size_from_query(out: Option<&[u8]>) -> (r: (u8, u8))
        ensures
            out is None ==> r == (DEFAULT_ROWS, DEFAULT_COLS),
            out matches Some(o) ==> r == reported_size(o@),
    {
        match out {
            None => (DEFAULT_ROWS, DEFAULT_COLS),
            Some(o) => {
                let e0 = find_line_end(o, 0);
                if e0 >= o.len() {
                    return (DEFAULT_ROWS, DEFAULT_COLS);
                }
                let e1 = find_line_end(o, e0 + 1);
                let cols = parse_decimal_u8(&o[0..e0]);
                let rows = parse_decimal_u8(&o[e0 + 1..e1]);
                match (cols, rows) {
                    (Some(c), Some(h)) => (h, c),
                    _ => (DEFAULT_ROWS, DEFAULT_COLS),
                }
            },
        }
    }
}

} // verus!
