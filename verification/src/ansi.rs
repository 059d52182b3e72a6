//! The control sequences that a frame holds, as crossterm writes them.

use crossterm::Command;
use vstd::prelude::*;

verus! {

/// The two characters that open a control sequence: escape and `[`.
pub open spec fn csi() -> Seq<char> {
    seq!['\u{1b}', '[']
}

/// The sequence that hides the cursor.
pub open spec fn hide_sequence() -> Seq<char> {
    csi() + seq!['?', '2', '5', 'l']
}

/// The sequence that shows the cursor.
pub open spec fn show_sequence() -> Seq<char> {
    csi() + seq!['?', '2', '5', 'h']
}

/// What of the screen a clear command erases.
#[derive(Clone, Copy, Debug, PartialEq, Eq, Structural)]
pub enum ClearType {
    /// All cells.
    All,
    /// The cells from the cursor to the end of its line.
    UntilNewLine,
}

/// The sequence that erases what `clear_type` names.
pub open spec fn clear_sequence(clear_type: ClearType) -> Seq<char> {
    match clear_type {
        ClearType::All => csi() + seq!['2', 'J'],
        ClearType::UntilNewLine => csi() + seq!['K'],
    }
}

/// The character of the decimal digit `d`.
pub open spec fn digit(d: nat) -> char {
    (48 + d) as char
}

/// The decimal numeral of `n`, without leading zeros.
pub open spec fn decimal(n: nat) -> Seq<char>
    decreases n,
{
    if n < 10 {
        seq![digit(n)]
    } else {
        decimal(n / 10).push(digit(n % 10))
    }
}

/// The sequence that moves the cursor to column `x` of row `y`, both counted
/// from 0. On the wire the row comes first and both are counted from 1.
pub open spec fn move_to_sequence(x: u16, y: u16) -> Seq<char> {
    csi() + decimal((y + 1) as nat) + seq![';'] + decimal((x + 1) as nat) + seq!['H']
}

/// What crossterm's `cursor::Hide` writes through `Command::write_ansi`:
/// the sequence `ESC [ ? 2 5 l`.
#[verifier::external_body]
pub(crate) fn hide_cursor() -> (s: String)
    ensures
        s@ == hide_sequence(),
{
    let mut s = String::new();
    let _ = crossterm::cursor::Hide.write_ansi(&mut s);
    s
}

/// What crossterm's `cursor::Show` writes through `Command::write_ansi`:
/// the sequence `ESC [ ? 2 5 h`.
#[verifier::external_body]
pub(crate) fn show_cursor() -> (s: String)
    ensures
        s@ == show_sequence(),
{
    let mut s = String::new();
    let _ = crossterm::cursor::Show.write_ansi(&mut s);
    s
}

/// What crossterm's `terminal::Clear` writes through `Command::write_ansi`:
/// the sequence `ESC [ 2 J` for its `ClearType::All`, and `ESC [ K` for its
/// `ClearType::UntilNewLine`.
#[verifier::external_body]
pub(crate) fn clear(clear_type: ClearType) -> (s: String)
    ensures
        s@ == clear_sequence(clear_type),
{
    let outside = match clear_type {
        ClearType::All => crossterm::terminal::ClearType::All,
        ClearType::UntilNewLine => crossterm::terminal::ClearType::UntilNewLine,
    };
    let mut s = String::new();
    let _ = crossterm::terminal::Clear(outside).write_ansi(&mut s);
    s
}

/// What crossterm's `cursor::MoveTo(x, y)` writes through
/// `Command::write_ansi`: `ESC [`, the decimal numeral of `y + 1`, `;`, the
/// decimal numeral of `x + 1`, and `H`. Crossterm adds the 1 in 16 bits, so
/// neither coordinate may be the largest 16-bit number.
#[verifier::external_body]
pub(crate) fn move_cursor_to(x: u16, y: u16) -> (s: String)
    requires
        x < u16::MAX,
        y < u16::MAX,
    ensures
        s@ == move_to_sequence(x, y),
{
    let mut s = String::new();
    let _ = crossterm::cursor::MoveTo(x, y).write_ansi(&mut s);
    s
}

} // verus!
