//! Screen compositor: accumulates one full frame — cursor hide,
//! positioning, content, cursor show — in a buffer, and hands the whole
//! frame out at once, so the caller can write it in a single call and the
//! terminal never observes a partial update.
//!
//! The control sequences follow the standard terminal protocol: erase
//! display `ESC [ 2 J`, erase to end of line `ESC [ K`, cursor home
//! `ESC [ H`, cursor to row and column `ESC [ <row> ; <col> H`, hide cursor
//! `ESC [ ? 2 5 l`, show cursor `ESC [ ? 2 5 h`.

use vstd::prelude::*;
use vstd::string::StringExecFns;

verus! {

/// Relies on std's String::push: appends the given character to the end of
/// the string.
pub assume_specification[ String::push ](s: &mut String, ch: char)
    ensures
        final(s)@ == old(s)@.push(ch),
;

/// The sequence that erases the entire display.
pub open spec fn erase_display_seq() -> Seq<char> {
    "\x1b[2J"@
}

/// The sequence that erases from the cursor to the end of the line.
pub open spec fn erase_line_seq() -> Seq<char> {
    "\x1b[K"@
}

/// The sequence that hides the cursor.
pub open spec fn hide_cursor_seq() -> Seq<char> {
    "\x1b[?25l"@
}

/// The sequence that shows the cursor.
pub open spec fn show_cursor_seq() -> Seq<char> {
    "\x1b[?25h"@
}

/// The sequence that moves the cursor to the home position (1, 1).
pub open spec fn cursor_home_seq() -> Seq<char> {
    "\x1b[H"@
}

/// The decimal digit character for `d` (meaningful for `d < 10`).
pub open spec fn digit_char(d: nat) -> char {
    ((48 + d) as u8) as char
}

/// The decimal digits of `n`, most significant first, no leading zeros.
pub open spec fn dec_seq(n: nat) -> Seq<char>
    decreases n,
{
    if n < 10 {
        seq![digit_char(n)]
    } else {
        dec_seq(n / 10).push(digit_char(n % 10))
    }
}

/// The sequence that moves the cursor to the given 1-based row and column.
pub open spec fn cursor_pos_seq(row: nat, col: nat) -> Seq<char> {
    "\x1b["@ + dec_seq(row) + ";"@ + dec_seq(col) + "H"@
}

/// The decimal digit character for `d`.
fn digit_of(d: usize) -> (c: char)
    requires
        d < 10,
    ensures
        c == digit_char(d as nat),
{
    (48 + d as u8) as char
}

/// Appends the decimal digits of `n` to `buf`.
fn push_number(buf: &mut String, n: usize)
    ensures
        final(buf)@ == old(buf)@ + dec_seq(n as nat),
    decreases n,
{
    if n < 10 {
        buf.push(digit_of(n));
        proof {
            assert(final(buf)@ =~= old(buf)@ + dec_seq(n as nat));
        }
    } else {
        push_number(buf, n / 10);
        buf.push(digit_of(n % 10));
        proof {
            assert(final(buf)@ =~= old(buf)@ + dec_seq(n as nat));
        }
    }
}

/// The frame compositor. Its view is the frame accumulated so far, as a
/// sequence of characters.
pub struct Terminal {
    buf: String,
}

impl View for Terminal {
    type V = Seq<char>;

    closed spec fn view(&self) -> Seq<char> {
        self.buf@
    }
}

impl Terminal {
    /// A compositor with an empty frame.
    pub fn new() -> (t: Terminal)
        ensures
            t@ == Seq::<char>::empty(),
    {
        Terminal { buf: String::new() }
    }

    /// Starts a fresh frame: the buffer is reset to empty.
    pub fn begin(&mut self)
        ensures
            final(self)@ == Seq::<char>::empty(),
    {
        self.buf = String::new();
    }

    /// Ends the frame: yields the whole accumulated frame for the caller to
    /// write in one call, and leaves the buffer empty (invalid until the
    /// next `begin`).
    pub fn end(&mut self) -> (frame: String)
        ensures
            frame@ == old(self)@,
            final(self)@ == Seq::<char>::empty(),
    {
        let frame = self.buf.clone();
        self.buf = String::new();
        frame
    }

    /// Appends the erase-entire-display sequence.
    pub fn erase_in_display(&mut self)
        ensures
            final(self)@ == old(self)@ + erase_display_seq(),
    {
        self.buf.append("\x1b[2J");
    }

    /// Appends the erase-to-end-of-line sequence.
    pub fn erase_in_line(&mut self)
        ensures
            final(self)@ == old(self)@ + erase_line_seq(),
    {
        self.buf.append("\x1b[K");
    }

    /// Appends the hide-cursor sequence.
    pub fn hide_cursor(&mut self)
        ensures
            final(self)@ == old(self)@ + hide_cursor_seq(),
    {
        self.buf.append("\x1b[?25l");
    }

    /// Appends the show-cursor sequence.
    pub fn show_cursor(&mut self)
        ensures
            final(self)@ == old(self)@ + show_cursor_seq(),
    {
        self.buf.append("\x1b[?25h");
    }

    /// Appends the cursor-to-home sequence.
    pub fn move_cursor(&mut self)
        ensures
            final(self)@ == old(self)@ + cursor_home_seq(),
    {
        self.buf.append("\x1b[H");
    }

    /// Appends the sequence that moves the cursor to the given 1-based row
    /// and column.
    pub fn move_cursor_at(&mut self, row: usize, col: usize)
        ensures
            final(self)@ == old(self)@ + cursor_pos_seq(row as nat, col as nat),
    {
        self.buf.append("\x1b[");
        push_number(&mut self.buf, row);
        self.buf.append(";");
        push_number(&mut self.buf, col);
        self.buf.append("H");
        proof {
            assert(final(self)@ =~= old(self)@ + cursor_pos_seq(row as nat, col as nat));
        }
    }

    /// Appends one content character.
    pub fn push(&mut self, ch: char)
        ensures
            final(self)@ == old(self)@ + seq![ch],
    {
        self.buf.push(ch);
        proof {
            assert(final(self)@ =~= old(self)@ + seq![ch]);
        }
    }

    /// Appends raw content characters.
    pub fn push_str(&mut self, s: &str)
        ensures
            final(self)@ == old(self)@ + s@,
    {
        self.buf.append(s);
    }
}

} // verus!
