//! Editor state and frame composition: cursor movement over the screen,
//! row drawing, full-frame refresh, and the per-event step of the main
//! loop. The caller owns the device: it feeds decoded keys in and writes
//! the composed frames out.

use vstd::prelude::*;
use vstd::string::StrSliceExecFns;

use crate::Key;
use crate::geometry::Geometry;
use crate::term::Terminal;
use crate::term::cursor_home_seq;
use crate::term::cursor_pos_seq;
use crate::term::erase_display_seq;
use crate::term::erase_line_seq;
use crate::term::hide_cursor_seq;
use crate::term::show_cursor_seq;

verus! {

/// The quit key: Ctrl-Q, the byte of `q` with the high bits stripped.
pub const CTRL_Q: u8 = 0x11;

/// The greeting shown on an empty buffer.
pub open spec fn welcome_text() -> Seq<char> {
    "Kilo editor -- version 0.1.0"@
}

/// `n` spaces.
pub open spec fn spaces(n: nat) -> Seq<char> {
    Seq::new(n, |k: int| ' ')
}

/// A row's text clipped to the screen width.
pub open spec fn truncated(row: Seq<char>, scols: nat) -> Seq<char> {
    if row.len() <= scols {
        row
    } else {
        row.take(scols as int)
    }
}

/// The greeting line: the greeting clipped to the screen width and
/// centered; when there is padding, its first column is a tilde.
pub open spec fn welcome_line(scols: nat) -> Seq<char> {
    let w = welcome_text();
    let len: int = if w.len() <= scols {
        w.len() as int
    } else {
        scols as int
    };
    let pad: int = (scols - len) / 2;
    (if pad > 0 {
        seq!['~'] + spaces((pad - 1) as nat)
    } else {
        Seq::<char>::empty()
    }) + w.take(len)
}

/// The content of screen line `y`: the text of the matching row, clipped;
/// past the last row a tilde, except that an empty buffer greets on the
/// line a third of the way down.
pub open spec fn line_content(rows: Seq<Seq<char>>, y: nat, srows: nat, scols: nat) -> Seq<char> {
    if y >= rows.len() {
        if rows.len() == 0 && y == srows / 3 {
            welcome_line(scols)
        } else {
            seq!['~']
        }
    } else {
        truncated(rows[y as int], scols)
    }
}

/// Screen line `y` as drawn: its content, erase-to-end-of-line, and — on
/// every line but the last — a carriage return and newline.
pub open spec fn frame_line(rows: Seq<Seq<char>>, y: nat, srows: nat, scols: nat) -> Seq<char> {
    line_content(rows, y, srows, scols) + erase_line_seq() + (if y + 1 < srows {
        "\r\n"@
    } else {
        Seq::<char>::empty()
    })
}

/// The first `k` screen lines as drawn, in order.
pub open spec fn drawn_rows_upto(rows: Seq<Seq<char>>, srows: nat, scols: nat, k: nat) -> Seq<char>
    decreases k,
{
    if k == 0 {
        Seq::<char>::empty()
    } else {
        drawn_rows_upto(rows, srows, scols, (k - 1) as nat) + frame_line(
            rows,
            (k - 1) as nat,
            srows,
            scols,
        )
    }
}

/// The whole screen's rows as drawn.
pub open spec fn drawn_rows(rows: Seq<Seq<char>>, srows: nat, scols: nat) -> Seq<char> {
    drawn_rows_upto(rows, srows, scols, srows)
}

/// One full refresh frame: hide the cursor, go home, draw every row, place
/// the cursor at its 1-based position, show the cursor.
pub open spec fn refresh_frame(
    rows: Seq<Seq<char>>,
    srows: nat,
    scols: nat,
    crow: nat,
    ccol: nat,
) -> Seq<char> {
    hide_cursor_seq() + cursor_home_seq() + drawn_rows(rows, srows, scols) + cursor_pos_seq(
        crow + 1,
        ccol + 1,
    ) + show_cursor_seq()
}

/// Where the cursor stands after one movement key: arrows move one step
/// and stop at the screen edges.
pub open spec fn moved_cursor(key: Key, row: int, col: int, srows: int, scols: int) -> (int, int) {
    match key {
        Key::Left => (row, if col != 0 { col - 1 } else { col }),
        Key::Right => (row, if col != scols - 1 { col + 1 } else { col }),
        Key::Up => (if row != 0 { row - 1 } else { row }, col),
        Key::Down => (if row != srows - 1 { row + 1 } else { row }, col),
        _ => (row, col),
    }
}

/// The editor: one compositor, the screen size, the cursor position
/// (0-based), and the text rows.
pub struct Editor {
    pub term: Terminal,
    pub screen_rows: usize,
    pub screen_cols: usize,
    pub cursor_row: usize,
    pub cursor_col: usize,
    pub rows: Vec<String>,
}

impl Editor {
    /// The screen has at least one row and one column, each of a size a
    /// geometry can report, and the cursor is on the screen.
    pub open spec fn wf(self) -> bool {
        &&& 1 <= self.screen_rows <= 0xffff
        &&& 1 <= self.screen_cols <= 0xffff
        &&& self.cursor_row < self.screen_rows
        &&& self.cursor_col < self.screen_cols
    }

    /// A fresh editor over a resolved screen geometry: empty text, cursor
    /// in the top-left corner, empty frame.
    pub fn new(geom: Geometry) -> (e: Editor)
        requires
            geom.wf(),
        ensures
            e.wf(),
            e.screen_rows == geom.rows as usize,
            e.screen_cols == geom.cols as usize,
            e.cursor_row == 0,
            e.cursor_col == 0,
            e.rows@.len() == 0,
            e.term@ == Seq::<char>::empty(),
    {
        Editor {
            term: Terminal::new(),
            screen_rows: geom.rows as usize,
            screen_cols: geom.cols as usize,
            cursor_row: 0,
            cursor_col: 0,
            rows: Vec::new(),
        }
    }

    /// Replaces the editor's text with rows read by the caller.
    pub fn load_rows(&mut self, rows: Vec<String>)
        requires
            old(self).wf(),
        ensures
            final(self).wf(),
            final(self).rows == rows,
            final(self).term == old(self).term,
            final(self).screen_rows == old(self).screen_rows,
            final(self).screen_cols == old(self).screen_cols,
            final(self).cursor_row == old(self).cursor_row,
            final(self).cursor_col == old(self).cursor_col,
    {
        self.rows = rows;
    }

    /// Moves the cursor one step for an arrow key, stopping at the screen
    /// edges; any other key leaves it in place.
    pub fn move_cursor(&mut self, key: Key)
        requires
            old(self).wf(),
        ensures
            final(self).wf(),
            final(self).cursor_row as int == moved_cursor(
                key,
                old(self).cursor_row as int,
                old(self).cursor_col as int,
                old(self).screen_rows as int,
                old(self).screen_cols as int,
            ).0,
            final(self).cursor_col as int == moved_cursor(
                key,
                old(self).cursor_row as int,
                old(self).cursor_col as int,
                old(self).screen_rows as int,
                old(self).screen_cols as int,
            ).1,
            final(self).term == old(self).term,
            final(self).rows == old(self).rows,
            final(self).screen_rows == old(self).screen_rows,
            final(self).screen_cols == old(self).screen_cols,
    {
        match key {
            Key::Left => {
                if self.cursor_col != 0 {
                    self.cursor_col = self.cursor_col - 1;
                }
            },
            Key::Right => {
                if self.cursor_col != self.screen_cols - 1 {
                    self.cursor_col = self.cursor_col + 1;
                }
            },
            Key::Up => {
                if self.cursor_row != 0 {
                    self.cursor_row = self.cursor_row - 1;
                }
            },
            Key::Down => {
                if self.cursor_row != self.screen_rows - 1 {
                    self.cursor_row = self.cursor_row + 1;
                }
            },
            _ => {},
        }
    }

    /// Draws screen line `y` into the frame: its content, erase-to-end-of-
    /// line, and — on every line but the last — a line break.
    fn emit_line(&mut self, y: usize)
        requires
            old(self).wf(),
            y < old(self).screen_rows,
        ensures
            final(self).wf(),
            final(self).term@ == old(self).term@ + frame_line(
                old(self).rows.deep_view(),
                y as nat,
                old(self).screen_rows as nat,
                old(self).screen_cols as nat,
            ),
            final(self).rows == old(self).rows,
            final(self).screen_rows == old(self).screen_rows,
            final(self).screen_cols == old(self).screen_cols,
            final(self).cursor_row == old(self).cursor_row,
            final(self).cursor_col == old(self).cursor_col,
    {
        let ghost base = self.term@;
        let ghost rv = self.rows.deep_view();
        let ghost srows = self.screen_rows as nat;
        let ghost scols = self.screen_cols as nat;
        if y >= self.rows.len() {
            if self.rows.len() == 0 && y == self.screen_rows / 3 {
                let w = "Kilo editor -- version 0.1.0";
                let wlen = w.unicode_len();
                let len = if wlen <= self.screen_cols {
                    wlen
                } else {
                    self.screen_cols
                };
                let mut padding = (self.screen_cols - len) / 2;
                if padding > 0 {
                    self.term.push('~');
                    padding = padding - 1;
                    let mut p: usize = 0;
                    while p < padding
                        invariant
                            p <= padding,
                            self.term@ == base + seq!['~'] + spaces(p as nat),
                            self.rows == old(self).rows,
                            self.screen_rows == old(self).screen_rows,
                            self.screen_cols == old(self).screen_cols,
                            self.cursor_row == old(self).cursor_row,
                            self.cursor_col == old(self).cursor_col,
                        decreases padding - p,
                    {
                        self.term.push(' ');
                        proof {
                            assert(spaces(p as nat).push(' ') =~= spaces((p + 1) as nat));
                            assert(self.term@ =~= base + seq!['~'] + spaces((p + 1) as nat));
                        }
                        p = p + 1;
                    }
                }
                self.term.push_str(w.substring_char(0, len));
                proof {
                    assert(self.term@ =~= base + welcome_line(scols));
                    assert(self.term@ =~= base + line_content(rv, y as nat, srows, scols));
                }
            } else {
                self.term.push('~');
                proof {
                    assert(self.term@ =~= base + line_content(rv, y as nat, srows, scols));
                }
            }
        } else {
            let rl = self.rows[y].as_str().unicode_len();
            let len = if rl <= self.screen_cols {
                rl
            } else {
                self.screen_cols
            };
            let piece = self.rows[y].as_str().substring_char(0, len);
            self.term.push_str(piece);
            proof {
                assert(rv[y as int] == self.rows@[y as int]@);
                assert(piece@ =~= truncated(rv[y as int], scols));
                assert(self.term@ =~= base + line_content(rv, y as nat, srows, scols));
            }
        }
        self.term.erase_in_line();
        if y < self.screen_rows - 1 {
            self.term.push_str("\r\n");
        }
        proof {
            assert(final(self).term@ =~= base + frame_line(rv, y as nat, srows, scols));
        }
    }

    /// Draws every screen line, in order, into the frame.
    pub fn draw_rows(&mut self)
        requires
            old(self).wf(),
        ensures
            final(self).wf(),
            final(self).term@ == old(self).term@ + drawn_rows(
                old(self).rows.deep_view(),
                old(self).screen_rows as nat,
                old(self).screen_cols as nat,
            ),
            final(self).rows == old(self).rows,
            final(self).screen_rows == old(self).screen_rows,
            final(self).screen_cols == old(self).screen_cols,
            final(self).cursor_row == old(self).cursor_row,
            final(self).cursor_col == old(self).cursor_col,
    {
        let ghost base = self.term@;
        let ghost rv = self.rows.deep_view();
        let ghost srows = self.screen_rows as nat;
        let ghost scols = self.screen_cols as nat;
        let mut y: usize = 0;
        proof {
            assert(base + drawn_rows_upto(rv, srows, scols, 0) =~= base);
        }
        while y < self.screen_rows
            invariant
                old(self).wf(),
                y <= self.screen_rows,
                srows == old(self).screen_rows as nat,
                scols == old(self).screen_cols as nat,
                base == old(self).term@,
                self.term@ == base + drawn_rows_upto(rv, srows, scols, y as nat),
                self.rows == old(self).rows,
                rv == self.rows.deep_view(),
                self.screen_rows == old(self).screen_rows,
                self.screen_cols == old(self).screen_cols,
                self.cursor_row == old(self).cursor_row,
                self.cursor_col == old(self).cursor_col,
            decreases self.screen_rows - y,
        {
            self.emit_line(y);
            proof {
                assert(drawn_rows_upto(rv, srows, scols, (y + 1) as nat) == drawn_rows_upto(
                    rv,
                    srows,
                    scols,
                    y as nat,
                ) + frame_line(rv, y as nat, srows, scols));
                assert(self.term@ =~= base + drawn_rows_upto(rv, srows, scols, (y + 1) as nat));
            }
            y = y + 1;
        }
    }

    /// Composes one full refresh frame and yields it for the caller to
    /// write in a single call; the compositor is left empty.
    pub fn refresh_screen(&mut self) -> (frame: String)
        requires
            old(self).wf(),
        ensures
            final(self).wf(),
            frame@ == refresh_frame(
                old(self).rows.deep_view(),
                old(self).screen_rows as nat,
                old(self).screen_cols as nat,
                old(self).cursor_row as nat,
                old(self).cursor_col as nat,
            ),
            final(self).term@ == Seq::<char>::empty(),
            final(self).rows == old(self).rows,
            final(self).screen_rows == old(self).screen_rows,
            final(self).screen_cols == old(self).screen_cols,
            final(self).cursor_row == old(self).cursor_row,
            final(self).cursor_col == old(self).cursor_col,
    {
        self.term.begin();
        self.term.hide_cursor();
        self.term.move_cursor();
        self.draw_rows();
        self.term.move_cursor_at(self.cursor_row + 1, self.cursor_col + 1);
        self.term.show_cursor();
        let frame = self.term.end();
        proof {
            assert(frame@ =~= refresh_frame(
                old(self).rows.deep_view(),
                old(self).screen_rows as nat,
                old(self).screen_cols as nat,
                old(self).cursor_row as nat,
                old(self).cursor_col as nat,
            ));
        }
        frame
    }

    /// One step of the main loop: applies a decoded key to the editor
    /// state. Arrows move the cursor; page keys move it a whole screen,
    /// stopping at the edges; home and end jump to the first and last
    /// column; the quit key composes a final clear-screen frame and asks
    /// the caller to stop; every other key is left to the caller's editing
    /// layer and changes nothing here.
    pub fn run(&mut self, key: Key) -> (quit: bool)
        requires
            old(self).wf(),
        ensures
            final(self).wf(),
            final(self).rows == old(self).rows,
            final(self).screen_rows == old(self).screen_rows,
            final(self).screen_cols == old(self).screen_cols,
            quit == (key == Key::Char(CTRL_Q)),
            !quit ==> final(self).term == old(self).term,
            quit ==> final(self).term@ == erase_display_seq() + cursor_home_seq(),
            (match key {
                Key::Up | Key::Down | Key::Left | Key::Right => final(self).cursor_row as int
                    == moved_cursor(
                    key,
                    old(self).cursor_row as int,
                    old(self).cursor_col as int,
                    old(self).screen_rows as int,
                    old(self).screen_cols as int,
                ).0 && final(self).cursor_col as int == moved_cursor(
                    key,
                    old(self).cursor_row as int,
                    old(self).cursor_col as int,
                    old(self).screen_rows as int,
                    old(self).screen_cols as int,
                ).1,
                Key::PageUp => final(self).cursor_row == 0 && final(self).cursor_col == old(self).cursor_col,
                Key::PageDown => final(self).cursor_row == old(self).screen_rows - 1 && final(self).cursor_col == old(self).cursor_col,
                Key::Home => final(self).cursor_col == 0 && final(self).cursor_row == old(self).cursor_row,
                Key::End => final(self).cursor_col == old(self).screen_cols - 1 && final(self).cursor_row == old(self).cursor_row,
                _ => final(self).cursor_row == old(self).cursor_row && final(self).cursor_col
                    == old(self).cursor_col,
            }),
    {
        match key {
            Key::Up | Key::Down | Key::Right | Key::Left => {
                self.move_cursor(key);
                false
            },
            Key::PageUp | Key::PageDown => {
                let times = self.screen_rows;
                let mut t: usize = 0;
                while t < times
                    invariant
                        old(self).wf(),
                        self.wf(),
                        t <= times,
                        times == old(self).screen_rows,
                        key == Key::PageUp || key == Key::PageDown,
                        key == Key::PageUp ==> (if old(self).cursor_row >= t {
                            self.cursor_row == old(self).cursor_row - t
                        } else {
                            self.cursor_row == 0
                        }),
                        key == Key::PageDown ==> (if old(self).cursor_row + t <= old(self).screen_rows - 1 {
                            self.cursor_row == old(self).cursor_row + t
                        } else {
                            self.cursor_row == old(self).screen_rows - 1
                        }),
                        self.cursor_col == old(self).cursor_col,
                        self.term == old(self).term,
                        self.rows == old(self).rows,
                        self.screen_rows == old(self).screen_rows,
                        self.screen_cols == old(self).screen_cols,
                    decreases times - t,
                {
                    self.move_cursor(
                        if key == Key::PageUp {
                            Key::Up
                        } else {
                            Key::Down
                        },
                    );
                    t = t + 1;
                }
                false
            },
            Key::Home => {
                self.cursor_col = 0;
                false
            },
            Key::End => {
                self.cursor_col = self.screen_cols - 1;
                false
            },
            Key::Char(c) => {
                if c == CTRL_Q {
                    self.term.begin();
                    self.term.erase_in_display();
                    self.term.move_cursor();
                    proof {
                        assert(final(self).term@ =~= erase_display_seq() + cursor_home_seq());
                    }
                    true
                } else {
                    false
                }
            },
            _ => false,
        }
    }
}

} // verus!
