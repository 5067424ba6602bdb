//! Screen-geometry resolution: validation of the direct operating-system
//! size query, and parsing of the cursor-position-report fallback.
//!
//! When the OS cannot report the window size, the caller writes
//! [`probe_request`] to the terminal (move the cursor maximally right and
//! down, then ask for a device status report) and reads back a reply of the
//! form `ESC [ <rows> ; <cols> R` on the same stream used for keys;
//! [`parse_cursor_report`] turns that reply into a [`Geometry`] or rejects
//! it as malformed.

use vstd::prelude::*;

use crate::TermError;
use crate::decoder::is_digit;

verus! {

/// The usable screen size: a strictly positive number of rows and columns.
#[derive(Clone, Copy, Debug, PartialEq, Eq, Structural)]
pub struct Geometry {
    pub rows: u16,
    pub cols: u16,
}

impl Geometry {
    /// Both dimensions are strictly positive.
    pub open spec fn wf(self) -> bool {
        self.rows >= 1 && self.cols >= 1
    }
}

/// Validates a window size reported by the direct operating-system query:
/// the report is accepted exactly when both dimensions are strictly
/// positive; a degenerate report means the caller must fall back to the
/// cursor-position probe.
pub fn from_os_report(rows: u16, cols: u16) -> (r: Option<Geometry>)
    ensures
        r is Some <==> rows >= 1 && cols >= 1,
        r matches Some(g) ==> g == (Geometry { rows, cols }),
{
    if rows >= 1 && cols >= 1 {
        Some(Geometry { rows, cols })
    } else {
        None
    }
}

/// The bytes of the cursor-position probe: move the cursor far right and
/// far down (the terminal clips both moves to the real screen edge), then
/// request a report of the active cursor position.
pub fn probe_request() -> (r: String)
    ensures
        r@ == "\x1b[999C\x1b[999B\x1b[6n"@,
{
    String::from_str("\x1b[999C\x1b[999B\x1b[6n")
}

/// The number denoted by a string of ASCII decimal digits (most
/// significant first). Meaningful only when every byte is a digit.
pub open spec fn dec_value(s: Seq<u8>) -> int
    decreases s.len(),
{
    if s.len() == 0 {
        0
    } else {
        dec_value(s.drop_last()) * 10 + (s.last() - 48)
    }
}

/// Whether every byte of `s` is an ASCII decimal digit.
pub open spec fn all_digits(s: Seq<u8>) -> bool {
    forall|k: int| 0 <= k < s.len() ==> is_digit(#[trigger] s[k])
}

/// The shape of a well-formed cursor-position report `ESC [ <rows> ; <cols> R`
/// whose separating `;` stands at position `mid`: the two-byte prefix, a
/// nonempty run of digits, the separator, a second nonempty run of digits,
/// and the terminating `R` as the last byte.
pub open spec fn cpr_shape(b: Seq<u8>, mid: int) -> bool {
    &&& b.len() >= 6
    &&& 3 <= mid <= b.len() - 3
    &&& b[0] == 0x1b
    &&& b[1] == 91  // '['
    &&& b[mid] == 59  // ';'
    &&& b[b.len() - 1] == 82  // 'R'
    &&& all_digits(b.subrange(2, mid))
    &&& all_digits(b.subrange(mid + 1, b.len() - 1))
}

/// The position of the separator of a well-shaped report (meaningful only
/// when some position satisfies [`cpr_shape`]; it is then unique, because
/// the bytes before the separator are all digits and `;` is not one).
pub open spec fn cpr_mid(b: Seq<u8>) -> int {
    choose|mid: int| cpr_shape(b, mid)
}

/// The rows field of a well-shaped report, as a number.
pub open spec fn cpr_rows(b: Seq<u8>) -> int {
    dec_value(b.subrange(2, cpr_mid(b)))
}

/// The columns field of a well-shaped report, as a number.
pub open spec fn cpr_cols(b: Seq<u8>) -> int {
    dec_value(b.subrange(cpr_mid(b) + 1, b.len() - 1))
}

/// A cursor-position report is valid when it is well shaped and both
/// fields denote a strictly positive number that fits the geometry's
/// integer size.
pub open spec fn valid_cpr(b: Seq<u8>) -> bool {
    &&& exists|mid: int| cpr_shape(b, mid)
    &&& 1 <= cpr_rows(b) <= 0xffff
    &&& 1 <= cpr_cols(b) <= 0xffff
}

/// The separator position of a well-shaped report is unique: any byte
/// before a candidate separator is a digit, and `;` is not a digit.
proof fn lemma_cpr_mid_unique(b: Seq<u8>, mid: int)
    requires
        cpr_shape(b, mid),
    ensures
        cpr_mid(b) == mid,
{
    let m = cpr_mid(b);
    assert(cpr_shape(b, m));
    if m < mid {
        assert(b.subrange(2, mid)[m - 2] == b[m]);
        assert(false);
    }
    if m > mid {
        assert(b.subrange(2, m)[mid - 2] == b[mid]);
        assert(false);
    }
}

/// Whether `b` is an ASCII decimal digit.
fn digit_byte(b: u8) -> (r: bool)
    ensures
        r == is_digit(b),
{
    48 <= b && b <= 57
}

/// Scans the run of digits of `buf` that starts at `start` and stops at the
/// first non-digit or at the last byte (where the terminator must stand).
/// Returns the position after the run and the number the run denotes; the
/// number is reported exactly while it fits a geometry field, and only as
/// "too large" beyond that.
fn scan_field(buf: &Vec<u8>, start: usize) -> (r: (usize, u32))
    requires
        buf.len() >= 2,
        start <= buf.len() - 1,
    ensures
        start <= r.0 <= buf@.len() - 1,
        forall|k: int| start <= k < r.0 ==> is_digit(#[trigger] buf@[k]),
        r.0 < buf@.len() - 1 ==> !is_digit(buf@[r.0 as int]),
        dec_value(buf@.subrange(start as int, r.0 as int)) <= 0xffff ==> r.1 == dec_value(
            buf@.subrange(start as int, r.0 as int),
        ),
        dec_value(buf@.subrange(start as int, r.0 as int)) > 0xffff ==> r.1 > 0xffff,
{
    let n = buf.len();
    let mut i: usize = start;
    let mut acc: u32 = 0;
    while i < n - 1 && digit_byte(buf[i])
        invariant
            n == buf@.len(),
            n >= 2,
            start <= i <= n - 1,
            forall|k: int| start <= k < i ==> is_digit(#[trigger] buf@[k]),
            acc <= 655359,
            dec_value(buf@.subrange(start as int, i as int)) <= 0xffff ==> acc == dec_value(
                buf@.subrange(start as int, i as int),
            ),
            dec_value(buf@.subrange(start as int, i as int)) > 0xffff ==> acc > 0xffff,
        decreases n - i,
    {
        let d = (buf[i] - 48) as u32;
        proof {
            let prev = buf@.subrange(start as int, i as int);
            let next = buf@.subrange(start as int, i + 1);
            assert(next.drop_last() =~= prev);
            assert(next.last() == buf@[i as int]);
        }
        if acc <= 0xffff {
            acc = acc * 10 + d;
        }
        i = i + 1;
    }
    (i, acc)
}

/// Parses the terminal's reply to the cursor-position probe. The reply is
/// accepted exactly when it has the shape `ESC [ <rows> ; <cols> R` with
/// two nonempty runs of digits denoting strictly positive numbers that fit
/// the geometry's integer size; any malformation (missing prefix, missing
/// separator, non-numeric or empty field, missing terminator, value out of
/// range) is a protocol error.
pub fn parse_cursor_report(buf: &Vec<u8>) -> (r: Result<Geometry, TermError>)
    ensures
        r is Ok <==> valid_cpr(buf@),
        r matches Ok(g) ==> g.rows as int == cpr_rows(buf@) && g.cols as int == cpr_cols(buf@)
            && g.wf(),
        r is Err ==> r == Err::<Geometry, TermError>(TermError::Protocol),
{
    let n = buf.len();
    if n < 6 {
        assert(forall|mid: int| !cpr_shape(buf@, mid));
        return Err(TermError::Protocol);
    }
    if buf[0] != 0x1b || buf[1] != 91 || buf[n - 1] != 82 {
        assert(forall|mid: int| !cpr_shape(buf@, mid));
        return Err(TermError::Protocol);
    }
    let (mid, rows_acc) = scan_field(buf, 2);
    if mid == 2 || mid >= n - 1 || buf[mid] != 59 {
        proof {
            assert forall|m: int| !cpr_shape(buf@, m) by {
                if cpr_shape(buf@, m) {
                    if mid == 2 {
                        assert(buf@.subrange(2, m)[0] == buf@[2]);
                    } else if mid >= n - 1 {
                        assert(is_digit(buf@[m]));
                    } else {
                        if m < mid {
                            assert(is_digit(buf@[m]));
                        } else if m > mid {
                            assert(buf@.subrange(2, m)[mid - 2] == buf@[mid as int]);
                        }
                    }
                }
            }
        }
        return Err(TermError::Protocol);
    }
    let (fin, cols_acc) = scan_field(buf, mid + 1);
    if fin < n - 1 || fin == mid + 1 {
        proof {
            assert forall|m: int| !cpr_shape(buf@, m) by {
                if cpr_shape(buf@, m) {
                    if m < mid {
                        assert(is_digit(buf@[m]));
                    } else if m > mid {
                        assert(buf@.subrange(2, m)[mid - 2] == buf@[mid as int]);
                    } else {
                        assert(buf@.subrange(m + 1, n - 1)[fin - (mid + 1)] == buf@[fin as int]);
                    }
                }
            }
        }
        return Err(TermError::Protocol);
    }
    proof {
        assert(buf@.subrange(2, mid as int) =~= buf@.subrange(2, mid as int));
        assert(cpr_shape(buf@, mid as int));
        lemma_cpr_mid_unique(buf@, mid as int);
    }
    if rows_acc == 0 || rows_acc > 0xffff || cols_acc == 0 || cols_acc > 0xffff {
        return Err(TermError::Protocol);
    }
    Ok(Geometry { rows: rows_acc as u16, cols: cols_acc as u16 })
}

} // verus!

