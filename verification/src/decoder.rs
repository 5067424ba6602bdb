//! Escape-sequence decoder: a state machine that turns the terminal's raw
//! byte stream into discrete input events.
//!
//! The byte source is non-blocking: a read that times out hands the decoder
//! "no byte" (`None`), which is the normal idle signal, not an error. The
//! decoder resolves the ambiguity of escape-prefixed sequences by falling
//! back to the shortest valid interpretation already accumulated (a bare
//! escape) whenever no further byte arrives, and by silently dropping
//! extended sequences it does not recognize.

use vstd::prelude::*;

use crate::Key;

verus! {

/// The escape byte that opens every multi-byte control sequence.
pub const ESC: u8 = 0x1b;

/// Decoding position inside a (possibly multi-byte) escape sequence.
#[derive(Clone, Copy, Debug, PartialEq, Eq, Structural)]
pub enum DecodeState {
    /// Between sequences: the next byte starts a fresh event.
    Start,
    /// Seen `ESC`; awaiting a second byte.
    Esc,
    /// Seen `ESC [`; awaiting a final byte or the first digit.
    Csi,
    /// Seen `ESC [` and one or more digits; the payload is the number
    /// accumulated so far (saturated once it can no longer be a known key).
    CsiNum(u32),
    /// Seen `ESC O`; awaiting a final byte.
    EscO,
}

/// Whether `b` is an ASCII decimal digit.
pub open spec fn is_digit(b: u8) -> bool {
    48 <= b <= 57
}

/// The key named by the number of an extended sequence `ESC [ <n> ~`,
/// or `None` for a number no known terminal sends.
pub open spec fn extended_key(n: u32) -> Option<Key> {
    if n == 1 || n == 7 {
        Some(Key::Home)
    } else if n == 3 {
        Some(Key::Delete)
    } else if n == 4 || n == 8 {
        Some(Key::End)
    } else if n == 5 {
        Some(Key::PageUp)
    } else if n == 6 {
        Some(Key::PageDown)
    } else {
        None
    }
}

/// Extends the accumulated number of an extended sequence by one digit.
/// Every key a terminal names this way has a single-digit number, so the
/// accumulator saturates once it is too large ever to match one; saturation
/// keeps every reachable value below 10000.
pub open spec fn push_digit(n: u32, d: u8) -> u32 {
    if n < 1000 {
        (n * 10 + (d - 48)) as u32
    } else {
        n
    }
}

/// One transition of the decoder: from a state and one read outcome
/// (`Some(byte)` or `None` for a timed-out read) to the next state and
/// at most one decoded event.
pub open spec fn spec_step(st: DecodeState, b: Option<u8>) -> (DecodeState, Option<Key>) {
    match st {
        DecodeState::Start => match b {
            Some(c) => if c == ESC {
                (DecodeState::Esc, None)
            } else {
                (DecodeState::Start, Some(Key::Char(c)))
            },
            None => (DecodeState::Start, None),
        },
        DecodeState::Esc => match b {
            Some(c) => if c == 91 {  // '['
                (DecodeState::Csi, None)
            } else if c == 79 {  // 'O'
                (DecodeState::EscO, None)
            } else {
                (DecodeState::Start, Some(Key::Escape))
            },
            None => (DecodeState::Start, Some(Key::Escape)),
        },
        DecodeState::Csi => match b {
            Some(c) => if c == 65 {  // 'A'
                (DecodeState::Start, Some(Key::Up))
            } else if c == 66 {  // 'B'
                (DecodeState::Start, Some(Key::Down))
            } else if c == 67 {  // 'C'
                (DecodeState::Start, Some(Key::Right))
            } else if c == 68 {  // 'D'
                (DecodeState::Start, Some(Key::Left))
            } else if c == 72 {  // 'H'
                (DecodeState::Start, Some(Key::Home))
            } else if c == 70 {  // 'F'
                (DecodeState::Start, Some(Key::End))
            } else if is_digit(c) {
                (DecodeState::CsiNum((c - 48) as u32), None)
            } else {
                (DecodeState::Start, Some(Key::Escape))
            },
            None => (DecodeState::Start, Some(Key::Escape)),
        },
        DecodeState::CsiNum(n) => match b {
            Some(c) => if is_digit(c) {
                (DecodeState::CsiNum(push_digit(n, c)), None)
            } else if c == 126 {  // '~'
                // An unmapped number yields no event: the sequence is
                // silently dropped and decoding resumes.
                (DecodeState::Start, extended_key(n))
            } else {
                // Malformed terminator: drop the sequence, no event.
                (DecodeState::Start, None)
            },
            None => (DecodeState::Start, Some(Key::Escape)),
        },
        DecodeState::EscO => match b {
            Some(c) => if c == 72 {  // 'H'
                (DecodeState::Start, Some(Key::Home))
            } else if c == 70 {  // 'F'
                (DecodeState::Start, Some(Key::End))
            } else {
                (DecodeState::Start, Some(Key::Escape))
            },
            None => (DecodeState::Start, Some(Key::Escape)),
        },
    }
}

/// Executable form of one decoder transition.
pub fn step(st: DecodeState, b: Option<u8>) -> (r: (DecodeState, Option<Key>))
    ensures
        r == spec_step(st, b),
{
    match st {
        DecodeState::Start => match b {
            Some(c) => if c == ESC {
                (DecodeState::Esc, None)
            } else {
                (DecodeState::Start, Some(Key::Char(c)))
            },
            None => (DecodeState::Start, None),
        },
        DecodeState::Esc => match b {
            Some(c) => if c == 91 {
                (DecodeState::Csi, None)
            } else if c == 79 {
                (DecodeState::EscO, None)
            } else {
                (DecodeState::Start, Some(Key::Escape))
            },
            None => (DecodeState::Start, Some(Key::Escape)),
        },
        DecodeState::Csi => match b {
            Some(c) => if c == 65 {
                (DecodeState::Start, Some(Key::Up))
            } else if c == 66 {
                (DecodeState::Start, Some(Key::Down))
            } else if c == 67 {
                (DecodeState::Start, Some(Key::Right))
            } else if c == 68 {
                (DecodeState::Start, Some(Key::Left))
            } else if c == 72 {
                (DecodeState::Start, Some(Key::Home))
            } else if c == 70 {
                (DecodeState::Start, Some(Key::End))
            } else if 48 <= c && c <= 57 {
                (DecodeState::CsiNum((c - 48) as u32), None)
            } else {
                (DecodeState::Start, Some(Key::Escape))
            },
            None => (DecodeState::Start, Some(Key::Escape)),
        },
        DecodeState::CsiNum(n) => match b {
            Some(c) => if 48 <= c && c <= 57 {
                let nn: u32 = if n < 1000 {
                    n * 10 + (c - 48) as u32
                } else {
                    n
                };
                (DecodeState::CsiNum(nn), None)
            } else if c == 126 {
                let key: Option<Key> = if n == 1 || n == 7 {
                    Some(Key::Home)
                } else if n == 3 {
                    Some(Key::Delete)
                } else if n == 4 || n == 8 {
                    Some(Key::End)
                } else if n == 5 {
                    Some(Key::PageUp)
                } else if n == 6 {
                    Some(Key::PageDown)
                } else {
                    None
                };
                (DecodeState::Start, key)
            } else {
                (DecodeState::Start, None)
            },
            None => (DecodeState::Start, Some(Key::Escape)),
        },
        DecodeState::EscO => match b {
            Some(c) => if c == 72 {
                (DecodeState::Start, Some(Key::Home))
            } else if c == 70 {
                (DecodeState::Start, Some(Key::End))
            } else {
                (DecodeState::Start, Some(Key::Escape))
            },
            None => (DecodeState::Start, Some(Key::Escape)),
        },
    }
}

/// An incremental decoder: the caller feeds it one read outcome at a time
/// and receives at most one event per feeding.
pub struct Decoder {
    state: DecodeState,
}

impl Decoder {
    /// The decoder's current position inside a sequence.
    pub closed spec fn state(self) -> DecodeState {
        self.state
    }

    /// A fresh decoder, between sequences.
    pub fn new() -> (d: Decoder)
        ensures
            d.state() == DecodeState::Start,
    {
        Decoder { state: DecodeState::Start }
    }

    /// Feeds one read outcome (`Some(byte)`, or `None` for a timed-out
    /// read) and returns the event it completes, if any.
    pub fn feed(&mut self, b: Option<u8>) -> (r: Option<Key>)
        ensures
            final(self).state() == spec_step(old(self).state(), b).0,
            r == spec_step(old(self).state(), b).1,
    {
        let (st, ev) = step(self.state, b);
        self.state = st;
        ev
    }
}

/// Decoding of one event out of a finite byte record, starting between
/// sequences at position `i`: bytes are consumed one at a time until an
/// event is produced; exhaustion of the record stands for a read timeout.
/// Returns the event (if any) and the position after the consumed bytes.
pub open spec fn spec_decode_next(bytes: Seq<u8>, st: DecodeState, i: int) -> (Option<Key>, int)
    decreases bytes.len() - i,
{
    if i < 0 || i >= bytes.len() {
        (spec_step(st, None).1, i)
    } else {
        let r = spec_step(st, Some(bytes[i]));
        if r.1 is Some {
            (r.1, i + 1)
        } else {
            spec_decode_next(bytes, r.0, i + 1)
        }
    }
}

/// Decodes the next event from `bytes[from..]`, treating the end of the
/// record as a read timeout. Returns the event (`None` only when the whole
/// remainder decodes to nothing) and the position after the bytes consumed.
pub fn decode_next(bytes: &Vec<u8>, from: usize) -> (r: (Option<Key>, usize))
    requires
        from <= bytes.len(),
    ensures
        r.0 == spec_decode_next(bytes@, DecodeState::Start, from as int).0,
        r.1 == spec_decode_next(bytes@, DecodeState::Start, from as int).1,
{
    let mut st = DecodeState::Start;
    let mut i: usize = from;
    loop
        invariant
            from <= i <= bytes.len(),
            spec_decode_next(bytes@, DecodeState::Start, from as int) == spec_decode_next(
                bytes@,
                st,
                i as int,
            ),
        decreases bytes.len() - i,
    {
        if i >= bytes.len() {
            let r = step(st, None);
            return (r.1, i);
        }
        let b = bytes[i];
        let r = step(st, Some(b));
        i = i + 1;
        st = r.0;
        if r.1.is_some() {
            return (r.1, i);
        }
    }
}

} // verus!

