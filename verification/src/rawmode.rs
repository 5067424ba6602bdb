//! Raw-mode session: captures the terminal's line-discipline settings at
//! entry, derives the uncooked attribute set to apply for the session's
//! lifetime, and yields back the exact snapshot — never a derived value —
//! when the session ends.
//!
//! The session works on a plain-value model of the settings; reading them
//! from and writing them back to the device are the caller's operating-system
//! calls. The flag values and control-character slot indices follow the
//! common Linux layout.

use vstd::prelude::*;

verus! {

/// Number of control-character slots in the line-discipline configuration.
pub const NCCS: usize = 32;

/// Input flag: signal an interrupt on a break condition.
pub const BRKINT: u32 = 0x0002;

/// Input flag: translate carriage return to newline.
pub const ICRNL: u32 = 0x0100;

/// Input flag: enable input parity checking.
pub const INPCK: u32 = 0x0010;

/// Input flag: strip the eighth bit off input characters.
pub const ISTRIP: u32 = 0x0020;

/// Input flag: start/stop flow control on input.
pub const IXON: u32 = 0x0400;

/// Output flag: output post-processing.
pub const OPOST: u32 = 0x0001;

/// Control flag: eight-bit character size.
pub const CS8: u32 = 0x0030;

/// Local flag: echo input characters.
pub const ECHO: u32 = 0x0008;

/// Local flag: canonical (line-buffered) input.
pub const ICANON: u32 = 0x0002;

/// Local flag: extended input processing.
pub const IEXTEN: u32 = 0x8000;

/// Local flag: generate signals from control characters.
pub const ISIG: u32 = 0x0001;

/// Control-character slot: read timeout, in tenths of a second.
pub const VTIME: usize = 5;

/// Control-character slot: minimum bytes before a read returns.
pub const VMIN: usize = 6;

/// A snapshot of the terminal's line-discipline configuration, held as
/// plain values: the four flag words, the line discipline, the
/// control-character bytes, and the two line speeds.
#[derive(Clone, Debug, PartialEq, Eq)]
pub struct TermAttrs {
    pub iflag: u32,
    pub oflag: u32,
    pub cflag: u32,
    pub lflag: u32,
    pub line: u8,
    pub cc: Vec<u8>,
    pub ispeed: u32,
    pub ospeed: u32,
}

/// The mathematical value of a snapshot.
pub struct AttrsModel {
    pub iflag: u32,
    pub oflag: u32,
    pub cflag: u32,
    pub lflag: u32,
    pub line: u8,
    pub cc: Seq<u8>,
    pub ispeed: u32,
    pub ospeed: u32,
}

impl TermAttrs {
    /// The snapshot carries one byte per control-character slot.
    pub open spec fn wf(self) -> bool {
        self.cc@.len() == NCCS
    }

    /// The snapshot as a mathematical value.
    pub open spec fn model(self) -> AttrsModel {
        AttrsModel {
            iflag: self.iflag,
            oflag: self.oflag,
            cflag: self.cflag,
            lflag: self.lflag,
            line: self.line,
            cc: self.cc@,
            ispeed: self.ispeed,
            ospeed: self.ospeed,
        }
    }
}

/// The uncooked attribute set derived from a snapshot: break-to-interrupt,
/// CR-to-NL translation, input parity checking, bit stripping and input
/// flow control off; output post-processing off; eight-bit characters;
/// echo, canonical input, extended input processing and signal generation
/// off; reads return after a short timeout even with no bytes.
pub open spec fn spec_make_raw(a: AttrsModel) -> AttrsModel {
    AttrsModel {
        iflag: a.iflag & !(BRKINT | ICRNL | INPCK | ISTRIP | IXON),
        oflag: a.oflag & !OPOST,
        cflag: a.cflag | CS8,
        lflag: a.lflag & !(ECHO | ICANON | IEXTEN | ISIG),
        line: a.line,
        cc: a.cc.update(VMIN as int, 0).update(VTIME as int, 1),
        ispeed: a.ispeed,
        ospeed: a.ospeed,
    }
}

/// Derives the uncooked attribute set from a captured snapshot. The
/// snapshot itself is left untouched.
pub fn make_raw(orig: &TermAttrs) -> (raw: TermAttrs)
    requires
        orig.wf(),
    ensures
        raw.wf(),
        raw.model() == spec_make_raw(orig.model()),
{
    let mut cc: Vec<u8> = Vec::new();
    let mut i: usize = 0;
    while i < NCCS
        invariant
            i <= NCCS,
            orig.cc@.len() == NCCS,
            cc@.len() == i,
            forall|j: int| 0 <= j < i ==> cc@[j] == spec_make_raw(orig.model()).cc[j],
        decreases NCCS - i,
    {
        let v: u8 = if i == VTIME {
            1
        } else if i == VMIN {
            0
        } else {
            orig.cc[i]
        };
        cc.push(v);
        i = i + 1;
    }
    proof {
        assert(cc@ =~= spec_make_raw(orig.model()).cc);
    }
    TermAttrs {
        iflag: orig.iflag & !(BRKINT | ICRNL | INPCK | ISTRIP | IXON),
        oflag: orig.oflag & !OPOST,
        cflag: orig.cflag | CS8,
        lflag: orig.lflag & !(ECHO | ICANON | IEXTEN | ISIG),
        line: orig.line,
        cc,
        ispeed: orig.ispeed,
        ospeed: orig.ospeed,
    }
}

/// A raw-mode session: owns the snapshot captured at entry for its whole
/// lifetime, reads it once at construction, and yields it back exactly once
/// at teardown. At most one session should be active per process.
pub struct RawSession {
    orig: TermAttrs,
}

impl RawSession {
    /// The snapshot captured when the session was entered.
    pub closed spec fn snapshot(self) -> AttrsModel {
        self.orig.model()
    }

    pub closed spec fn wf(self) -> bool {
        self.orig.wf()
    }

    /// The session value that [`RawSession::enter`] constructs from a
    /// captured snapshot.
    pub closed spec fn spec_enter(current: TermAttrs) -> RawSession {
        RawSession { orig: current }
    }

    /// The attribute value that [`RawSession::finish`] yields at teardown.
    pub closed spec fn spec_finish(s: RawSession) -> TermAttrs {
        s.orig
    }

    /// Begins a session by taking ownership of the attributes read from the
    /// device. The caller then applies [`RawSession::raw_attrs`] to the
    /// device for the session's lifetime.
    pub fn enter(current: TermAttrs) -> (s: RawSession)
        requires
            current.wf(),
        ensures
            s.wf(),
            s == RawSession::spec_enter(current),
            s.snapshot() == current.model(),
    {
        RawSession { orig: current }
    }

    /// The uncooked attribute set to apply to the device while the session
    /// is active.
    pub fn raw_attrs(&self) -> (r: TermAttrs)
        requires
            self.wf(),
        ensures
            r.wf(),
            r.model() == spec_make_raw(self.snapshot()),
    {
        make_raw(&self.orig)
    }

    /// Ends the session, yielding the exact snapshot captured at entry for
    /// the caller to write back to the device. If that write fails, the
    /// caller must treat it as fatal: continuing would leave the terminal
    /// unusable.
    pub fn finish(self) -> (r: TermAttrs)
        requires
            self.wf(),
        ensures
            r.wf(),
            r == RawSession::spec_finish(self),
            r.model() == self.snapshot(),
    {
        self.orig
    }
}

/// Raw-mode round trip: for any captured snapshot, the attribute value a
/// session restores at teardown is the snapshot itself, byte for byte —
/// never a value derived from the raw attributes applied while the session
/// was active, however the terminal's settings were changed in between.
pub proof fn lemma_session_round_trip(a: TermAttrs)
    ensures
        RawSession::spec_finish(RawSession::spec_enter(a)) == a,
        RawSession::spec_enter(a).snapshot() == a.model(),
{
}

} // verus!
