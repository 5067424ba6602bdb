//! Terminal control core for a line-oriented screen editor: raw-mode
//! session bookkeeping, escape-sequence decoding, screen-geometry
//! resolution, and atomic frame composition.

use vstd::prelude::*;

pub mod decoder;
pub mod editor;
pub mod geometry;
pub mod rawmode;
pub mod term;

verus! {

/// One decoded input event: a literal byte or a named control key.
#[derive(Clone, Copy, Debug, PartialEq, Eq, Structural)]
pub enum Key {
    Char(u8),
    Escape,
    Left,
    Right,
    Up,
    Down,
    PageUp,
    PageDown,
    Home,
    End,
    Delete,
}

/// Errors surfaced by the terminal core.
#[derive(Clone, Copy, Debug, PartialEq, Eq, Structural)]
pub enum TermError {
    /// A failing operating-system call on the terminal device
    /// (attribute get/set, read, write, geometry query).
    Device,
    /// A malformed or truncated response to the cursor-position probe.
    Protocol,
}

} // verus!
