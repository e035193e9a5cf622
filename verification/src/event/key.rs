//! Keys that the user presses.

use vstd::prelude::*;

verus! {

/// A key press, as the event loop reads it.
#[derive(Clone, Copy, Debug, PartialEq, Eq, Structural)]
pub enum Key {
    /// A character key.
    Char(char),
    /// A character key held with Ctrl.
    Ctrl(char),
    /// Any other key.
    Unknown,
}

} // verus!
