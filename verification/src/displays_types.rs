//! The display watcher's reported vocabulary: the pure data its reports carry.

use vstd::prelude::*;

verus! {

/// A display's id for correlation within a connection session.
#[derive(Clone, Copy, PartialEq, Eq, Structural, Hash, Debug)]
pub struct DisplayId(pub u32);

/// A display present according to macOS.
#[derive(Clone, PartialEq, Eq, Debug)]
pub struct Display {
    /// The `CGDirectDisplayID`, stable for the life of the connection.
    pub id: DisplayId,
    /// Whether this is the laptop's own panel.
    pub builtin: bool,
    /// The display's localized name.
    pub name: String,
}

} // verus!
