//! The selection watcher's reported vocabulary: the pure data its facts and answers carry.

use vstd::prelude::*;
use crate::windows_types::Pid;

verus! {

/// What an app's focused element said when asked for its selected text.
#[derive(Clone, PartialEq, Eq, Debug)]
pub enum Selection {
    /// The selected text as the app reports it. Never empty: an empty answer is `Empty`.
    Text(String),
    /// The element answers the question, and nothing is selected.
    Empty,
    /// There is no focused element, or the focused element does not expose its selection.
    Unsupported,
}

/// What the watcher can tell you. Facts only: the consumer's model requests the value as a read
/// effect when it hears a fact.
#[derive(Clone, Copy, PartialEq, Eq, Structural, Debug)]
pub enum SelectionChange {
    /// This app's selection changed (or its focus moved between elements): whatever the consumer
    /// knew for this pid is dead.
    Changed(Pid),
    /// The app is gone: remove the entry.
    AppGone(Pid),
}

} // verus!
