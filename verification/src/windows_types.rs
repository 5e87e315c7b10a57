//! The windows watcher's reported vocabulary: the identities its events carry, and what placing a
//! window can fail with.

use vstd::prelude::*;

verus! {

/// A running app, by process id. `pid_t` is an `i32`, and an `i32` is not a process.
#[derive(Clone, Copy, PartialEq, Eq, Structural, Hash, Debug)]
pub struct Pid(pub i32);

/// A window's `CGWindowID`: the identity that outlives any one accessibility element naming it.
#[derive(Clone, Copy, PartialEq, Eq, Structural, Hash, Debug)]
pub struct WindowId(pub u32);

/// Placing a window failed.
#[derive(Clone, Copy, PartialEq, Eq, Structural, Debug)]
pub enum WindowError {
    /// `watch` was called off the main thread.
    NotMainThread,
    /// The Accessibility permission has not been granted.
    NotTrusted,
    /// The watcher has been dropped, so nothing is being observed at all.
    NotWatching,
}

impl WindowError {
    /// What the error says to a person.
    pub fn message(self) -> (s: &'static str)
        ensures
            s@ == match self {
                WindowError::NotMainThread => "freddie_windows::watch must run on the main thread"@,
                WindowError::NotTrusted => "Accessibility is not granted"@,
                WindowError::NotWatching => "not watching windows"@,
            },
    {
        match self {
            WindowError::NotMainThread => "freddie_windows::watch must run on the main thread",
            WindowError::NotTrusted => "Accessibility is not granted",
            WindowError::NotWatching => "not watching windows",
        }
    }
}

} // verus!
