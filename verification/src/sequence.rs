//! An ordered run of keys, typed with no modifiers, that the caller acts on when it completes, and
//! that may wait only so long for its next key.

use vstd::prelude::*;
use crate::key_sequence::{self as run, Step};
use crate::keys::{Key, KeyEvent, KeyPress, PressType, key_name};
use crate::timer::{TimerGuard, TimerId};
use std::time::Duration;

verus! {

pub use crate::key_sequence::KeySequenceOutcome;

/// A run of keys that means something other than what it types: `jk`, say.
///
/// Each key is swallowed as it arrives, so nothing reaches the app until the run breaks, when the
/// swallowed keys replay in order, or completes, when they are dropped and the caller acts.
///
/// The run demands its keys bare, and takes them rolled: any modifier flag breaks it, but the next
/// key may go down before the one before it comes up. It may have a window: how long a run waits
/// for its next key, with the guard for that wait held while a run is live.
pub struct KeySequence {
    run: run::KeySequence,
    /// The window a run of this sequence waits, and the guard for it while one is live. `None`
    /// for a sequence that waits forever.
    window: Option<Window>,
}

/// How long a run waits for its next key, and what cancels that wait.
///
/// The two are one field because a guard without a duration is nonsense: there would be nothing
/// to have armed.
struct Window {
    duration: Duration,
    /// Armed while a run is live, dropped when it ends, which is what cancels the wait.
    timer: Option<TimerGuard>,
}

/// How one swallowed press reads in the log: its key and an arrow, `v` going down and `^` coming
/// up, after a space for the first and a comma for the rest.
pub open spec fn press_text(first: bool, p: KeyPress) -> Seq<char> {
    (if first { " "@ } else { ", "@ }) + key_name(p.key) + " "@ + match p.press {
        PressType::Down => "v"@,
        PressType::Up => "^"@,
    }
}

/// The swallowed presses as the log prints them, in arrival order.
pub open spec fn presses_text(s: Seq<KeyPress>) -> Seq<char>
    decreases s.len(),
{
    if s.len() == 0 {
        Seq::empty()
    } else {
        presses_text(s.drop_last()) + press_text(s.len() == 1, s.last())
    }
}

/// How a sequence reads in the log: only what the run has swallowed, `KeySequence { KeyJ v, KeyJ
/// ^ }`, or `KeySequence {}` when idle.
pub open spec fn sequence_text(s: Seq<KeyPress>) -> Seq<char> {
    "KeySequence {"@ + presses_text(s) + if s.len() == 0 { "}"@ } else { " }"@ }
}

impl KeySequence {
    /// The keys that make up the run.
    pub closed spec fn keys_spec(&self) -> Seq<Key> {
        self.run.keys_spec()
    }

    /// What the run has swallowed so far, in arrival order.
    pub closed spec fn swallowed_spec(&self) -> Seq<KeyPress> {
        self.run.swallowed_spec()
    }

    /// How long a run waits for its next key, or `None` if it waits forever.
    pub closed spec fn window_spec(&self) -> Option<Duration> {
        match self.window {
            Some(w) => Some(w.duration),
            None => None,
        }
    }

    /// The timer whose guard the run in progress holds, if one is armed.
    pub closed spec fn armed(&self) -> Option<TimerId> {
        match self.window {
            Some(w) => match w.timer {
                Some(g) => Some(g.id_spec()),
                None => None,
            },
            None => None,
        }
    }

    /// A guard is held only while a run is live.
    #[verifier::type_invariant]
    spec fn inv(&self) -> bool {
        self.armed() is Some ==> self.swallowed_spec().len() > 0
    }

    /// A sequence of `keys`, idle, waiting `window` for each next key, or forever.
    pub fn new(keys: &'static [Key], window: Option<Duration>) -> (r: Self)
        requires
            keys@.len() > 0,
        ensures
            r.keys_spec() == keys@,
            r.swallowed_spec() == Seq::<KeyPress>::empty(),
            r.window_spec() == window,
            r.armed() is None,
    {
        let window = match window {
            Some(duration) => Some(Window { duration, timer: None }),
            None => None,
        };
        KeySequence { run: run::KeySequence::new(keys), window }
    }

    /// How long a run of this sequence waits for its next key, or `None` if it waits forever.
    pub fn window(&self) -> (r: Option<Duration>)
        ensures
            r == self.window_spec(),
    {
        match &self.window {
            Some(w) => Some(w.duration),
            None => None,
        }
    }

    /// Give the run in progress the guard for its window, so the wait is cancelled by the run
    /// ending rather than by the caller remembering to.
    pub fn hold(&mut self, guard: TimerGuard)
        requires
            old(self).swallowed_spec().len() > 0,
            old(self).window_spec() is Some,
        ensures
            final(self).keys_spec() == old(self).keys_spec(),
            final(self).swallowed_spec() == old(self).swallowed_spec(),
            final(self).window_spec() == old(self).window_spec(),
            final(self).armed() == Some(guard.id_spec()),
    {
        let duration = match &self.window {
            Some(w) => w.duration,
            None => return,
        };
        self.window = Some(Window { duration, timer: Some(guard) });
    }

    /// Whether the run is idle: it has swallowed nothing. A guard never outlives its run, so an idle
    /// sequence holds none.
    pub fn is_idle(&self) -> (r: bool)
        ensures
            r == (self.swallowed_spec().len() == 0),
            r ==> self.armed() is None,
    {
        proof {
            use_type_invariant(self);
        }
        self.run.is_idle()
    }

    /// Feed one key to the run. A run that ends, by completing or by breaking, drops the guard for
    /// its window.
    pub fn advance(&mut self, ev: &KeyEvent) -> (r: KeySequenceOutcome)
        ensures
            final(self).keys_spec() == old(self).keys_spec(),
            final(self).window_spec() == old(self).window_spec(),
            match run::step(old(self).keys_spec(), old(self).swallowed_spec(), *ev) {
                Step::Advance(next) => {
                    &&& r == KeySequenceOutcome::Advanced
                    &&& final(self).swallowed_spec() == next
                    &&& final(self).armed() == old(self).armed()
                },
                Step::Pass => {
                    &&& r matches KeySequenceOutcome::Passed(replay)
                    &&& replay@ == old(self).swallowed_spec()
                    &&& final(self).swallowed_spec().len() == 0
                    &&& final(self).armed() is None
                },
                Step::Complete => {
                    &&& r == KeySequenceOutcome::Completed
                    &&& final(self).swallowed_spec().len() == 0
                    &&& final(self).armed() is None
                },
            },
    {
        proof {
            use_type_invariant(&*self);
        }
        let mut window = None;
        std::mem::swap(&mut window, &mut self.window);
        let mut run = self.run.idle_copy();
        std::mem::swap(&mut run, &mut self.run);
        let r = run.advance(ev);
        self.run = run;
        let window = match r {
            KeySequenceOutcome::Advanced => window,
            _ => match window {
                Some(w) => Some(Window { duration: w.duration, timer: None }),
                None => None,
            },
        };
        self.window = window;
        r
    }

    /// End the run and hand back what it swallowed, in arrival order, leaving it idle and its
    /// window's guard dropped.
    pub fn interrupt(&mut self) -> (r: Vec<KeyPress>)
        ensures
            final(self).keys_spec() == old(self).keys_spec(),
            final(self).window_spec() == old(self).window_spec(),
            r@ == old(self).swallowed_spec(),
            final(self).swallowed_spec().len() == 0,
            final(self).armed() is None,
    {
        self.disarm();
        let mut run = self.run.idle_copy();
        std::mem::swap(&mut run, &mut self.run);
        run.interrupt()
    }

    /// Drop the guard, cancelling the wait, and leave the duration in place: the sequence still
    /// has a window, it is just not running one.
    fn disarm(&mut self)
        ensures
            final(self).run == old(self).run,
            final(self).window_spec() == old(self).window_spec(),
            final(self).armed() is None,
    {
        let window = match &self.window {
            Some(w) => Some(Window { duration: w.duration, timer: None }),
            None => None,
        };
        self.window = window;
    }

    /// Only what the run has swallowed, in arrival order: `KeySequence { KeyJ v, KeyJ ^ }`, or
    /// `KeySequence {}` when idle. The keys and the window never change, so the log leaves them
    /// out.
    pub fn debug_string(&self) -> (s: String)
        ensures
            s@ == sequence_text(self.swallowed_spec()),
    {
        let presses = self.run.swallowed();
        let mut s = String::from_str("KeySequence {");
        let mut i: usize = 0;
        while i < presses.len()
            invariant
                i <= presses@.len(),
                presses@ == self.swallowed_spec(),
                s@ == "KeySequence {"@ + presses_text(presses@.take(i as int)),
            decreases presses@.len() - i,
        {
            let p = presses[i];
            assert(presses@.take(i + 1).drop_last() == presses@.take(i as int));
            if i == 0 {
                s.append(" ");
            } else {
                s.append(", ");
            }
            let name = p.key.name();
            s.append(name.as_str());
            s.append(" ");
            match p.press {
                PressType::Down => s.append("v"),
                PressType::Up => s.append("^"),
            }
            i = i + 1;
        }
        assert(presses@.take(i as int) == presses@);
        if i == 0 {
            s.append("}");
        } else {
            s.append(" }");
        }
        s
    }
}

} // verus!
