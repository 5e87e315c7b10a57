//! The client verbs' decisions: which signal a stop sends, what finding the daemon means, and what
//! each verb says about how it went. Finding, signalling and spawning happen at the edge; the words
//! and the exit status are decided here.

use vstd::prelude::*;
use crate::single_instance::{Held, LockError, Pid, pid_text, says_lock_error};
use std::collections::VecDeque;

verus! {

/// The signal a stop sends, and what each one costs.
#[derive(Clone, Copy, Debug, PartialEq, Eq, Structural)]
pub enum Signal {
    /// SIGTERM. The daemon leaves the way the menu bar's Quit does, opening the modifiers it
    /// swallowed on the way out.
    Terminate,
    /// SIGKILL. The kernel destroys the process, so no destructor runs and a swallowed modifier
    /// stays down in the app underneath.
    Kill,
}

impl Signal {
    /// How `/bin/kill` spells it.
    pub fn flag(self) -> (r: &'static str)
        ensures
            r@ == match self {
                Signal::Terminate => "-TERM"@,
                Signal::Kill => "-KILL"@,
            },
    {
        match self {
            Signal::Terminate => "-TERM",
            Signal::Kill => "-KILL",
        }
    }

    /// The signal a stop sends: SIGKILL when forced, SIGTERM otherwise.
    pub fn for_stop(force: bool) -> (r: Signal)
        ensures
            r == if force { Signal::Kill } else { Signal::Terminate },
    {
        if force {
            Signal::Kill
        } else {
            Signal::Terminate
        }
    }
}


/// What a client found when it went looking for the daemon.
#[derive(Debug, Clone, Copy, PartialEq, Eq, Structural)]
pub enum Target {
    /// Nothing holds the lock.
    NotRunning,
    /// The daemon, ready to be signalled.
    Running(Pid),
    /// Something holds the lock and never recorded a pid, so there is nothing to signal.
    Anonymous,
}

/// What one look at the lock says about the daemon: `None` while a holder has not named itself and
/// the wait for it has not run out, when the caller looks again.
pub fn target(held: Held, past_deadline: bool) -> (r: Option<Target>)
    ensures
        r == match held {
            Held::Free => Some(Target::NotRunning),
            Held::By(pid) => Some(Target::Running(pid)),
            Held::Unnamed => if past_deadline { Some(Target::Anonymous) } else { None },
        },
{
    match held {
        Held::Free => Some(Target::NotRunning),
        Held::By(pid) => Some(Target::Running(pid)),
        Held::Unnamed => {
            if past_deadline {
                Some(Target::Anonymous)
            } else {
                None
            }
        },
    }
}

/// Why a stop did not happen. The remedies differ: `--force` answers `Ignored` and nothing else.
#[derive(Debug)]
pub enum Failure {
    /// The lock could not be read, so nothing is known about what holds it.
    Unreadable(LockError),
    /// Something holds the lock and recorded no pid, so there is nothing to signal.
    Anonymous,
    /// The signal could not be sent to the pid the lock named.
    Unsignalable(Pid, std::io::Error),
    /// The daemon was signalled and still holds the lock.
    Ignored(Pid, Signal),
}

/// What a failed stop says after the daemon's name, for the failures whose words are all here.
pub open spec fn ignored_text(pid: Pid, signal: Signal) -> Seq<char> {
    match signal {
        Signal::Terminate => "pid "@ + pid_text(pid) + " still holds the lock; --force destroys it"@,
        Signal::Kill => "pid "@ + pid_text(pid)
            + " outlasted SIGKILL, so it is stuck in a system call and will go when that returns"@,
    }
}

/// Whether `s` is what a failed stop says, after the daemon's name: every word of it, but for the
/// operating system's own words after a signal could not be sent or the lock could not be read.
pub open spec fn says_failure(f: &Failure, s: Seq<char>) -> bool {
    match f {
        Failure::Anonymous => s
            == "something holds the lock but recorded no pid; it is starting or shutting down"@,
        Failure::Ignored(pid, signal) => s == ignored_text(*pid, *signal),
        Failure::Unsignalable(pid, _) => s.take(("could not signal pid "@ + pid_text(*pid) + ": "@).len() as int)
            == "could not signal pid "@ + pid_text(*pid) + ": "@,
        Failure::Unreadable(e) => says_lock_error(e, s),
    }
}

impl Failure {
    /// The terminal wording, without the name a caller puts in front.
    pub fn message(&self) -> (s: String)
        ensures
            says_failure(self, s@),
    {
        match self {
            Failure::Unreadable(e) => e.message(),
            Failure::Anonymous => String::from_str(
                "something holds the lock but recorded no pid; it is starting or shutting down",
            ),
            Failure::Unsignalable(pid, error) => {
                let prefix = String::from_str("could not signal pid ").concat(pid.to_text().as_str()).concat(
                    ": ",
                );
                let ghost p = prefix@;
                let r = prefix.concat(crate::single_instance::io_error_text(error).as_str());
                assert(r@.take(p.len() as int) == p);
                r
            },
            Failure::Ignored(pid, signal) => {
                let s = String::from_str("pid ").concat(pid.to_text().as_str());
                match signal {
                    Signal::Terminate => s.concat(" still holds the lock; --force destroys it"),
                    Signal::Kill => s.concat(
                        " outlasted SIGKILL, so it is stuck in a system call and will go when that returns",
                    ),
                }
            },
        }
    }
}

/// `name` and a message after it: `<name>: <message>`.
pub open spec fn named(name: Seq<char>, message: Seq<char>) -> Seq<char> {
    name + ": "@ + message
}

/// What `stop` says and whether it succeeded, given how stopping went: a stopped daemon and one
/// that was not running are both success, so a teardown that does not know the state is not
/// wrong to call it; a failure is reported after the daemon's name.
pub fn stop_report(name: &str, outcome: &Result<Option<Pid>, Failure>) -> (r: (String, bool))
    ensures
        match outcome {
            Ok(Some(pid)) => r.0@ == name@ + " stopped (pid "@ + pid_text(*pid) + ")"@ && r.1,
            Ok(None) => r.0@ == name@ + " is not running"@ && r.1,
            Err(f) => (exists|m: Seq<char>| r.0@ == named(name@, m) && says_failure(f, m)) && !r.1,
        },
{
    match outcome {
        Ok(Some(pid)) => {
            let s = String::from_str(name).concat(" stopped (pid ").concat(pid.to_text().as_str()).concat(")");
            (s, true)
        },
        Ok(None) => (String::from_str(name).concat(" is not running"), true),
        Err(f) => {
            let m = f.message();
            let s = String::from_str(name).concat(": ").concat(m.as_str());
            assert(s@ == named(name@, m@));
            (s, false)
        },
    }
}

/// What `status` says and whether it succeeded: it answers a question, so nothing running is a
/// failure, and a holder that has not yet recorded its pid is running.
pub fn status_report(name: &str, held: &Result<Held, LockError>) -> (r: (String, bool))
    ensures
        match held {
            Ok(Held::Free) => r.0@ == name@ + " is not running"@ && !r.1,
            Ok(Held::By(pid)) => r.0@ == name@ + " is running (pid "@ + pid_text(*pid) + ")"@ && r.1,
            Ok(Held::Unnamed) => r.0@ == name@
                + " is running (it has just started and has not recorded its pid)"@ && r.1,
            Err(e) => (exists|m: Seq<char>| r.0@ == named(name@, m) && says_lock_error(e, m)) && !r.1,
        },
{
    match held {
        Ok(Held::Free) => (String::from_str(name).concat(" is not running"), false),
        Ok(Held::By(pid)) => {
            let s = String::from_str(name).concat(" is running (pid ").concat(pid.to_text().as_str()).concat(
                ")",
            );
            (s, true)
        },
        Ok(Held::Unnamed) => (
            String::from_str(name).concat(" is running (it has just started and has not recorded its pid)"),
            true,
        ),
        Err(e) => {
            let m = e.message();
            let s = String::from_str(name).concat(": ").concat(m.as_str());
            assert(s@ == named(name@, m@));
            (s, false)
        },
    }
}

/// A daemon that is up, and whether this call is why.
#[derive(Debug, Clone, Copy, PartialEq, Eq, Structural)]
pub enum Running {
    /// Already running when this looked, and it had named itself.
    Adopted(Pid),
    /// Already running when this looked, mid-acquire and not yet named.
    AdoptedUnnamed,
    /// Spawned by this call.
    Started(Pid),
}

/// Why no daemon is running.
#[derive(Debug)]
pub enum NotStarted {
    /// The lock could not be read, so nothing is known about what holds it.
    Unreadable(LockError),
    /// The daemon could not be spawned.
    Unspawnable(std::io::Error),
    /// It was spawned and never took the lock. Its own account is in the log.
    Silent(Pid),
}

/// Whether `s` is what a failed start says, after the daemon's name.
pub open spec fn says_not_started(f: &NotStarted, s: Seq<char>) -> bool {
    match f {
        NotStarted::Silent(pid) => s == "the daemon (pid "@ + pid_text(*pid)
            + ") started and stopped without taking the lock"@,
        NotStarted::Unspawnable(_) => s.take("could not start the daemon: "@.len() as int)
            == "could not start the daemon: "@,
        NotStarted::Unreadable(e) => says_lock_error(e, s),
    }
}

impl NotStarted {
    /// The terminal wording, without the name a caller puts in front.
    pub fn message(&self) -> (s: String)
        ensures
            says_not_started(self, s@),
    {
        match self {
            NotStarted::Unreadable(e) => e.message(),
            NotStarted::Unspawnable(e) => {
                let head = String::from_str("could not start the daemon: ");
                let ghost h = head@;
                let s = head.concat(crate::single_instance::io_error_text(e).as_str());
                assert(s@.take(h.len() as int) == h);
                s
            },
            NotStarted::Silent(pid) => String::from_str("the daemon (pid ").concat(pid.to_text().as_str()).concat(
                ") started and stopped without taking the lock",
            ),
        }
    }
}

/// What a look at the lock before starting says: a running daemon is adopted, an unreadable lock
/// is the failure, and `None` when nothing holds it and one should be spawned. The check is for
/// the answer, not for mutual exclusion: the lock itself refuses a second daemon.
pub fn adopt(held: Result<Held, LockError>) -> (r: Option<Result<Running, NotStarted>>)
    ensures
        match held {
            Ok(Held::By(pid)) => r matches Some(Ok(Running::Adopted(p))) && p == pid,
            Ok(Held::Unnamed) => r matches Some(Ok(Running::AdoptedUnnamed)),
            Ok(Held::Free) => r is None,
            Err(_) => r matches Some(Err(NotStarted::Unreadable(_))),
        },
{
    match held {
        Ok(Held::By(pid)) => Some(Ok(Running::Adopted(pid))),
        Ok(Held::Unnamed) => Some(Ok(Running::AdoptedUnnamed)),
        Ok(Held::Free) => None,
        Err(e) => Some(Err(NotStarted::Unreadable(e))),
    }
}

/// What `start` says and whether it succeeded: a daemon that is up, whoever started it, is
/// success; a daemon that could not be had is reported after the daemon's name.
pub fn start_report(name: &str, running: &Result<Running, NotStarted>) -> (r: (String, bool))
    ensures
        match running {
            Ok(Running::Started(pid)) => r.0@ == name@ + " started (pid "@ + pid_text(*pid) + ")"@ && r.1,
            Ok(Running::Adopted(pid)) => r.0@ == name@ + " is already running (pid "@ + pid_text(*pid)
                + ")"@ && r.1,
            Ok(Running::AdoptedUnnamed) => r.0@ == name@
                + " is already running (it has not recorded its pid yet)"@ && r.1,
            Err(f) => (exists|m: Seq<char>| r.0@ == named(name@, m) && says_not_started(f, m)) && !r.1,
        },
{
    match running {
        Ok(Running::Started(pid)) => {
            let s = String::from_str(name).concat(" started (pid ").concat(pid.to_text().as_str()).concat(")");
            (s, true)
        },
        Ok(Running::Adopted(pid)) => {
            let s = String::from_str(name).concat(" is already running (pid ").concat(
                pid.to_text().as_str(),
            ).concat(")");
            (s, true)
        },
        Ok(Running::AdoptedUnnamed) => (
            String::from_str(name).concat(" is already running (it has not recorded its pid yet)"),
            true,
        ),
        Err(f) => {
            let m = f.message();
            let s = String::from_str(name).concat(": ").concat(m.as_str());
            assert(s@ == named(name@, m@));
            (s, false)
        },
    }
}

/// How many of the log's last records a follow shows before it waits for new ones.
pub const BACKLOG_LINES: usize = 50;

/// The backlog after the record `line`: `line` at the back, and the oldest gone when the backlog
/// already held `BACKLOG_LINES`.
pub open spec fn backlog_after(backlog: Seq<String>, line: String) -> Seq<String> {
    if backlog.len() >= BACKLOG_LINES {
        backlog.drop_first().push(line)
    } else {
        backlog.push(line)
    }
}

/// Keep `line` in the backlog a follow shows first: the last `BACKLOG_LINES` records, oldest first,
/// held in a ring so the whole file never is.
pub fn keep_in_backlog(backlog: &mut VecDeque<String>, line: String)
    requires
        old(backlog)@.len() <= BACKLOG_LINES,
    ensures
        final(backlog)@ == backlog_after(old(backlog)@, line),
        final(backlog)@.len() <= BACKLOG_LINES,
{
    if backlog.len() == BACKLOG_LINES {
        let _oldest = backlog.pop_front();
    }
    backlog.push_back(line);
}

} // verus!
