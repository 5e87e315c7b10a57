//! Which daemon a command line meant, and where that daemon's files go.

use vstd::prelude::*;
use crate::single_instance::{is_absolute, join, join_path, lock_file_in, lock_path};

verus! {

/// The environment names no per-user directory to keep this daemon's lock and log in.
///
/// One error for both, because one environment answers for both.
#[derive(Debug)]
pub struct NoUserDir;

impl NoUserDir {
    /// What the error says to a person.
    pub fn message(&self) -> (s: String)
        ensures
            s@ == "no per-user directory to keep the lock and the log in; is HOME set?"@,
    {
        String::from_str("no per-user directory to keep the lock and the log in; is HOME set?")
    }
}

/// Where a user's files go, as the environment says: the per-user state directory and the home
/// directory, each absent when the environment does not name it.
#[derive(Clone, Debug)]
pub struct UserDirs {
    pub state: Option<String>,
    pub home: Option<String>,
}

/// The directory `app`'s logs go in, under `home`: the platform's place for logs a person is
/// expected to read.
pub open spec fn log_dir_in(home: Seq<char>, app: Seq<char>) -> Seq<char> {
    join(join(home, "Library/Logs"@), app)
}

/// Which daemon this is.
///
/// The slug names a lock file and a log file, so it is whatever the filesystem will take. The
/// display name is what a person typed, so `status` says something they recognize. For an app
/// with one global daemon both are its name.
#[derive(Clone, Debug)]
pub struct Instance {
    slug: String,
    display_name: String,
    lock_file: String,
    log_dir: String,
    log_file_name: String,
}

impl Instance {
    pub closed spec fn slug_spec(&self) -> Seq<char> {
        self.slug@
    }

    pub closed spec fn display_name_spec(&self) -> Seq<char> {
        self.display_name@
    }

    pub closed spec fn lock_file_spec(&self) -> Seq<char> {
        self.lock_file@
    }

    pub closed spec fn log_dir_spec(&self) -> Seq<char> {
        self.log_dir@
    }

    pub closed spec fn log_file_name_spec(&self) -> Seq<char> {
        self.log_file_name@
    }

    /// The one daemon of an app that has one, keyed to the app itself.
    pub fn global(app: &str, dirs: &UserDirs) -> (r: Result<Instance, NoUserDir>)
        ensures
            Instance::placed(app@, app@, app@, dirs, r),
    {
        Self::named(app, String::from_str(app), String::from_str(app), dirs)
    }

    /// Whether `r` is what placing the daemon `slug` of `app`, shown as `display_name`, in `dirs`
    /// gives: its files under the state and home directories when both are named and the state
    /// directory is absolute, and [`NoUserDir`] otherwise.
    pub open spec fn placed(
        app: Seq<char>,
        slug: Seq<char>,
        display_name: Seq<char>,
        dirs: &UserDirs,
        r: Result<Instance, NoUserDir>,
    ) -> bool {
        match (dirs.state, dirs.home) {
            (Some(state), Some(home)) if is_absolute(state@) => r matches Ok(i) && {
                &&& i.slug_spec() == slug
                &&& i.display_name_spec() == display_name
                &&& i.lock_file_spec() == lock_file_in(state@, slug)
                &&& i.log_dir_spec() == log_dir_in(home@, app)
                &&& i.log_file_name_spec() == slug + ".log"@
            },
            _ => r is Err,
        }
    }

    /// One of many: `slug` names its files, `display_name` is what the person who asked for it
    /// typed. Both paths resolve here, once: an instance that exists is one whose files have a
    /// place to be.
    pub fn named(app: &str, slug: String, display_name: String, dirs: &UserDirs) -> (r: Result<
        Instance,
        NoUserDir,
    >)
        ensures
            Instance::placed(app@, slug@, display_name@, dirs, r),
    {
        let state = match &dirs.state {
            Some(s) => Some(s.as_str()),
            None => None,
        };
        let lock_file = match lock_path(state, slug.as_str()) {
            Some(p) => p,
            None => return Err(NoUserDir),
        };
        let log_dir = match &dirs.home {
            Some(home) => {
                let logs = join_path(home.as_str(), "Library/Logs");
                join_path(logs.as_str(), app)
            },
            None => return Err(NoUserDir),
        };
        let log_file_name = String::from_str(slug.as_str()).concat(".log");
        Ok(Instance { slug, display_name, lock_file, log_dir, log_file_name })
    }

    /// The file whose exclusive lock is this daemon's claim to being the only one of itself.
    pub fn lock_file(&self) -> (r: &str)
        ensures
            r@ == self.lock_file_spec(),
    {
        self.lock_file.as_str()
    }

    /// The directory this daemon's log goes in, one per app.
    pub fn log_dir(&self) -> (r: &str)
        ensures
            r@ == self.log_dir_spec(),
    {
        self.log_dir.as_str()
    }

    /// The name of this daemon's log file, one per daemon.
    pub fn log_file_name(&self) -> (r: &str)
        ensures
            r@ == self.log_file_name_spec(),
    {
        self.log_file_name.as_str()
    }

    /// The two of them joined, for saying where the log is and for reading it back.
    pub fn log_file(&self) -> (r: String)
        ensures
            r@ == join(self.log_dir_spec(), self.log_file_name_spec()),
    {
        join_path(self.log_dir.as_str(), self.log_file_name.as_str())
    }

    /// What a verb calls this daemon when it says something about it.
    pub fn display_name(&self) -> (r: &str)
        ensures
            r@ == self.display_name_spec(),
    {
        self.display_name.as_str()
    }

    /// What this daemon's files are keyed to.
    pub fn slug(&self) -> (r: &str)
        ensures
            r@ == self.slug_spec(),
    {
        self.slug.as_str()
    }
}

proof fn lemma_join_shape(x: Seq<char>, y: Seq<char>)
    requires
        x.len() > 0,
        !is_absolute(y),
    ensures
        join(x, y).take(x.len() as int) == x,
        join(x, y).len() == x.len() + y.len() || join(x, y).len() == x.len() + y.len() + 1,
{
    reveal_strlit("/");
    assert(join(x, y).take(x.len() as int) == x);
}

/// Two daemons with different slugs share no file: under one absolute state directory their lock
/// files differ, and so do the names of their log files. (An absolute slug replaces the directory,
/// so it is left out.)
pub proof fn lemma_two_instances_share_no_file(state: Seq<char>, a: Seq<char>, b: Seq<char>)
    requires
        a != b,
        is_absolute(state),
        !is_absolute(a),
        !is_absolute(b),
    ensures
        lock_file_in(state, a) != lock_file_in(state, b),
        a + ".log"@ != b + ".log"@,
{
    let p = if state.len() > 0 && state.last() == '/' { state } else { state + "/"@ };
    assert(join(state, a) == p + a);
    assert(join(state, b) == p + b);
    let la = lock_file_in(state, a);
    let lb = lock_file_in(state, b);
    reveal_strlit(".lock");
    assert(!is_absolute(a + ".lock"@)) by {
        if a.len() == 0 { assert(a + ".lock"@ == ".lock"@); }
    }
    assert(!is_absolute(b + ".lock"@)) by {
        if b.len() == 0 { assert(b + ".lock"@ == ".lock"@); }
    }
    lemma_join_shape(p + a, a + ".lock"@);
    lemma_join_shape(p + b, b + ".lock"@);
    if la == lb {
        if a.len() == b.len() {
            assert((p + a).subrange(p.len() as int, (p.len() + a.len()) as int) == a);
            assert((p + b).subrange(p.len() as int, (p.len() + b.len()) as int) == b);
            assert(la.take((p + a).len() as int) == lb.take((p + b).len() as int));
        } else {
            assert(la.len() == lb.len());
        }
    }
    if a + ".log"@ == b + ".log"@ {
        assert((a + ".log"@).len() == (b + ".log"@).len());
        assert((a + ".log"@).take(a.len() as int) == a);
        assert((b + ".log"@).take(b.len() as int) == b);
    }
}

} // verus!
