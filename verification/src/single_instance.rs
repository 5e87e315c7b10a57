//! One process at a time, per app: where the lock file lives, who holds it, and what refusing it
//! says.
//!
//! Taking the lock is the operating system's business and happens at the edge; what is decided here
//! is the path, absolute or nothing, and the words.

use vstd::prelude::*;
use crate::keys::decimal;

verus! {

/// An I/O error from the operating system, carried through unread.
#[verifier::external_type_specification]
#[verifier::external_body]
pub struct ExIoError(std::io::Error);

/// `b` appended to the path `a` as a further component: a separator goes between them unless `a`
/// is empty or already ends in one, and an absolute `b` stands alone, replacing `a`.
pub open spec fn join(a: Seq<char>, b: Seq<char>) -> Seq<char> {
    if is_absolute(b) {
        b
    } else if a.len() == 0 || a.last() == '/' {
        a + b
    } else {
        a + "/"@ + b
    }
}

/// `b` appended to the path `a` as a further component.
pub fn join_path(a: &str, b: &str) -> (r: String)
    ensures
        r@ == join(a@, b@),
{
    if b.unicode_len() > 0 && b.get_char(0) == '/' {
        return String::from_str(b);
    }
    let n = a.unicode_len();
    let s = String::from_str(a);
    if n == 0 || a.get_char(n - 1) == '/' {
        s.concat(b)
    } else {
        let s = s.concat("/");
        s.concat(b)
    }
}

/// Whether `p` names a place without reference to the current directory.
pub open spec fn is_absolute(p: Seq<char>) -> bool {
    p.len() > 0 && p[0] == '/'
}

/// Where `app`'s lock file lives under the state directory `dir`: `<dir>/<app>/<app>.lock`.
pub open spec fn lock_file_in(dir: Seq<char>, app: Seq<char>) -> Seq<char> {
    join(join(dir, app), app + ".lock"@)
}

/// Where `app`'s lock file lives, given the per-user directory the platform keeps app state in, or
/// `None` when there is no such directory.
///
/// The path is absolute or it is nothing: a relative path would resolve against the current
/// directory, so the same app started from two directories would lock two different files and
/// both copies would run.
pub fn lock_path(state_dir: Option<&str>, app: &str) -> (r: Option<String>)
    ensures
        match state_dir {
            Some(dir) if is_absolute(dir@) => r matches Some(p) && p@ == lock_file_in(dir@, app@),
            _ => r is None,
        },
{
    match state_dir {
        Some(dir) => {
            if dir.unicode_len() > 0 && dir.get_char(0) == '/' {
                let in_dir = join_path(dir, app);
                let name = String::from_str(app).concat(".lock");
                Some(join_path(in_dir.as_str(), name.as_str()))
            } else {
                None
            }
        },
        None => None,
    }
}

/// Whatever the state directory, a lock path is absolute and ends with the app's own file; for an
/// app name that is not itself absolute, it also starts with that directory. (An absolute app
/// name replaces the directory, as a path joined onto another does.)
pub proof fn lemma_lock_path_is_absolute(dir: Seq<char>, app: Seq<char>)
    requires
        is_absolute(dir),
    ensures
        is_absolute(lock_file_in(dir, app)),
        lock_file_in(dir, app).len() >= app.len() + ".lock"@.len(),
        lock_file_in(dir, app).skip(lock_file_in(dir, app).len() - (app.len() + ".lock"@.len()))
            == app + ".lock"@,
        !is_absolute(app) ==> lock_file_in(dir, app).take(dir.len() as int) == dir,
        is_absolute(app) ==> lock_file_in(dir, app) == app + ".lock"@,
{
    reveal_strlit("/");
    reveal_strlit(".lock");
    let inner = join(dir, app);
    let file = app + ".lock"@;
    if is_absolute(app) {
        assert(is_absolute(file));
        assert(lock_file_in(dir, app) == file);
        assert(file.skip(0) == file);
    } else {
        assert(!is_absolute(file));
        assert(inner[0] == '/');
        assert(inner.take(dir.len() as int) == dir);
        assert(lock_file_in(dir, app)[0] == inner[0]);
        assert(lock_file_in(dir, app).take(inner.len() as int) == inner);
        assert(lock_file_in(dir, app).take(dir.len() as int) == inner.take(dir.len() as int));
        assert(lock_file_in(dir, app).skip(lock_file_in(dir, app).len() - file.len()) == file);
    }
}

/// The per-user state directory on macOS: `Application Support` in the user's library.
pub fn macos_state_dir(home: Option<&str>) -> (r: Option<String>)
    ensures
        match home {
            Some(h) => r matches Some(d) && d@ == join(h@, "Library/Application Support"@),
            None => r is None,
        },
{
    match home {
        Some(h) => Some(join_path(h, "Library/Application Support")),
        None => None,
    }
}

/// The per-user state directory the XDG base directory specification names: `$XDG_STATE_HOME`,
/// defaulting to `~/.local/state`.
pub fn xdg_state_dir(xdg_state_home: Option<&str>, home: Option<&str>) -> (r: Option<String>)
    ensures
        match xdg_state_home {
            Some(x) => r matches Some(d) && d@ == x@,
            None => match home {
                Some(h) => r matches Some(d) && d@ == join(h@, ".local/state"@),
                None => r is None,
            },
        },
{
    match xdg_state_home {
        Some(x) => Some(String::from_str(x)),
        None => match home {
            Some(h) => Some(join_path(h, ".local/state")),
            None => None,
        },
    }
}

/// A process id, as the operating system numbers processes.
#[derive(Debug, Clone, Copy, PartialEq, Eq, Structural)]
pub struct Pid(pub u32);

/// Who holds a lock, at the moment of asking.
#[derive(Debug, Clone, Copy, PartialEq, Eq, Structural)]
pub enum Held {
    /// Nobody. Whatever the file contains belongs to a run that has ended.
    Free,
    /// A live process, which recorded which one it is.
    By(Pid),
    /// A live process that has taken the lock and not yet written its pid.
    Unnamed,
}

/// Whether `c` has Unicode's `White_Space` property, which is what `str::trim` strips.
pub open spec fn is_white_space(c: char) -> bool {
    ||| '\t' <= c <= '\r'
    ||| c == ' '
    ||| c == '\u{85}'
    ||| c == '\u{A0}'
    ||| c == '\u{1680}'
    ||| '\u{2000}' <= c <= '\u{200A}'
    ||| c == '\u{2028}'
    ||| c == '\u{2029}'
    ||| c == '\u{202F}'
    ||| c == '\u{205F}'
    ||| c == '\u{3000}'
}

/// `s` without its leading white space.
pub open spec fn trim_start(s: Seq<char>) -> Seq<char>
    decreases s.len(),
{
    if s.len() > 0 && is_white_space(s[0]) {
        trim_start(s.drop_first())
    } else {
        s
    }
}

/// `s` without its trailing white space.
pub open spec fn trim_end(s: Seq<char>) -> Seq<char>
    decreases s.len(),
{
    if s.len() > 0 && is_white_space(s.last()) {
        trim_end(s.drop_last())
    } else {
        s
    }
}

/// `s` with white space trimmed from both ends, as `str::trim` gives it.
pub open spec fn trim(s: Seq<char>) -> Seq<char> {
    trim_end(trim_start(s))
}

/// Whether every character of `d` is an ASCII digit.
pub open spec fn all_digits(d: Seq<char>) -> bool {
    forall|i: int| 0 <= i < d.len() ==> '0' <= #[trigger] d[i] <= '9'
}

/// The number the ASCII digits `d` spell in decimal.
pub open spec fn decimal_value(d: Seq<char>) -> nat
    decreases d.len(),
{
    if d.len() == 0 {
        0
    } else {
        decimal_value(d.drop_last()) * 10 + ((d.last() as int) - ('0' as int)) as nat
    }
}

/// The `u32` that `t` reads as, the way `u32`'s `FromStr` reads it: an optional `+`, then one or
/// more ASCII digits, whose value must fit. Anything else reads as nothing.
pub open spec fn u32_of_text(t: Seq<char>) -> Option<u32> {
    let d = if t.len() > 0 && t[0] == '+' { t.drop_first() } else { t };
    if d.len() > 0 && all_digits(d) && decimal_value(d) <= u32::MAX {
        Some(decimal_value(d) as u32)
    } else {
        None
    }
}

fn is_white_space_char(c: char) -> (r: bool)
    ensures
        r == is_white_space(c),
{
    ('\t' <= c && c <= '\r') || c == ' ' || c == '\u{85}' || c == '\u{A0}' || c == '\u{1680}'
        || ('\u{2000}' <= c && c <= '\u{200A}') || c == '\u{2028}' || c == '\u{2029}'
        || c == '\u{202F}' || c == '\u{205F}' || c == '\u{3000}'
}

/// The pid a pid file's text names: the text trimmed of surrounding white space, read as a `u32`,
/// or nothing when it does not read as one.
pub fn pid_in_text(text: &str) -> (r: Option<u32>)
    ensures
        r == u32_of_text(trim(text@)),
{
    let n = text.unicode_len();
    let mut i: usize = 0;
    assert(text@.subrange(0, n as int) == text@);
    while i < n && is_white_space_char(text.get_char(i))
        invariant
            i <= n,
            n == text@.len(),
            trim_start(text@) == trim_start(text@.subrange(i as int, n as int)),
        decreases n - i,
    {
        assert(text@.subrange(i as int, n as int).drop_first() == text@.subrange(i + 1, n as int));
        i = i + 1;
    }
    assert(trim_start(text@) == text@.subrange(i as int, n as int));
    let mut j: usize = n;
    while j > i && is_white_space_char(text.get_char(j - 1))
        invariant
            i <= j <= n,
            n == text@.len(),
            trim(text@) == trim_end(text@.subrange(i as int, j as int)),
        decreases j,
    {
        assert(text@.subrange(i as int, j as int).drop_last() == text@.subrange(i as int, j - 1));
        j = j - 1;
    }
    let ghost t = text@.subrange(i as int, j as int);
    assert(trim(text@) == t);
    let mut k: usize = i;
    if i < j && text.get_char(i) == '+' {
        k = i + 1;
    }
    let ghost d = text@.subrange(k as int, j as int);
    assert(d == if t.len() > 0 && t[0] == '+' { t.drop_first() } else { t });
    if k == j {
        assert(d.len() == 0);
        assert(u32_of_text(t) is None);
        return None;
    }
    let mut acc: u64 = 0;
    let mut too_big = false;
    let mut m: usize = k;
    while m < j
        invariant
            k <= m <= j <= n,
            n == text@.len(),
            d == text@.subrange(k as int, j as int),
            trim(text@) == t,
            d == if t.len() > 0 && t[0] == '+' { t.drop_first() } else { t },
            d.len() > 0,
            all_digits(d.take(m - k)),
            !too_big ==> acc == decimal_value(d.take(m - k)),
            !too_big ==> acc <= u32::MAX,
            too_big ==> decimal_value(d.take(m - k)) > u32::MAX,
        decreases j - m,
    {
        let c = text.get_char(m);
        if !('0' <= c && c <= '9') {
            assert(d[m - k] == c);
            assert(!all_digits(d));
            return None;
        }
        assert(d.take(m - k + 1).drop_last() == d.take(m - k));
        assert(d.take(m - k + 1).last() == c);
        if !too_big {
            let digit = (c as u64) - ('0' as u64);
            acc = acc * 10 + digit;
            if acc > 4294967295 {
                too_big = true;
            }
        }
        m = m + 1;
    }
    assert(d.take(j - k) == d);
    if too_big {
        None
    } else {
        Some(acc as u32)
    }
}

/// What a pid file's text says about its holder: the pid it names, once surrounding whitespace is
/// trimmed, or nothing when it does not read as one.
pub fn held_by(pid: Option<u32>) -> (r: Held)
    ensures
        r == match pid {
            Some(p) => Held::By(Pid(p)),
            None => Held::Unnamed,
        },
{
    match pid {
        Some(p) => Held::By(Pid(p)),
        None => Held::Unnamed,
    }
}

/// The lock could not be taken.
#[derive(Debug)]
pub enum LockError {
    /// Another instance holds it; the lock file's path.
    AlreadyRunning(String),
    /// The environment names no per-user directory to keep the lock file in.
    NoStateDir,
    /// The lock file could not be created, opened, or locked.
    Unavailable(std::io::Error),
}

/// The operating system's own words for an I/O error, as `Display` writes them. They depend on the
/// platform, so nothing is stated of them.
#[verifier::external_body]
pub(crate) fn io_error_text(e: &std::io::Error) -> String {
    e.to_string()
}

/// Whether `s` is what a lock error says to a person: the held path, or the missing directory, in
/// full; and for an I/O failure the fixed opening, before the operating system's own words.
pub open spec fn says_lock_error(e: &LockError, s: Seq<char>) -> bool {
    match e {
        LockError::AlreadyRunning(path) => s == "another instance is already running (it holds "@ + path@
            + ")"@,
        LockError::NoStateDir => s == "no per-user directory to keep the lock file in; is HOME set?"@,
        LockError::Unavailable(_) => s.take("could not take the single-instance lock: "@.len() as int)
            == "could not take the single-instance lock: "@,
    }
}

impl LockError {
    /// What the error says to a person.
    pub fn message(&self) -> (s: String)
        ensures
            says_lock_error(self, s@),
    {
        match self {
            LockError::AlreadyRunning(path) => {
                let s = String::from_str("another instance is already running (it holds ");
                let s = s.concat(path.as_str());
                s.concat(")")
            },
            LockError::NoStateDir => String::from_str(
                "no per-user directory to keep the lock file in; is HOME set?",
            ),
            LockError::Unavailable(e) => {
                let head = String::from_str("could not take the single-instance lock: ");
                let ghost h = head@;
                let r = head.concat(io_error_text(e).as_str());
                assert(r@.take(h.len() as int) == h);
                r
            },
        }
    }
}

/// How a pid reads: its decimal digits.
pub open spec fn pid_text(pid: Pid) -> Seq<char> {
    decimal(pid.0 as nat)
}

impl Pid {
    /// The pid in decimal, as the pid file and every message write it.
    pub fn to_text(self) -> (s: String)
        ensures
            s@ == pid_text(self),
    {
        crate::keys::decimal_string(self.0 as u64)
    }
}

proof fn lemma_digit_reads_back(d: nat)
    requires
        d < 10,
    ensures
        crate::keys::digit_str(d).len() == 1,
        '0' <= crate::keys::digit_str(d)[0] <= '9',
        (crate::keys::digit_str(d)[0] as int) - ('0' as int) == d,
{
    reveal_strlit("0");
    reveal_strlit("1");
    reveal_strlit("2");
    reveal_strlit("3");
    reveal_strlit("4");
    reveal_strlit("5");
    reveal_strlit("6");
    reveal_strlit("7");
    reveal_strlit("8");
    reveal_strlit("9");
}

proof fn lemma_decimal_reads_back(n: nat)
    ensures
        decimal(n).len() > 0,
        all_digits(decimal(n)),
        decimal_value(decimal(n)) == n,
    decreases n,
{
    if n < 10 {
        lemma_digit_reads_back(n);
        let s = decimal(n);
        assert(s.drop_last() =~= Seq::<char>::empty());
        assert(decimal_value(s.drop_last()) == 0);
        assert(s.last() == s[0]);
    } else {
        lemma_decimal_reads_back(n / 10);
        lemma_digit_reads_back(n % 10);
        let a = decimal(n / 10);
        let d = crate::keys::digit_str(n % 10);
        let s = a + d;
        assert(s == decimal(n));
        assert(s.drop_last() == a);
        assert(s.last() == d[0]);
        assert(n == (n / 10) * 10 + n % 10) by (nonlinear_arith);
        assert(decimal_value(s) == decimal_value(a) * 10 + ((d[0] as int) - ('0' as int)) as nat);
        assert forall|i: int| 0 <= i < s.len() implies '0' <= #[trigger] s[i] <= '9' by {
            if i < a.len() {
                assert(s[i] == a[i]);
            } else {
                assert(s[i] == d[0]);
            }
        }
    }
}

/// A pid as every message and the pid file write it reads back as that pid, the way the pid file is
/// read: writing and reading agree on every pid.
pub proof fn lemma_pid_text_reads_back(p: Pid)
    ensures
        u32_of_text(pid_text(p)) == Some(p.0),
        u32_of_text(trim(pid_text(p))) == Some(p.0),
{
    lemma_decimal_reads_back(p.0 as nat);
    let t = pid_text(p);
    assert(t[0] != '+');
    assert(trim_start(t) == t);
    assert(trim_end(t) == t);
}

} // verus!
