//! Reading the daemon's log back: which level a record is, whether to show it, and how to paint it
//! the way the daemon's own terminal would have; and stamping each record the daemon writes with
//! its pid.

use vstd::prelude::*;
use crate::keys::decimal;
use crate::text::{chars_of, find, first_occurrence, is_whitespace, is_ws, tokens, lemma_tokens_shape};

verus! {

/// The verbosity of a log record, most severe first.
#[derive(Clone, Copy, PartialEq, Eq, Structural, Debug)]
pub enum LogLevel {
    Error,
    Warn,
    Info,
    Debug,
    Trace,
}

/// A level's place in the order, `1` for the most severe and `5` for the least.
pub open spec fn rank(level: LogLevel) -> nat {
    match level {
        LogLevel::Error => 1,
        LogLevel::Warn => 2,
        LogLevel::Info => 3,
        LogLevel::Debug => 4,
        LogLevel::Trace => 5,
    }
}

/// The level at place `n` in the order.
pub open spec fn level_at(n: nat) -> LogLevel {
    if n == 1 {
        LogLevel::Error
    } else if n == 2 {
        LogLevel::Warn
    } else if n == 3 {
        LogLevel::Info
    } else if n == 4 {
        LogLevel::Debug
    } else {
        LogLevel::Trace
    }
}

/// The name a level is written under in a record.
pub open spec fn level_name(level: LogLevel) -> Seq<char> {
    match level {
        LogLevel::Error => "ERROR"@,
        LogLevel::Warn => "WARN"@,
        LogLevel::Info => "INFO"@,
        LogLevel::Debug => "DEBUG"@,
        LogLevel::Trace => "TRACE"@,
    }
}

/// `c` with an ASCII capital made small, and anything else left as it is.
pub open spec fn ascii_lower(c: char) -> char {
    if 'A' <= c <= 'Z' {
        ((c as u32) + 32) as char
    } else {
        c
    }
}

/// Whether `a` and `b` are the same text once ASCII capitals are made small.
pub open spec fn same_ignoring_ascii_case(a: Seq<char>, b: Seq<char>) -> bool {
    a.len() == b.len() && forall|i: int| 0 <= i < a.len() ==> ascii_lower(a[i]) == ascii_lower(b[i])
}

/// The number the ASCII digits `d` spell.
pub open spec fn digits_value(d: Seq<char>) -> nat
    decreases d.len(),
{
    if d.len() == 0 {
        0
    } else {
        digits_value(d.drop_last()) * 10 + ((d.last() as nat) - ('0' as nat)) as nat
    }
}

/// The number `t` spells as an unsigned integer: ASCII digits, at least one, after an optional
/// `+`.
pub open spec fn unsigned_value(t: Seq<char>) -> Option<nat> {
    let d = if t.len() > 0 && t[0] == '+' { t.drop_first() } else { t };
    if d.len() > 0 && forall|i: int| 0 <= i < d.len() ==> '0' <= #[trigger] d[i] <= '9' {
        Some(digits_value(d))
    } else {
        None
    }
}

/// The level a token names, as tracing reads one: a number from 1 (`ERROR`) to 5 (`TRACE`), or a
/// level's name in any ASCII case.
pub open spec fn level_from_text(t: Seq<char>) -> Option<LogLevel> {
    match unsigned_value(t) {
        Some(v) if 1 <= v <= 5 => Some(level_at(v)),
        _ => if same_ignoring_ascii_case(t, "error"@) {
            Some(LogLevel::Error)
        } else if same_ignoring_ascii_case(t, "warn"@) {
            Some(LogLevel::Warn)
        } else if same_ignoring_ascii_case(t, "info"@) {
            Some(LogLevel::Info)
        } else if same_ignoring_ascii_case(t, "debug"@) {
            Some(LogLevel::Debug)
        } else if same_ignoring_ascii_case(t, "trace"@) {
            Some(LogLevel::Trace)
        } else {
            None
        },
    }
}

/// The level tracing parses `token` as, through `tracing::Level`'s `FromStr`: the source reads it
/// as an unsigned number from 1 to 5, and failing that as a level's name compared with
/// `eq_ignore_ascii_case`; anything else is an error, `None` here.
#[verifier::external_body]
fn parse_level(token: &str) -> (r: Option<LogLevel>)
    ensures
        r == level_from_text(token@),
{
    match token.parse::<tracing::Level>() {
        Ok(tracing::Level::ERROR) => Some(LogLevel::Error),
        Ok(tracing::Level::WARN) => Some(LogLevel::Warn),
        Ok(tracing::Level::INFO) => Some(LogLevel::Info),
        Ok(tracing::Level::DEBUG) => Some(LogLevel::Debug),
        Ok(_) => Some(LogLevel::Trace),
        Err(_) => None,
    }
}

impl LogLevel {
    /// The name the level is written under: `ERROR`, `WARN`, `INFO`, `DEBUG` or `TRACE`.
    pub fn as_str(self) -> (r: &'static str)
        ensures
            r@ == level_name(self),
    {
        match self {
            LogLevel::Error => "ERROR",
            LogLevel::Warn => "WARN",
            LogLevel::Info => "INFO",
            LogLevel::Debug => "DEBUG",
            LogLevel::Trace => "TRACE",
        }
    }

    /// Whether a record at this level is at least as severe as `least`, so a filter asking for
    /// `least` and above shows it.
    pub fn at_or_above(self, least: LogLevel) -> (r: bool)
        ensures
            r == (rank(self) <= rank(least)),
    {
        self.rank() <= least.rank()
    }

    fn rank(self) -> (r: u8)
        ensures
            r == rank(self),
    {
        match self {
            LogLevel::Error => 1,
            LogLevel::Warn => 2,
            LogLevel::Info => 3,
            LogLevel::Debug => 4,
            LogLevel::Trace => 5,
        }
    }
}

/// The level of a record: the third whitespace-separated token of the line, read as tracing reads
/// a level. `None` for a line that is not a record.
pub open spec fn level_of_line(line: Seq<char>) -> Option<LogLevel> {
    if tokens(line).len() >= 3 {
        level_from_text(tokens(line)[2])
    } else {
        None
    }
}

/// The level of a record, read out of the line the log formatter wrote.
///
/// A stamped record is `pid=N TIMESTAMP LEVEL target: message`, so the level is the third
/// whitespace-separated token; splitting on whitespace also drops the padding the formatter puts
/// in front of the shorter names. `None` for a line that is not a record.
pub fn record_level(line: &str) -> (r: Option<LogLevel>)
    ensures
        r == level_of_line(line@),
{
    let s = chars_of(line);
    let n = s.len();
    let mut count: usize = 0;
    let mut start: usize = 0;
    let mut end: usize = 0;
    let mut prev_ws = true;
    let mut i: usize = 0;
    while i < n
        invariant
            n == s@.len(),
            s@ == line@,
            i <= n,
            count <= i,
            count == tokens(s@.take(i as int)).len(),
            prev_ws == (i == 0 || is_ws(s@[i - 1])),
            start <= end <= i,
            count >= 3 ==> tokens(s@.take(i as int))[2] == s@.subrange(start as int, end as int),
            count == 3 && !prev_ws ==> end == i,
        decreases n - i,
    {
        let c = s[i];
        let ghost before = s@.take(i as int);
        let ghost after = s@.take(i + 1);
        assert(after.drop_last() == before);
        assert(after.last() == c);
        proof {
            lemma_tokens_shape(before);
            if i >= 1 {
                assert(after[after.len() - 2] == s@[i - 1]);
            }
        }
        if is_whitespace(c) {
            prev_ws = true;
        } else {
            if prev_ws {
                count = count + 1;
                if count == 3 {
                    start = i;
                    end = i + 1;
                    assert(s@.subrange(start as int, end as int) == seq![c]);
                }
            } else if count == 3 {
                assert(s@.subrange(start as int, i + 1) == s@.subrange(start as int, i as int).push(c));
                end = i + 1;
            }
            prev_ws = false;
        }
        i = i + 1;
    }
    assert(s@.take(n as int) == s@);
    if count < 3 {
        return None;
    }
    let token = line.substring_char(start, end);
    parse_level(token)
}

/// Dim, for the part of a record that is the same on every line.
pub open spec fn dim() -> Seq<char> {
    "\x1b[2m"@
}

/// Back to the terminal's own colours.
pub open spec fn reset() -> Seq<char> {
    "\x1b[0m"@
}

/// The colour the log formatter gives a level when it writes in colour.
pub open spec fn color_code(level: LogLevel) -> Seq<char> {
    match level {
        LogLevel::Error => "\x1b[31m"@,
        LogLevel::Warn => "\x1b[33m"@,
        LogLevel::Info => "\x1b[32m"@,
        LogLevel::Debug => "\x1b[34m"@,
        LogLevel::Trace => "\x1b[35m"@,
    }
}

/// The colour the formatter would have given a level, had the file been written in colour.
pub fn level_color(level: LogLevel) -> (r: &'static str)
    ensures
        r@ == color_code(level),
{
    match level {
        LogLevel::Error => "\x1b[31m",
        LogLevel::Warn => "\x1b[33m",
        LogLevel::Info => "\x1b[32m",
        LogLevel::Debug => "\x1b[34m",
        LogLevel::Trace => "\x1b[35m",
    }
}

/// What is shown for one line: split at the first occurrence of the level's own name, the prefix
/// that is the same on every line dimmed and the name in its colour; a line with no level, one
/// whose level's name does not occur in it, or any line when colour is off, unchanged. Either way
/// followed by a newline.
pub open spec fn shown_text(line: Seq<char>, level: Option<LogLevel>, color: bool) -> Seq<char> {
    match level {
        Some(l) if color => match first_occurrence(line, level_name(l)) {
            Some(i) => dim() + line.subrange(0, i) + reset() + color_code(l) + level_name(l) + reset()
                + line.subrange(i + level_name(l).len(), line.len() as int) + "\n"@,
            None => line + "\n"@,
        },
        _ => line + "\n"@,
    }
}

/// Show one record, colouring it the way the daemon's own terminal would have: what is written for
/// `line`, whose level is `level`, newline included.
pub fn show(line: &str, level: Option<LogLevel>, color: bool) -> (r: String)
    ensures
        r@ == shown_text(line@, level, color),
{
    match level {
        Some(l) => {
            if color {
                let s = chars_of(line);
                let name = l.as_str();
                let pat = chars_of(name);
                match find(&s, &pat) {
                    Some(i) => {
                        let m = pat.len();
                        let n = s.len();
                        assert(crate::text::occurs_at(s@, pat@, i as int));
                        assert(i + m <= n);
                        let head = line.substring_char(0, i);
                        let rest = line.substring_char(i + m, n);
                        let mut out = String::from_str("\x1b[2m");
                        out.append(head);
                        out.append("\x1b[0m");
                        out.append(level_color(l));
                        out.append(name);
                        out.append("\x1b[0m");
                        out.append(rest);
                        out.append("\n");
                        return out;
                    },
                    None => {},
                }
            }
        },
        None => {},
    }
    let out = String::from_str(line);
    out.concat("\n")
}

/// What is written for a record when the reader asked for `least` and above: nothing for a record
/// below it, and the shown line for anything else. A line with no level is not a record and is
/// shown rather than dropped, because hiding what cannot be classified is how a log loses the one
/// line that mattered.
pub open spec fn record_shown(line: Seq<char>, least: LogLevel, color: bool) -> Option<Seq<char>> {
    match level_of_line(line) {
        Some(l) if rank(l) > rank(least) => None,
        level => Some(shown_text(line, level, color)),
    }
}

/// The text to write for one record, if it is at `least` or above.
pub fn show_record(line: &str, least: LogLevel, color: bool) -> (r: Option<String>)
    ensures
        match r {
            Some(t) => record_shown(line@, least, color) == Some(t@),
            None => record_shown(line@, least, color) is None,
        },
{
    let level = record_level(line);
    match level {
        Some(l) => {
            if !l.at_or_above(least) {
                return None;
            }
        },
        None => {},
    }
    Some(show(line, level, color))
}

/// A line with no level is always shown, whatever the reader asked for, and never painted.
pub proof fn lemma_unclassified_lines_are_shown_plain(line: Seq<char>, least: LogLevel, color: bool)
    requires
        level_of_line(line) is None,
    ensures
        record_shown(line, least, color) == Some(line + "\n"@),
{
}

/// Asking for more verbosity never hides a line that less verbosity showed.
pub proof fn lemma_more_verbose_shows_more(line: Seq<char>, least: LogLevel, wider: LogLevel, color: bool)
    requires
        rank(least) <= rank(wider),
        record_shown(line, least, color) is Some,
    ensures
        record_shown(line, wider, color) == record_shown(line, least, color),
{
}

/// Colour adds escapes around the line and removes nothing: taking the escapes out of a painted line
/// leaves the line as written.
pub proof fn lemma_paint_keeps_the_text(line: Seq<char>, l: LogLevel)
    requires
        first_occurrence(line, level_name(l)) is Some,
    ensures
        ({
            let i = first_occurrence(line, level_name(l))->0;
            line.subrange(0, i) + level_name(l) + line.subrange(i + level_name(l).len(), line.len() as int)
                == line
        }),
{
    let i = first_occurrence(line, level_name(l))->0;
    let n = level_name(l).len();
    let chosen = choose|j: int| crate::text::first_at(line, level_name(l), j);
    assert(crate::text::first_at(line, level_name(l), chosen));
    assert(line.subrange(0, i) + line.subrange(i, i + n) + line.subrange(i + n, line.len() as int) == line);
}

/// The bytes every record of this process starts with in place of its opening brace:
/// `{"pid":N,`, so the pid is the record's first field.
pub open spec fn pid_stamp_text(pid: u32) -> Seq<char> {
    "{\"pid\":"@ + decimal(pid as nat) + ","@
}

/// The stamp for the process `pid`.
pub fn pid_stamp(pid: u32) -> (r: String)
    ensures
        r@ == pid_stamp_text(pid),
{
    let digits = crate::keys::decimal_string(pid as u64);
    let s = String::from_str("{\"pid\":");
    let s = s.concat(digits.as_str());
    s.concat(",")
}

/// What is written for one formatted record: a record that is a JSON object has its opening
/// brace replaced by the stamp, and anything else, which would be destroyed by losing its first
/// byte, is written through untouched.
pub open spec fn stamped(record: Seq<u8>, stamp: Seq<u8>) -> Seq<u8> {
    if record.len() > 0 && record[0] == 0x7bu8 {
        stamp + record.drop_first()
    } else {
        record
    }
}

/// Stamp one record with `stamp`.
pub fn stamp_record(record: &[u8], stamp: &[u8]) -> (r: Vec<u8>)
    ensures
        r@ == stamped(record@, stamp@),
{
    let mut out: Vec<u8> = Vec::new();
    let from: usize = if record.len() > 0 && record[0] == 0x7bu8 {
        let mut k: usize = 0;
        while k < stamp.len()
            invariant
                k <= stamp@.len(),
                out@ == stamp@.take(k as int),
            decreases stamp@.len() - k,
        {
            out.push(stamp[k]);
            assert(stamp@.take(k + 1) == stamp@.take(k as int).push(stamp@[k as int]));
            k = k + 1;
        }
        assert(stamp@.take(k as int) == stamp@);
        1
    } else {
        0
    };
    let ghost base = out@;
    let mut i: usize = from;
    while i < record.len()
        invariant
            from <= i <= record@.len(),
            out@ == base + record@.subrange(from as int, i as int),
        decreases record@.len() - i,
    {
        out.push(record[i]);
        assert(record@.subrange(from as int, i + 1) == record@.subrange(from as int, i as int).push(
            record@[i as int],
        ));
        i = i + 1;
    }
    assert(record@.subrange(from as int, record@.len() as int) == if from == 1 {
        record@.drop_first()
    } else {
        record@
    });
    out
}

/// The filter's order is severity, as tracing numbers the levels: ERROR most severe, then WARN,
/// INFO, DEBUG and TRACE, each level at the place tracing's number for it names.
pub proof fn lemma_filter_order_is_severity(l: LogLevel)
    ensures
        rank(LogLevel::Error) < rank(LogLevel::Warn) < rank(LogLevel::Info) < rank(LogLevel::Debug)
            < rank(LogLevel::Trace),
        level_at(rank(l)) == l,
        1 <= rank(l) <= 5,
{
}

/// Whatever a reader asks for, an ERROR record is shown; a record is always shown to a reader who
/// asks for its own level; and a record is hidden from a reader who asks only for more severe ones.
pub proof fn lemma_severe_records_are_always_shown(line: Seq<char>, least: LogLevel, color: bool)
    ensures
        level_of_line(line) == Some(LogLevel::Error) ==> record_shown(line, least, color) is Some,
        level_of_line(line) matches Some(l) ==> record_shown(line, l, color) is Some,
        level_of_line(line) == Some(LogLevel::Trace) && least != LogLevel::Trace ==> record_shown(line, least, color) is None,
        level_of_line(line) == Some(LogLevel::Warn) && least == LogLevel::Error ==> record_shown(line, least, color) is None,
{
}

} // verus!
