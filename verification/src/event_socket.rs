//! The loopback event socket's handshake rule: web pages are refused, and everything else may
//! connect.
//!
//! A browser attaches `Origin` to a WebSocket handshake and leaves the decision to the server, and
//! a WebSocket handshake is exempt from the same-origin policy, so without this rule any page in
//! any open tab could drive the socket.

use vstd::prelude::*;

verus! {

/// Whether `s` begins with `prefix`.
pub open spec fn starts_with(s: Seq<char>, prefix: Seq<char>) -> bool {
    prefix.len() <= s.len() && s.take(prefix.len() as int) == prefix
}

/// Whether `s` begins with `prefix`.
fn has_prefix(s: &str, prefix: &str) -> (r: bool)
    ensures
        r == starts_with(s@, prefix@),
{
    let n = s.unicode_len();
    let m = prefix.unicode_len();
    if m > n {
        return false;
    }
    let mut i: usize = 0;
    while i < m
        invariant
            n == s@.len(),
            m == prefix@.len(),
            m <= n,
            i <= m,
            forall|k: int| 0 <= k < i ==> s@[k] == prefix@[k],
        decreases m - i,
    {
        if s.get_char(i) != prefix.get_char(i) {
            assert(s@.take(m as int)[i as int] != prefix@[i as int]);
            return false;
        }
        i = i + 1;
    }
    assert(s@.take(m as int) == prefix@);
    true
}

/// Whether a handshake carrying the `Origin` header `origin` may connect: absent, as native clients
/// send it, or anything that is not a page's `http`/`https` origin.
pub open spec fn origin_admitted(origin: Option<Seq<char>>) -> bool {
    match origin {
        None => true,
        Some(o) => !starts_with(o, "http://"@) && !starts_with(o, "https://"@),
    }
}

/// Whether a handshake carrying this `Origin` may connect.
///
/// Native clients send none, so absent connects. A page's `http`/`https` origin does not, and that
/// includes a page served from loopback, which is still a page. Anything else, in practice
/// `chrome-extension://<id>`, connects; the id is not matched, because an unpacked development
/// build's id follows from where it was loaded and a packed build's differs again.
pub fn origin_allowed(origin: Option<&str>) -> (r: bool)
    ensures
        r == origin_admitted(match origin {
            Some(o) => Some(o@),
            None => None,
        }),
{
    match origin {
        None => true,
        Some(o) => !has_prefix(o, "http://") && !has_prefix(o, "https://"),
    }
}

} // verus!
