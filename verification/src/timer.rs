//! An RAII timer.
//!
//! [`timer_effect_and_guard`] builds a linked pair: a [`TimerGuard`] the owning node holds, and an
//! effect a handler returns. The effect loop reads the effect's parts and schedules them; dropping
//! the guard cancels the timer.

use vstd::prelude::*;
use crate::bind::EventTrigger;
use std::time::Duration;
use tokio::sync::oneshot;

verus! {

/// The sending half of tokio's one-shot channel, held only so that dropping it wakes the receiver.
#[verifier::external_type_specification]
#[verifier::external_body]
#[verifier::reject_recursive_types(T)]
pub struct ExOneshotSender<T>(oneshot::Sender<T>);

/// The receiving half of tokio's one-shot channel, which the effect loop awaits to learn that the
/// timer was cancelled.
#[verifier::external_type_specification]
#[verifier::external_body]
#[verifier::reject_recursive_types(T)]
pub struct ExOneshotReceiver<T>(oneshot::Receiver<T>);

/// The error a one-shot receiver yields when its sender is dropped. No function here handles one;
/// it is declared because the receiver's `Future` impl names it as its output, and Verus refuses
/// the receiver type until it is.
#[verifier::external_type_specification]
#[verifier::external_body]
pub struct ExOneshotRecvError(oneshot::error::RecvError);

/// A fresh one-shot channel, from `tokio::sync::oneshot::channel`: the sender is the guard, and
/// dropping it is what the receiver hears. Nothing about the two values is stated.
#[verifier::external_body]
fn cancel_channel() -> (oneshot::Sender<()>, oneshot::Receiver<()>) {
    oneshot::channel::<()>()
}

/// Identifies one timer.
///
/// Minted when the timer is set and stamped on both halves, so a fired event can be matched
/// against the guard still held.
#[derive(Clone, Copy, PartialEq, Eq, Structural, Hash, Debug)]
pub struct TimerId(u64);

impl View for TimerId {
    type V = nat;

    closed spec fn view(&self) -> nat {
        self.0 as nat
    }
}

/// Two timer ids are the same exactly when they carry the same number.
pub proof fn lemma_timer_id_view_injective(a: TimerId, b: TimerId)
    ensures
        (a@ == b@) == (a == b),
{
}

/// Where timer ids come from: each id it hands out is one past the one before, so two timers
/// minted from one source never share an id until the count has gone all the way round. A process
/// keeps one, whoever sets its timers.
#[derive(Debug)]
pub struct TimerIds(u64);

impl View for TimerIds {
    type V = nat;

    /// How many ids have been handed out; every id so far is below it.
    closed spec fn view(&self) -> nat {
        self.0 as nat
    }
}

impl TimerIds {
    /// A source that has handed out nothing.
    pub fn new() -> (r: Self)
        ensures
            r@ == 0,
    {
        TimerIds(0)
    }

    /// The next id: the count so far, after which the count moves one on, wrapping to zero past
    /// the largest id.
    pub fn mint(&mut self) -> (r: TimerId)
        ensures
            r@ == old(self)@,
            final(self)@ == next_count(old(self)@),
    {
        let id = TimerId(self.0);
        self.0 = self.0.wrapping_add(1);
        id
    }
}

/// The count a source stands at after handing out one more id from `c`.
pub open spec fn next_count(c: nat) -> nat {
    if c < u64::MAX {
        c + 1
    } else {
        0
    }
}

/// The count a source stands at after handing out `k` ids from `start`, which is the id the next
/// one will carry.
pub open spec fn count_after(start: nat, k: nat) -> nat
    decreases k,
{
    if k == 0 {
        start
    } else {
        next_count(count_after(start, (k - 1) as nat))
    }
}

proof fn lemma_fresh_count(k: nat)
    requires
        k <= u64::MAX,
    ensures
        count_after(0, k) == k,
    decreases k,
{
    if k > 0 {
        lemma_fresh_count((k - 1) as nat);
    }
}

/// From a fresh source the `k`-th id minted is `k`, so no two of the first 2^64 timers a process
/// sets share an id.
pub proof fn lemma_fresh_ids_never_repeat(i: nat, j: nat)
    requires
        i < j <= u64::MAX,
    ensures
        count_after(0, i) == i,
        count_after(0, j) == j,
        count_after(0, i) != count_after(0, j),
{
    lemma_fresh_count(i);
    lemma_fresh_count(j);
}

/// The number of distinct ids a source hands out before the count comes round again.
pub open spec fn id_space() -> nat {
    u64::MAX as nat + 1
}

proof fn lemma_count_after_is_mod(start: nat, k: nat)
    requires
        start <= u64::MAX,
    ensures
        count_after(start, k) as int == (start + k) as int % (id_space() as int),
    decreases k,
{
    let m = id_space() as int;
    if k == 0 {
        vstd::arithmetic::div_mod::lemma_small_mod(start, id_space());
    } else {
        lemma_count_after_is_mod(start, (k - 1) as nat);
        let x: int = start + k - 1;
        let c = x % m;
        vstd::arithmetic::div_mod::lemma_mod_pos_bound(x, m);
        vstd::arithmetic::div_mod::lemma_add_mod_noop(x, 1, m);
        vstd::arithmetic::div_mod::lemma_small_mod(1, id_space());
        if c < u64::MAX {
            vstd::arithmetic::div_mod::lemma_small_mod((c + 1) as nat, id_space());
        } else {
            assert(c + 1 == m);
            vstd::arithmetic::div_mod::lemma_mod_self_0(m);
        }
    }
}

/// Whatever a source's count, the ids it hands out over any stretch of fewer than 2^64 timers are
/// all distinct: the `i`-th and the `j`-th from any point differ.
pub proof fn lemma_ids_never_repeat(start: nat, i: nat, j: nat)
    requires
        start <= u64::MAX,
        i < j,
        j - i <= u64::MAX,
    ensures
        count_after(start, i) != count_after(start, j),
{
    let m = id_space() as int;
    lemma_count_after_is_mod(start, i);
    lemma_count_after_is_mod(start, j);
    vstd::arithmetic::div_mod::lemma_mod_equivalence((start + j) as int, (start + i) as int, m);
    vstd::arithmetic::div_mod::lemma_small_mod((j - i) as nat, id_space());
    assert((start + j) as int - (start + i) as int == j - i);
}

/// The guard for one timer: what cancels it, and which timer it is.
///
/// Dropping it cancels the timer, because it drops the channel's sender inside it. Keeping it is
/// what lets a binding match the event this timer will fire and no other.
#[derive(Debug)]
pub struct TimerGuard {
    id: TimerId,
    guard: oneshot::Sender<()>,
}

impl TimerGuard {
    /// Which timer this guard holds.
    pub closed spec fn id_spec(&self) -> TimerId {
        self.id
    }

    /// The trigger matching this timer's own firing, and no other.
    pub fn trigger(&self) -> (r: TimerTrigger)
        ensures
            r == TimerTrigger(self.id_spec()),
    {
        TimerTrigger(self.id)
    }
}

/// A timer fired, carrying which timer it was.
#[derive(Debug)]
pub struct TimerFired(pub TimerId);

/// Matches only the firing of the timer it was built from.
#[derive(Clone, Copy, PartialEq, Eq, Structural, Hash, Debug)]
pub struct TimerTrigger(pub TimerId);

impl EventTrigger for TimerTrigger {
    type Event = TimerFired;

    open spec fn matches(&self, event: &TimerFired) -> bool {
        self.0 == event.0
    }

    fn is_matching(&self, event: &TimerFired) -> (r: bool) {
        self.0 == event.0
    }
}

/// A guard's trigger matches the firing of its own timer and of no other.
pub proof fn lemma_guard_trigger_matches_only_its_timer(guard: TimerGuard, fired: TimerFired)
    ensures
        TimerTrigger(guard.id_spec()).matches(&fired) <==> fired.0 == guard.id_spec(),
{
}

/// The scheduling half: a delay, the event to fire, and the cancel channel.
///
/// A handler returns it as an effect and the effect loop pattern-matches it to schedule. It owns
/// the event and the receiver, so it is used once.
#[derive(Debug)]
pub struct TimerEffect<E> {
    pub delay: Duration,
    pub event: E,
    pub cancel: oneshot::Receiver<()>,
}

/// Build a linked guard and event that fires after `delay`. Dropping the guard cancels the timer.
///
/// `event` is handed the id identifying this timer, a fresh one from `ids`, so the event it builds
/// carries it and the binding that wants it can match on the guard still held.
pub fn timer_effect_and_guard<E, F: FnOnce(TimerId) -> E>(
    ids: &mut TimerIds,
    delay: Duration,
    event: F,
) -> (r: (TimerGuard, TimerEffect<E>))
    requires
        forall|id: TimerId| call_requires(event, (id,)),
    ensures
        r.0.id_spec()@ == old(ids)@,
        final(ids)@ == next_count(old(ids)@),
        r.1.delay == delay,
        call_ensures(event, (r.0.id_spec(),), r.1.event),
{
    let (guard, receiver) = cancel_channel();
    let id = ids.mint();
    let ev = event(id);
    (TimerGuard { id, guard }, TimerEffect { delay, event: ev, cancel: receiver })
}

} // verus!
