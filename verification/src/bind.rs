//! Bindings from a trigger to a handler, dispatched over a laserbeam state tree.

use vstd::prelude::*;
use crate::laserbeam::{Completed, CompletesTo, HasPath, HasStop, MaybeInvalidated, completed_of};
use std::collections::{HashSet, VecDeque};
use std::hash::Hash;

verus! {

/// A trigger matches its source's event.
pub trait EventTrigger {
    /// The source event this trigger matches against.
    type Event;

    /// Whether this trigger matches `event`.
    spec fn matches(&self, event: &Self::Event) -> bool;

    fn is_matching(&self, event: &Self::Event) -> (r: bool)
        ensures
            r == self.matches(event),
    ;
}

/// A trigger that may be absent, which matches nothing when it is.
impl<T: EventTrigger> EventTrigger for Option<T> {
    type Event = T::Event;

    open spec fn matches(&self, event: &T::Event) -> bool {
        match self {
            Some(t) => t.matches(event),
            None => false,
        }
    }

    fn is_matching(&self, event: &T::Event) -> (r: bool) {
        match self {
            Some(t) => t.is_matching(event),
            None => false,
        }
    }
}

/// One exclusive bind handler per dispatch: the first to [`try_take`](Self::try_take) wins.
pub struct Claim<'c> {
    slot: &'c mut Option<()>,
}

impl<'c> Claim<'c> {
    /// Whether the claim has been taken, in the slot it stands over.
    pub closed spec fn taken(&self) -> bool {
        self.slot.is_some()
    }

    /// The slot this claim stands over: shared with the claim it was reborrowed from, so what is
    /// in it when this claim is done is what the one before it holds.
    pub closed spec fn slot_ref(&self) -> &'c mut Option<()> {
        self.slot
    }

    /// A claim over `slot`: taken exactly when the slot already holds the claim, and whatever the
    /// claim leaves in the slot is what the slot holds afterwards.
    pub fn new(slot: &'c mut Option<()>) -> (r: Self)
        ensures
            r.taken() == old(slot).is_some(),
            *final(slot) == *final(r.slot_ref()),
    {
        Claim { slot }
    }

    pub fn is_taken(&self) -> (r: bool)
        ensures
            r == self.taken(),
    {
        self.slot.is_some()
    }

    /// A fresh `Claim` over the same slot, for one scheduled item: it starts as taken as this one,
    /// and taking it takes this one, since what it leaves in the slot is what this one holds once
    /// it is done.
    pub fn reborrow(&mut self) -> (r: Claim<'_>)
        ensures
            r.taken() == old(self).taken(),
            *final(self).slot_ref() == *final(r.slot_ref()),
            *final(final(self).slot_ref()) == *final(old(self).slot_ref()),
    {
        Claim { slot: &mut *self.slot }
    }

    /// Take the claim. `Some(())`: it was free and is yours now. `None`: someone already has it.
    /// Either way it is taken afterwards, in the slot it stands over.
    pub fn try_take(&mut self) -> (r: Option<()>)
        ensures
            r is Some <==> !old(self).taken(),
            final(self).taken(),
            *final(final(self).slot_ref()) == *final(old(self).slot_ref()),
    {
        if self.slot.is_some() {
            None
        } else {
            *self.slot = Some(());
            Some(())
        }
    }
}

/// What every scheduled handler receives beside the event.
pub struct AscendState<'a, P: HasStop> {
    claim: Claim<'a>,
    /// Whether the descent, and every item scheduled before this one, destroyed the path this
    /// handler is bound on.
    pub state: MaybeInvalidated<P>,
}

impl<'a, P: HasStop> AscendState<'a, P> {
    /// The state a handler is handed: its path, or the leave that destroyed it.
    pub closed spec fn state_spec(&self) -> MaybeInvalidated<P> {
        self.state
    }

    /// Whether the claim has been taken.
    pub closed spec fn claimed(&self) -> bool {
        self.claim.taken()
    }

    /// The claim this state carries.
    pub closed spec fn claim_spec(&self) -> Claim<'a> {
        self.claim
    }

    pub fn new(state: MaybeInvalidated<P>, claim: Claim<'a>) -> (r: Self)
        ensures
            r.state_spec() == state,
            r.claimed() == claim.taken(),
            r.claim_spec() == claim,
    {
        AscendState { claim, state }
    }

    /// `Some(())`: you won the claim. `None`: someone already has it.
    pub fn claim(&mut self) -> (r: Option<()>)
        ensures
            r is Some <==> !old(self).claimed(),
            final(self).claimed(),
            final(self).state_spec() == old(self).state_spec(),
            *final(final(self).claim_spec().slot_ref()) == *final(old(self).claim_spec().slot_ref()),
    {
        self.claim.try_take()
    }

    /// Stay where you are: the leave this state completes to. The claim is left as it was.
    pub fn complete(self) -> (r: Completed<P>)
        where
            P: CompletesTo<P>,
        ensures
            r == completed_of(self.state_spec()),
            *final(self.claim_spec().slot_ref()) == *self.claim_spec().slot_ref(),
    {
        self.state.complete()
    }
}

/// Binds a handler that needs its path: the handler receives the path itself; when the path was
/// invalidated, it completes where it stands with no effects and the handler never runs. Either
/// way the claim is left as it was found: this gate never takes it.
pub fn if_not_invalidated<Ev, Snap, P, E, H>(handler: H) -> (r: impl FnOnce(Ev, Snap, AscendState<'_, P>) -> (Vec<E>, Completed<P>))
    where
        P: HasStop,
        H: FnOnce(Ev, Snap, P) -> (Vec<E>, Completed<P>),
    requires
        forall|ev: Ev, snap: Snap, p: P| handler.requires((ev, snap, p)),
    ensures
        forall|ev: Ev, snap: Snap, st: AscendState<'_, P>| r.requires((ev, snap, st)),
        forall|ev: Ev, snap: Snap, st: AscendState<'_, P>, out: (Vec<E>, Completed<P>)|
            r.ensures((ev, snap, st), out) ==> {
                &&& match st.state_spec() {
                    MaybeInvalidated::NotInvalidated(p) => handler.ensures((ev, snap, p), out),
                    MaybeInvalidated::Invalidated(c) => out.0@.len() == 0 && out.1 == c,
                }
                &&& *final(st.claim_spec().slot_ref()) == *st.claim_spec().slot_ref()
            },
{
    move |ev: Ev, snap: Snap, st: AscendState<'_, P>| -> (out: (Vec<E>, Completed<P>))
        ensures
            match st.state_spec() {
                MaybeInvalidated::NotInvalidated(p) => handler.ensures((ev, snap, p), out),
                MaybeInvalidated::Invalidated(c) => out.0@.len() == 0 && out.1 == c,
            },
            *final(st.claim_spec().slot_ref()) == *st.claim_spec().slot_ref(),
        {
            match st.state {
                MaybeInvalidated::NotInvalidated(p) => handler(ev, snap, p),
                MaybeInvalidated::Invalidated(c) => (Vec::new(), c),
            }
        }
}

/// The marker an app implements on one type to name its trigger, event, and output types.
pub trait Bindings {
    /// The unified enum of every trigger the app can bind.
    type Trigger: Eq + Hash;
    /// The unified event the app dispatches.
    type Event;
    /// One piece of effect data for the consumer to perform.
    type Effect;
    /// What dispatch returns: the effects, in the order they were produced.
    type Output: View<V = Seq<Self::Effect>>;
}

/// The error the trigger check can produce.
#[derive(Debug, PartialEq, Eq, Structural)]
pub enum BindError {
    /// A trigger was bound at more than one node on the active path.
    DuplicateTrigger,
}

/// The accumulate half of the check: adds a node's triggers, and those of its active descendants,
/// to `out`, and hands the path back.
pub trait AccumulateTriggers<M: Bindings>: HasPath {
    /// Whether accumulating at `path` takes the trigger set from `before` to `after` and returns
    /// `r`: what this node inserts, and what its active descendants do. A node that states nothing
    /// about it leaves it unknown to callers.
    open spec fn accumulates<'a>(
        path: Self::Path<'a>,
        before: Set<M::Trigger>,
        after: Set<M::Trigger>,
        r: Result<Self::Path<'a>, BindError>,
    ) -> bool {
        true
    }

    /// Adds this node's triggers, and its active descendants', to `out`. The set only grows:
    /// every trigger already in it stays.
    fn accumulate<'a>(path: Self::Path<'a>, out: &mut HashSet<M::Trigger>) -> (r: Result<Self::Path<'a>, BindError>)
        where
            Self: 'a,
        ensures
            Self::accumulates(path, old(out)@, final(out)@, r),
            old(out)@.subset_of(final(out)@),
    ;
}

/// Inserts `t` into `out`, failing when it is already present.
pub fn insert_or_error<T: Eq + Hash>(out: &mut HashSet<T>, t: T) -> (r: Result<(), BindError>)
    ensures
        vstd::std_specs::hash::obeys_key_model::<T>() ==> {
            &&& final(out)@ == old(out)@.insert(t)
            &&& (r is Ok <==> !old(out)@.contains(t))
        },
        r is Err ==> r == Err::<(), BindError>(BindError::DuplicateTrigger),
{
    if out.insert(t) {
        Ok(())
    } else {
        Err(BindError::DuplicateTrigger)
    }
}

/// Accumulates the active trigger set for the tree at `path`: the root's accumulation run from an
/// empty set, with the set it built when it succeeds, and its error when it does not.
pub fn accumulate<'a, M, N>(path: N::Path<'a>) -> (r: Result<HashSet<M::Trigger>, BindError>)
    where
        M: Bindings,
        N: AccumulateTriggers<M> + 'a,
    ensures
        exists|after: Set<M::Trigger>, back: Result<N::Path<'a>, BindError>| {
            &&& #[trigger] N::accumulates(path, Set::empty(), after, back)
            &&& match back {
                Ok(_) => r matches Ok(set) && set@ == after,
                Err(e) => r == Err::<HashSet<M::Trigger>, BindError>(e),
            }
        },
{
    let mut out = HashSet::new();
    let ghost before = out@;
    let back = N::accumulate(path, &mut out);
    proof {
        assert(before == Set::<M::Trigger>::empty());
        assert(N::accumulates(path, Set::empty(), out@, back));
    }
    match back {
        Ok(_path) => Ok(out),
        Err(e) => Err(e),
    }
}

/// The dispatch half: runs a node's scheduled items for `event` into `effs` under `claim`, its
/// active child's first, and returns the leave they completed to.
pub trait Dispatch<M: Bindings>: HasPath {
    /// Whether dispatching `event` at `path` takes the effects from `before` to `after` and the
    /// claim from taken-or-not `claimed_before` to `claimed_after`, completing to `r`: what this
    /// node's schedule does, after its active child's. A node that states nothing about it leaves
    /// it unknown to callers.
    open spec fn dispatches<'a>(
        path: Self::Path<'a>,
        event: M::Event,
        before: M::Output,
        after: M::Output,
        claimed_before: bool,
        claimed_after: bool,
        r: Completed<Self::Path<'a>>,
    ) -> bool
        where
            Self::Path<'a>: HasStop,
    {
        true
    }

    /// Dispatches `event` at this node: its active child first, then its scheduled items in order,
    /// into `effs`. Effects are only appended: those already in `effs` stay, first and in order.
    fn dispatch<'a, 'c>(
        path: Self::Path<'a>,
        event: &M::Event,
        effs: &mut M::Output,
        claim: &mut Claim<'c>,
    ) -> (r: Completed<Self::Path<'a>>)
        where
            Self: 'a,
            Self::Path<'a>: HasStop,
        ensures
            Self::dispatches(path, *event, *old(effs), *final(effs), old(claim).taken(), final(claim).taken(), r),
            old(effs)@.is_prefix_of(final(effs)@),
    ;
}

/// Dispatches `event` against the tree at `path`, from an empty effect list and an untaken claim:
/// what it produced, and whether some exclusive handler took the claim.
pub fn dispatch<'a, M, N, E>(path: N::Path<'a>, event: &M::Event) -> (r: (Vec<E>, bool))
    where
        M: Bindings<Effect = E, Output = Vec<E>>,
        N: Dispatch<M> + 'a,
        N::Path<'a>: HasStop,
    ensures
        exists|before: Vec<E>, leave: Completed<N::Path<'a>>| {
            &&& before@ == Seq::<E>::empty()
            &&& #[trigger] N::dispatches(path, *event, before, r.0, false, r.1, leave)
        },
{
    let mut effs: Vec<E> = Vec::new();
    let ghost before = effs;
    let mut claim_slot: Option<()> = None;
    let mut claim = Claim::new(&mut claim_slot);
    let leave = N::dispatch(path, event, &mut effs, &mut claim);
    let claimed = claim.is_taken();
    let r = (effs, claimed);
    proof {
        assert(N::dispatches(path, *event, before, r.0, false, r.1, leave));
    }
    r
}

/// One scheduled item of a node's dispatch, run over the state the descent and the items before
/// it left: when its trigger fired, with the event and what its pre snapped, the item runs under
/// the node's claim, its effects follow those already produced, and the state becomes what its
/// leave folds to at this node; the item runs over a reborrow of `claim`, so what the item left in
/// the slot is what `claim` holds afterwards. When its trigger did not fire, nothing changes.
pub fn run_scheduled<'c, Ev, Snap, P, E, H>(
    fired: Option<(Ev, Snap)>,
    state: MaybeInvalidated<P>,
    effs: &mut Vec<E>,
    claim: &mut Claim<'c>,
    item: H,
) -> (r: MaybeInvalidated<P>)
    where
        P: HasStop,
        H: FnOnce(Ev, Snap, AscendState<'_, P>) -> (Vec<E>, Completed<P>),
    requires
        forall|ev: Ev, snap: Snap, st: AscendState<'_, P>| item.requires((ev, snap, st)),
    ensures
        fired is None ==> r == state && final(effs)@ == old(effs)@ && *final(claim) == *old(claim),
        fired matches Some((ev, snap)) ==> exists|st: AscendState<'_, P>, out: (Vec<E>, Completed<P>)| {
            &&& st.state_spec() == state
            &&& st.claimed() == old(claim).taken()
            &&& #[trigger] item.ensures((ev, snap, st), out)
            &&& final(effs)@ == old(effs)@ + out.0@
            &&& r == crate::laserbeam::fold(out.1)
            &&& *final(claim).slot_ref() == *final(st.claim_spec().slot_ref())
        },
        *final(final(claim).slot_ref()) == *final(old(claim).slot_ref()),
{
    match fired {
        None => state,
        Some((ev, snap)) => {
            let st = AscendState::new(state, claim.reborrow());
            let ghost st_g = st;
            let out = item(ev, snap, st);
            let ghost out_g = out;
            let (mut e, completed) = out;
            effs.append(&mut e);
            proof {
                assert(item.ensures((ev, snap, st_g), out_g));
            }
            completed.to_maybe_invalidated()
        },
    }
}

/// A synchronous event runner for tests: queue events, process them one at a time, and queue more
/// between or during steps.
pub struct SimpleRunner<'a, M: Bindings, N> {
    root: &'a mut N,
    queue: VecDeque<M::Event>,
}

impl<'a, M: Bindings, N> SimpleRunner<'a, M, N> {
    /// The tree the runner dispatches against.
    pub closed spec fn root_spec(&self) -> N {
        *self.root
    }

    /// The events queued and not yet processed, front first.
    pub closed spec fn queued(&self) -> Seq<M::Event> {
        self.queue@
    }

    /// The number of queued events not yet processed.
    pub fn len(&self) -> (r: usize)
        ensures
            r == self.queued().len(),
    {
        self.queue.len()
    }

    pub fn is_empty(&self) -> (r: bool)
        ensures
            r == (self.queued().len() == 0),
    {
        self.queue.len() == 0
    }
}

impl<'a, M, N, E> SimpleRunner<'a, M, N>
    where
        M: Bindings<Effect = E, Output = Vec<E>>,
        N: Dispatch<M> + for <'b> HasPath<Path<'b> = &'b mut N>,
{
    /// A runner over the tree rooted at `root`, with an empty queue.
    pub fn new(root: &'a mut N) -> (r: Self)
        ensures
            r.queued() == Seq::<M::Event>::empty(),
    {
        SimpleRunner { root, queue: VecDeque::new() }
    }

    /// Queues an event to be processed by a later [`next`](Self::next).
    pub fn queue_event(&mut self, event: M::Event)
        ensures
            final(self).queued() == old(self).queued().push(event),
    {
        self.queue.push_back(event);
    }

    /// Whether `effs` is what dispatching `event` against a root holding `root` produces, from an
    /// empty effect list and an untaken claim: an outcome of the root's `dispatches` relation.
    pub open spec fn dispatch_effects(root: N, event: M::Event, effs: Vec<E>) -> bool {
        exists|path: &mut N, before: Vec<E>, claimed: bool, leave: Completed<&mut N>| {
            &&& *path == root
            &&& before@ == Seq::<E>::empty()
            &&& #[trigger] N::dispatches(path, event, before, effs, false, claimed, leave)
        }
    }

    /// Processes exactly one queued event, the front one. `None` means the queue was empty;
    /// otherwise it is what [`dispatch`] returned for that event against the root: its effects.
    pub fn next(&mut self) -> (r: Option<Vec<E>>)
        ensures
            old(self).queued().len() == 0 ==> r is None && final(self).queued() == old(self).queued()
                && final(self).root_spec() == old(self).root_spec(),
            old(self).queued().len() > 0 ==> final(self).queued() == old(self).queued().drop_first(),
            old(self).queued().len() > 0 ==> (r matches Some(effs)
                && Self::dispatch_effects(old(self).root_spec(), old(self).queued()[0], effs)),
    {
        match self.queue.pop_front() {
            None => None,
            Some(event) => {
                let (effs, _claimed) = dispatch::<M, N, E>(&mut *self.root, &event);
                Some(effs)
            },
        }
    }

    /// Queues `event` and processes one event, the front of the queue, returning its effects. The
    /// event processed is `event` only when the queue was empty.
    pub fn process_event(&mut self, event: M::Event) -> (r: Vec<E>)
        ensures
            final(self).queued() == old(self).queued().push(event).drop_first(),
            Self::dispatch_effects(old(self).root_spec(), old(self).queued().push(event)[0], r),
    {
        self.queue.push_back(event);
        match self.queue.pop_front() {
            Some(event) => {
                let (effs, _claimed) = dispatch::<M, N, E>(&mut *self.root, &event);
                effs
            },
            None => Vec::new(),
        }
    }
}

/// The claim gate: `handler` runs exactly when the claim is won, and otherwise the state completes
/// where it stands with no effects.
pub fn exclusive<Ev, Snap, P, E, H>(handler: H) -> (r: impl FnOnce(Ev, Snap, AscendState<'_, P>) -> (Vec<E>, Completed<P>))
    where
        P: HasStop + CompletesTo<P>,
        H: FnOnce(Ev, Snap, AscendState<'_, P>) -> (Vec<E>, Completed<P>),
    requires
        forall|ev: Ev, snap: Snap, st: AscendState<'_, P>| handler.requires((ev, snap, st)),
    ensures
        forall|ev: Ev, snap: Snap, st: AscendState<'_, P>| r.requires((ev, snap, st)),
        forall|ev: Ev, snap: Snap, st: AscendState<'_, P>, out: (Vec<E>, Completed<P>)|
            r.ensures((ev, snap, st), out) ==> if st.claimed() {
                out.0@.len() == 0 && out.1 == completed_of(st.state_spec())
            } else {
                exists|won: AscendState<'_, P>| {
                    &&& won.claimed()
                    &&& won.state_spec() == st.state_spec()
                    &&& #[trigger] handler.ensures((ev, snap, won), out)
                }
            },
{
    move |ev: Ev, snap: Snap, st: AscendState<'_, P>| -> (out: (Vec<E>, Completed<P>))
        ensures
            if st.claimed() {
                out.0@.len() == 0 && out.1 == completed_of(st.state_spec())
            } else {
                exists|won: AscendState<'_, P>| {
                    &&& won.claimed()
                    &&& won.state_spec() == st.state_spec()
                    &&& #[trigger] handler.ensures((ev, snap, won), out)
                }
            },
        {
            let mut st = st;
            match st.claim() {
                Some(()) => handler(ev, snap, st),
                None => (Vec::new(), st.complete()),
            }
        }
}

/// Runs `a` then `b` as one handler: effects in order, `b` handed the state `a` left, whether
/// `a` stood or left, and both under the one claim.
///
/// The schedule's fold, at expression level, so one user action composes from units at its bind
/// site. It nests, and it claims nothing itself: a bind wraps the outermost composition in
/// [`exclusive`], so the whole composition takes the one claim and no unit takes its own.
pub fn and<Ev, Snap, P, E, A, B>(a: A, b: B) -> (r: impl FnOnce(Ev, Snap, AscendState<'_, P>) -> (Vec<E>, Completed<P>))
    where
        Ev: Copy,
        Snap: Copy,
        P: HasStop,
        A: FnOnce(Ev, Snap, AscendState<'_, P>) -> (Vec<E>, Completed<P>),
        B: FnOnce(Ev, Snap, AscendState<'_, P>) -> (Vec<E>, Completed<P>),
    requires
        forall|ev: Ev, snap: Snap, st: AscendState<'_, P>| a.requires((ev, snap, st)),
        forall|ev: Ev, snap: Snap, st: AscendState<'_, P>| b.requires((ev, snap, st)),
    ensures
        forall|ev: Ev, snap: Snap, st: AscendState<'_, P>| r.requires((ev, snap, st)),
        forall|ev: Ev, snap: Snap, st: AscendState<'_, P>, out: (Vec<E>, Completed<P>)|
            r.ensures((ev, snap, st), out) ==> and_ran(a, b, ev, snap, st, out),
{
    move |ev: Ev, snap: Snap, st: AscendState<'_, P>| -> (out: (Vec<E>, Completed<P>))
        ensures
            and_ran(a, b, ev, snap, st, out),
        {
            let ghost st0 = st;
            let AscendState { mut claim, state } = st;
            let first_st = AscendState::new(state, claim.reborrow());
            let ghost first_st_g = first_st;
            let first = a(ev, snap, first_st);
            let ghost first_g = first;
            let (mut effs, completed) = first;
            let next = completed.to_maybe_invalidated();
            let second_st = AscendState::new(next, claim.reborrow());
            let ghost second_st_g = second_st;
            let second = b(ev, snap, second_st);
            let ghost second_g = second;
            let (mut e, completed) = second;
            effs.append(&mut e);
            proof {
                assert(a.ensures((ev, snap, first_st_g), first_g));
                assert(b.ensures((ev, snap, second_st_g), second_g));
                assert(first_st_g.state_spec() == st0.state_spec());
                assert(second_st_g.state_spec() == crate::laserbeam::fold(first_g.1));
            }
            (effs, completed)
        }
}

/// What `and(a, b)` did with `ev`, `snap` and `st` when it returned `out`: `a` ran on the state
/// `st` holds, under the claim as it stood; `b` then ran on the state `a`'s leave left behind; and
/// the effects are `a`'s followed by `b`'s, with `b`'s leave the one returned.
pub open spec fn and_ran<'s, Ev, Snap, P: HasStop, E, A, B>(
    a: A,
    b: B,
    ev: Ev,
    snap: Snap,
    st: AscendState<'s, P>,
    out: (Vec<E>, Completed<P>),
) -> bool
    where
        A: FnOnce(Ev, Snap, AscendState<'_, P>) -> (Vec<E>, Completed<P>),
        B: FnOnce(Ev, Snap, AscendState<'_, P>) -> (Vec<E>, Completed<P>),
{
    exists|st1: AscendState<'_, P>, first: (Vec<E>, Completed<P>), st2: AscendState<'_, P>, second: (Vec<E>, Completed<P>)| {
        &&& st1.state_spec() == st.state_spec()
        &&& st1.claimed() == st.claimed()
        &&& #[trigger] a.ensures((ev, snap, st1), first)
        &&& st2.state_spec() == crate::laserbeam::fold(first.1)
        &&& #[trigger] b.ensures((ev, snap, st2), second)
        &&& out.0@ == first.0@ + second.0@
        &&& out.1 == second.1
    }
}

/// Calls a closure trigger with the state its binding is bound on.
pub fn call_with<S: ?Sized, T, F: FnOnce(&S) -> T>(state: &S, f: F) -> (r: T)
    requires
        f.requires((state,)),
    ensures
        f.ensures((state,), r),
{
    f(state)
}

/// What a handler is given: a parent, plus the immutable data this level produced.
pub struct DerivedLevel<Parent, Data> {
    /// What the level above handed down.
    pub parent: Parent,
    /// The immutable data this level produced.
    pub data: Data,
}

/// The place path at the bottom of a parent chain: what a level ascends at.
pub trait HasTreePath {
    /// The place path this chain bottoms out at.
    type TreePath;

    /// The place path of this chain.
    spec fn tree_path(self) -> Self::TreePath;

    /// Consumes this chain and returns that path, dropping every derived level's data.
    fn into_tree_path(self) -> (r: Self::TreePath)
        ensures
            r == self.tree_path(),
    ;
}

/// The root is its own place.
impl<'r, R> HasTreePath for &'r mut R {
    type TreePath = &'r mut R;

    open spec fn tree_path(self) -> &'r mut R {
        self
    }

    fn into_tree_path(self) -> (r: &'r mut R) {
        // Moved through an `Option` so the borrow itself comes back rather than a reborrow of it,
        // which is what lets the result be the same borrow the spec names.
        let w = Some(self);
        w.unwrap()
    }
}

/// A path into the tree is its own place.
impl<N, P> HasTreePath for crate::laserbeam::PathMut<N, P> {
    type TreePath = crate::laserbeam::PathMut<N, P>;

    open spec fn tree_path(self) -> Self {
        self
    }

    fn into_tree_path(self) -> (r: Self) {
        self
    }
}

/// A derived level flattens to its parent's place, however many derived levels are stacked.
impl<Parent: HasTreePath, Data> HasTreePath for DerivedLevel<Parent, Data> {
    type TreePath = Parent::TreePath;

    open spec fn tree_path(self) -> Parent::TreePath {
        self.parent.tree_path()
    }

    fn into_tree_path(self) -> (r: Parent::TreePath) {
        self.parent.into_tree_path()
    }
}

/// Consumes a derived node, dispatches at that level, and surfaces at the place path beneath it.
pub trait DispatchIntoTreePath<M: Bindings>: HasTreePath + Sized where Self::TreePath: HasStop {
    fn dispatch_into_tree_path(
        self,
        event: &M::Event,
        effs: &mut M::Output,
        claim: &mut Claim<'_>,
    ) -> (r: Completed<Self::TreePath>)
        ensures
            old(effs)@.is_prefix_of(final(effs)@),
    ;
}

/// A derived level's half of the trigger check: adds this level's triggers to `out` and hands the
/// parent back.
pub trait AccumulateDerivedTriggers<M: Bindings>: Sized {
    /// The level above, which `accumulate` hands back.
    type Parent;

    fn accumulate(self, out: &mut HashSet<M::Trigger>) -> (r: Result<Self::Parent, BindError>)
        ensures
            old(out)@.subset_of(final(out)@),
    ;
}

} // verus!
