//! [`Synced`]: one type for the two-phase sync of a mirrored value.

use vstd::prelude::*;

verus! {

/// The generation of one synced value: minted by a watcher from its [`GenerationMinter`],
/// increasing within that watcher for the life of the process, so a generation never repeats.
#[derive(Clone, Copy, PartialEq, Eq, Structural, Debug)]
pub struct Generation(u64);

impl View for Generation {
    type V = nat;

    closed spec fn view(&self) -> nat {
        self.0 as nat
    }
}

/// Two generations are the same exactly when they carry the same number.
pub proof fn lemma_generation_view_injective(a: Generation, b: Generation)
    ensures
        (a@ == b@) == (a == b),
{
}

/// A watcher's generation mint: one per watcher, never per key.
#[derive(Debug)]
pub struct GenerationMinter(u64);

impl View for GenerationMinter {
    type V = nat;

    /// The last generation minted; zero before the first.
    closed spec fn view(&self) -> nat {
        self.0 as nat
    }
}

impl Default for GenerationMinter {
    fn default() -> (r: Self)
        ensures
            r@ == 0,
    {
        GenerationMinter(0)
    }
}

impl GenerationMinter {
    /// The next generation: one past the last this mint handed out.
    pub fn mint(&mut self) -> (r: Generation)
        requires
            old(self)@ < u64::MAX,
        ensures
            final(self)@ == old(self)@ + 1,
            r@ == final(self)@,
            r@ > old(self)@,
    {
        self.0 = self.0 + 1;
        Generation(self.0)
    }
}

/// One value synced from the outside world in two phases: the fact that it changed empties the
/// entry, and only the value that fact queued fills it again.
#[derive(Clone, Copy, PartialEq, Eq, Structural, Debug)]
pub enum Synced<V> {
    /// The fact at this generation arrived; its value is in flight. No current value exists.
    Pending(Generation),
    /// What the last landed read answered.
    Known(V),
}

/// The entry after `value` lands for `generation`: applied exactly when the entry still awaits that
/// generation, and otherwise nothing changes.
pub open spec fn committed<V>(s: Synced<V>, generation: Generation, value: V) -> Synced<V> {
    if s == Synced::<V>::Pending(generation) {
        Synced::Known(value)
    } else {
        s
    }
}

impl<V> Synced<V> {
    /// The fact: the old value dies, this generation's read is awaited.
    pub fn change(&mut self, generation: Generation)
        ensures
            *final(self) == Synced::<V>::Pending(generation),
    {
        *self = Synced::Pending(generation);
    }

    /// The value: applied iff the entry still awaits exactly this generation.
    pub fn commit(&mut self, generation: Generation, value: V)
        ensures
            *final(self) == committed(*old(self), generation, value),
    {
        let applies = match self {
            Synced::Pending(g) => *g == generation,
            Synced::Known(_) => false,
        };
        if applies {
            *self = Synced::Known(value);
        }
    }

    /// The current value, if the sync has one. `Pending` is "no value right now", never the old one.
    pub fn known(&self) -> (r: Option<&V>)
        ensures
            match *self {
                Synced::Known(v) => r == Some(&v),
                Synced::Pending(_) => r is None,
            },
    {
        match self {
            Synced::Known(v) => Some(v),
            Synced::Pending(_) => None,
        }
    }
}

/// Applying the same landing twice equals applying it once.
pub proof fn lemma_commit_is_idempotent<V>(s: Synced<V>, generation: Generation, value: V, later: V)
    ensures
        committed(committed(s, generation, value), generation, later) == committed(s, generation, value),
{
}

/// A read that lands after a newer fact names a generation the entry has moved past, and changes
/// nothing.
pub proof fn lemma_stale_commit_changes_nothing<V>(stale: Generation, newer: Generation, value: V)
    requires
        stale != newer,
    ensures
        committed(Synced::<V>::Pending(newer), stale, value) == Synced::<V>::Pending(newer),
{
}

/// The fact followed by the read it queued leaves that read's value as the current one.
pub proof fn lemma_change_then_commit_lands<V>(generation: Generation, value: V)
    ensures
        committed(Synced::<V>::Pending(generation), generation, value) == Synced::Known(value),
{
}

} // verus!
