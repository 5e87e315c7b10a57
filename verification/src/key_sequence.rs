//! An ordered run of keys, typed with no modifiers, that the caller acts on when it completes.

use vstd::prelude::*;
use crate::keys::{Key, KeyEvent, KeyPress, PressType};

verus! {

/// How many keys of a run have matched: one per `Down`, since every `Up` belongs to a key that
/// already matched.
pub open spec fn downs(s: Seq<KeyPress>) -> nat
    decreases s.len(),
{
    if s.len() == 0 {
        0
    } else {
        downs(s.drop_last()) + if s.last().press == PressType::Down { 1nat } else { 0nat }
    }
}

/// The keys of the `Down` presses in `s`, in arrival order.
pub open spec fn down_keys(s: Seq<KeyPress>) -> Seq<Key>
    decreases s.len(),
{
    if s.len() == 0 {
        Seq::empty()
    } else if s.last().press == PressType::Down {
        down_keys(s.drop_last()).push(s.last().key)
    } else {
        down_keys(s.drop_last())
    }
}

/// Whether `key` went down in `s` and has not been seen coming up since.
pub open spec fn held(s: Seq<KeyPress>, key: Key) -> bool
    decreases s.len(),
{
    if s.len() == 0 {
        false
    } else if s.last().key == key {
        s.last().press == PressType::Down
    } else {
        held(s.drop_last(), key)
    }
}

/// Whether a run over `keys` that has swallowed `prev` takes the press `p` without completing:
/// the next key of the run going down, not still held from before, and not the last one; or a
/// key the run took coming up.
pub open spec fn takes(keys: Seq<Key>, prev: Seq<KeyPress>, p: KeyPress) -> bool {
    match p.press {
        PressType::Down => downs(prev) + 1 < keys.len() && keys[downs(prev) as int] == p.key
            && !held(prev, p.key),
        PressType::Up => held(prev, p.key),
    }
}

/// Whether `s` is what a run over `keys` can have swallowed: every press in it was taken, in
/// order, by the run as it stood.
pub open spec fn run_ok(keys: Seq<Key>, s: Seq<KeyPress>) -> bool
    decreases s.len(),
{
    if s.len() == 0 {
        true
    } else {
        run_ok(keys, s.drop_last()) && takes(keys, s.drop_last(), s.last())
    }
}

/// The press an event is, without its flags.
pub open spec fn press_of(ev: KeyEvent) -> KeyPress {
    KeyPress { key: ev.key, press: ev.press }
}

/// What one event does to a run that has swallowed `s`.
pub enum Step {
    /// The event is swallowed, and this is what the run holds afterwards.
    Advance(Seq<KeyPress>),
    /// The event breaks the run: the swallowed presses replay and the run is idle again.
    Pass,
    /// The event is the last key of the run: everything is dropped and the caller acts.
    Complete,
}

/// The transition of a run over `keys` that has swallowed `s`, on the event `ev`.
///
/// A modifier flag breaks the run. The next key going down advances it, or completes it when it
/// is the last, unless that key is still held, which is an auto-repeat rather than a second press.
/// A key the run took coming up is swallowed too. Anything else breaks the run.
pub open spec fn step(keys: Seq<Key>, s: Seq<KeyPress>, ev: KeyEvent) -> Step {
    if ev.flags@ != 0 {
        Step::Pass
    } else if ev.press == PressType::Down && downs(s) < keys.len() && keys[downs(s) as int] == ev.key
        && !held(s, ev.key) {
        if downs(s) + 1 == keys.len() {
            Step::Complete
        } else {
            Step::Advance(s.push(press_of(ev)))
        }
    } else if ev.press == PressType::Up && held(s, ev.key) {
        Step::Advance(s.push(press_of(ev)))
    } else {
        Step::Pass
    }
}

/// A run of keys that means something other than what it types: `jk`, say.
///
/// Each key is swallowed as it arrives, so nothing reaches the app until the run breaks, when the
/// swallowed keys replay in order, or completes, when they are dropped and the caller acts.
///
/// The run demands its keys bare, and takes them rolled: any modifier flag breaks it, but the next
/// key may go down before the one before it comes up.
#[derive(Debug, PartialEq, Eq)]
pub struct KeySequence {
    keys: &'static [Key],
    /// What the run has swallowed, in arrival order; empty when it is idle.
    swallowed: Vec<KeyPress>,
}

/// What one key did to a [`KeySequence`].
#[derive(Debug, PartialEq, Eq)]
pub enum KeySequenceOutcome {
    /// The key belongs to the run: it was swallowed, and nothing is emitted.
    Advanced,
    /// The key is not part of the run. These presses replay, in order, and then the key itself,
    /// which the caller emits. Empty when the run was idle.
    Passed(Vec<KeyPress>),
    /// The last key landed. Everything swallowed is dropped and the caller acts on the run.
    Completed,
}

impl KeySequence {
    /// The keys that make up the run.
    pub closed spec fn keys_spec(&self) -> Seq<Key> {
        self.keys@
    }

    /// What the run has swallowed so far, in arrival order.
    pub closed spec fn swallowed_spec(&self) -> Seq<KeyPress> {
        self.swallowed@
    }

    /// The sequence is one a run can be in: it has keys, and what it swallowed the run took.
    #[verifier::type_invariant]
    spec fn inv(&self) -> bool {
        &&& self.keys@.len() > 0
        &&& run_ok(self.keys@, self.swallowed@)
    }

    /// A sequence of `keys`, idle.
    pub fn new(keys: &'static [Key]) -> (r: Self)
        requires
            keys@.len() > 0,
        ensures
            r.keys_spec() == keys@,
            r.swallowed_spec() == Seq::<KeyPress>::empty(),
    {
        KeySequence { keys, swallowed: Vec::new() }
    }

    /// A fresh run over the same keys, idle.
    pub(crate) fn idle_copy(&self) -> (r: Self)
        ensures
            r.keys_spec() == self.keys_spec(),
            r.swallowed_spec() == Seq::<KeyPress>::empty(),
    {
        proof {
            use_type_invariant(self);
        }
        KeySequence { keys: self.keys, swallowed: Vec::new() }
    }

    /// What the run has swallowed so far, in arrival order.
    pub(crate) fn swallowed(&self) -> (r: &[KeyPress])
        ensures
            r@ == self.swallowed_spec(),
    {
        self.swallowed.as_slice()
    }

    /// Whether the run is idle: it has swallowed nothing.
    pub fn is_idle(&self) -> (r: bool)
        ensures
            r == (self.swallowed_spec().len() == 0),
    {
        self.swallowed.len() == 0
    }

    /// Feed one key to the run.
    pub fn advance(&mut self, ev: &KeyEvent) -> (r: KeySequenceOutcome)
        ensures
            final(self).keys_spec() == old(self).keys_spec(),
            match step(old(self).keys_spec(), old(self).swallowed_spec(), *ev) {
                Step::Advance(next) => {
                    &&& r == KeySequenceOutcome::Advanced
                    &&& final(self).swallowed_spec() == next
                },
                Step::Pass => {
                    &&& r matches KeySequenceOutcome::Passed(replay)
                    &&& replay@ == old(self).swallowed_spec()
                    &&& final(self).swallowed_spec().len() == 0
                },
                Step::Complete => {
                    &&& r == KeySequenceOutcome::Completed
                    &&& final(self).swallowed_spec().len() == 0
                },
            },
    {
        proof {
            use_type_invariant(&*self);
        }
        if !ev.flags.is_empty() {
            return KeySequenceOutcome::Passed(self.interrupt());
        }
        let matched = self.matched();
        proof {
            lemma_downs_below_keys(self.keys@, self.swallowed@);
        }
        match ev.press {
            PressType::Down => {
                if ev.key == self.keys[matched] && !self.is_down(ev.key) {
                    if matched + 1 == self.keys.len() {
                        self.swallowed = Vec::new();
                        return KeySequenceOutcome::Completed;
                    } else {
                        self.swallow(ev.key.down());
                        return KeySequenceOutcome::Advanced;
                    }
                }
            },
            PressType::Up => {
                if self.is_down(ev.key) {
                    self.swallow(ev.key.up());
                    return KeySequenceOutcome::Advanced;
                }
            },
        }
        KeySequenceOutcome::Passed(self.interrupt())
    }

    /// End the run and hand back what it swallowed, in arrival order, leaving it idle.
    pub fn interrupt(&mut self) -> (r: Vec<KeyPress>)
        ensures
            final(self).keys_spec() == old(self).keys_spec(),
            r@ == old(self).swallowed_spec(),
            final(self).swallowed_spec().len() == 0,
    {
        proof {
            use_type_invariant(&*self);
        }
        let mut taken = Vec::new();
        std::mem::swap(&mut taken, &mut self.swallowed);
        taken
    }

    /// Swallow `p`, which the run as it stands takes.
    fn swallow(&mut self, p: KeyPress)
        requires
            takes(old(self).keys@, old(self).swallowed@, p),
        ensures
            final(self).keys@ == old(self).keys@,
            final(self).swallowed@ == old(self).swallowed@.push(p),
    {
        proof {
            use_type_invariant(&*self);
        }
        let mut taken = Vec::new();
        std::mem::swap(&mut taken, &mut self.swallowed);
        let ghost prev = taken@;
        taken.push(p);
        proof {
            assert(taken@.drop_last() == prev);
        }
        self.swallowed = taken;
    }

    /// How many keys of the run have matched: one per `Down`.
    fn matched(&self) -> (r: usize)
        ensures
            r == downs(self.swallowed@),
    {
        let mut count: usize = 0;
        let mut i: usize = 0;
        while i < self.swallowed.len()
            invariant
                i <= self.swallowed@.len(),
                count == downs(self.swallowed@.take(i as int)),
                count <= i,
            decreases self.swallowed@.len() - i,
        {
            assert(self.swallowed@.take(i + 1).drop_last() == self.swallowed@.take(i as int));
            if self.swallowed[i].press == PressType::Down {
                count = count + 1;
            }
            i = i + 1;
        }
        assert(self.swallowed@.take(i as int) == self.swallowed@);
        count
    }

    /// Whether the run took `key` and has not seen it come up.
    fn is_down(&self, key: Key) -> (r: bool)
        ensures
            r == held(self.swallowed@, key),
    {
        let mut i: usize = self.swallowed.len();
        assert(self.swallowed@.take(i as int) == self.swallowed@);
        while i > 0
            invariant
                i <= self.swallowed@.len(),
                held(self.swallowed@, key) == held(self.swallowed@.take(i as int), key),
            decreases i,
        {
            assert(self.swallowed@.take(i as int).drop_last() == self.swallowed@.take(i - 1));
            if self.swallowed[i - 1].key == key {
                return self.swallowed[i - 1].press == PressType::Down;
            }
            i = i - 1;
        }
        false
    }
}

/// A run never holds a whole sequence: by the time the last key lands it has completed.
pub proof fn lemma_downs_below_keys(keys: Seq<Key>, s: Seq<KeyPress>)
    requires
        keys.len() > 0,
        run_ok(keys, s),
    ensures
        downs(s) < keys.len(),
        down_keys(s) == keys.take(downs(s) as int),
    decreases s.len(),
{
    if s.len() > 0 {
        lemma_downs_below_keys(keys, s.drop_last());
        if s.last().press == PressType::Down {
            let prev = s.drop_last();
            assert(keys.take(downs(prev) as int).push(keys[downs(prev) as int]) == keys.take((downs(prev) + 1) as int));
        }
    }
}

/// A run completes only on the event that finishes spelling its keys: the keys that went down
/// while it ran, followed by the completing key, are exactly the sequence, typed bare.
pub proof fn lemma_completion_spells_the_keys(keys: Seq<Key>, s: Seq<KeyPress>, ev: KeyEvent)
    requires
        keys.len() > 0,
        run_ok(keys, s),
        step(keys, s, ev) == Step::Complete,
    ensures
        ev.flags@ == 0,
        ev.press == PressType::Down,
        down_keys(s.push(press_of(ev))) == keys,
{
    lemma_downs_below_keys(keys, s);
    assert(s.push(press_of(ev)).drop_last() == s);
    assert(keys.take(downs(s) as int).push(ev.key) == keys);
}

/// Whatever one event does, the run stays one that a run can be in.
pub proof fn lemma_step_keeps_the_run_ok(keys: Seq<Key>, s: Seq<KeyPress>, ev: KeyEvent)
    requires
        keys.len() > 0,
        run_ok(keys, s),
    ensures
        step(keys, s, ev) matches Step::Advance(next) ==> run_ok(keys, next) && next.len() == s.len() + 1,
{
    if let Step::Advance(next) = step(keys, s, ev) {
        assert(next.drop_last() == s);
    }
}

/// An idle run passes every event that does not start it, and hands nothing back to replay.
pub proof fn lemma_idle_passes_all_but_the_first_key(keys: Seq<Key>, ev: KeyEvent)
    requires
        keys.len() > 0,
    ensures
        !(ev.flags@ == 0 && ev.press == PressType::Down && ev.key == keys[0]) ==> step(
            keys,
            Seq::empty(),
            ev,
        ) == Step::Pass,
{
}

/// A key that is still held going down again, which is what auto-repeat delivers, never advances
/// or completes a run.
pub proof fn lemma_auto_repeat_breaks(keys: Seq<Key>, s: Seq<KeyPress>, ev: KeyEvent)
    requires
        ev.press == PressType::Down,
        held(s, ev.key),
    ensures
        step(keys, s, ev) == Step::Pass,
{
}

/// What the caller emits for an event: the swallowed presses a break replays followed by the key
/// itself, and nothing for a key the run swallowed or completed on.
pub open spec fn emitted(keys: Seq<Key>, s: Seq<KeyPress>, ev: KeyEvent) -> Seq<KeyPress> {
    match step(keys, s, ev) {
        Step::Pass => s.push(press_of(ev)),
        _ => Seq::empty(),
    }
}

/// The swallowed presses after an event.
pub open spec fn after(keys: Seq<Key>, s: Seq<KeyPress>, ev: KeyEvent) -> Seq<KeyPress> {
    match step(keys, s, ev) {
        Step::Advance(next) => next,
        _ => Seq::empty(),
    }
}

/// Feeding `evs` in order to a run that has swallowed `s`: what it then holds, what the caller
/// emitted along the way, and whether any event completed it.
pub open spec fn feed(keys: Seq<Key>, s: Seq<KeyPress>, evs: Seq<KeyEvent>) -> (
    Seq<KeyPress>,
    Seq<KeyPress>,
    bool,
)
    decreases evs.len(),
{
    if evs.len() == 0 {
        (s, Seq::empty(), false)
    } else {
        let (held_before, out, done) = feed(keys, s, evs.drop_last());
        let ev = evs.last();
        (
            after(keys, held_before, ev),
            out + emitted(keys, held_before, ev),
            done || step(keys, held_before, ev) == Step::Complete,
        )
    }
}

/// Nothing is lost or reordered: until a run completes, what the caller has emitted followed by
/// what the run still holds is exactly what it was fed, in order.
pub proof fn lemma_no_key_is_lost(keys: Seq<Key>, s: Seq<KeyPress>, evs: Seq<KeyEvent>)
    requires
        !feed(keys, s, evs).2,
    ensures
        feed(keys, s, evs).1 + feed(keys, s, evs).0 == s + evs.map_values(|ev: KeyEvent| press_of(ev)),
    decreases evs.len(),
{
    if evs.len() > 0 {
        let init = evs.drop_last();
        lemma_no_key_is_lost(keys, s, init);
        let (h, out, _) = feed(keys, s, init);
        let ev = evs.last();
        assert(evs.map_values(|ev: KeyEvent| press_of(ev)) == init.map_values(
            |ev: KeyEvent| press_of(ev),
        ).push(press_of(ev)));
        match step(keys, h, ev) {
            Step::Advance(next) => {
                assert(out + emitted(keys, h, ev) + next == (out + h).push(press_of(ev)));
            },
            Step::Pass => {
                assert(out + emitted(keys, h, ev) + Seq::<KeyPress>::empty() == (out + h).push(
                    press_of(ev),
                ));
            },
            Step::Complete => {},
        }
    }
}

} // verus!
