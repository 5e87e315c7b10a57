//! Shareable pure keyboard remaps: dual-role state machines and flag rewrites over key events.
//!
//! No effects, no timers, no bindings. A consumer feeds key events, gets back events to emit and
//! flags to stamp. State lives in the struct the consumer owns on its root model.

use vstd::prelude::*;
use crate::keys::{Key, KeyEvent, ModifierFlags, PressType};

verus! {

/// An event carrying no modifier flags.
pub open spec fn bare(key: Key, press: PressType) -> KeyEvent {
    KeyEvent { key, press, flags: ModifierFlags::empty_spec() }
}

/// Where a dual-role hold key stands.
#[derive(Debug, Clone, Copy, PartialEq, Eq, Structural)]
pub enum Role {
    /// The hold key is up.
    Idle,
    /// The hold key is down and no other key has arrived yet: released now, it taps `alone`.
    Pending,
    /// Another key arrived while it was held, and the `modifier` down has been emitted.
    AsModifier,
}

/// A physical hold key that taps as `alone` when released with no other key, and acts as
/// `modifier`/`flag` when another key arrives while it is down.
///
/// No timer. Alone vs modifier is only whether another key arrived before release.
///
/// Classic instance: hold key = `CapsLock`, `alone` = Escape, `modifier` = `ControlLeft` + CONTROL.
#[derive(Debug, Clone, Copy, PartialEq, Eq, Structural)]
pub struct AloneOrModifier {
    alone: Key,
    modifier: Key,
    flag: ModifierFlags,
    role: Role,
}

impl AloneOrModifier {
    /// The key tapped for a hold released alone.
    pub closed spec fn alone_spec(self) -> Key {
        self.alone
    }

    /// The key held down while the hold acts as a modifier.
    pub closed spec fn modifier_spec(self) -> Key {
        self.modifier
    }

    /// The flag stamped on other keys while the hold acts as a modifier.
    pub closed spec fn flag_spec(self) -> ModifierFlags {
        self.flag
    }

    /// Where the hold stands.
    pub closed spec fn role_spec(self) -> Role {
        self.role
    }

    /// The same dual role standing at `role`.
    pub closed spec fn with_role(self, role: Role) -> Self {
        AloneOrModifier { role, ..self }
    }

    pub proof fn lemma_with_role(self, role: Role)
        ensures
            self.with_role(role).role_spec() == role,
            self.with_role(role).alone_spec() == self.alone_spec(),
            self.with_role(role).modifier_spec() == self.modifier_spec(),
            self.with_role(role).flag_spec() == self.flag_spec(),
            self.with_role(self.role_spec()) == self,
    {
    }

    /// What the hold key going `press` does: where the hold then stands, and the events to emit.
    ///
    /// Down enters `Pending` and emits nothing. Up taps `alone` from `Pending`, releases `modifier`
    /// from `AsModifier`, and is spurious from `Idle`; either way the hold is then idle.
    pub open spec fn hold_step(self, press: PressType) -> (Self, Seq<KeyEvent>) {
        match press {
            PressType::Down => (self.with_role(Role::Pending), Seq::empty()),
            PressType::Up => (
                self.with_role(Role::Idle),
                match self.role_spec() {
                    Role::Pending => seq![
                        bare(self.alone_spec(), PressType::Down),
                        bare(self.alone_spec(), PressType::Up),
                    ],
                    Role::AsModifier => seq![bare(self.modifier_spec(), PressType::Up)],
                    Role::Idle => Seq::empty(),
                },
            ),
        }
    }

    /// What another key arriving does: a pending hold becomes the modifier and emits its down
    /// first; otherwise nothing changes.
    pub open spec fn promote_step(self) -> (Self, Seq<KeyEvent>) {
        if self.role_spec() == Role::Pending {
            (self.with_role(Role::AsModifier), seq![bare(self.modifier_spec(), PressType::Down)])
        } else {
            (self, Seq::empty())
        }
    }

    /// A dual role, idle.
    pub fn new(alone: Key, modifier: Key, flag: ModifierFlags) -> (r: Self)
        ensures
            r.alone_spec() == alone,
            r.modifier_spec() == modifier,
            r.flag_spec() == flag,
            r.role_spec() == Role::Idle,
    {
        AloneOrModifier { alone, modifier, flag, role: Role::Idle }
    }

    /// `CapsLock` alone → Escape; held with other keys → Control.
    pub fn caps_esc_control() -> (r: Self)
        ensures
            r.alone_spec() == Key::Escape,
            r.modifier_spec() == Key::ControlLeft,
            r.flag_spec()@ == 1,
            r.role_spec() == Role::Idle,
    {
        Self::new(Key::Escape, Key::ControlLeft, ModifierFlags::CONTROL())
    }

    /// Whether the hold is acting as the modifier (another key already promoted this hold).
    pub fn is_modifier(self) -> (r: bool)
        ensures
            r == (self.role_spec() == Role::AsModifier),
    {
        self.role == Role::AsModifier
    }

    /// Whether the hold is down and no other key has promoted yet.
    pub fn is_pending(self) -> (r: bool)
        ensures
            r == (self.role_spec() == Role::Pending),
    {
        self.role == Role::Pending
    }

    /// Whether the hold is live (pending or acting as modifier).
    pub fn is_held(self) -> (r: bool)
        ensures
            r == (self.role_spec() != Role::Idle),
    {
        self.role != Role::Idle
    }

    /// Down or up of the physical hold key. Returns synthetic events to emit; the physical hold
    /// key is never re-emitted (the consumer swallows it).
    pub fn on_hold(&mut self, press: PressType) -> (r: Vec<KeyEvent>)
        ensures
            (*final(self), r@) == old(self).hold_step(press),
    {
        match press {
            PressType::Down => {
                self.role = Role::Pending;
                Vec::new()
            },
            PressType::Up => {
                let was = self.role;
                self.role = Role::Idle;
                match was {
                    Role::Pending => {
                        let v = vec![
                            KeyEvent { key: self.alone, press: PressType::Down, flags: ModifierFlags::empty() },
                            KeyEvent { key: self.alone, press: PressType::Up, flags: ModifierFlags::empty() },
                        ];
                        proof {
                            assert(v@ == seq![
                                bare(self.alone, PressType::Down),
                                bare(self.alone, PressType::Up),
                            ]);
                        }
                        v
                    },
                    Role::AsModifier => {
                        let v = vec![
                            KeyEvent { key: self.modifier, press: PressType::Up, flags: ModifierFlags::empty() },
                        ];
                        proof {
                            assert(v@ == seq![bare(self.modifier, PressType::Up)]);
                        }
                        v
                    },
                    Role::Idle => Vec::new(),
                }
            },
        }
    }

    /// Call before emitting any other key while this dual role is in force.
    ///
    /// If pending, promotes to modifier and returns `modifier` down (emit first). Otherwise empty.
    pub fn promote_if_pending(&mut self) -> (r: Vec<KeyEvent>)
        ensures
            (*final(self), r@) == old(self).promote_step(),
    {
        if self.role != Role::Pending {
            return Vec::new();
        }
        self.role = Role::AsModifier;
        let v = vec![KeyEvent { key: self.modifier, press: PressType::Down, flags: ModifierFlags::empty() }];
        proof {
            assert(v@ == seq![bare(self.modifier, PressType::Down)]);
        }
        v
    }

    /// Or this dual role's modifier flag onto `flags` when acting as the modifier.
    pub fn stamp(self, flags: ModifierFlags) -> (r: ModifierFlags)
        ensures
            r@ == if self.role_spec() == Role::AsModifier { flags@ | self.flag_spec()@ } else { flags@ },
    {
        if self.role == Role::AsModifier {
            flags | self.flag
        } else {
            flags
        }
    }
}

/// A hold released with no other key in between taps `alone`, down then up, bare, and leaves the
/// hold idle, wherever it stood before.
pub proof fn lemma_a_lone_hold_taps_alone(d: AloneOrModifier)
    ensures
        ({
            let (pressed, first) = d.hold_step(PressType::Down);
            let (released, second) = pressed.hold_step(PressType::Up);
            &&& first.len() == 0
            &&& second == seq![bare(d.alone_spec(), PressType::Down), bare(d.alone_spec(), PressType::Up)]
            &&& released == d.with_role(Role::Idle)
        }),
{
    d.lemma_with_role(Role::Pending);
    d.with_role(Role::Pending).lemma_with_role(Role::Idle);
    d.lemma_with_role(Role::Idle);
    assert(d.with_role(Role::Pending).with_role(Role::Idle) == d.with_role(Role::Idle));
}

/// A hold that another key promotes is the modifier, down then up and nothing else: the down when
/// the other key arrives, the up when the hold is released, and `alone` never taps.
pub proof fn lemma_a_promoted_hold_is_the_modifier(d: AloneOrModifier)
    ensures
        ({
            let (pressed, first) = d.hold_step(PressType::Down);
            let (promoted, second) = pressed.promote_step();
            let (released, third) = promoted.hold_step(PressType::Up);
            &&& first + second + third == seq![
                bare(d.modifier_spec(), PressType::Down),
                bare(d.modifier_spec(), PressType::Up),
            ]
            &&& released == d.with_role(Role::Idle)
        }),
{
    d.lemma_with_role(Role::Pending);
    let p = d.with_role(Role::Pending);
    p.lemma_with_role(Role::AsModifier);
    let m = p.with_role(Role::AsModifier);
    m.lemma_with_role(Role::Idle);
    d.lemma_with_role(Role::Idle);
    assert(m.with_role(Role::Idle) == d.with_role(Role::Idle));
    assert(Seq::<KeyEvent>::empty() + seq![bare(d.modifier_spec(), PressType::Down)] + seq![
        bare(d.modifier_spec(), PressType::Up),
    ] == seq![bare(d.modifier_spec(), PressType::Down), bare(d.modifier_spec(), PressType::Up)]);
}

/// Promoting is done once per hold: a second promotion changes nothing and emits nothing.
pub proof fn lemma_promotion_happens_once(d: AloneOrModifier)
    ensures
        d.promote_step().0.promote_step() == (d.promote_step().0, Seq::<KeyEvent>::empty()),
{
    d.lemma_with_role(Role::AsModifier);
}

/// Releasing the hold key always leaves the hold idle, and an idle hold released again emits
/// nothing.
pub proof fn lemma_release_idles(d: AloneOrModifier)
    ensures
        d.hold_step(PressType::Up).0.role_spec() == Role::Idle,
        d.role_spec() == Role::Idle ==> d.hold_step(PressType::Up).1.len() == 0,
{
    d.lemma_with_role(Role::Idle);
}

/// The flag set a key gets after [`shift_reverse`]: bare becomes shift alone, shift alone becomes
/// bare, and any other combination is left alone (`None`).
pub open spec fn shift_reversed(ev: KeyEvent) -> Option<KeyEvent> {
    if ev.flags@ == 0 {
        Some(KeyEvent { flags: ModifierFlags::from_bits_spec(8), ..ev })
    } else if ev.flags@ == 8 {
        Some(KeyEvent { flags: ModifierFlags::from_bits_spec(0), ..ev })
    } else {
        None
    }
}

/// Swap bare ↔ shift-only on a key event: bare becomes SHIFT, SHIFT alone becomes bare.
///
/// Any other flag combination (cmd, ctrl, shift+cmd, …) returns `None` so the caller leaves the
/// event alone. The physical key and press type are unchanged.
///
/// Used for number-row invert (`1` ↔ `!`), backslash ↔ pipe, and similar.
pub fn shift_reverse(ev: &KeyEvent) -> (r: Option<KeyEvent>)
    ensures
        r == shift_reversed(*ev),
{
    let empty = ModifierFlags::empty();
    let shift = ModifierFlags::SHIFT();
    proof {
        crate::keys::lemma_flags_view_injective(ev.flags, empty);
        crate::keys::lemma_flags_view_injective(ev.flags, shift);
    }
    let out_flags = if ev.flags == empty {
        ModifierFlags::SHIFT()
    } else if ev.flags == shift {
        ModifierFlags::empty()
    } else {
        return None;
    };
    proof {
        ModifierFlags::lemma_from_bits(8);
        ModifierFlags::lemma_from_bits(0);
        crate::keys::lemma_flags_view_injective(out_flags, ModifierFlags::from_bits_spec(8));
        crate::keys::lemma_flags_view_injective(out_flags, ModifierFlags::from_bits_spec(0));
        crate::keys::lemma_flags_view_injective(ev.flags, ModifierFlags::empty_spec());
    }
    Some(KeyEvent { key: ev.key, press: ev.press, flags: out_flags })
}

/// Reversing twice gives back the event: whatever `shift_reverse` rewrites, rewriting the result
/// restores it.
pub proof fn lemma_shift_reverse_is_an_involution(ev: KeyEvent)
    requires
        shift_reversed(ev) is Some,
    ensures
        shift_reversed(shift_reversed(ev)->0) == Some(ev),
        shift_reversed(ev)->0.key == ev.key,
        shift_reversed(ev)->0.press == ev.press,
{
    ModifierFlags::lemma_from_bits(8);
    ModifierFlags::lemma_from_bits(0);
    crate::keys::lemma_flags_view_injective(ev.flags, ModifierFlags::from_bits_spec(8));
    crate::keys::lemma_flags_view_injective(ev.flags, ModifierFlags::from_bits_spec(0));
}

/// Another key arriving touches only a pending hold. A hold that is up, or already acting as the
/// modifier, stays exactly as it is and emits nothing; only a pending hold becomes the modifier, and
/// then its one emission is the modifier going down, bare.
pub proof fn lemma_promotion_touches_only_a_pending_hold(d: AloneOrModifier)
    ensures
        d.role_spec() != Role::Pending ==> d.promote_step() == (d, Seq::<KeyEvent>::empty()),
        d.role_spec() == Role::Idle ==> d.promote_step().0.role_spec() == Role::Idle,
        d.role_spec() == Role::Pending ==> {
            &&& d.promote_step().0.role_spec() == Role::AsModifier
            &&& d.promote_step().1 == seq![bare(d.modifier_spec(), PressType::Down)]
        },
        d.promote_step().0.alone_spec() == d.alone_spec(),
        d.promote_step().0.modifier_spec() == d.modifier_spec(),
        d.promote_step().0.flag_spec() == d.flag_spec(),
{
    d.lemma_with_role(Role::AsModifier);
}

} // verus!
