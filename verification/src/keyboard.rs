//! Keyboard interception and emission: what an interceptor decides for each key, and the errors the
//! platform can report.

use vstd::prelude::*;
use crate::keys::{Key, KeyEvent, ModifierFlags, PressType, key_name};

verus! {

/// The keyboard could not be intercepted. On macOS this usually means Accessibility (or Input
/// Monitoring) is not granted.
#[derive(Debug)]
pub struct CaptureError;

impl CaptureError {
    /// What the error says to a person.
    pub fn message(&self) -> (s: String)
        ensures
            s@ == "could not intercept the keyboard (is Accessibility granted?)"@,
    {
        String::from_str("could not intercept the keyboard (is Accessibility granted?)")
    }
}

/// A key could not be emitted.
#[derive(Debug)]
pub enum EmitError {
    /// The key has no code on this OS, so it cannot be emitted.
    Unmappable(Key),
    /// The OS refused to build or post the event.
    Post,
}

/// What an emit error says to a person.
pub open spec fn emit_error_text(e: EmitError) -> Seq<char> {
    match e {
        EmitError::Unmappable(key) => key_name(key) + " has no key code on this OS"@,
        EmitError::Post => "could not build or post the key event"@,
    }
}

impl EmitError {
    /// What the error says to a person: the key by name when it has no code.
    pub fn message(&self) -> (s: String)
        ensures
            s@ == emit_error_text(*self),
    {
        match self {
            EmitError::Unmappable(key) => key.name().concat(" has no key code on this OS"),
            EmitError::Post => String::from_str("could not build or post the key event"),
        }
    }
}

/// What the interceptor does with a key.
#[derive(PartialEq, Eq, Structural, Debug)]
pub enum Decision {
    /// Let the key through as it came.
    Pass,
    /// Swallow the key and emit this one in its place.
    Remap(KeyEvent),
    /// Swallow the key.
    Drop,
}

/// The remap decision: what the key handler returned against what came in. Nothing drops the key,
/// the same event passes it, and anything else, a different key or only a different press,
/// replaces it.
pub fn decide(input: &KeyEvent, out: Option<KeyEvent>) -> (r: Decision)
    ensures
        r == match out {
            None => Decision::Drop,
            Some(e) => if e == *input { Decision::Pass } else { Decision::Remap(e) },
        },
{
    match out {
        None => Decision::Drop,
        Some(e) => {
            if e == *input {
                Decision::Pass
            } else {
                Decision::Remap(e)
            }
        },
    }
}

/// The kind of event the platform's keyboard tap reports, as far as a key's direction depends on
/// it.
#[derive(Clone, Copy, PartialEq, Eq, Structural, Debug)]
pub enum EventKind {
    /// A key went down.
    KeyDown,
    /// A key came up.
    KeyUp,
    /// A modifier key changed the flags; whether it went down is in the flags that follow.
    FlagsChanged,
    /// Anything else the tap sees.
    Other,
}

/// The flag bit a modifier key sets while it is held: command for the meta keys, then shift, alt
/// and control, either side; no other key sets one.
pub open spec fn modifier_bit(key: Key) -> Option<u8> {
    match key {
        Key::MetaLeft | Key::MetaRight => Some(2u8),
        Key::ShiftLeft | Key::ShiftRight => Some(8u8),
        Key::AltLeft | Key::AltRight => Some(4u8),
        Key::ControlLeft | Key::ControlRight => Some(1u8),
        _ => None,
    }
}

/// The flag a modifier key sets while it is held, or `None` for a key that sets none.
pub fn modifier_flag(key: Key) -> (r: Option<ModifierFlags>)
    ensures
        match modifier_bit(key) {
            Some(b) => r matches Some(f) && f@ == b,
            None => r is None,
        },
{
    match key {
        Key::MetaLeft | Key::MetaRight => Some(ModifierFlags::COMMAND()),
        Key::ShiftLeft | Key::ShiftRight => Some(ModifierFlags::SHIFT()),
        Key::AltLeft | Key::AltRight => Some(ModifierFlags::ALT()),
        Key::ControlLeft | Key::ControlRight => Some(ModifierFlags::CONTROL()),
        _ => None,
    }
}

/// Which way a key went, from what the tap reported: a key event says so itself, and a modifier's
/// flags change says down when its flag is set afterwards and up when it is clear. `None` for an
/// event that is neither, or a flags change for a key that sets no flag.
pub fn press_of(kind: EventKind, key: Key, flags: ModifierFlags) -> (r: Option<PressType>)
    ensures
        r == match kind {
            EventKind::KeyDown => Some(PressType::Down),
            EventKind::KeyUp => Some(PressType::Up),
            EventKind::FlagsChanged => match modifier_bit(key) {
                Some(b) => Some(if flags@ & b == b { PressType::Down } else { PressType::Up }),
                None => None,
            },
            EventKind::Other => None,
        },
{
    match kind {
        EventKind::KeyDown => Some(PressType::Down),
        EventKind::KeyUp => Some(PressType::Up),
        EventKind::FlagsChanged => match modifier_flag(key) {
            Some(flag) => Some(if flags.contains(flag) { PressType::Down } else { PressType::Up }),
            None => None,
        },
        EventKind::Other => None,
    }
}

/// A tap of `key`: the key going down then coming up, both halves carrying exactly `flags`. A
/// chord is a tap with the modifier baked into its flags, so no separate modifier event is sent
/// that could strand a modifier the user is really holding.
pub fn tap_events(key: Key, flags: ModifierFlags) -> (r: [KeyEvent; 2])
    ensures
        r@ == seq![
            KeyEvent { key, press: PressType::Down, flags },
            KeyEvent { key, press: PressType::Up, flags },
        ],
{
    [KeyEvent { key, press: PressType::Down, flags }, KeyEvent { key, press: PressType::Up, flags }]
}

/// A key has a flag bit exactly when it is a modifier, and that bit is one of the four single flag
/// bits (control 1, command 2, alt 4, shift 8).
pub proof fn lemma_every_modifier_has_its_flag(key: Key)
    ensures
        modifier_bit(key) is Some <==> crate::keys::spec_is_modifier(key),
        modifier_bit(key) matches Some(b) ==> (b == 1 || b == 2 || b == 4 || b == 8),
{
}

/// The left and right keys of one modifier set the same flag, so a flags change reports the same
/// direction for either side; keys of different modifiers set different flags.
pub proof fn lemma_both_sides_of_a_modifier_share_its_flag(a: Key, b: Key)
    requires
        crate::keys::spec_is_modifier(a),
        crate::keys::spec_is_modifier(b),
    ensures
        modifier_bit(Key::ControlLeft) == modifier_bit(Key::ControlRight),
        modifier_bit(Key::MetaLeft) == modifier_bit(Key::MetaRight),
        modifier_bit(Key::AltLeft) == modifier_bit(Key::AltRight),
        modifier_bit(Key::ShiftLeft) == modifier_bit(Key::ShiftRight),
        (modifier_bit(a) == modifier_bit(b)) <==> (
            (a == Key::ControlLeft || a == Key::ControlRight) == (b == Key::ControlLeft || b == Key::ControlRight)
            && (a == Key::MetaLeft || a == Key::MetaRight) == (b == Key::MetaLeft || b == Key::MetaRight)
            && (a == Key::AltLeft || a == Key::AltRight) == (b == Key::AltLeft || b == Key::AltRight)
        ),
{
}

/// The flag a modifier key sets is the one the log names after that modifier: `CONTROL` for either
/// control key, `COMMAND` for either command key, `ALT` for either option key and `SHIFT` for
/// either shift key.
pub proof fn lemma_a_modifier_sets_the_flag_named_for_it(key: Key)
    requires
        crate::keys::spec_is_modifier(key),
    ensures
        modifier_bit(key) is Some,
        crate::keys::flag_names(modifier_bit(key)->0) == if key == Key::ControlLeft || key == Key::ControlRight {
            "CONTROL"@
        } else if key == Key::MetaLeft || key == Key::MetaRight {
            "COMMAND"@
        } else if key == Key::AltLeft || key == Key::AltRight {
            "ALT"@
        } else {
            "SHIFT"@
        },
{
    assert(
        (1u8 & 1) != 0 && (1u8 & 2) == 0 && (1u8 & 4) == 0 && (1u8 & 8) == 0 && (1u8 & 16) == 0
        && (2u8 & 1) == 0 && (2u8 & 2) != 0 && (2u8 & 4) == 0 && (2u8 & 8) == 0 && (2u8 & 16) == 0
        && (4u8 & 1) == 0 && (4u8 & 2) == 0 && (4u8 & 4) != 0 && (4u8 & 8) == 0 && (4u8 & 16) == 0
        && (8u8 & 1) == 0 && (8u8 & 2) == 0 && (8u8 & 4) == 0 && (8u8 & 8) != 0 && (8u8 & 16) == 0
    ) by (bit_vector);
}

} // verus!
