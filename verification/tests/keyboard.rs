use freddie::keyboard::{decide, modifier_flag, press_of, tap_events, CaptureError, Decision, EmitError, EventKind};
use freddie::keys::{Key, KeyEvent, ModifierFlags, PressType};

fn ev(key: Key) -> KeyEvent {
    KeyEvent {
        key,
        press: PressType::Down,
        flags: ModifierFlags::empty(),
    }
}

#[test]
fn decide_drops_on_none() {
    assert_eq!(decide(&ev(Key::KeyA), None), Decision::Drop);
}

#[test]
fn decide_passes_unchanged() {
    let a = ev(Key::KeyA);
    assert_eq!(decide(&a, Some(a)), Decision::Pass);
}

#[test]
fn decide_remaps_a_different_key() {
    let a = ev(Key::KeyA);
    let b = ev(Key::KeyB);
    assert_eq!(decide(&a, Some(b)), Decision::Remap(b));
}

#[test]
fn decide_remaps_when_only_press_changes() {
    let down = ev(Key::KeyA);
    let up = KeyEvent {
        key: Key::KeyA,
        press: PressType::Up,
        flags: ModifierFlags::empty(),
    };
    assert_eq!(decide(&down, Some(up)), Decision::Remap(up));
}

#[test]
fn the_errors_say_what_went_wrong() {
    assert_eq!(
        CaptureError.message(),
        "could not intercept the keyboard (is Accessibility granted?)"
    );
    assert_eq!(
        EmitError::Unmappable(Key::F24).message(),
        "F24 has no key code on this OS"
    );
    assert_eq!(EmitError::Post.message(), "could not build or post the key event");
}

#[test]
fn a_modifier_is_down_while_its_flag_is_set() {
    assert_eq!(press_of(EventKind::KeyDown, Key::KeyA, ModifierFlags::empty()), Some(PressType::Down));
    assert_eq!(press_of(EventKind::KeyUp, Key::KeyA, ModifierFlags::COMMAND()), Some(PressType::Up));
    assert_eq!(
        press_of(EventKind::FlagsChanged, Key::ShiftRight, ModifierFlags::SHIFT() | ModifierFlags::COMMAND()),
        Some(PressType::Down)
    );
    assert_eq!(
        press_of(EventKind::FlagsChanged, Key::ShiftRight, ModifierFlags::COMMAND()),
        Some(PressType::Up)
    );
    assert_eq!(press_of(EventKind::FlagsChanged, Key::CapsLock, ModifierFlags::SHIFT()), None);
    assert_eq!(press_of(EventKind::Other, Key::KeyA, ModifierFlags::empty()), None);
}

#[test]
fn only_the_modifier_keys_set_a_flag() {
    assert_eq!(modifier_flag(Key::MetaLeft), Some(ModifierFlags::COMMAND()));
    assert_eq!(modifier_flag(Key::AltRight), Some(ModifierFlags::ALT()));
    assert_eq!(modifier_flag(Key::ControlLeft), Some(ModifierFlags::CONTROL()));
    assert_eq!(modifier_flag(Key::ShiftLeft), Some(ModifierFlags::SHIFT()));
    assert_eq!(modifier_flag(Key::Escape), None);
}

#[test]
fn a_tap_is_the_key_down_then_up_with_the_same_flags() {
    let flags = ModifierFlags::COMMAND();
    assert_eq!(
        tap_events(Key::KeyR, flags),
        [
            KeyEvent { key: Key::KeyR, press: PressType::Down, flags },
            KeyEvent { key: Key::KeyR, press: PressType::Up, flags },
        ]
    );
}
