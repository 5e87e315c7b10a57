use freddie::keys::{Key, KeyEvent, ModifierFlags, PressType};
use freddie::remaps::{shift_reverse, AloneOrModifier};

fn ev(key: Key, flags: ModifierFlags) -> KeyEvent {
    KeyEvent {
        key,
        press: PressType::Down,
        flags,
    }
}

#[test]
fn bare_gains_shift() {
    let got = shift_reverse(&ev(Key::Num1, ModifierFlags::empty())).expect("bare");
    assert_eq!(got.key, Key::Num1);
    assert!(got.flags.contains(ModifierFlags::SHIFT()));
}

#[test]
fn shift_only_drops_shift() {
    let got = shift_reverse(&ev(Key::Num1, ModifierFlags::SHIFT())).expect("shift");
    assert_eq!(got.key, Key::Num1);
    assert!(got.flags.is_empty());
}

#[test]
fn other_flags_skip() {
    assert!(shift_reverse(&ev(Key::Num1, ModifierFlags::COMMAND())).is_none());
    assert!(shift_reverse(&ev(Key::Num1, ModifierFlags::SHIFT() | ModifierFlags::COMMAND())).is_none());
}

#[test]
fn reversing_twice_gives_the_event_back() {
    let bare = ev(Key::Slash, ModifierFlags::empty());
    let once = shift_reverse(&bare).expect("bare");
    assert_eq!(shift_reverse(&once), Some(bare));
}

#[test]
fn alone_is_escape() {
    let mut c = AloneOrModifier::caps_esc_control();
    assert!(c.on_hold(PressType::Down).is_empty());
    assert!(c.is_pending());
    let out = c.on_hold(PressType::Up);
    assert_eq!(out.len(), 2);
    assert_eq!(out[0].key, Key::Escape);
    assert_eq!(out[0].press, PressType::Down);
    assert_eq!(out[1].key, Key::Escape);
    assert_eq!(out[1].press, PressType::Up);
    assert!(!c.is_modifier());
    assert!(!c.is_pending());
}

#[test]
fn with_other_key_is_control() {
    let mut c = AloneOrModifier::caps_esc_control();
    assert!(c.on_hold(PressType::Down).is_empty());
    let prefix = c.promote_if_pending();
    assert_eq!(prefix.len(), 1);
    assert_eq!(prefix[0].key, Key::ControlLeft);
    assert_eq!(prefix[0].press, PressType::Down);
    assert!(c.is_modifier());
    let flags = c.stamp(ModifierFlags::empty());
    assert!(flags.contains(ModifierFlags::CONTROL()));
    assert!(c.promote_if_pending().is_empty());
    let release = c.on_hold(PressType::Up);
    assert_eq!(release.len(), 1);
    assert_eq!(release[0].key, Key::ControlLeft);
    assert_eq!(release[0].press, PressType::Up);
}

#[test]
fn idle_up_is_noop() {
    let mut c = AloneOrModifier::caps_esc_control();
    assert!(c.on_hold(PressType::Up).is_empty());
    assert!(!c.is_held());
}

#[test]
fn a_pending_hold_stamps_nothing() {
    let mut c = AloneOrModifier::new(Key::Tab, Key::MetaLeft, ModifierFlags::COMMAND());
    let _ = c.on_hold(PressType::Down);
    assert!(c.is_held());
    assert!(c.stamp(ModifierFlags::SHIFT()) == ModifierFlags::SHIFT());
    let _ = c.promote_if_pending();
    assert!(c.stamp(ModifierFlags::SHIFT()) == ModifierFlags::SHIFT() | ModifierFlags::COMMAND());
}
