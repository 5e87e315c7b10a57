use std::time::Duration;

use freddie::keys::{Key, KeyEvent, ModifierFlags, PressType};
use freddie::sequence::{KeySequence, KeySequenceOutcome};
use freddie::timer::{timer_effect_and_guard, TimerFired, TimerIds};

fn jk_keys() -> &'static [Key] {
    &[Key::KeyJ, Key::KeyK]
}

fn down(key: Key) -> KeyEvent {
    KeyEvent {
        key,
        press: PressType::Down,
        flags: ModifierFlags::empty(),
    }
}

fn up(key: Key) -> KeyEvent {
    KeyEvent {
        key,
        press: PressType::Up,
        flags: ModifierFlags::empty(),
    }
}

#[test]
fn a_windowed_run_completes_and_keeps_its_window() {
    let mut s = KeySequence::new(jk_keys(), Some(Duration::from_millis(300)));
    assert_eq!(s.window(), Some(Duration::from_millis(300)));
    assert_eq!(s.advance(&down(Key::KeyJ)), KeySequenceOutcome::Advanced);
    let mut ids = TimerIds::new();
    let (guard, effect) = timer_effect_and_guard(&mut ids, Duration::from_millis(300), TimerFired);
    assert_eq!(effect.delay, Duration::from_millis(300));
    s.hold(guard);
    assert_eq!(s.advance(&down(Key::KeyK)), KeySequenceOutcome::Completed);
    assert!(s.is_idle());
    assert_eq!(s.window(), Some(Duration::from_millis(300)));
}

#[test]
fn ending_a_run_drops_its_guard_and_cancels_the_wait() {
    let mut s = KeySequence::new(jk_keys(), Some(Duration::from_millis(300)));
    let _ = s.advance(&down(Key::KeyJ));
    let mut ids = TimerIds::new();
    let (guard, mut effect) = timer_effect_and_guard(&mut ids, Duration::from_millis(300), TimerFired);
    s.hold(guard);
    assert!(effect.cancel.try_recv().is_err());
    let replay = s.interrupt();
    assert_eq!(replay.len(), 1);
    assert!(s.is_idle());
    assert!(matches!(
        effect.cancel.try_recv(),
        Err(tokio::sync::oneshot::error::TryRecvError::Closed)
    ));
}

#[test]
fn a_sequence_without_a_window_waits_forever() {
    let s = KeySequence::new(jk_keys(), None);
    assert_eq!(s.window(), None);
    assert!(s.is_idle());
}

#[test]
fn the_log_shows_only_what_was_swallowed() {
    let mut s = KeySequence::new(jk_keys(), None);
    assert_eq!(s.debug_string(), "KeySequence {}");
    let _ = s.advance(&down(Key::KeyJ));
    assert_eq!(s.debug_string(), "KeySequence { KeyJ v }");
    let _ = s.advance(&up(Key::KeyJ));
    assert_eq!(s.debug_string(), "KeySequence { KeyJ v, KeyJ ^ }");
}
