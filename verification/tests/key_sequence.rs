use freddie::key_sequence::{KeySequence, KeySequenceOutcome};
use freddie::keys::{Key, KeyEvent, ModifierFlags, PressType};

fn jk_keys() -> &'static [Key] {
    &[Key::KeyJ, Key::KeyK]
}

fn jk() -> KeySequence {
    KeySequence::new(jk_keys())
}

fn down(key: Key) -> KeyEvent {
    KeyEvent {
        key,
        press: PressType::Down,
        flags: ModifierFlags::empty(),
    }
}

fn up(key: Key) -> KeyEvent {
    KeyEvent {
        key,
        press: PressType::Up,
        flags: ModifierFlags::empty(),
    }
}

fn with_flags(mut ev: KeyEvent, flags: ModifierFlags) -> KeyEvent {
    ev.flags = flags;
    ev
}

fn replayed(outcome: KeySequenceOutcome) -> Option<Vec<KeyPressed>> {
    match outcome {
        KeySequenceOutcome::Passed(presses) => Some(
            presses
                .into_iter()
                .map(|p| KeyPressed(p.key, p.press))
                .collect(),
        ),
        _ => None,
    }
}

#[derive(PartialEq, Eq, Debug)]
struct KeyPressed(Key, PressType);

fn d(key: Key) -> KeyPressed {
    KeyPressed(key, PressType::Down)
}

fn u(key: Key) -> KeyPressed {
    KeyPressed(key, PressType::Up)
}

#[test]
fn deliberate_completes() {
    let mut s = jk();
    assert_eq!(s.advance(&down(Key::KeyJ)), KeySequenceOutcome::Advanced);
    assert!(!s.is_idle());
    assert_eq!(s.advance(&up(Key::KeyJ)), KeySequenceOutcome::Advanced);
    assert_eq!(s.advance(&down(Key::KeyK)), KeySequenceOutcome::Completed);
    assert!(s.is_idle(), "completing drops what it swallowed");
}

#[test]
fn rolled_completes() {
    let mut s = jk();
    assert_eq!(s.advance(&down(Key::KeyJ)), KeySequenceOutcome::Advanced);
    assert_eq!(s.advance(&down(Key::KeyK)), KeySequenceOutcome::Completed);
    assert!(s.is_idle());
}

#[test]
fn an_idle_run_passes_everything_with_an_empty_replay() {
    let mut s = jk();
    for ev in [down(Key::KeyA), up(Key::KeyA), up(Key::KeyJ), up(Key::KeyK)] {
        assert_eq!(replayed(s.advance(&ev)), Some(vec![]), "{ev:?}");
        assert!(s.is_idle());
    }
}

#[test]
fn breaking_after_a_held_j_replays_its_down_only() {
    let mut s = jk();
    let _ = s.advance(&down(Key::KeyJ));
    assert_eq!(replayed(s.advance(&down(Key::KeyA))), Some(vec![d(Key::KeyJ)]));
    assert!(s.is_idle());
}

#[test]
fn breaking_after_a_full_j_tap_replays_both_halves() {
    let mut s = jk();
    let _ = s.advance(&down(Key::KeyJ));
    let _ = s.advance(&up(Key::KeyJ));
    assert_eq!(
        replayed(s.advance(&down(Key::KeyA))),
        Some(vec![d(Key::KeyJ), u(Key::KeyJ)])
    );
}

#[test]
fn a_modifier_flag_breaks_the_run() {
    let mut s = jk();
    let _ = s.advance(&down(Key::KeyJ));
    assert_eq!(
        replayed(s.advance(&with_flags(down(Key::KeyK), ModifierFlags::COMMAND()))),
        Some(vec![d(Key::KeyJ)])
    );
    assert!(s.is_idle());
}

#[test]
fn a_modifier_flag_stops_the_run_opening() {
    let mut s = jk();
    assert_eq!(
        replayed(s.advance(&with_flags(down(Key::KeyJ), ModifierFlags::COMMAND()))),
        Some(vec![])
    );
    assert!(s.is_idle());
}

#[test]
fn fn_alone_stops_the_run_opening() {
    let mut s = jk();
    assert_eq!(
        replayed(s.advance(&with_flags(down(Key::KeyJ), ModifierFlags::FN()))),
        Some(vec![])
    );
}

#[test]
fn an_auto_repeat_breaks_the_run() {
    let mut s = jk();
    let _ = s.advance(&down(Key::KeyJ));
    assert_eq!(replayed(s.advance(&down(Key::KeyJ))), Some(vec![d(Key::KeyJ)]));
    assert!(s.is_idle());
}

#[test]
fn an_up_for_a_key_the_run_never_took_breaks_it() {
    let mut s = jk();
    let _ = s.advance(&down(Key::KeyJ));
    assert_eq!(replayed(s.advance(&up(Key::KeyA))), Some(vec![d(Key::KeyJ)]));
}

#[test]
fn a_second_up_for_a_key_already_released_breaks_it() {
    let mut s = jk();
    let _ = s.advance(&down(Key::KeyJ));
    let _ = s.advance(&up(Key::KeyJ));
    assert_eq!(
        replayed(s.advance(&up(Key::KeyJ))),
        Some(vec![d(Key::KeyJ), u(Key::KeyJ)])
    );
}

#[test]
fn the_breaking_key_does_not_open_a_new_run() {
    let mut s = jk();
    let _ = s.advance(&down(Key::KeyJ));
    let _ = s.advance(&up(Key::KeyJ));
    let _ = s.advance(&down(Key::KeyJ));
    assert!(s.is_idle());
    assert_eq!(replayed(s.advance(&up(Key::KeyJ))), Some(vec![]));
    assert_eq!(replayed(s.advance(&down(Key::KeyK))), Some(vec![]));
}

#[test]
fn interrupt_hands_back_what_was_swallowed() {
    let mut s = jk();
    let _ = s.advance(&down(Key::KeyJ));
    let _ = s.advance(&up(Key::KeyJ));
    let presses: Vec<KeyPressed> = s
        .interrupt()
        .into_iter()
        .map(|p| KeyPressed(p.key, p.press))
        .collect();
    assert_eq!(presses, vec![d(Key::KeyJ), u(Key::KeyJ)]);
    assert!(s.is_idle());
    assert!(s.interrupt().is_empty(), "an idle run has nothing to hand back");
}

fn jj_keys() -> &'static [Key] {
    &[Key::KeyJ, Key::KeyJ]
}

fn jkl_keys() -> &'static [Key] {
    &[Key::KeyJ, Key::KeyK, Key::KeyL]
}

#[test]
fn a_repeated_key_sequence_fires_on_a_double_tap_but_not_on_a_hold() {
    let mut s = KeySequence::new(jj_keys());
    assert_eq!(s.advance(&down(Key::KeyJ)), KeySequenceOutcome::Advanced);
    assert_eq!(s.advance(&up(Key::KeyJ)), KeySequenceOutcome::Advanced);
    assert_eq!(s.advance(&down(Key::KeyJ)), KeySequenceOutcome::Completed);

    let mut s = KeySequence::new(jj_keys());
    let _ = s.advance(&down(Key::KeyJ));
    assert_eq!(replayed(s.advance(&down(Key::KeyJ))), Some(vec![d(Key::KeyJ)]));
}

#[test]
fn a_longer_run_replays_interleaved_ups_in_arrival_order() {
    let mut s = KeySequence::new(jkl_keys());
    assert_eq!(s.advance(&down(Key::KeyJ)), KeySequenceOutcome::Advanced);
    assert_eq!(s.advance(&down(Key::KeyK)), KeySequenceOutcome::Advanced);
    assert_eq!(s.advance(&up(Key::KeyJ)), KeySequenceOutcome::Advanced);
    assert_eq!(
        replayed(s.advance(&down(Key::KeyA))),
        Some(vec![d(Key::KeyJ), d(Key::KeyK), u(Key::KeyJ)])
    );
}

#[test]
fn a_longer_run_completes_rolled() {
    let mut s = KeySequence::new(jkl_keys());
    let _ = s.advance(&down(Key::KeyJ));
    let _ = s.advance(&down(Key::KeyK));
    assert_eq!(s.advance(&down(Key::KeyL)), KeySequenceOutcome::Completed);
    assert!(s.is_idle());
}

#[test]
fn nothing_fed_is_lost_before_completion() {
    let mut s = jk();
    let fed = [down(Key::KeyJ), down(Key::KeyA), up(Key::KeyJ), down(Key::KeyJ)];
    let mut emitted: Vec<KeyPressed> = Vec::new();
    for ev in fed {
        if let KeySequenceOutcome::Passed(replay) = s.advance(&ev) {
            emitted.extend(replay.into_iter().map(|p| KeyPressed(p.key, p.press)));
            emitted.push(KeyPressed(ev.key, ev.press));
        }
    }
    emitted.extend(s.interrupt().into_iter().map(|p| KeyPressed(p.key, p.press)));
    assert_eq!(
        emitted,
        vec![d(Key::KeyJ), d(Key::KeyA), u(Key::KeyJ), d(Key::KeyJ)]
    );
}
