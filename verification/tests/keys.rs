use freddie::bind::EventTrigger;
use freddie::keys::{DeviceKeyed, Key, KeyEvent, KeyGroup, ModifierFlags, PressType, WithDevice};

#[test]
fn matches_only_its_own_key() {
    let event = KeyEvent {
        key: Key::KeyR,
        press: PressType::Down,
        flags: ModifierFlags::empty(),
    };
    assert!(Key::KeyR.is_matching(&event));
    assert!(!Key::KeyS.is_matching(&event));
}

#[test]
fn key_group_categories_partition_keys() {
    assert!(KeyGroup::Letter.contains(Key::KeyA));
    assert!(!KeyGroup::Letter.contains(Key::Num1));
    assert!(KeyGroup::Number.contains(Key::Num0));
    assert!(!KeyGroup::Number.contains(Key::KeyA));
    assert!(KeyGroup::Function.contains(Key::F19));
    assert!(!KeyGroup::Function.contains(Key::Escape));
    assert!(KeyGroup::Modifier.contains(Key::ShiftLeft));
    assert!(!KeyGroup::Modifier.contains(Key::CapsLock));
    assert!(KeyGroup::Arrow.contains(Key::LeftArrow));
    assert!(KeyGroup::Navigation.contains(Key::Home));
    assert!(!KeyGroup::Navigation.contains(Key::Insert));
    assert!(KeyGroup::Any.contains(Key::Raw(0)));
}

#[test]
fn key_group_number_matches_the_number_row_only() {
    let one = KeyEvent {
        key: Key::Num1,
        press: PressType::Down,
        flags: ModifierFlags::empty(),
    };
    let a = KeyEvent {
        key: Key::KeyA,
        press: PressType::Down,
        flags: ModifierFlags::empty(),
    };
    assert!(KeyGroup::Number.is_matching(&one));
    assert!(!KeyGroup::Number.is_matching(&a));
    assert!(KeyGroup::Any.is_matching(&a));
    assert!(KeyGroup::Number.down().bare().is_matching(&one));
    assert!(!KeyGroup::Number.down().with(ModifierFlags::SHIFT()).is_matching(&one));
    let shifted = KeyEvent {
        key: Key::Num5,
        press: PressType::Down,
        flags: ModifierFlags::SHIFT(),
    };
    assert!(KeyGroup::Number.down().with(ModifierFlags::SHIFT()).is_matching(&shifted));
}

#[test]
fn debug_leaves_out_flags_when_there_are_none() {
    let bare = KeyEvent {
        key: Key::KeyJ,
        press: PressType::Down,
        flags: ModifierFlags::empty(),
    };
    assert_eq!(bare.debug_string(), "KeyEvent { key: KeyJ, press: Down }");

    let mut flags = ModifierFlags::COMMAND();
    flags.set(ModifierFlags::SHIFT(), true);
    let chord = KeyEvent {
        key: Key::KeyV,
        press: PressType::Up,
        flags,
    };
    assert_eq!(
        chord.debug_string(),
        "KeyEvent { key: KeyV, press: Up, flags: ModifierFlags(COMMAND|SHIFT) }"
    );
}

#[test]
fn a_chord_matches_only_its_own_modifiers() {
    let bare = KeyEvent {
        key: Key::KeyL,
        press: PressType::Down,
        flags: ModifierFlags::empty(),
    };
    let with_command = KeyEvent {
        key: Key::KeyL,
        press: PressType::Down,
        flags: ModifierFlags::COMMAND(),
    };
    let with_both = KeyEvent {
        key: Key::KeyL,
        press: PressType::Down,
        flags: ModifierFlags::COMMAND() | ModifierFlags::SHIFT(),
    };

    for (trigger, matching) in [
        (Key::KeyL.down().bare(), &bare),
        (Key::KeyL.down().with(ModifierFlags::COMMAND()), &with_command),
        (
            Key::KeyL.down().with(ModifierFlags::COMMAND() | ModifierFlags::SHIFT()),
            &with_both,
        ),
    ] {
        for event in [&bare, &with_command, &with_both] {
            assert_eq!(
                trigger.is_matching(event),
                std::ptr::eq(event, matching),
                "{trigger:?} against {event:?}"
            );
        }
    }
}

#[test]
fn a_chord_matches_neither_the_other_key_nor_the_release() {
    let trigger = Key::KeyL.down().with(ModifierFlags::COMMAND());
    assert!(!trigger.is_matching(&KeyEvent {
        key: Key::KeyK,
        press: PressType::Down,
        flags: ModifierFlags::COMMAND(),
    }));
    assert!(!trigger.is_matching(&KeyEvent {
        key: Key::KeyL,
        press: PressType::Up,
        flags: ModifierFlags::COMMAND(),
    }));
}

#[test]
fn a_press_matches_whatever_modifiers_are_held() {
    let trigger = Key::KeyL.down();
    assert!(trigger.is_matching(&KeyEvent {
        key: Key::KeyL,
        press: PressType::Down,
        flags: ModifierFlags::COMMAND(),
    }));
}

#[test]
fn raw_matches_by_code() {
    let event = KeyEvent {
        key: Key::Raw(64000),
        press: PressType::Down,
        flags: ModifierFlags::empty(),
    };
    assert!(Key::Raw(64000).is_matching(&event));
    assert!(!Key::Raw(1).is_matching(&event));
    assert!(!Key::KeyA.is_matching(&event));
}

#[derive(Clone, Copy, PartialEq, Eq, Hash, Debug)]
enum TestDevice {
    A,
    B,
}

impl EventTrigger for TestDevice {
    type Event = TestDevice;

    fn matches(&self, event: &TestDevice) -> bool {
        self == event
    }

    fn is_matching(&self, event: &TestDevice) -> bool {
        self == event
    }
}

#[test]
fn on_device_matches_key_and_device() {
    let trigger = Key::KeyR.down().on_device(TestDevice::A);
    let matching = DeviceKeyed {
        key: KeyEvent {
            key: Key::KeyR,
            press: PressType::Down,
            flags: ModifierFlags::empty(),
        },
        device: TestDevice::A,
    };
    assert!(trigger.is_matching(&matching));
    assert!(!trigger.is_matching(&DeviceKeyed {
        key: KeyEvent {
            key: Key::KeyR,
            press: PressType::Down,
            flags: ModifierFlags::empty(),
        },
        device: TestDevice::B,
    }));
    assert!(!trigger.is_matching(&DeviceKeyed {
        key: KeyEvent {
            key: Key::KeyS,
            press: PressType::Down,
            flags: ModifierFlags::empty(),
        },
        device: TestDevice::A,
    }));
}

#[test]
fn flag_names_follow_their_bits() {
    assert_eq!(ModifierFlags::empty().debug_string(), "ModifierFlags()");
    let all = ModifierFlags::CONTROL()
        | ModifierFlags::COMMAND()
        | ModifierFlags::ALT()
        | ModifierFlags::SHIFT()
        | ModifierFlags::FN();
    assert_eq!(all.bits(), 31);
    assert_eq!(all.debug_string(), "ModifierFlags(CONTROL|COMMAND|ALT|SHIFT|FN)");
    let mut flags = all;
    flags.set(ModifierFlags::COMMAND(), false);
    assert!(!flags.contains(ModifierFlags::COMMAND()));
    assert!(flags.contains(ModifierFlags::SHIFT()));
}

#[test]
fn a_raw_key_is_named_by_its_code() {
    assert_eq!(Key::Raw(64000).name(), "Raw(64000)");
    assert_eq!(Key::Raw(0).name(), "Raw(0)");
    assert_eq!(Key::Escape.name(), "Escape");
}
