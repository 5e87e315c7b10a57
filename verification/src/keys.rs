//! The platform-neutral keyboard vocabulary: physical keys, presses, modifier flags, and the
//! triggers a binding matches key events with.

use vstd::prelude::*;
use crate::bind::EventTrigger;

verus! {

/// A physical key, named by its US-ANSI position, independent of layout or OS.
#[derive(Clone, Copy, PartialEq, Eq, Structural, Hash, Debug)]
pub enum Key {
    KeyA,
    KeyB,
    KeyC,
    KeyD,
    KeyE,
    KeyF,
    KeyG,
    KeyH,
    KeyI,
    KeyJ,
    KeyK,
    KeyL,
    KeyM,
    KeyN,
    KeyO,
    KeyP,
    KeyQ,
    KeyR,
    KeyS,
    KeyT,
    KeyU,
    KeyV,
    KeyW,
    KeyX,
    KeyY,
    KeyZ,

    Num0,
    Num1,
    Num2,
    Num3,
    Num4,
    Num5,
    Num6,
    Num7,
    Num8,
    Num9,

    F1,
    F2,
    F3,
    F4,
    F5,
    F6,
    F7,
    F8,
    F9,
    F10,
    F11,
    F12,
    F13,
    F14,
    F15,
    F16,
    F17,
    F18,
    F19,
    F20,
    F21,
    F22,
    F23,
    F24,

    Escape,
    Return,
    Space,
    Tab,
    Backspace,
    Delete,
    CapsLock,

    UpArrow,
    DownArrow,
    LeftArrow,
    RightArrow,
    Home,
    End,
    PageUp,
    PageDown,
    Insert,

    ShiftLeft,
    ShiftRight,
    ControlLeft,
    ControlRight,
    AltLeft,
    AltRight,
    MetaLeft,
    MetaRight,

    Grave,
    Minus,
    Equal,
    LeftBracket,
    RightBracket,
    BackSlash,
    SemiColon,
    Quote,
    Comma,
    Dot,
    Slash,

    /// A native key code with no name: a key the table does not cover, or a made-up key used
    /// as a remap intermediary. Not portable across OSes.
    Raw(u16),
}

/// The modifier keys tracked as held: control, command, alt and shift, left or right.
pub open spec fn spec_is_modifier(key: Key) -> bool {
    matches!(key, Key::ControlLeft
            | Key::ControlRight
            | Key::MetaLeft
            | Key::MetaRight
            | Key::AltLeft
            | Key::AltRight
            | Key::ShiftLeft
            | Key::ShiftRight)
}

/// The letter keys, `KeyA` to `KeyZ`.
pub open spec fn spec_is_letter(key: Key) -> bool {
    matches!(key, Key::KeyA
            | Key::KeyB
            | Key::KeyC
            | Key::KeyD
            | Key::KeyE
            | Key::KeyF
            | Key::KeyG
            | Key::KeyH
            | Key::KeyI
            | Key::KeyJ
            | Key::KeyK
            | Key::KeyL
            | Key::KeyM
            | Key::KeyN
            | Key::KeyO
            | Key::KeyP
            | Key::KeyQ
            | Key::KeyR
            | Key::KeyS
            | Key::KeyT
            | Key::KeyU
            | Key::KeyV
            | Key::KeyW
            | Key::KeyX
            | Key::KeyY
            | Key::KeyZ)
}

/// The main number row, `Num0` to `Num9`.
pub open spec fn spec_is_number_row(key: Key) -> bool {
    matches!(key, Key::Num0
            | Key::Num1
            | Key::Num2
            | Key::Num3
            | Key::Num4
            | Key::Num5
            | Key::Num6
            | Key::Num7
            | Key::Num8
            | Key::Num9)
}

/// The function keys, `F1` to `F24`.
pub open spec fn spec_is_function(key: Key) -> bool {
    matches!(key, Key::F1
            | Key::F2
            | Key::F3
            | Key::F4
            | Key::F5
            | Key::F6
            | Key::F7
            | Key::F8
            | Key::F9
            | Key::F10
            | Key::F11
            | Key::F12
            | Key::F13
            | Key::F14
            | Key::F15
            | Key::F16
            | Key::F17
            | Key::F18
            | Key::F19
            | Key::F20
            | Key::F21
            | Key::F22
            | Key::F23
            | Key::F24)
}

/// The four arrow keys.
pub open spec fn spec_is_arrow(key: Key) -> bool {
    matches!(key, Key::UpArrow
            | Key::DownArrow
            | Key::LeftArrow
            | Key::RightArrow)
}

/// Home, end, page up and page down.
pub open spec fn spec_is_navigation(key: Key) -> bool {
    matches!(key, Key::Home
            | Key::End
            | Key::PageUp
            | Key::PageDown)
}

/// The name a key prints under: its variant's name, or `Raw(<code>)` for a raw code.
pub open spec fn key_name(key: Key) -> Seq<char> {
    match key {
        Key::KeyA => "KeyA"@,
        Key::KeyB => "KeyB"@,
        Key::KeyC => "KeyC"@,
        Key::KeyD => "KeyD"@,
        Key::KeyE => "KeyE"@,
        Key::KeyF => "KeyF"@,
        Key::KeyG => "KeyG"@,
        Key::KeyH => "KeyH"@,
        Key::KeyI => "KeyI"@,
        Key::KeyJ => "KeyJ"@,
        Key::KeyK => "KeyK"@,
        Key::KeyL => "KeyL"@,
        Key::KeyM => "KeyM"@,
        Key::KeyN => "KeyN"@,
        Key::KeyO => "KeyO"@,
        Key::KeyP => "KeyP"@,
        Key::KeyQ => "KeyQ"@,
        Key::KeyR => "KeyR"@,
        Key::KeyS => "KeyS"@,
        Key::KeyT => "KeyT"@,
        Key::KeyU => "KeyU"@,
        Key::KeyV => "KeyV"@,
        Key::KeyW => "KeyW"@,
        Key::KeyX => "KeyX"@,
        Key::KeyY => "KeyY"@,
        Key::KeyZ => "KeyZ"@,
        Key::Num0 => "Num0"@,
        Key::Num1 => "Num1"@,
        Key::Num2 => "Num2"@,
        Key::Num3 => "Num3"@,
        Key::Num4 => "Num4"@,
        Key::Num5 => "Num5"@,
        Key::Num6 => "Num6"@,
        Key::Num7 => "Num7"@,
        Key::Num8 => "Num8"@,
        Key::Num9 => "Num9"@,
        Key::F1 => "F1"@,
        Key::F2 => "F2"@,
        Key::F3 => "F3"@,
        Key::F4 => "F4"@,
        Key::F5 => "F5"@,
        Key::F6 => "F6"@,
        Key::F7 => "F7"@,
        Key::F8 => "F8"@,
        Key::F9 => "F9"@,
        Key::F10 => "F10"@,
        Key::F11 => "F11"@,
        Key::F12 => "F12"@,
        Key::F13 => "F13"@,
        Key::F14 => "F14"@,
        Key::F15 => "F15"@,
        Key::F16 => "F16"@,
        Key::F17 => "F17"@,
        Key::F18 => "F18"@,
        Key::F19 => "F19"@,
        Key::F20 => "F20"@,
        Key::F21 => "F21"@,
        Key::F22 => "F22"@,
        Key::F23 => "F23"@,
        Key::F24 => "F24"@,
        Key::Escape => "Escape"@,
        Key::Return => "Return"@,
        Key::Space => "Space"@,
        Key::Tab => "Tab"@,
        Key::Backspace => "Backspace"@,
        Key::Delete => "Delete"@,
        Key::CapsLock => "CapsLock"@,
        Key::UpArrow => "UpArrow"@,
        Key::DownArrow => "DownArrow"@,
        Key::LeftArrow => "LeftArrow"@,
        Key::RightArrow => "RightArrow"@,
        Key::Home => "Home"@,
        Key::End => "End"@,
        Key::PageUp => "PageUp"@,
        Key::PageDown => "PageDown"@,
        Key::Insert => "Insert"@,
        Key::ShiftLeft => "ShiftLeft"@,
        Key::ShiftRight => "ShiftRight"@,
        Key::ControlLeft => "ControlLeft"@,
        Key::ControlRight => "ControlRight"@,
        Key::AltLeft => "AltLeft"@,
        Key::AltRight => "AltRight"@,
        Key::MetaLeft => "MetaLeft"@,
        Key::MetaRight => "MetaRight"@,
        Key::Grave => "Grave"@,
        Key::Minus => "Minus"@,
        Key::Equal => "Equal"@,
        Key::LeftBracket => "LeftBracket"@,
        Key::RightBracket => "RightBracket"@,
        Key::BackSlash => "BackSlash"@,
        Key::SemiColon => "SemiColon"@,
        Key::Quote => "Quote"@,
        Key::Comma => "Comma"@,
        Key::Dot => "Dot"@,
        Key::Slash => "Slash"@,
        Key::Raw(code) => "Raw("@ + decimal(code as nat) + ")"@,
    }
}

/// Whether a key went down or came up.
#[derive(Clone, Copy, PartialEq, Eq, Structural, Hash, Debug)]
pub enum PressType {
    Down,
    Up,
}

/// The modifier keys an event carries, as a portable bitset: one bit each for control,
/// command, alt, shift and fn.
#[derive(Clone, Copy, PartialEq, Eq, Structural, Hash, Default, Debug)]
pub struct ModifierFlags(u8);

impl View for ModifierFlags {
    type V = u8;

    closed spec fn view(&self) -> u8 {
        self.0
    }
}

/// Two flag sets are the same value exactly when they hold the same bits.
pub proof fn lemma_flags_view_injective(a: ModifierFlags, b: ModifierFlags)
    ensures
        (a@ == b@) == (a == b),
{
}

/// The union of two flag sets, as their bits.
impl core::ops::BitOr for ModifierFlags {
    type Output = Self;

    fn bitor(self, other: Self) -> (r: Self)
        ensures
            r@ == self@ | other@,
    {
        ModifierFlags(self.0 | other.0)
    }
}

impl vstd::std_specs::ops::BitOrSpecImpl for ModifierFlags {
    open spec fn obeys_bitor_spec() -> bool {
        true
    }

    open spec fn bitor_req(self, other: Self) -> bool {
        true
    }

    closed spec fn bitor_spec(self, other: Self) -> Self {
        ModifierFlags(self.0 | other.0)
    }
}

impl ModifierFlags {
    /// The control modifier.
    #[allow(non_snake_case)]
    pub fn CONTROL() -> (r: Self)
        ensures
            r@ == 1,
    {
        ModifierFlags(1)
    }

    /// The command modifier.
    #[allow(non_snake_case)]
    pub fn COMMAND() -> (r: Self)
        ensures
            r@ == 2,
    {
        ModifierFlags(2)
    }

    /// The alt (option) modifier.
    #[allow(non_snake_case)]
    pub fn ALT() -> (r: Self)
        ensures
            r@ == 4,
    {
        ModifierFlags(4)
    }

    /// The shift modifier.
    #[allow(non_snake_case)]
    pub fn SHIFT() -> (r: Self)
        ensures
            r@ == 8,
    {
        ModifierFlags(8)
    }

    /// The `fn` (Globe) modifier. It arrives only as a flag on other events, never as a key.
    #[allow(non_snake_case)]
    pub fn FN() -> (r: Self)
        ensures
            r@ == 16,
    {
        ModifierFlags(16)
    }

    /// No modifiers.
    pub fn empty() -> (r: Self)
        ensures
            r@ == 0,
            r == ModifierFlags::empty_spec(),
    {
        ModifierFlags(0)
    }

    pub open spec fn empty_spec() -> Self {
        ModifierFlags::from_bits_spec(0)
    }

    /// The flag set holding exactly `bits`.
    pub closed spec fn from_bits_spec(bits: u8) -> Self {
        ModifierFlags(bits)
    }

    pub proof fn lemma_from_bits(bits: u8)
        ensures
            ModifierFlags::from_bits_spec(bits)@ == bits,
    {
    }

    /// Whether no modifier is set.
    pub fn is_empty(self) -> (r: bool)
        ensures
            r == (self@ == 0),
    {
        self.0 == 0
    }

    /// The raw bits, for a backend mapping them to native flags.
    pub fn bits(self) -> (r: u8)
        ensures
            r == self@,
    {
        self.0
    }

    /// Whether every bit in `flag` is set.
    pub fn contains(self, flag: Self) -> (r: bool)
        ensures
            r == (self@ & flag@ == flag@),
    {
        self.0 & flag.0 == flag.0
    }

    /// Set or clear `flag`.
    pub fn set(&mut self, flag: Self, on: bool)
        ensures
            final(self)@ == if on { old(self)@ | flag@ } else { old(self)@ & !flag@ },
    {
        self.0 = if on {
            self.0 | flag.0
        } else {
            self.0 & !flag.0
        };
    }
}

/// A key going down or coming up, carrying its modifier flags.
#[derive(Clone, Copy, PartialEq, Eq, Structural, Debug)]
pub struct KeyEvent {
    pub key: Key,
    pub press: PressType,
    pub flags: ModifierFlags,
}

/// The name a press type prints under.
pub open spec fn press_name(press: PressType) -> Seq<char> {
    match press {
        PressType::Down => "Down"@,
        PressType::Up => "Up"@,
    }
}

/// The modifier names set in `bits`, in the order control, command, alt, shift, fn, joined by `|`.
pub open spec fn flag_names(bits: u8) -> Seq<char> {
    let n = then_name(Seq::empty(), (bits & 1) != 0, "CONTROL"@);
    let n = then_name(n, (bits & 2) != 0, "COMMAND"@);
    let n = then_name(n, (bits & 4) != 0, "ALT"@);
    let n = then_name(n, (bits & 8) != 0, "SHIFT"@);
    then_name(n, (bits & 16) != 0, "FN"@)
}

/// `names`, followed by `name` when `on`, with a `|` between them when both are there.
pub open spec fn then_name(names: Seq<char>, on: bool, name: Seq<char>) -> Seq<char> {
    if !on {
        names
    } else if names.len() == 0 {
        name
    } else {
        names + "|"@ + name
    }
}

fn push_name(names: &mut String, on: bool, name: &str)
    ensures
        final(names)@ == then_name(old(names)@, on, name@),
{
    if on {
        if names.unicode_len() != 0 {
            names.append("|");
        }
        names.append(name);
    }
}

/// How a key event reads in the log: `KeyEvent { key: KeyJ, press: Down }`, with the flags named
/// only when some modifier is set.
pub open spec fn key_event_text(ev: KeyEvent) -> Seq<char> {
    "KeyEvent { key: "@ + key_name(ev.key) + ", press: "@ + press_name(ev.press)
        + (if ev.flags@ == 0 { Seq::empty() } else { ", flags: "@ + flags_text(ev.flags@) })
        + " }"@
}

/// How a flag set reads in the log: `ModifierFlags(COMMAND|SHIFT)`, or `ModifierFlags()`.
pub open spec fn flags_text(bits: u8) -> Seq<char> {
    "ModifierFlags("@ + flag_names(bits) + ")"@
}

impl ModifierFlags {
    /// The modifiers set, by name: `ModifierFlags(COMMAND|SHIFT)`, or `ModifierFlags()`.
    pub fn debug_string(self) -> (s: String)
        ensures
            s@ == flags_text(self@),
    {
        let mut names = String::new();
        push_name(&mut names, self.0 & 1 != 0, "CONTROL");
        push_name(&mut names, self.0 & 2 != 0, "COMMAND");
        push_name(&mut names, self.0 & 4 != 0, "ALT");
        push_name(&mut names, self.0 & 8 != 0, "SHIFT");
        push_name(&mut names, self.0 & 16 != 0, "FN");
        let s = String::from_str("ModifierFlags(");
        let s = s.concat(names.as_str());
        s.concat(")")
    }
}

impl PressType {
    /// The press type's name, as the log prints it.
    pub fn name(self) -> (s: String)
        ensures
            s@ == press_name(self),
    {
        match self {
            PressType::Down => String::from_str("Down"),
            PressType::Up => String::from_str("Up"),
        }
    }
}

impl KeyEvent {
    /// `KeyEvent { key: KeyJ, press: Down }`, with `flags` only when some modifier is set: the
    /// line every dispatched event writes to the log.
    pub fn debug_string(&self) -> (s: String)
        ensures
            s@ == key_event_text(*self),
    {
        let mut s = String::from_str("KeyEvent { key: ");
        let name = self.key.name();
        s.append(name.as_str());
        s.append(", press: ");
        let press = self.press.name();
        s.append(press.as_str());
        if !self.flags.is_empty() {
            s.append(", flags: ");
            let flags = self.flags.debug_string();
            s.append(flags.as_str());
        }
        s.append(" }");
        s
    }
}

impl EventTrigger for Key {
    type Event = KeyEvent;

    open spec fn matches(&self, event: &KeyEvent) -> bool {
        *self == event.key
    }

    fn is_matching(&self, event: &KeyEvent) -> (r: bool) {
        *self == event.key
    }
}

impl Key {
    /// A trigger matching only this key's press.
    pub fn down(self) -> (r: KeyPress)
        ensures
            r == (KeyPress { key: self, press: PressType::Down }),
    {
        KeyPress { key: self, press: PressType::Down }
    }

    /// A trigger matching only this key's release.
    pub fn up(self) -> (r: KeyPress)
        ensures
            r == (KeyPress { key: self, press: PressType::Up }),
    {
        KeyPress { key: self, press: PressType::Up }
    }

    /// Whether this is a modifier key tracked as held: control, command, alt, or shift, left or
    /// right. Caps lock (a lock) and fn (no variant) are not modifiers here.
    pub fn is_modifier(self) -> (r: bool)
        ensures
            r == spec_is_modifier(self),
    {
        matches!(self, Key::ControlLeft | Key::ControlRight | Key::MetaLeft | Key::MetaRight
            | Key::AltLeft | Key::AltRight | Key::ShiftLeft | Key::ShiftRight)
    }

    /// Whether this is a letter key (`KeyA`..=`KeyZ`).
    pub fn is_letter(self) -> (r: bool)
        ensures
            r == spec_is_letter(self),
    {
        matches!(self, Key::KeyA | Key::KeyB | Key::KeyC | Key::KeyD | Key::KeyE | Key::KeyF
            | Key::KeyG | Key::KeyH | Key::KeyI | Key::KeyJ | Key::KeyK | Key::KeyL | Key::KeyM
            | Key::KeyN | Key::KeyO | Key::KeyP | Key::KeyQ | Key::KeyR | Key::KeyS | Key::KeyT
            | Key::KeyU | Key::KeyV | Key::KeyW | Key::KeyX | Key::KeyY | Key::KeyZ)
    }

    /// Whether this is a main number-row key (`Num0`..=`Num9`).
    pub fn is_number_row(self) -> (r: bool)
        ensures
            r == spec_is_number_row(self),
    {
        matches!(self, Key::Num0 | Key::Num1 | Key::Num2 | Key::Num3 | Key::Num4 | Key::Num5
            | Key::Num6 | Key::Num7 | Key::Num8 | Key::Num9)
    }

    /// Whether this is a function key (`F1`..=`F24`).
    pub fn is_function(self) -> (r: bool)
        ensures
            r == spec_is_function(self),
    {
        matches!(self, Key::F1 | Key::F2 | Key::F3 | Key::F4 | Key::F5 | Key::F6 | Key::F7
            | Key::F8 | Key::F9 | Key::F10 | Key::F11 | Key::F12 | Key::F13 | Key::F14 | Key::F15
            | Key::F16 | Key::F17 | Key::F18 | Key::F19 | Key::F20 | Key::F21 | Key::F22
            | Key::F23 | Key::F24)
    }

    /// Whether this is an arrow key.
    pub fn is_arrow(self) -> (r: bool)
        ensures
            r == spec_is_arrow(self),
    {
        matches!(self, Key::UpArrow | Key::DownArrow | Key::LeftArrow | Key::RightArrow)
    }

    /// Whether this is a navigation key: home, end, page up/down.
    pub fn is_navigation(self) -> (r: bool)
        ensures
            r == spec_is_navigation(self),
    {
        matches!(self, Key::Home | Key::End | Key::PageUp | Key::PageDown)
    }

    /// The key's name, as the log prints it: the variant, or `Raw(<code>)`.
    pub fn name(self) -> (s: String)
        ensures
            s@ == key_name(self),
    {
        match self {
            Key::KeyA => String::from_str("KeyA"),
            Key::KeyB => String::from_str("KeyB"),
            Key::KeyC => String::from_str("KeyC"),
            Key::KeyD => String::from_str("KeyD"),
            Key::KeyE => String::from_str("KeyE"),
            Key::KeyF => String::from_str("KeyF"),
            Key::KeyG => String::from_str("KeyG"),
            Key::KeyH => String::from_str("KeyH"),
            Key::KeyI => String::from_str("KeyI"),
            Key::KeyJ => String::from_str("KeyJ"),
            Key::KeyK => String::from_str("KeyK"),
            Key::KeyL => String::from_str("KeyL"),
            Key::KeyM => String::from_str("KeyM"),
            Key::KeyN => String::from_str("KeyN"),
            Key::KeyO => String::from_str("KeyO"),
            Key::KeyP => String::from_str("KeyP"),
            Key::KeyQ => String::from_str("KeyQ"),
            Key::KeyR => String::from_str("KeyR"),
            Key::KeyS => String::from_str("KeyS"),
            Key::KeyT => String::from_str("KeyT"),
            Key::KeyU => String::from_str("KeyU"),
            Key::KeyV => String::from_str("KeyV"),
            Key::KeyW => String::from_str("KeyW"),
            Key::KeyX => String::from_str("KeyX"),
            Key::KeyY => String::from_str("KeyY"),
            Key::KeyZ => String::from_str("KeyZ"),
            Key::Num0 => String::from_str("Num0"),
            Key::Num1 => String::from_str("Num1"),
            Key::Num2 => String::from_str("Num2"),
            Key::Num3 => String::from_str("Num3"),
            Key::Num4 => String::from_str("Num4"),
            Key::Num5 => String::from_str("Num5"),
            Key::Num6 => String::from_str("Num6"),
            Key::Num7 => String::from_str("Num7"),
            Key::Num8 => String::from_str("Num8"),
            Key::Num9 => String::from_str("Num9"),
            Key::F1 => String::from_str("F1"),
            Key::F2 => String::from_str("F2"),
            Key::F3 => String::from_str("F3"),
            Key::F4 => String::from_str("F4"),
            Key::F5 => String::from_str("F5"),
            Key::F6 => String::from_str("F6"),
            Key::F7 => String::from_str("F7"),
            Key::F8 => String::from_str("F8"),
            Key::F9 => String::from_str("F9"),
            Key::F10 => String::from_str("F10"),
            Key::F11 => String::from_str("F11"),
            Key::F12 => String::from_str("F12"),
            Key::F13 => String::from_str("F13"),
            Key::F14 => String::from_str("F14"),
            Key::F15 => String::from_str("F15"),
            Key::F16 => String::from_str("F16"),
            Key::F17 => String::from_str("F17"),
            Key::F18 => String::from_str("F18"),
            Key::F19 => String::from_str("F19"),
            Key::F20 => String::from_str("F20"),
            Key::F21 => String::from_str("F21"),
            Key::F22 => String::from_str("F22"),
            Key::F23 => String::from_str("F23"),
            Key::F24 => String::from_str("F24"),
            Key::Escape => String::from_str("Escape"),
            Key::Return => String::from_str("Return"),
            Key::Space => String::from_str("Space"),
            Key::Tab => String::from_str("Tab"),
            Key::Backspace => String::from_str("Backspace"),
            Key::Delete => String::from_str("Delete"),
            Key::CapsLock => String::from_str("CapsLock"),
            Key::UpArrow => String::from_str("UpArrow"),
            Key::DownArrow => String::from_str("DownArrow"),
            Key::LeftArrow => String::from_str("LeftArrow"),
            Key::RightArrow => String::from_str("RightArrow"),
            Key::Home => String::from_str("Home"),
            Key::End => String::from_str("End"),
            Key::PageUp => String::from_str("PageUp"),
            Key::PageDown => String::from_str("PageDown"),
            Key::Insert => String::from_str("Insert"),
            Key::ShiftLeft => String::from_str("ShiftLeft"),
            Key::ShiftRight => String::from_str("ShiftRight"),
            Key::ControlLeft => String::from_str("ControlLeft"),
            Key::ControlRight => String::from_str("ControlRight"),
            Key::AltLeft => String::from_str("AltLeft"),
            Key::AltRight => String::from_str("AltRight"),
            Key::MetaLeft => String::from_str("MetaLeft"),
            Key::MetaRight => String::from_str("MetaRight"),
            Key::Grave => String::from_str("Grave"),
            Key::Minus => String::from_str("Minus"),
            Key::Equal => String::from_str("Equal"),
            Key::LeftBracket => String::from_str("LeftBracket"),
            Key::RightBracket => String::from_str("RightBracket"),
            Key::BackSlash => String::from_str("BackSlash"),
            Key::SemiColon => String::from_str("SemiColon"),
            Key::Quote => String::from_str("Quote"),
            Key::Comma => String::from_str("Comma"),
            Key::Dot => String::from_str("Dot"),
            Key::Slash => String::from_str("Slash"),
            Key::Raw(code) => {
                let digits = decimal_string(code as u64);
                let s = String::from_str("Raw(");
                let s = s.concat(digits.as_str());
                s.concat(")")
            }
        }
    }
}

/// A set of physical keys treated as one bind target.
#[derive(Clone, Copy, PartialEq, Eq, Structural, Hash, Debug)]
pub enum KeyGroup {
    /// Every key.
    Any,
    /// Letter keys: `KeyA`..=`KeyZ`.
    Letter,
    /// The main number row: `Num0`..=`Num9`.
    Number,
    /// Function keys: `F1`..=`F24`.
    Function,
    /// Modifier keys tracked as held: control, command, alt, shift (left and right).
    Modifier,
    /// Arrow keys.
    Arrow,
    /// Home, end, page up/down.
    Navigation,
}

/// The keys a group stands for.
pub open spec fn group_contains(group: KeyGroup, key: Key) -> bool {
    match group {
        KeyGroup::Any => true,
        KeyGroup::Letter => spec_is_letter(key),
        KeyGroup::Number => spec_is_number_row(key),
        KeyGroup::Function => spec_is_function(key),
        KeyGroup::Modifier => spec_is_modifier(key),
        KeyGroup::Arrow => spec_is_arrow(key),
        KeyGroup::Navigation => spec_is_navigation(key),
    }
}

impl KeyGroup {
    /// Whether `key` is in this group.
    pub fn contains(self, key: Key) -> (r: bool)
        ensures
            r == group_contains(self, key),
    {
        match self {
            KeyGroup::Any => true,
            KeyGroup::Letter => key.is_letter(),
            KeyGroup::Number => key.is_number_row(),
            KeyGroup::Function => key.is_function(),
            KeyGroup::Modifier => key.is_modifier(),
            KeyGroup::Arrow => key.is_arrow(),
            KeyGroup::Navigation => key.is_navigation(),
        }
    }

    /// A trigger matching this group's keys going down.
    pub fn down(self) -> (r: KeyGroupPress)
        ensures
            r == (KeyGroupPress { group: self, press: PressType::Down }),
    {
        KeyGroupPress { group: self, press: PressType::Down }
    }

    /// A trigger matching this group's keys coming up.
    pub fn up(self) -> (r: KeyGroupPress)
        ensures
            r == (KeyGroupPress { group: self, press: PressType::Up }),
    {
        KeyGroupPress { group: self, press: PressType::Up }
    }
}

impl EventTrigger for KeyGroup {
    type Event = KeyEvent;

    open spec fn matches(&self, event: &KeyEvent) -> bool {
        group_contains(*self, event.key)
    }

    fn is_matching(&self, event: &KeyEvent) -> (r: bool) {
        self.contains(event.key)
    }
}

/// A key from a [`KeyGroup`] going one direction, from [`KeyGroup::down`] or [`KeyGroup::up`].
#[derive(Clone, Copy, PartialEq, Eq, Structural, Hash, Debug)]
pub struct KeyGroupPress {
    pub group: KeyGroup,
    pub press: PressType,
}

impl EventTrigger for KeyGroupPress {
    type Event = KeyEvent;

    open spec fn matches(&self, event: &KeyEvent) -> bool {
        group_contains(self.group, event.key) && event.press == self.press
    }

    fn is_matching(&self, event: &KeyEvent) -> (r: bool) {
        self.group.contains(event.key) && event.press == self.press
    }
}

impl KeyGroupPress {
    /// Match only when exactly `flags` are held.
    pub fn with(self, flags: ModifierFlags) -> (r: KeyGroupChord)
        ensures
            r == (KeyGroupChord { group: self.group, press: self.press, flags }),
    {
        KeyGroupChord { group: self.group, press: self.press, flags }
    }

    /// Match only when no modifier is held.
    pub fn bare(self) -> (r: KeyGroupChord)
        ensures
            r == (KeyGroupChord { group: self.group, press: self.press, flags: ModifierFlags::empty_spec() }),
    {
        self.with(ModifierFlags::empty())
    }
}

/// A key from a [`KeyGroup`] going one direction with exactly these modifiers held.
#[derive(Clone, Copy, PartialEq, Eq, Structural, Hash, Debug)]
pub struct KeyGroupChord {
    pub group: KeyGroup,
    pub press: PressType,
    pub flags: ModifierFlags,
}

impl EventTrigger for KeyGroupChord {
    type Event = KeyEvent;

    open spec fn matches(&self, event: &KeyEvent) -> bool {
        group_contains(self.group, event.key) && event.press == self.press && event.flags
            == self.flags
    }

    fn is_matching(&self, event: &KeyEvent) -> (r: bool) {
        self.group.contains(event.key) && event.press == self.press && event.flags == self.flags
    }
}

/// A trigger matching a key going one direction, from [`Key::down`] or [`Key::up`].
#[derive(Clone, Copy, PartialEq, Eq, Structural, Hash, Debug)]
pub struct KeyPress {
    pub key: Key,
    pub press: PressType,
}

impl EventTrigger for KeyPress {
    type Event = KeyEvent;

    open spec fn matches(&self, event: &KeyEvent) -> bool {
        self.key == event.key && self.press == event.press
    }

    fn is_matching(&self, event: &KeyEvent) -> (r: bool) {
        self.key == event.key && self.press == event.press
    }
}

impl KeyPress {
    /// A trigger matching this press only when exactly `flags` are held.
    pub fn with(self, flags: ModifierFlags) -> (r: KeyChord)
        ensures
            r == (KeyChord { key: self.key, press: self.press, flags }),
    {
        KeyChord { key: self.key, press: self.press, flags }
    }

    /// A trigger matching this press only when no modifier is held.
    pub fn bare(self) -> (r: KeyChord)
        ensures
            r == (KeyChord { key: self.key, press: self.press, flags: ModifierFlags::empty_spec() }),
    {
        self.with(ModifierFlags::empty())
    }
}

/// A key going one direction with exactly these modifiers held, from [`KeyPress::with`].
#[derive(Clone, Copy, PartialEq, Eq, Structural, Hash, Debug)]
pub struct KeyChord {
    pub key: Key,
    pub press: PressType,
    pub flags: ModifierFlags,
}

impl EventTrigger for KeyChord {
    type Event = KeyEvent;

    open spec fn matches(&self, event: &KeyEvent) -> bool {
        self.key == event.key && self.press == event.press && self.flags == event.flags
    }

    fn is_matching(&self, event: &KeyEvent) -> (r: bool) {
        self.key == event.key && self.press == event.press && self.flags == event.flags
    }
}

/// A key event tagged with the consumer's device identity `D`.
#[derive(Clone, PartialEq, Eq, Debug)]
pub struct DeviceKeyed<E, D> {
    pub key: E,
    pub device: D,
}

/// Restricts an inner key trigger to devices the filter `D` matches.
#[derive(Clone, Copy, PartialEq, Eq, Hash, Debug)]
pub struct OnDevice<T, D> {
    pub device: D,
    pub inner: T,
}

impl<T: EventTrigger, D: EventTrigger> EventTrigger for OnDevice<T, D> {
    type Event = DeviceKeyed<T::Event, D::Event>;

    open spec fn matches(&self, event: &Self::Event) -> bool {
        self.device.matches(&event.device) && self.inner.matches(&event.key)
    }

    fn is_matching(&self, event: &Self::Event) -> (r: bool) {
        self.device.is_matching(&event.device) && self.inner.is_matching(&event.key)
    }
}

impl<T, D> OnDevice<T, D> {
    /// Build a device-scoped trigger.
    pub fn new(device: D, inner: T) -> (r: Self)
        ensures
            r == (OnDevice { device, inner }),
    {
        OnDevice { device, inner }
    }
}

/// Attach a device filter to any key-side trigger.
pub trait WithDevice: Sized {
    /// Match only when the event's device satisfies `device`.
    fn on_device<D: EventTrigger>(self, device: D) -> (r: OnDevice<Self, D>)
        ensures
            r == (OnDevice { device, inner: self }),
    {
        OnDevice { device, inner: self }
    }
}

impl<T: EventTrigger> WithDevice for T {}


/// The decimal digits of `n`, most significant first; `0` is the single digit `0`.
pub open spec fn decimal(n: nat) -> Seq<char>
    decreases n,
{
    if n < 10 {
        digit_str(n)
    } else {
        decimal(n / 10) + digit_str(n % 10)
    }
}

/// The one-character text of the digit `d`, which is below ten.
pub open spec fn digit_str(d: nat) -> Seq<char> {
    if d == 0 { "0"@ }
    else if d == 1 { "1"@ }
    else if d == 2 { "2"@ }
    else if d == 3 { "3"@ }
    else if d == 4 { "4"@ }
    else if d == 5 { "5"@ }
    else if d == 6 { "6"@ }
    else if d == 7 { "7"@ }
    else if d == 8 { "8"@ }
    else { "9"@ }
}

fn digit_string(d: u64) -> (s: String)
    requires
        d < 10,
    ensures
        s@ == digit_str(d as nat),
{
    if d == 0 { String::from_str("0") }
    else if d == 1 { String::from_str("1") }
    else if d == 2 { String::from_str("2") }
    else if d == 3 { String::from_str("3") }
    else if d == 4 { String::from_str("4") }
    else if d == 5 { String::from_str("5") }
    else if d == 6 { String::from_str("6") }
    else if d == 7 { String::from_str("7") }
    else if d == 8 { String::from_str("8") }
    else { String::from_str("9") }
}

/// Writes `n` in decimal, as `{}` formats it.
pub fn decimal_string(n: u64) -> (s: String)
    ensures
        s@ == decimal(n as nat),
    decreases n,
{
    if n < 10 {
        digit_string(n)
    } else {
        let high = decimal_string(n / 10);
        let low = digit_string(n % 10);
        high.concat(low.as_str())
    }
}

/// The named key groups partition the keys they cover: no key is in two of them, and `Any` holds
/// every key.
pub proof fn lemma_key_groups_are_disjoint(key: Key, a: KeyGroup, b: KeyGroup)
    requires
        a != b,
        a != KeyGroup::Any,
        b != KeyGroup::Any,
    ensures
        !(group_contains(a, key) && group_contains(b, key)),
        group_contains(KeyGroup::Any, key),
{
}

/// A chord is a press with its modifiers pinned: whatever a chord matches, the press it was built
/// from matches too, and two chords of one press that differ in their flags never match the same
/// event.
pub proof fn lemma_chords_refine_presses(p: KeyPress, f: ModifierFlags, g: ModifierFlags, ev: KeyEvent)
    ensures
        (KeyChord { key: p.key, press: p.press, flags: f }).matches(&ev) ==> p.matches(&ev),
        f != g ==> !((KeyChord { key: p.key, press: p.press, flags: f }).matches(&ev) && (KeyChord {
            key: p.key,
            press: p.press,
            flags: g,
        }).matches(&ev)),
{
}

/// A group press matches only events going its own way, and every key of its group going that way:
/// so a group's `down()` and `up()` triggers never match the same event, and between them they
/// match each of the group's events once.
pub proof fn lemma_group_presses_split_by_direction(group: KeyGroup, press: PressType, ev: KeyEvent)
    ensures
        (KeyGroupPress { group, press }).matches(&ev) ==> ev.press == press,
        !((KeyGroupPress { group, press: PressType::Down }).matches(&ev)
            && (KeyGroupPress { group, press: PressType::Up }).matches(&ev)),
        group.matches(&ev) ==> (KeyGroupPress { group, press: ev.press }).matches(&ev),
        (KeyGroupPress { group, press }).matches(&ev) ==> group.matches(&ev),
{
}

} // verus!
