//! Keyboard and mouse events, and the pure parts of driving them: which key
//! a character is typed with, which button a name means, which events type a
//! string.
use vstd::prelude::*;
use crate::trusted::{lowercase, to_lowercase};
use crate::text::string_from;

verus! {

/// A key, on a standard QWERTY layout.
#[derive(PartialEq, Eq, Structural, Clone, Copy, Debug)]
pub enum Key {
    Alt,
    AltGr,
    Backspace,
    CapsLock,
    ControlLeft,
    ControlRight,
    Delete,
    DownArrow,
    End,
    Escape,
    F1,
    F10,
    F11,
    F12,
    F2,
    F3,
    F4,
    F5,
    F6,
    F7,
    F8,
    F9,
    Home,
    LeftArrow,
    MetaLeft,
    MetaRight,
    PageDown,
    PageUp,
    Return,
    RightArrow,
    ShiftLeft,
    ShiftRight,
    Space,
    Tab,
    UpArrow,
    PrintScreen,
    ScrollLock,
    Pause,
    NumLock,
    BackQuote,
    Num1,
    Num2,
    Num3,
    Num4,
    Num5,
    Num6,
    Num7,
    Num8,
    Num9,
    Num0,
    Minus,
    Equal,
    KeyQ,
    KeyW,
    KeyE,
    KeyR,
    KeyT,
    KeyY,
    KeyU,
    KeyI,
    KeyO,
    KeyP,
    LeftBracket,
    RightBracket,
    KeyA,
    KeyS,
    KeyD,
    KeyF,
    KeyG,
    KeyH,
    KeyJ,
    KeyK,
    KeyL,
    SemiColon,
    Quote,
    BackSlash,
    IntlBackslash,
    KeyZ,
    KeyX,
    KeyC,
    KeyV,
    KeyB,
    KeyN,
    KeyM,
    Comma,
    Dot,
    Slash,
    Insert,
    KpReturn,
    KpMinus,
    KpPlus,
    KpMultiply,
    KpDivide,
    Kp0,
    Kp1,
    Kp2,
    Kp3,
    Kp4,
    Kp5,
    Kp6,
    Kp7,
    Kp8,
    Kp9,
    KpDelete,
    Function,
    Unknown(u32),
}

/// A mouse button.
#[derive(PartialEq, Eq, Structural, Clone, Copy, Debug)]
pub enum Button {
    Left,
    Right,
    Middle,
    Unknown(u8),
}

/// An input event. Pointer coordinates are kept as the IEEE-754 bit
/// patterns of the `f64` pixel values, so that a recorded move is replayed
/// exactly.
#[derive(PartialEq, Eq, Structural, Clone, Copy, Debug)]
pub enum EventType {
    KeyPress(Key),
    KeyRelease(Key),
    ButtonPress(Button),
    ButtonRelease(Button),
    MouseMove { x_bits: u64, y_bits: u64 },
    Wheel { delta_x: i64, delta_y: i64 },
}

/// The key that types `c`: the letter keys for `a` to `z`, the space bar for
/// a space, `Key::Unknown(0)` for anything else.
pub open spec fn key_for_char(c: char) -> Key {
    match c {
        'a' => Key::KeyA,
        'b' => Key::KeyB,
        'c' => Key::KeyC,
        'd' => Key::KeyD,
        'e' => Key::KeyE,
        'f' => Key::KeyF,
        'g' => Key::KeyG,
        'h' => Key::KeyH,
        'i' => Key::KeyI,
        'j' => Key::KeyJ,
        'k' => Key::KeyK,
        'l' => Key::KeyL,
        'm' => Key::KeyM,
        'n' => Key::KeyN,
        'o' => Key::KeyO,
        'p' => Key::KeyP,
        'q' => Key::KeyQ,
        'r' => Key::KeyR,
        's' => Key::KeyS,
        't' => Key::KeyT,
        'u' => Key::KeyU,
        'v' => Key::KeyV,
        'w' => Key::KeyW,
        'x' => Key::KeyX,
        'y' => Key::KeyY,
        'z' => Key::KeyZ,
        ' ' => Key::Space,
        _ => Key::Unknown(0),
    }
}

/// The key that types `c`.
pub fn char_to_key(c: char) -> (r: Key)
    ensures
        r == key_for_char(c),
{
    match c {
        'a' => Key::KeyA,
        'b' => Key::KeyB,
        'c' => Key::KeyC,
        'd' => Key::KeyD,
        'e' => Key::KeyE,
        'f' => Key::KeyF,
        'g' => Key::KeyG,
        'h' => Key::KeyH,
        'i' => Key::KeyI,
        'j' => Key::KeyJ,
        'k' => Key::KeyK,
        'l' => Key::KeyL,
        'm' => Key::KeyM,
        'n' => Key::KeyN,
        'o' => Key::KeyO,
        'p' => Key::KeyP,
        'q' => Key::KeyQ,
        'r' => Key::KeyR,
        's' => Key::KeyS,
        't' => Key::KeyT,
        'u' => Key::KeyU,
        'v' => Key::KeyV,
        'w' => Key::KeyW,
        'x' => Key::KeyX,
        'y' => Key::KeyY,
        'z' => Key::KeyZ,
        ' ' => Key::Space,
        _ => Key::Unknown(0),
    }
}

/// The letter keys in alphabetical order, `A` to `Z`.
pub open spec fn letter_keys() -> Seq<Key> {
    seq![
        Key::KeyA,
        Key::KeyB,
        Key::KeyC,
        Key::KeyD,
        Key::KeyE,
        Key::KeyF,
        Key::KeyG,
        Key::KeyH,
        Key::KeyI,
        Key::KeyJ,
        Key::KeyK,
        Key::KeyL,
        Key::KeyM,
        Key::KeyN,
        Key::KeyO,
        Key::KeyP,
        Key::KeyQ,
        Key::KeyR,
        Key::KeyS,
        Key::KeyT,
        Key::KeyU,
        Key::KeyV,
        Key::KeyW,
        Key::KeyX,
        Key::KeyY,
        Key::KeyZ,
    ]
}

/// Each lower-case letter is typed with the key of the same letter: the
/// `i`-th letter of the alphabet (`'a'` plus `i`) with the `i`-th letter
/// key. So distinct letters type distinct keys, and none of them types the
/// space bar or an unknown key.
pub proof fn law_letters_type_their_keys()
    ensures
        letter_keys().len() == 26,
        forall|i: int| 0 <= i < 26 ==> key_for_char(#[trigger] char_at(97 + i)) == letter_keys()[i],
        forall|i: int, j: int|
            0 <= i < 26 && 0 <= j < 26 && i != j ==> key_for_char(#[trigger] char_at(97 + i))
                != key_for_char(#[trigger] char_at(97 + j)),
        key_for_char(' ') == Key::Space,
{
    assert forall|i: int| 0 <= i < 26 implies key_for_char(#[trigger] char_at(97 + i)) == letter_keys()[i] by {
        if i == 0 {
        } else if i == 1 {
        } else if i == 2 {
        } else if i == 3 {
        } else if i == 4 {
        } else if i == 5 {
        } else if i == 6 {
        } else if i == 7 {
        } else if i == 8 {
        } else if i == 9 {
        } else if i == 10 {
        } else if i == 11 {
        } else if i == 12 {
        } else if i == 13 {
        } else if i == 14 {
        } else if i == 15 {
        } else if i == 16 {
        } else if i == 17 {
        } else if i == 18 {
        } else if i == 19 {
        } else if i == 20 {
        } else if i == 21 {
        } else if i == 22 {
        } else if i == 23 {
        } else if i == 24 {
        } else if i == 25 {
        }
    }
}

/// The character with code point `n`.
pub open spec fn char_at(n: int) -> char {
    n as char
}

/// The events that type `text`: for each character, a press and then a
/// release of its key.
pub open spec fn typing_events(text: Seq<char>) -> Seq<EventType> {
    Seq::new(
        2 * text.len(),
        |i: int|
            if i % 2 == 0 {
                EventType::KeyPress(key_for_char(text[i / 2]))
            } else {
                EventType::KeyRelease(key_for_char(text[i / 2]))
            },
    )
}

/// The events that type `text`, in the order they are sent.
pub fn type_string(text: &str) -> (r: Vec<EventType>)
    ensures
        r@ == typing_events(text@),
{
    let mut r: Vec<EventType> = Vec::new();
    for c in it: text.chars()
        invariant
            r@ == typing_events(it.seq().take(it.index() as int)),
    {
        let key = char_to_key(c);
        let ghost before = it.seq().take(it.index() as int);
        r.push(EventType::KeyPress(key));
        r.push(EventType::KeyRelease(key));
        proof {
            let after = it.seq().take(it.index() + 1);
            assert(after =~= before.push(c));
            assert(r@ =~= typing_events(after));
        }
    }
    r
}

/// The button a lower-cased name means: `left`, `right` or `middle`; the
/// left button for any other name.
pub open spec fn button_for_name(lower: Seq<char>) -> Button {
    if lower == "left"@ {
        Button::Left
    } else if lower == "right"@ {
        Button::Right
    } else if lower == "middle"@ {
        Button::Middle
    } else {
        Button::Left
    }
}

/// The button named by `lower`, an already lower-cased name.
pub fn button_from_lowercase(lower: &String) -> (r: Button)
    ensures
        r == button_for_name(lower@),
{
    if *lower == string_from("left") {
        Button::Left
    } else if *lower == string_from("right") {
        Button::Right
    } else if *lower == string_from("middle") {
        Button::Middle
    } else {
        Button::Left
    }
}

/// The button named by `button_str`, compared after `str::to_lowercase`.
pub fn string_to_button(button_str: &str) -> (r: Button)
    ensures
        r == button_for_name(lowercase(button_str@)),
{
    let lower = to_lowercase(button_str);
    button_from_lowercase(&lower)
}

/// A click of `button`: a press and then a release.
pub fn click(button: Button) -> (r: Vec<EventType>)
    ensures
        r@ == seq![EventType::ButtonPress(button), EventType::ButtonRelease(button)],
{
    let mut r: Vec<EventType> = Vec::new();
    r.push(EventType::ButtonPress(button));
    r.push(EventType::ButtonRelease(button));
    r
}

/// The single event that presses `key`.
pub fn press_key(key: Key) -> (r: EventType)
    ensures
        r == EventType::KeyPress(key),
{
    EventType::KeyPress(key)
}

/// The single event that releases `key`.
pub fn release_key(key: Key) -> (r: EventType)
    ensures
        r == EventType::KeyRelease(key),
{
    EventType::KeyRelease(key)
}

} // verus!
