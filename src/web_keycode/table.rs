//! The table from physical key identifiers to logical keys, sorted by
//! identifier.

use vstd::prelude::*;

use super::code_lt;

verus! {

/// A logical key of the composition engine's alphabet.
#[derive(Clone, Copy, Debug, PartialEq, Eq, Structural)]
pub enum KeyCode {
    AltL,
    AltR,
    Down,
    Left,
    Right,
    Up,
    Grave,
    Backslash,
    Backspace,
    OpenBracket,
    CloseBracket,
    Comma,
    ControlL,
    ControlR,
    Henkan,
    Delete,
    Zero,
    One,
    Two,
    Three,
    Four,
    Five,
    Six,
    Seven,
    Eight,
    Nine,
    End,
    Enter,
    Equal,
    Esc,
    F1,
    F10,
    F11,
    F12,
    F2,
    F3,
    F4,
    F5,
    F6,
    F7,
    F8,
    F9,
    Home,
    Insert,
    A,
    B,
    C,
    D,
    E,
    F,
    G,
    H,
    I,
    J,
    K,
    L,
    M,
    N,
    O,
    P,
    Q,
    R,
    S,
    T,
    U,
    V,
    W,
    X,
    Y,
    Z,
    Hangul,
    HangulHanja,
    Minus,
    Muhenkan,
    NumZero,
    NumOne,
    NumTwo,
    NumThree,
    NumFour,
    NumFive,
    NumSix,
    NumSeven,
    NumEight,
    NumNine,
    PageDown,
    PageUp,
    Period,
    Quote,
    SemiColon,
    Shift,
    Slash,
    Space,
    Tab,
}

/// Number of physical identifiers that the table knows.
pub const CODE_COUNT: usize = 94;

/// The physical identifier at position `i` of the table, in ascending order.
pub open spec fn table_code(i: int) -> Seq<char> {
    if i == 0 {
        "AltLeft"@
    } else if i == 1 {
        "AltRight"@
    } else if i == 2 {
        "ArrowDown"@
    } else if i == 3 {
        "ArrowLeft"@
    } else if i == 4 {
        "ArrowRight"@
    } else if i == 5 {
        "ArrowUp"@
    } else if i == 6 {
        "Backquote"@
    } else if i == 7 {
        "Backslash"@
    } else if i == 8 {
        "Backspace"@
    } else if i == 9 {
        "BracketLeft"@
    } else if i == 10 {
        "BracketRight"@
    } else if i == 11 {
        "Comma"@
    } else if i == 12 {
        "ControlLeft"@
    } else if i == 13 {
        "ControlRight"@
    } else if i == 14 {
        "Convert"@
    } else if i == 15 {
        "Delete"@
    } else if i == 16 {
        "Digit0"@
    } else if i == 17 {
        "Digit1"@
    } else if i == 18 {
        "Digit2"@
    } else if i == 19 {
        "Digit3"@
    } else if i == 20 {
        "Digit4"@
    } else if i == 21 {
        "Digit5"@
    } else if i == 22 {
        "Digit6"@
    } else if i == 23 {
        "Digit7"@
    } else if i == 24 {
        "Digit8"@
    } else if i == 25 {
        "Digit9"@
    } else if i == 26 {
        "End"@
    } else if i == 27 {
        "Enter"@
    } else if i == 28 {
        "Equal"@
    } else if i == 29 {
        "Escape"@
    } else if i == 30 {
        "F1"@
    } else if i == 31 {
        "F10"@
    } else if i == 32 {
        "F11"@
    } else if i == 33 {
        "F12"@
    } else if i == 34 {
        "F2"@
    } else if i == 35 {
        "F3"@
    } else if i == 36 {
        "F4"@
    } else if i == 37 {
        "F5"@
    } else if i == 38 {
        "F6"@
    } else if i == 39 {
        "F7"@
    } else if i == 40 {
        "F8"@
    } else if i == 41 {
        "F9"@
    } else if i == 42 {
        "Home"@
    } else if i == 43 {
        "Insert"@
    } else if i == 44 {
        "KeyA"@
    } else if i == 45 {
        "KeyB"@
    } else if i == 46 {
        "KeyC"@
    } else if i == 47 {
        "KeyD"@
    } else if i == 48 {
        "KeyE"@
    } else if i == 49 {
        "KeyF"@
    } else if i == 50 {
        "KeyG"@
    } else if i == 51 {
        "KeyH"@
    } else if i == 52 {
        "KeyI"@
    } else if i == 53 {
        "KeyJ"@
    } else if i == 54 {
        "KeyK"@
    } else if i == 55 {
        "KeyL"@
    } else if i == 56 {
        "KeyM"@
    } else if i == 57 {
        "KeyN"@
    } else if i == 58 {
        "KeyO"@
    } else if i == 59 {
        "KeyP"@
    } else if i == 60 {
        "KeyQ"@
    } else if i == 61 {
        "KeyR"@
    } else if i == 62 {
        "KeyS"@
    } else if i == 63 {
        "KeyT"@
    } else if i == 64 {
        "KeyU"@
    } else if i == 65 {
        "KeyV"@
    } else if i == 66 {
        "KeyW"@
    } else if i == 67 {
        "KeyX"@
    } else if i == 68 {
        "KeyY"@
    } else if i == 69 {
        "KeyZ"@
    } else if i == 70 {
        "Lang1"@
    } else if i == 71 {
        "Lang2"@
    } else if i == 72 {
        "Minus"@
    } else if i == 73 {
        "NonConvert"@
    } else if i == 74 {
        "Numpad0"@
    } else if i == 75 {
        "Numpad1"@
    } else if i == 76 {
        "Numpad2"@
    } else if i == 77 {
        "Numpad3"@
    } else if i == 78 {
        "Numpad4"@
    } else if i == 79 {
        "Numpad5"@
    } else if i == 80 {
        "Numpad6"@
    } else if i == 81 {
        "Numpad7"@
    } else if i == 82 {
        "Numpad8"@
    } else if i == 83 {
        "Numpad9"@
    } else if i == 84 {
        "PageDown"@
    } else if i == 85 {
        "PageUp"@
    } else if i == 86 {
        "Period"@
    } else if i == 87 {
        "Quote"@
    } else if i == 88 {
        "Semicolon"@
    } else if i == 89 {
        "ShiftLeft"@
    } else if i == 90 {
        "ShiftRight"@
    } else if i == 91 {
        "Slash"@
    } else if i == 92 {
        "Space"@
    } else {
        "Tab"@
    }
}

/// The logical key at position `i` of the table.
pub open spec fn table_key(i: int) -> KeyCode {
    if i == 0 {
        KeyCode::AltL
    } else if i == 1 {
        KeyCode::AltR
    } else if i == 2 {
        KeyCode::Down
    } else if i == 3 {
        KeyCode::Left
    } else if i == 4 {
        KeyCode::Right
    } else if i == 5 {
        KeyCode::Up
    } else if i == 6 {
        KeyCode::Grave
    } else if i == 7 {
        KeyCode::Backslash
    } else if i == 8 {
        KeyCode::Backspace
    } else if i == 9 {
        KeyCode::OpenBracket
    } else if i == 10 {
        KeyCode::CloseBracket
    } else if i == 11 {
        KeyCode::Comma
    } else if i == 12 {
        KeyCode::ControlL
    } else if i == 13 {
        KeyCode::ControlR
    } else if i == 14 {
        KeyCode::Henkan
    } else if i == 15 {
        KeyCode::Delete
    } else if i == 16 {
        KeyCode::Zero
    } else if i == 17 {
        KeyCode::One
    } else if i == 18 {
        KeyCode::Two
    } else if i == 19 {
        KeyCode::Three
    } else if i == 20 {
        KeyCode::Four
    } else if i == 21 {
        KeyCode::Five
    } else if i == 22 {
        KeyCode::Six
    } else if i == 23 {
        KeyCode::Seven
    } else if i == 24 {
        KeyCode::Eight
    } else if i == 25 {
        KeyCode::Nine
    } else if i == 26 {
        KeyCode::End
    } else if i == 27 {
        KeyCode::Enter
    } else if i == 28 {
        KeyCode::Equal
    } else if i == 29 {
        KeyCode::Esc
    } else if i == 30 {
        KeyCode::F1
    } else if i == 31 {
        KeyCode::F10
    } else if i == 32 {
        KeyCode::F11
    } else if i == 33 {
        KeyCode::F12
    } else if i == 34 {
        KeyCode::F2
    } else if i == 35 {
        KeyCode::F3
    } else if i == 36 {
        KeyCode::F4
    } else if i == 37 {
        KeyCode::F5
    } else if i == 38 {
        KeyCode::F6
    } else if i == 39 {
        KeyCode::F7
    } else if i == 40 {
        KeyCode::F8
    } else if i == 41 {
        KeyCode::F9
    } else if i == 42 {
        KeyCode::Home
    } else if i == 43 {
        KeyCode::Insert
    } else if i == 44 {
        KeyCode::A
    } else if i == 45 {
        KeyCode::B
    } else if i == 46 {
        KeyCode::C
    } else if i == 47 {
        KeyCode::D
    } else if i == 48 {
        KeyCode::E
    } else if i == 49 {
        KeyCode::F
    } else if i == 50 {
        KeyCode::G
    } else if i == 51 {
        KeyCode::H
    } else if i == 52 {
        KeyCode::I
    } else if i == 53 {
        KeyCode::J
    } else if i == 54 {
        KeyCode::K
    } else if i == 55 {
        KeyCode::L
    } else if i == 56 {
        KeyCode::M
    } else if i == 57 {
        KeyCode::N
    } else if i == 58 {
        KeyCode::O
    } else if i == 59 {
        KeyCode::P
    } else if i == 60 {
        KeyCode::Q
    } else if i == 61 {
        KeyCode::R
    } else if i == 62 {
        KeyCode::S
    } else if i == 63 {
        KeyCode::T
    } else if i == 64 {
        KeyCode::U
    } else if i == 65 {
        KeyCode::V
    } else if i == 66 {
        KeyCode::W
    } else if i == 67 {
        KeyCode::X
    } else if i == 68 {
        KeyCode::Y
    } else if i == 69 {
        KeyCode::Z
    } else if i == 70 {
        KeyCode::Hangul
    } else if i == 71 {
        KeyCode::HangulHanja
    } else if i == 72 {
        KeyCode::Minus
    } else if i == 73 {
        KeyCode::Muhenkan
    } else if i == 74 {
        KeyCode::NumZero
    } else if i == 75 {
        KeyCode::NumOne
    } else if i == 76 {
        KeyCode::NumTwo
    } else if i == 77 {
        KeyCode::NumThree
    } else if i == 78 {
        KeyCode::NumFour
    } else if i == 79 {
        KeyCode::NumFive
    } else if i == 80 {
        KeyCode::NumSix
    } else if i == 81 {
        KeyCode::NumSeven
    } else if i == 82 {
        KeyCode::NumEight
    } else if i == 83 {
        KeyCode::NumNine
    } else if i == 84 {
        KeyCode::PageDown
    } else if i == 85 {
        KeyCode::PageUp
    } else if i == 86 {
        KeyCode::Period
    } else if i == 87 {
        KeyCode::Quote
    } else if i == 88 {
        KeyCode::SemiColon
    } else if i == 89 {
        KeyCode::Shift
    } else if i == 90 {
        KeyCode::Shift
    } else if i == 91 {
        KeyCode::Slash
    } else if i == 92 {
        KeyCode::Space
    } else {
        KeyCode::Tab
    }
}

/// The entry at position `i` of the table.
pub(crate) fn table_entry(i: usize) -> (r: (&'static str, KeyCode))
    requires
        i < CODE_COUNT,
    ensures
        r.0@ == table_code(i as int),
        r.1 == table_key(i as int),
{
    match i {
        0 => ("AltLeft", KeyCode::AltL),
        1 => ("AltRight", KeyCode::AltR),
        2 => ("ArrowDown", KeyCode::Down),
        3 => ("ArrowLeft", KeyCode::Left),
        4 => ("ArrowRight", KeyCode::Right),
        5 => ("ArrowUp", KeyCode::Up),
        6 => ("Backquote", KeyCode::Grave),
        7 => ("Backslash", KeyCode::Backslash),
        8 => ("Backspace", KeyCode::Backspace),
        9 => ("BracketLeft", KeyCode::OpenBracket),
        10 => ("BracketRight", KeyCode::CloseBracket),
        11 => ("Comma", KeyCode::Comma),
        12 => ("ControlLeft", KeyCode::ControlL),
        13 => ("ControlRight", KeyCode::ControlR),
        14 => ("Convert", KeyCode::Henkan),
        15 => ("Delete", KeyCode::Delete),
        16 => ("Digit0", KeyCode::Zero),
        17 => ("Digit1", KeyCode::One),
        18 => ("Digit2", KeyCode::Two),
        19 => ("Digit3", KeyCode::Three),
        20 => ("Digit4", KeyCode::Four),
        21 => ("Digit5", KeyCode::Five),
        22 => ("Digit6", KeyCode::Six),
        23 => ("Digit7", KeyCode::Seven),
        24 => ("Digit8", KeyCode::Eight),
        25 => ("Digit9", KeyCode::Nine),
        26 => ("End", KeyCode::End),
        27 => ("Enter", KeyCode::Enter),
        28 => ("Equal", KeyCode::Equal),
        29 => ("Escape", KeyCode::Esc),
        30 => ("F1", KeyCode::F1),
        31 => ("F10", KeyCode::F10),
        32 => ("F11", KeyCode::F11),
        33 => ("F12", KeyCode::F12),
        34 => ("F2", KeyCode::F2),
        35 => ("F3", KeyCode::F3),
        36 => ("F4", KeyCode::F4),
        37 => ("F5", KeyCode::F5),
        38 => ("F6", KeyCode::F6),
        39 => ("F7", KeyCode::F7),
        40 => ("F8", KeyCode::F8),
        41 => ("F9", KeyCode::F9),
        42 => ("Home", KeyCode::Home),
        43 => ("Insert", KeyCode::Insert),
        44 => ("KeyA", KeyCode::A),
        45 => ("KeyB", KeyCode::B),
        46 => ("KeyC", KeyCode::C),
        47 => ("KeyD", KeyCode::D),
        48 => ("KeyE", KeyCode::E),
        49 => ("KeyF", KeyCode::F),
        50 => ("KeyG", KeyCode::G),
        51 => ("KeyH", KeyCode::H),
        52 => ("KeyI", KeyCode::I),
        53 => ("KeyJ", KeyCode::J),
        54 => ("KeyK", KeyCode::K),
        55 => ("KeyL", KeyCode::L),
        56 => ("KeyM", KeyCode::M),
        57 => ("KeyN", KeyCode::N),
        58 => ("KeyO", KeyCode::O),
        59 => ("KeyP", KeyCode::P),
        60 => ("KeyQ", KeyCode::Q),
        61 => ("KeyR", KeyCode::R),
        62 => ("KeyS", KeyCode::S),
        63 => ("KeyT", KeyCode::T),
        64 => ("KeyU", KeyCode::U),
        65 => ("KeyV", KeyCode::V),
        66 => ("KeyW", KeyCode::W),
        67 => ("KeyX", KeyCode::X),
        68 => ("KeyY", KeyCode::Y),
        69 => ("KeyZ", KeyCode::Z),
        70 => ("Lang1", KeyCode::Hangul),
        71 => ("Lang2", KeyCode::HangulHanja),
        72 => ("Minus", KeyCode::Minus),
        73 => ("NonConvert", KeyCode::Muhenkan),
        74 => ("Numpad0", KeyCode::NumZero),
        75 => ("Numpad1", KeyCode::NumOne),
        76 => ("Numpad2", KeyCode::NumTwo),
        77 => ("Numpad3", KeyCode::NumThree),
        78 => ("Numpad4", KeyCode::NumFour),
        79 => ("Numpad5", KeyCode::NumFive),
        80 => ("Numpad6", KeyCode::NumSix),
        81 => ("Numpad7", KeyCode::NumSeven),
        82 => ("Numpad8", KeyCode::NumEight),
        83 => ("Numpad9", KeyCode::NumNine),
        84 => ("PageDown", KeyCode::PageDown),
        85 => ("PageUp", KeyCode::PageUp),
        86 => ("Period", KeyCode::Period),
        87 => ("Quote", KeyCode::Quote),
        88 => ("Semicolon", KeyCode::SemiColon),
        89 => ("ShiftLeft", KeyCode::Shift),
        90 => ("ShiftRight", KeyCode::Shift),
        91 => ("Slash", KeyCode::Slash),
        92 => ("Space", KeyCode::Space),
        _ => ("Tab", KeyCode::Tab),
    }
}

/// Each identifier of the table comes before the next one.
pub(crate) proof fn lemma_adjacent_sorted(i: int)
    requires
        0 <= i < CODE_COUNT - 1,
    ensures
        code_lt(table_code(i), table_code(i + 1)),
{
    reveal_with_fuel(code_lt, 9);
    if i == 0 {
        reveal_strlit("AltLeft");
        reveal_strlit("AltRight");
    } else if i == 1 {
        reveal_strlit("AltRight");
        reveal_strlit("ArrowDown");
    } else if i == 2 {
        reveal_strlit("ArrowDown");
        reveal_strlit("ArrowLeft");
    } else if i == 3 {
        reveal_strlit("ArrowLeft");
        reveal_strlit("ArrowRight");
    } else if i == 4 {
        reveal_strlit("ArrowRight");
        reveal_strlit("ArrowUp");
    } else if i == 5 {
        reveal_strlit("ArrowUp");
        reveal_strlit("Backquote");
    } else if i == 6 {
        reveal_strlit("Backquote");
        reveal_strlit("Backslash");
    } else if i == 7 {
        reveal_strlit("Backslash");
        reveal_strlit("Backspace");
    } else if i == 8 {
        reveal_strlit("Backspace");
        reveal_strlit("BracketLeft");
    } else if i == 9 {
        reveal_strlit("BracketLeft");
        reveal_strlit("BracketRight");
    } else if i == 10 {
        reveal_strlit("BracketRight");
        reveal_strlit("Comma");
    } else if i == 11 {
        reveal_strlit("Comma");
        reveal_strlit("ControlLeft");
    } else if i == 12 {
        reveal_strlit("ControlLeft");
        reveal_strlit("ControlRight");
    } else if i == 13 {
        reveal_strlit("ControlRight");
        reveal_strlit("Convert");
    } else if i == 14 {
        reveal_strlit("Convert");
        reveal_strlit("Delete");
    } else if i == 15 {
        reveal_strlit("Delete");
        reveal_strlit("Digit0");
    } else if i == 16 {
        reveal_strlit("Digit0");
        reveal_strlit("Digit1");
    } else if i == 17 {
        reveal_strlit("Digit1");
        reveal_strlit("Digit2");
    } else if i == 18 {
        reveal_strlit("Digit2");
        reveal_strlit("Digit3");
    } else if i == 19 {
        reveal_strlit("Digit3");
        reveal_strlit("Digit4");
    } else if i == 20 {
        reveal_strlit("Digit4");
        reveal_strlit("Digit5");
    } else if i == 21 {
        reveal_strlit("Digit5");
        reveal_strlit("Digit6");
    } else if i == 22 {
        reveal_strlit("Digit6");
        reveal_strlit("Digit7");
    } else if i == 23 {
        reveal_strlit("Digit7");
        reveal_strlit("Digit8");
    } else if i == 24 {
        reveal_strlit("Digit8");
        reveal_strlit("Digit9");
    } else if i == 25 {
        reveal_strlit("Digit9");
        reveal_strlit("End");
    } else if i == 26 {
        reveal_strlit("End");
        reveal_strlit("Enter");
    } else if i == 27 {
        reveal_strlit("Enter");
        reveal_strlit("Equal");
    } else if i == 28 {
        reveal_strlit("Equal");
        reveal_strlit("Escape");
    } else if i == 29 {
        reveal_strlit("Escape");
        reveal_strlit("F1");
    } else if i == 30 {
        reveal_strlit("F1");
        reveal_strlit("F10");
    } else if i == 31 {
        reveal_strlit("F10");
        reveal_strlit("F11");
    } else if i == 32 {
        reveal_strlit("F11");
        reveal_strlit("F12");
    } else if i == 33 {
        reveal_strlit("F12");
        reveal_strlit("F2");
    } else if i == 34 {
        reveal_strlit("F2");
        reveal_strlit("F3");
    } else if i == 35 {
        reveal_strlit("F3");
        reveal_strlit("F4");
    } else if i == 36 {
        reveal_strlit("F4");
        reveal_strlit("F5");
    } else if i == 37 {
        reveal_strlit("F5");
        reveal_strlit("F6");
    } else if i == 38 {
        reveal_strlit("F6");
        reveal_strlit("F7");
    } else if i == 39 {
        reveal_strlit("F7");
        reveal_strlit("F8");
    } else if i == 40 {
        reveal_strlit("F8");
        reveal_strlit("F9");
    } else if i == 41 {
        reveal_strlit("F9");
        reveal_strlit("Home");
    } else if i == 42 {
        reveal_strlit("Home");
        reveal_strlit("Insert");
    } else if i == 43 {
        reveal_strlit("Insert");
        reveal_strlit("KeyA");
    } else if i == 44 {
        reveal_strlit("KeyA");
        reveal_strlit("KeyB");
    } else if i == 45 {
        reveal_strlit("KeyB");
        reveal_strlit("KeyC");
    } else if i == 46 {
        reveal_strlit("KeyC");
        reveal_strlit("KeyD");
    } else if i == 47 {
        reveal_strlit("KeyD");
        reveal_strlit("KeyE");
    } else if i == 48 {
        reveal_strlit("KeyE");
        reveal_strlit("KeyF");
    } else if i == 49 {
        reveal_strlit("KeyF");
        reveal_strlit("KeyG");
    } else if i == 50 {
        reveal_strlit("KeyG");
        reveal_strlit("KeyH");
    } else if i == 51 {
        reveal_strlit("KeyH");
        reveal_strlit("KeyI");
    } else if i == 52 {
        reveal_strlit("KeyI");
        reveal_strlit("KeyJ");
    } else if i == 53 {
        reveal_strlit("KeyJ");
        reveal_strlit("KeyK");
    } else if i == 54 {
        reveal_strlit("KeyK");
        reveal_strlit("KeyL");
    } else if i == 55 {
        reveal_strlit("KeyL");
        reveal_strlit("KeyM");
    } else if i == 56 {
        reveal_strlit("KeyM");
        reveal_strlit("KeyN");
    } else if i == 57 {
        reveal_strlit("KeyN");
        reveal_strlit("KeyO");
    } else if i == 58 {
        reveal_strlit("KeyO");
        reveal_strlit("KeyP");
    } else if i == 59 {
        reveal_strlit("KeyP");
        reveal_strlit("KeyQ");
    } else if i == 60 {
        reveal_strlit("KeyQ");
        reveal_strlit("KeyR");
    } else if i == 61 {
        reveal_strlit("KeyR");
        reveal_strlit("KeyS");
    } else if i == 62 {
        reveal_strlit("KeyS");
        reveal_strlit("KeyT");
    } else if i == 63 {
        reveal_strlit("KeyT");
        reveal_strlit("KeyU");
    } else if i == 64 {
        reveal_strlit("KeyU");
        reveal_strlit("KeyV");
    } else if i == 65 {
        reveal_strlit("KeyV");
        reveal_strlit("KeyW");
    } else if i == 66 {
        reveal_strlit("KeyW");
        reveal_strlit("KeyX");
    } else if i == 67 {
        reveal_strlit("KeyX");
        reveal_strlit("KeyY");
    } else if i == 68 {
        reveal_strlit("KeyY");
        reveal_strlit("KeyZ");
    } else if i == 69 {
        reveal_strlit("KeyZ");
        reveal_strlit("Lang1");
    } else if i == 70 {
        reveal_strlit("Lang1");
        reveal_strlit("Lang2");
    } else if i == 71 {
        reveal_strlit("Lang2");
        reveal_strlit("Minus");
    } else if i == 72 {
        reveal_strlit("Minus");
        reveal_strlit("NonConvert");
    } else if i == 73 {
        reveal_strlit("NonConvert");
        reveal_strlit("Numpad0");
    } else if i == 74 {
        reveal_strlit("Numpad0");
        reveal_strlit("Numpad1");
    } else if i == 75 {
        reveal_strlit("Numpad1");
        reveal_strlit("Numpad2");
    } else if i == 76 {
        reveal_strlit("Numpad2");
        reveal_strlit("Numpad3");
    } else if i == 77 {
        reveal_strlit("Numpad3");
        reveal_strlit("Numpad4");
    } else if i == 78 {
        reveal_strlit("Numpad4");
        reveal_strlit("Numpad5");
    } else if i == 79 {
        reveal_strlit("Numpad5");
        reveal_strlit("Numpad6");
    } else if i == 80 {
        reveal_strlit("Numpad6");
        reveal_strlit("Numpad7");
    } else if i == 81 {
        reveal_strlit("Numpad7");
        reveal_strlit("Numpad8");
    } else if i == 82 {
        reveal_strlit("Numpad8");
        reveal_strlit("Numpad9");
    } else if i == 83 {
        reveal_strlit("Numpad9");
        reveal_strlit("PageDown");
    } else if i == 84 {
        reveal_strlit("PageDown");
        reveal_strlit("PageUp");
    } else if i == 85 {
        reveal_strlit("PageUp");
        reveal_strlit("Period");
    } else if i == 86 {
        reveal_strlit("Period");
        reveal_strlit("Quote");
    } else if i == 87 {
        reveal_strlit("Quote");
        reveal_strlit("Semicolon");
    } else if i == 88 {
        reveal_strlit("Semicolon");
        reveal_strlit("ShiftLeft");
    } else if i == 89 {
        reveal_strlit("ShiftLeft");
        reveal_strlit("ShiftRight");
    } else if i == 90 {
        reveal_strlit("ShiftRight");
        reveal_strlit("Slash");
    } else if i == 91 {
        reveal_strlit("Slash");
        reveal_strlit("Space");
    } else if i == 92 {
        reveal_strlit("Space");
        reveal_strlit("Tab");
    }
}

} // verus!
