use kime_web::web_keycode::{
    from_code, from_code_with_modifiers, from_keyboard_event, Key, KeyCode, KeyInput, Modifier,
    ALT, CONTROL, MS_ALT, MS_CONTROL, MS_SHIFT, MS_SUPER, SHIFT, SUPER,
};

const TABLE: [(&str, KeyCode); 94] = [
    ("AltLeft", KeyCode::AltL),
    ("AltRight", KeyCode::AltR),
    ("ArrowDown", KeyCode::Down),
    ("ArrowLeft", KeyCode::Left),
    ("ArrowRight", KeyCode::Right),
    ("ArrowUp", KeyCode::Up),
    ("Backquote", KeyCode::Grave),
    ("Backslash", KeyCode::Backslash),
    ("Backspace", KeyCode::Backspace),
    ("BracketLeft", KeyCode::OpenBracket),
    ("BracketRight", KeyCode::CloseBracket),
    ("Comma", KeyCode::Comma),
    ("ControlLeft", KeyCode::ControlL),
    ("ControlRight", KeyCode::ControlR),
    ("Convert", KeyCode::Henkan),
    ("Delete", KeyCode::Delete),
    ("Digit0", KeyCode::Zero),
    ("Digit1", KeyCode::One),
    ("Digit2", KeyCode::Two),
    ("Digit3", KeyCode::Three),
    ("Digit4", KeyCode::Four),
    ("Digit5", KeyCode::Five),
    ("Digit6", KeyCode::Six),
    ("Digit7", KeyCode::Seven),
    ("Digit8", KeyCode::Eight),
    ("Digit9", KeyCode::Nine),
    ("End", KeyCode::End),
    ("Enter", KeyCode::Enter),
    ("Equal", KeyCode::Equal),
    ("Escape", KeyCode::Esc),
    ("F1", KeyCode::F1),
    ("F10", KeyCode::F10),
    ("F11", KeyCode::F11),
    ("F12", KeyCode::F12),
    ("F2", KeyCode::F2),
    ("F3", KeyCode::F3),
    ("F4", KeyCode::F4),
    ("F5", KeyCode::F5),
    ("F6", KeyCode::F6),
    ("F7", KeyCode::F7),
    ("F8", KeyCode::F8),
    ("F9", KeyCode::F9),
    ("Home", KeyCode::Home),
    ("Insert", KeyCode::Insert),
    ("KeyA", KeyCode::A),
    ("KeyB", KeyCode::B),
    ("KeyC", KeyCode::C),
    ("KeyD", KeyCode::D),
    ("KeyE", KeyCode::E),
    ("KeyF", KeyCode::F),
    ("KeyG", KeyCode::G),
    ("KeyH", KeyCode::H),
    ("KeyI", KeyCode::I),
    ("KeyJ", KeyCode::J),
    ("KeyK", KeyCode::K),
    ("KeyL", KeyCode::L),
    ("KeyM", KeyCode::M),
    ("KeyN", KeyCode::N),
    ("KeyO", KeyCode::O),
    ("KeyP", KeyCode::P),
    ("KeyQ", KeyCode::Q),
    ("KeyR", KeyCode::R),
    ("KeyS", KeyCode::S),
    ("KeyT", KeyCode::T),
    ("KeyU", KeyCode::U),
    ("KeyV", KeyCode::V),
    ("KeyW", KeyCode::W),
    ("KeyX", KeyCode::X),
    ("KeyY", KeyCode::Y),
    ("KeyZ", KeyCode::Z),
    ("Lang1", KeyCode::Hangul),
    ("Lang2", KeyCode::HangulHanja),
    ("Minus", KeyCode::Minus),
    ("NonConvert", KeyCode::Muhenkan),
    ("Numpad0", KeyCode::NumZero),
    ("Numpad1", KeyCode::NumOne),
    ("Numpad2", KeyCode::NumTwo),
    ("Numpad3", KeyCode::NumThree),
    ("Numpad4", KeyCode::NumFour),
    ("Numpad5", KeyCode::NumFive),
    ("Numpad6", KeyCode::NumSix),
    ("Numpad7", KeyCode::NumSeven),
    ("Numpad8", KeyCode::NumEight),
    ("Numpad9", KeyCode::NumNine),
    ("PageDown", KeyCode::PageDown),
    ("PageUp", KeyCode::PageUp),
    ("Period", KeyCode::Period),
    ("Quote", KeyCode::Quote),
    ("Semicolon", KeyCode::SemiColon),
    ("ShiftLeft", KeyCode::Shift),
    ("ShiftRight", KeyCode::Shift),
    ("Slash", KeyCode::Slash),
    ("Space", KeyCode::Space),
    ("Tab", KeyCode::Tab),
];

fn event(key: &str, key_code: u32, code: &str, shift: bool, ctrl: bool, alt: bool, meta: bool) -> KeyInput {
    KeyInput {
        key: key.to_string(),
        key_code,
        code: code.to_string(),
        shift_key: shift,
        ctrl_key: ctrl,
        alt_key: alt,
        meta_key: meta,
    }
}

#[test]
fn every_table_entry_is_found() {
    for (id, code) in TABLE.iter() {
        assert_eq!(from_code(id), Some(*code), "{}", id);
        assert_eq!(from_code(id), from_code(id));
    }
}

#[test]
fn unknown_identifiers_give_nothing() {
    for id in ["", "A", "Key", "KeyAA", "keya", "AltLef", "AltLeftX", "Fn", "F13", "Numpad", "Tab ", "Zzz", "Ä", "한"] {
        assert_eq!(from_code(id), None, "{}", id);
    }
}

#[test]
fn both_shift_keys_share_one_code() {
    assert_eq!(from_code("ShiftLeft"), Some(KeyCode::Shift));
    assert_eq!(from_code("ShiftRight"), Some(KeyCode::Shift));
}

#[test]
fn modifier_paths_agree() {
    for bits in 0u8..16 {
        let shift = bits & 1 != 0;
        let control = bits & 2 != 0;
        let sup = bits & 4 != 0;
        let alt = bits & 8 != 0;
        let mask = (if shift { SHIFT } else { 0 })
            | (if control { CONTROL } else { 0 })
            | (if sup { SUPER } else { 0 })
            | (if alt { ALT } else { 0 });
        let a = Modifier::from_flags(shift, control, alt, sup);
        let b = Modifier::from_mask(mask);
        let c: Modifier = mask.into();
        assert_eq!(a, b);
        assert_eq!(b, c);
        assert_eq!(a.shift(), shift);
        assert_eq!(a.control(), control);
        assert_eq!(a.super_key(), sup);
        assert_eq!(a.alt(), alt);
    }
}

#[test]
fn modifier_bits_exact() {
    assert_eq!(Modifier::from_mask(0).bits(), 0);
    assert_eq!(Modifier::from_mask(SHIFT).bits(), MS_SHIFT);
    assert_eq!(Modifier::from_mask(CONTROL).bits(), MS_CONTROL);
    assert_eq!(Modifier::from_mask(SUPER).bits(), MS_SUPER);
    assert_eq!(Modifier::from_mask(ALT).bits(), MS_ALT);
    assert_eq!(Modifier::from_mask(15).bits(), 15);
    assert_eq!(Modifier::from_mask(0xF0).bits(), 0);
    assert_eq!(Modifier::from_mask(SHIFT | ALT).bits(), MS_SHIFT | MS_ALT);
}

#[test]
fn key_with_modifiers() {
    let m = Modifier::from_mask(SHIFT);
    assert_eq!(
        from_code_with_modifiers("KeyA", m),
        Some(Key { code: KeyCode::A, modifiers: m })
    );
    assert_eq!(from_code_with_modifiers("Unknown", m), None);
}

#[test]
fn keyboard_event_translates() {
    let e = event("a", 65, "KeyA", false, true, false, true);
    assert_eq!(
        from_keyboard_event(&e),
        Some(Key { code: KeyCode::A, modifiers: Modifier(MS_CONTROL | MS_SUPER) })
    );
    let e = event("Unidentified", 0, "Whatever", false, false, false, false);
    assert_eq!(from_keyboard_event(&e), None);
}

#[test]
fn host_ime_events_give_nothing() {
    for mods in 0u8..16 {
        let (s, c, a, m) = (mods & 1 != 0, mods & 2 != 0, mods & 4 != 0, mods & 8 != 0);
        for key in ["Process", "process", "PROCESS", "pRoCeSs"] {
            assert_eq!(from_keyboard_event(&event(key, 0, "KeyA", s, c, a, m)), None);
        }
        assert_eq!(from_keyboard_event(&event("a", 229, "KeyA", s, c, a, m)), None);
    }
    assert!(from_keyboard_event(&event("processing", 65, "KeyA", false, false, false, false)).is_some());
    assert!(from_keyboard_event(&event("proces", 65, "KeyA", false, false, false, false)).is_some());
    assert!(from_keyboard_event(&event("a", 228, "KeyA", false, false, false, false)).is_some());
}

#[test]
fn unknown_modifier_bits_are_dropped() {
    assert_eq!(
        from_code_with_modifiers("KeyB", Modifier(0xFF0 | MS_SHIFT)),
        Some(Key { code: KeyCode::B, modifiers: Modifier(MS_SHIFT) })
    );
}
