use kime_web::engine::{
    commit_splice, Category, Composer, InputResult, KeyStep, Reaction, CATEGORY_CHANGE_EVENT,
};
use kime_web::web_keycode::{Key, KeyCode, KeyInput, Modifier};
use kime_web::utf16;
use kime_web::web_input::selection_range;

fn key_event(key: &str, key_code: u32, code: &str) -> KeyInput {
    KeyInput {
        key: key.to_string(),
        key_code,
        code: code.to_string(),
        shift_key: false,
        ctrl_key: false,
        alt_key: false,
        meta_key: false,
    }
}

fn result(consumed: bool, has_commit: bool, has_preedit: bool, language_changed: bool) -> InputResult {
    InputResult { consumed, has_commit, has_preedit, language_changed, not_ready: false }
}

#[test]
fn splice_commit_and_preedit_at_caret() {
    let value = utf16("abcd");
    let r = commit_splice(&value, Some((2, 2)), "X", "Y");
    assert_eq!(r.value, utf16("abXYcd"));
    assert_eq!((r.selection_start, r.selection_end), (3, 4));
}

#[test]
fn splice_replaces_selection() {
    let value = utf16("hello world");
    let r = commit_splice(&value, Some((6, 11)), "", "");
    assert_eq!(r.value, utf16("hello "));
    assert_eq!((r.selection_start, r.selection_end), (6, 6));
    let r = commit_splice(&value, Some((0, 5)), "한", "글");
    assert_eq!(r.value, utf16("한글 world"));
    assert_eq!((r.selection_start, r.selection_end), (1, 2));
}

#[test]
fn splice_without_selection_starts_at_zero() {
    let value = utf16("cd");
    let r = commit_splice(&value, None, "ab", "");
    assert_eq!(r.value, utf16("abcd"));
    assert_eq!((r.selection_start, r.selection_end), (2, 2));
}

#[test]
fn splice_counts_utf16_units() {
    let value = utf16("");
    let r = commit_splice(&value, Some((0, 0)), "😀", "x");
    assert_eq!(r.value, vec![0xD83D, 0xDE00, 0x78]);
    assert_eq!((r.selection_start, r.selection_end), (2, 3));
}

#[test]
fn splice_clamps_past_the_end() {
    let value = utf16("ab");
    let r = commit_splice(&value, Some((5, 7)), "c", "");
    assert_eq!(r.value, utf16("abc"));
    assert_eq!((r.selection_start, r.selection_end), (6, 6));
}

#[test]
fn fresh_session_passes_unknown_keys() {
    let c = Composer::new();
    assert!(!c.is_composing());
    assert_eq!(c.last_result, InputResult::empty());
    assert_eq!(c.on_keydown(&key_event("Unidentified", 0, "Fn")), KeyStep::PassThrough);
    assert_eq!(c.on_keydown(&key_event("Process", 229, "KeyA")), KeyStep::PassThrough);
}

#[test]
fn known_key_is_pressed() {
    let c = Composer::new();
    assert_eq!(
        c.on_keydown(&key_event("a", 65, "KeyA")),
        KeyStep::Press(Key { code: KeyCode::A, modifiers: Modifier(0) })
    );
}

#[test]
fn unknown_key_interrupts_preedit() {
    let mut c = Composer::new();
    let r = c.on_press_result(result(true, false, true, false));
    assert_eq!(r, Reaction { prevent_default: true, notify_category: false, flush: true });
    assert!(c.is_composing());
    assert_eq!(c.on_keydown(&key_event("Unidentified", 0, "Fn")), KeyStep::Interrupt);
    assert_eq!(c.on_keydown(&key_event("Process", 229, "KeyA")), KeyStep::Interrupt);
    let value = utf16("ab가cd");
    let flushed = commit_splice(&value, Some((2, 3)), "", "");
    assert_eq!(flushed.value, utf16("abcd"));
    assert_eq!((flushed.selection_start, flushed.selection_end), (2, 2));
    c.stop_composite();
    assert!(!c.is_composing());
    assert_eq!(c.last_result, InputResult::empty());
}

#[test]
fn clearing_preedit_still_flushes() {
    let mut c = Composer::new();
    c.on_press_result(result(false, false, true, false));
    let r = c.on_press_result(result(false, false, false, false));
    assert_eq!(r, Reaction { prevent_default: false, notify_category: false, flush: true });
    let r = c.on_press_result(result(false, false, false, false));
    assert_eq!(r, Reaction { prevent_default: false, notify_category: false, flush: false });
}

#[test]
fn reaction_flags() {
    let mut c = Composer::new();
    assert_eq!(
        c.on_press_result(result(false, true, false, false)),
        Reaction { prevent_default: false, notify_category: false, flush: true }
    );
    assert_eq!(
        c.on_press_result(result(true, false, false, true)),
        Reaction { prevent_default: true, notify_category: true, flush: true }
    );
    assert_eq!(
        c.on_press_result(result(false, false, false, true)),
        Reaction { prevent_default: false, notify_category: true, flush: false }
    );
    assert_eq!(c.last_result, result(false, false, false, true));
}

#[test]
fn category_details() {
    assert_eq!(CATEGORY_CHANGE_EVENT, "kimeinputcategorychange");
    assert_eq!(Category::Hangul.detail(), "hangul");
    assert_eq!(Category::Latin.detail(), "latin");
}

#[test]
fn selection_needs_both_ends() {
    assert_eq!(selection_range(Some(1), Some(3)), Some((1, 3)));
    assert_eq!(selection_range(None, Some(3)), None);
    assert_eq!(selection_range(Some(1), None), None);
}
