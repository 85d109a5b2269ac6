use std::cell::{Cell, RefCell};
use std::rc::Rc;

use kime_web::{boolean, utf16, AccessError, Source};

#[test]
fn map_reaches_live_state() {
    let owner = Source::new(1u32);
    let r = owner.borrow();
    assert_eq!(r.map(|v| {
        *v += 1;
        *v
    }), Some(2));
    let r2 = r.clone();
    assert_eq!(r2.map(|v| *v * 10), Some(20));
}

#[test]
fn map_after_teardown_is_inert() {
    let owner = Source::new(String::from("state"));
    let r = owner.borrow();
    let r2 = r.clone();
    drop(owner);
    let ran = Cell::new(false);
    assert_eq!(r.map(|s| {
        ran.set(true);
        s.push('x');
    }), None);
    assert_eq!(r2.map(|s| s.len()), None);
    assert!(!ran.get());
}

#[test]
fn reentrant_map_gives_nothing() {
    let owner = Source::new(5u8);
    let r = owner.borrow();
    let inner = r.clone();
    let got = r.map(|v| {
        let nested = inner.map(|w| *w);
        *v += 1;
        nested
    });
    assert_eq!(got, Some(None));
    assert_eq!(r.map(|v| *v), Some(6));
}

#[test]
fn reentrant_try_map_reports_busy() {
    let owner = Source::new(5u8);
    let r = owner.borrow();
    let inner = r.clone();
    let got = r.try_map(|v| {
        *v += 1;
        inner.try_map(|w| *w)
    });
    assert_eq!(got, Ok(Err(AccessError::Busy)));
    assert_eq!(r.try_map(|v| *v), Ok(6));
}

#[test]
fn try_map_after_teardown_reports_gone() {
    let owner = Source::new(1i32);
    let r = owner.borrow();
    drop(owner);
    assert_eq!(r.try_map(|v| *v), Err(AccessError::Gone));
    assert_eq!(r.try_map(|v| *v), Err(AccessError::Gone));
}

#[test]
fn owner_dropped_inside_map_drops_state() {
    let state = Rc::new(());
    let owner = RefCell::new(Some(Source::new(state.clone())));
    let r = owner.borrow().as_ref().unwrap().borrow();
    assert_eq!(Rc::strong_count(&state), 2);
    let got = r.map(|_| {
        drop(owner.borrow_mut().take());
        7
    });
    assert_eq!(got, Some(7));
    assert_eq!(Rc::strong_count(&state), 1);
    let ran = Cell::new(false);
    assert_eq!(r.map(|_| ran.set(true)), None);
    assert!(!ran.get());
    assert_eq!(r.try_map(|_| ()), Err(AccessError::Gone));
}

#[test]
fn teardown_drops_state() {
    let state = Rc::new(());
    let owner = Source::new(state.clone());
    let r = owner.borrow();
    assert_eq!(Rc::strong_count(&state), 2);
    drop(owner);
    assert_eq!(Rc::strong_count(&state), 1);
    drop(r);
}

#[test]
fn boolean_reports_presence() {
    assert!(boolean(|| Some(())));
    assert!(!boolean(|| None));
}

#[test]
fn utf16_encodes() {
    assert_eq!(utf16(""), Vec::<u16>::new());
    assert_eq!(utf16("aZ"), vec![0x61, 0x5A]);
    assert_eq!(utf16("한"), vec![0xD55C]);
    assert_eq!(utf16("😀"), vec![0xD83D, 0xDE00]);
    assert_eq!(utf16("\u{10FFFF}"), vec![0xDBFF, 0xDFFF]);
    assert_eq!(utf16("a\u{10000}"), vec![0x61, 0xD800, 0xDC00]);
}
