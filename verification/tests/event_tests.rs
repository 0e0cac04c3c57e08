//! Tests of raw-signal translation.

use envelope::event::{Event, KeyCode, KeyEvent, RawEvent, Translation, translate_raw};

#[test]
fn key_press_is_delivered() {
    let r = translate_raw(RawEvent::Key { code: KeyCode::Char('q'), control: false, press: true });
    assert_eq!(
        r,
        Translation::Deliver(Event::Key(KeyEvent { code: KeyCode::Char('q'), control: false }))
    );
}

#[test]
fn key_release_is_dropped() {
    let r = translate_raw(RawEvent::Key { code: KeyCode::Enter, control: false, press: false });
    assert_eq!(r, Translation::Ignore);
}

#[test]
fn mouse_and_resize_are_delivered() {
    assert_eq!(translate_raw(RawEvent::Mouse), Translation::Deliver(Event::Mouse));
    assert_eq!(translate_raw(RawEvent::Resize(80, 24)), Translation::Deliver(Event::Resize(80, 24)));
}

#[test]
fn focus_changes_are_dropped() {
    assert_eq!(translate_raw(RawEvent::FocusGained), Translation::Ignore);
    assert_eq!(translate_raw(RawEvent::FocusLost), Translation::Ignore);
}

#[test]
fn paste_is_unsupported() {
    assert_eq!(translate_raw(RawEvent::Paste), Translation::Unsupported);
}
