//! Semantic input events and the translation of raw terminal signals.
//!
//! The input source polls the terminal on its own thread and hands every raw
//! signal to [`translate_raw`], which decides — as a pure, total function —
//! whether the signal becomes a semantic [`Event`], is silently dropped, or
//! is unsupported and must fail loudly in the caller.

use vstd::prelude::*;

verus! {

/// A key code recognized by the editor. Anything the dispatcher does not
/// react to arrives as `Other` and is ignored.
#[derive(Clone, Copy, PartialEq, Eq, Structural, Debug)]
pub enum KeyCode {
    Char(char),
    Backspace,
    Tab,
    Up,
    Down,
    Enter,
    Esc,
    Other,
}

/// A key press: the code together with the one modifier the editor
/// recognizes (Control).
#[derive(Clone, Copy, PartialEq, Eq, Structural, Debug)]
pub struct KeyEvent {
    pub code: KeyCode,
    pub control: bool,
}

/// A semantic terminal event, as delivered to the main loop.
#[derive(Clone, Copy, PartialEq, Eq, Structural, Debug)]
pub enum Event {
    /// Key press.
    Key(KeyEvent),
    /// Mouse click/scroll. The dispatcher ignores the details, so none are
    /// carried.
    Mouse,
    /// Terminal resize.
    Resize(u16, u16),
}

/// A raw terminal signal, as the polling thread sees it: the closed set of
/// shapes the terminal driver can report.
#[derive(Clone, Copy, PartialEq, Eq, Structural, Debug)]
pub enum RawEvent {
    /// A key signal; `press` is false for repeat and release signals.
    Key { code: KeyCode, control: bool, press: bool },
    Mouse,
    Resize(u16, u16),
    FocusGained,
    FocusLost,
    Paste,
}

/// What becomes of one raw signal.
#[derive(Clone, Copy, PartialEq, Eq, Structural, Debug)]
pub enum Translation {
    /// Forward this semantic event to the main loop.
    Deliver(Event),
    /// Silently drop the signal.
    Ignore,
    /// The signal has no translation; the caller must fail loudly.
    Unsupported,
}

/// How one raw terminal signal is translated: key presses, mouse events and
/// resizes are delivered; key repeats and releases and focus changes are
/// dropped; paste is unsupported.
pub open spec fn translate_spec(raw: RawEvent) -> Translation {
    match raw {
        RawEvent::Key { code, control, press } => {
            if press {
                Translation::Deliver(Event::Key(KeyEvent { code, control }))
            } else {
                Translation::Ignore
            }
        },
        RawEvent::Mouse => Translation::Deliver(Event::Mouse),
        RawEvent::Resize(w, h) => Translation::Deliver(Event::Resize(w, h)),
        RawEvent::FocusGained => Translation::Ignore,
        RawEvent::FocusLost => Translation::Ignore,
        RawEvent::Paste => Translation::Unsupported,
    }
}

/// Translate one raw terminal signal into its semantic meaning.
pub fn translate_raw(raw: RawEvent) -> (r: Translation)
    ensures
        r == translate_spec(raw),
{
    match raw {
        RawEvent::Key { code, control, press } => {
            if press {
                Translation::Deliver(Event::Key(KeyEvent { code, control }))
            } else {
                Translation::Ignore
            }
        },
        RawEvent::Mouse => Translation::Deliver(Event::Mouse),
        RawEvent::Resize(w, h) => Translation::Deliver(Event::Resize(w, h)),
        RawEvent::FocusGained => Translation::Ignore,
        RawEvent::FocusLost => Translation::Ignore,
        RawEvent::Paste => Translation::Unsupported,
    }
}

} // verus!
