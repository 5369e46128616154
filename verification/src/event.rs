//! Input events, as the widgets read them.

use vstd::prelude::*;

verus! {

/// The key of a key event.
#[derive(Copy, Clone, Debug, PartialEq, Eq, Structural)]
pub enum KeyCode {
    Up,
    Down,
    Left,
    Right,
    Enter,
    Esc,
    Char(char),
    /// Any other key.
    Other,
}

/// A key press.
#[derive(Copy, Clone, Debug, PartialEq, Eq, Structural)]
pub struct KeyEvent {
    pub code: KeyCode,
    /// Pressed without modifiers, as a plain press.
    pub plain: bool,
    /// Pressed with Alt as the only modifier.
    pub alt: bool,
}

/// An input event.
#[derive(Copy, Clone, Debug, PartialEq, Eq, Structural)]
pub enum Event {
    Key(KeyEvent),
    /// Any other event (mouse, resize, focus, paste).
    Other,
}

/// The event is a press of the key, whatever the modifiers.
pub open spec fn is_key(event: Event, code: KeyCode) -> bool {
    event matches Event::Key(k) && k.code == code
}

/// The event is a plain press of the key.
pub open spec fn is_plain_key(event: Event, code: KeyCode) -> bool {
    event matches Event::Key(k) && k.code == code && k.plain
}

/// The event is a press of the key with Alt held.
pub open spec fn is_alt_key(event: Event, code: KeyCode) -> bool {
    event matches Event::Key(k) && k.code == code && k.alt
}

impl Event {
    /// A plain press of a key.
    pub fn key(code: KeyCode) -> (r: Event)
        ensures
            r == Event::Key(KeyEvent { code, plain: true, alt: false }),
    {
        Event::Key(KeyEvent { code, plain: true, alt: false })
    }

    /// A press of a key with Alt held.
    pub fn alt_key(code: KeyCode) -> (r: Event)
        ensures
            r == Event::Key(KeyEvent { code, plain: false, alt: true }),
    {
        Event::Key(KeyEvent { code, plain: false, alt: true })
    }

    /// Whether the event is a press of the key, whatever the modifiers.
    pub fn is(&self, code: KeyCode) -> (r: bool)
        ensures
            r == is_key(*self, code),
    {
        match self {
            Event::Key(k) => k.code == code,
            Event::Other => false,
        }
    }

    /// Whether the event is a plain press of the key.
    pub fn is_plain(&self, code: KeyCode) -> (r: bool)
        ensures
            r == is_plain_key(*self, code),
    {
        match self {
            Event::Key(k) => k.code == code && k.plain,
            Event::Other => false,
        }
    }

    /// Whether the event is a press of the key with Alt held.
    pub fn is_alt(&self, code: KeyCode) -> (r: bool)
        ensures
            r == is_alt_key(*self, code),
    {
        match self {
            Event::Key(k) => k.code == code && k.alt,
            Event::Other => false,
        }
    }
}

} // verus!
