use vstd::prelude::*;

verus! {

/// A pressed key, as far as the application tells keys apart.
#[derive(Clone, Copy, Debug, PartialEq, Eq, Structural)]
pub enum Key {
    Backspace,
    Enter,
    Left,
    Right,
    Up,
    Down,
    Home,
    End,
    PageUp,
    PageDown,
    Tab,
    Delete,
    Char(char),
    Esc,
    /// Any other key.
    Other,
}

/// A key that edits a line of text.
#[derive(Clone, Copy, Debug, PartialEq, Eq, Structural)]
pub enum EditKey {
    Backspace,
    Delete,
    Left,
    Right,
    Home,
    End,
    Char(char),
}

impl Key {
    /// The editing key that a key is, where it is one.
    pub open spec fn as_edit_key(self) -> Option<EditKey> {
        match self {
            Key::Backspace => Some(EditKey::Backspace),
            Key::Delete => Some(EditKey::Delete),
            Key::Left => Some(EditKey::Left),
            Key::Right => Some(EditKey::Right),
            Key::Home => Some(EditKey::Home),
            Key::End => Some(EditKey::End),
            Key::Char(c) => Some(EditKey::Char(c)),
            _ => None,
        }
    }

    /// The editing key that this key is, where it is one.
    pub fn edit_key(&self) -> (key: Option<EditKey>)
        ensures
            key == self.as_edit_key(),
    {
        match self {
            Key::Backspace => Some(EditKey::Backspace),
            Key::Delete => Some(EditKey::Delete),
            Key::Left => Some(EditKey::Left),
            Key::Right => Some(EditKey::Right),
            Key::Home => Some(EditKey::Home),
            Key::End => Some(EditKey::End),
            Key::Char(c) => Some(EditKey::Char(*c)),
            _ => None,
        }
    }
}

/// No modifier key is held.
pub const MODIFIER_NONE: u8 = 0;

/// The shift key is held.
pub const MODIFIER_SHIFT: u8 = 1;

/// The control key is held.
pub const MODIFIER_CONTROL: u8 = 2;

/// The alt key is held.
pub const MODIFIER_ALT: u8 = 4;

/// A key press: the key and the modifier keys held with it, one bit each.
#[derive(Clone, Copy, Debug, PartialEq, Eq, Structural)]
pub struct KeyPress {
    pub code: Key,
    pub modifiers: u8,
}

impl KeyPress {
    /// A key pressed without modifiers.
    pub fn plain(code: Key) -> (key: KeyPress)
        ensures
            key == (KeyPress { code, modifiers: MODIFIER_NONE }),
    {
        KeyPress { code, modifiers: MODIFIER_NONE }
    }

    /// A key pressed with control alone.
    pub fn control(code: Key) -> (key: KeyPress)
        ensures
            key == (KeyPress { code, modifiers: MODIFIER_CONTROL }),
    {
        KeyPress { code, modifiers: MODIFIER_CONTROL }
    }
}

/// What the terminal reports.
#[derive(Clone, Copy, Debug, PartialEq, Eq, Structural)]
pub enum Event {
    /// A key was pressed.
    Key(KeyPress),
    /// Anything else: a resize, the mouse, focus, pasted text.
    Other,
}

impl Event {
    /// The key of a key press.
    pub open spec fn key_code(self) -> Option<Key> {
        match self {
            Event::Key(key) => Some(key.code),
            Event::Other => None,
        }
    }

    /// The pressed key, where the event is a key press.
    pub fn code(&self) -> (code: Option<Key>)
        ensures
            code == self.key_code(),
    {
        match self {
            Event::Key(key) => Some(key.code),
            Event::Other => None,
        }
    }
}

/// The two events that mean the same on every page.
pub trait EventExt {
    /// The event confirms: the enter key.
    spec fn confirms(&self) -> bool;

    /// The event asks the application to end: control and `c`.
    spec fn asks_to_stop(&self) -> bool;

    fn is_enter(&self) -> (b: bool)
        ensures
            b == self.confirms(),
    ;

    fn is_stop(&self) -> (b: bool)
        ensures
            b == self.asks_to_stop(),
    ;
}

impl EventExt for Event {
    open spec fn confirms(&self) -> bool {
        self.key_code() == Some(Key::Enter)
    }

    open spec fn asks_to_stop(&self) -> bool {
        *self == Event::Key(KeyPress { code: Key::Char('c'), modifiers: MODIFIER_CONTROL })
    }

    fn is_enter(&self) -> (b: bool) {
        match self {
            Event::Key(key_event) => key_event.code == Key::Enter,
            _ => false,
        }
    }

    fn is_stop(&self) -> (b: bool) {
        match self {
            Event::Key(key_event) => key_event.code == Key::Char('c') && key_event.modifiers
                == MODIFIER_CONTROL,
            _ => false,
        }
    }
}

} // verus!
