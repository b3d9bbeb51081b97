use crate::event_ext::{EditKey, Event};
use crossterm::event::{KeyCode, KeyEvent, KeyModifiers};
use tui_input::backend::crossterm::EventHandler;
use tui_input::Input;
use vstd::prelude::*;
use vstd::string::*;

verus! {

/// What a line of text and its cursor become when `tui_input` handles the
/// press of an editing key on them.
pub uninterp spec fn edited(value: Seq<char>, cursor: nat, key: EditKey, modifiers: u8) -> (
    Seq<char>,
    nat,
);

/// Lets `tui_input::Input` handle the press of an editing key on a line of
/// text: an input is made from the text and the cursor, handles the press,
/// and its text and cursor are handed back. What the input does with each
/// key is its own business and is only given a name here.
#[verifier::external_body]
fn edit_line(value: &str, cursor: usize, key: EditKey, modifiers: u8) -> (after: (String, usize))
    ensures
        (after.0@, after.1 as nat) == edited(value@, cursor as nat, key, modifiers),
{
    let code = match key {
        EditKey::Backspace => KeyCode::Backspace,
        EditKey::Delete => KeyCode::Delete,
        EditKey::Left => KeyCode::Left,
        EditKey::Right => KeyCode::Right,
        EditKey::Home => KeyCode::Home,
        EditKey::End => KeyCode::End,
        EditKey::Char(c) => KeyCode::Char(c),
    };
    let press = KeyEvent::new(code, KeyModifiers::from_bits_truncate(modifiers));
    let mut input = Input::new(value.to_string()).with_cursor(cursor);
    let _ = input.handle_event(&crossterm::event::Event::Key(press));
    (input.value().to_string(), input.cursor())
}

/// A line of text that the user edits, and where the cursor stands in it,
/// counted in characters.
#[derive(Debug)]
pub struct TextInput {
    value: String,
    cursor: usize,
}

impl TextInput {
    /// The text.
    pub closed spec fn view(&self) -> Seq<char> {
        self.value@
    }

    /// The position of the cursor.
    pub closed spec fn cursor_at(&self) -> nat {
        self.cursor as nat
    }

    /// The text and cursor after an event: the press of an editing key edits
    /// them as `tui_input` does, anything else leaves them.
    pub open spec fn after_event(&self, event: Event) -> (Seq<char>, nat) {
        match event {
            Event::Key(press) => match press.code.as_edit_key() {
                Some(key) => edited(self@, self.cursor_at(), key, press.modifiers),
                None => (self@, self.cursor_at()),
            },
            Event::Other => (self@, self.cursor_at()),
        }
    }

    /// A line holding `value`, the cursor behind its last character.
    pub fn new(value: String) -> (input: Self)
        ensures
            input@ == value@,
            input.cursor_at() == value@.len(),
    {
        let cursor = value.as_str().unicode_len();
        TextInput { value, cursor }
    }

    /// An empty line.
    pub fn empty() -> (input: Self)
        ensures
            input@ == Seq::<char>::empty(),
            input.cursor_at() == 0,
    {
        TextInput { value: String::new(), cursor: 0 }
    }

    /// The text.
    pub fn value(&self) -> (text: &str)
        ensures
            text@ == self@,
    {
        self.value.as_str()
    }

    /// The position of the cursor, in characters.
    pub fn cursor(&self) -> (cursor: usize)
        ensures
            cursor == self.cursor_at(),
    {
        self.cursor
    }

    /// Lets the line handle an event.
    pub fn handle_event(&mut self, event: &Event)
        ensures
            (final(self)@, final(self).cursor_at()) == old(self).after_event(*event),
    {
        match event {
            Event::Key(press) => {
                match press.code.edit_key() {
                    Some(key) => {
                        let (value, cursor) = edit_line(
                            self.value.as_str(),
                            self.cursor,
                            key,
                            press.modifiers,
                        );
                        self.value = value;
                        self.cursor = cursor;
                    },
                    None => {},
                }
            },
            Event::Other => {},
        }
    }
}

} // verus!
