use crate::components::text_input::TextInput;
use crate::event_ext::{Event, Key};
use crate::message::Message;
use crate::text::{same_text, starts_with_text};
use vstd::prelude::*;

verus! {

/// The name that leads to the tree of scopes.
pub const SCOPE_TREE: &'static str = "scope-tree";

/// The name that leads to the user's own sessions.
pub const MY_SESSIONS: &'static str = "my-sessions";

/// The place that a typed text completes to: the first place whose name
/// starts with the text. An empty text completes to nothing.
pub open spec fn completion(value: Seq<char>) -> Option<Seq<char>> {
    if value.len() == 0 {
        None
    } else if value.is_prefix_of(SCOPE_TREE@) {
        Some(SCOPE_TREE@)
    } else if value.is_prefix_of(MY_SESSIONS@) {
        Some(MY_SESSIONS@)
    } else {
        None
    }
}

/// The line in which the user types where to go.
pub struct NavigationInput {
    input: TextInput,
    matching_option: Option<&'static str>,
}

impl NavigationInput {
    /// The typed text.
    pub closed spec fn typed(&self) -> Seq<char> {
        self.input@
    }

    /// Where the cursor stands in the typed text.
    pub closed spec fn cursor_at(&self) -> nat {
        self.input.cursor_at()
    }

    /// The place offered as completion.
    pub closed spec fn offered(&self) -> Option<Seq<char>> {
        match self.matching_option {
            Some(option) => Some(option@),
            None => None,
        }
    }

    /// What an event that edits makes of the typed text and the cursor.
    pub closed spec fn typed_after(&self, event: Event) -> (Seq<char>, nat) {
        self.input.after_event(event)
    }

    /// The completion on offer is the one that belongs to the typed text.
    pub open spec fn wf(&self) -> bool {
        self.offered() == completion(self.typed())
    }

    pub fn new() -> (nav: Self)
        ensures
            nav.wf(),
            nav.typed() == Seq::<char>::empty(),
    {
        NavigationInput { input: TextInput::empty(), matching_option: None }
    }

    /// The typed text.
    pub fn value(&self) -> (text: &str)
        ensures
            text@ == self.typed(),
    {
        self.input.value()
    }

    /// The position of the cursor, in characters.
    pub fn cursor(&self) -> (cursor: usize)
        ensures
            cursor == self.cursor_at(),
    {
        self.input.cursor()
    }

    /// The place offered as completion.
    pub fn matching_option(&self) -> (option: Option<&'static str>)
        ensures
            match option {
                Some(o) => self.offered() == Some(o@),
                None => self.offered() is None,
            },
    {
        self.matching_option
    }

    /// The place that `value` completes to.
    pub fn compute_matching_option(value: &str) -> (option: Option<&'static str>)
        ensures
            match option {
                Some(o) => completion(value@) == Some(o@),
                None => completion(value@) is None,
            },
    {
        if value.unicode_len() == 0 {
            return None;
        }
        if starts_with_text(SCOPE_TREE, value) {
            Some(SCOPE_TREE)
        } else if starts_with_text(MY_SESSIONS, value) {
            Some(MY_SESSIONS)
        } else {
            None
        }
    }

    fn recompute_matching_option(&mut self)
        ensures
            final(self).wf(),
            final(self).typed() == old(self).typed(),
            final(self).cursor_at() == old(self).cursor_at(),
    {
        self.matching_option = Self::compute_matching_option(self.input.value());
    }

    /// Where a confirmed text leads: to a place where it is the full name of
    /// one, else nowhere.
    pub open spec fn destination(value: Seq<char>, m: Option<Message>) -> bool {
        if value == SCOPE_TREE@ {
            m == Some(Message::NavigateToScopeTree)
        } else if value == MY_SESSIONS@ {
            m == Some(Message::NavigateToMySessions)
        } else {
            m is None
        }
    }

    /// The message that confirming the typed text sends.
    pub fn handle_confirm(&self) -> (m: Option<Message>)
        ensures
            Self::destination(self.typed(), m),
    {
        let value = self.input.value();
        if same_text(value, SCOPE_TREE) {
            Some(Message::NavigateToScopeTree)
        } else if same_text(value, MY_SESSIONS) {
            Some(Message::NavigateToMySessions)
        } else {
            None
        }
    }

    /// Handles an event: enter confirms the typed text and sends where it
    /// leads, tab takes over the completion on offer, and everything else
    /// edits the text.
    pub fn handle_event(&mut self, event: &Event) -> (m: Option<Message>)
        requires
            old(self).wf(),
        ensures
            final(self).wf(),
            match event.key_code() {
                Some(Key::Enter) => {
                    &&& Self::destination(old(self).typed(), m)
                    &&& final(self).typed() == old(self).typed()
                    &&& final(self).cursor_at() == old(self).cursor_at()
                },
                Some(Key::Tab) => {
                    &&& m is None
                    &&& match old(self).offered() {
                        Some(option) => final(self).typed() == option && final(self).cursor_at()
                            == option.len(),
                        None => final(self).typed() == old(self).typed() && final(self).cursor_at() == old(self).cursor_at(),
                    }
                },
                _ => {
                    &&& m is None
                    &&& (final(self).typed(), final(self).cursor_at()) == old(self).typed_after(
                        *event,
                    )
                },
            },
    {
        match event {
            Event::Key(key_event) => {
                match key_event.code {
                    Key::Enter => {
                        return self.handle_confirm();
                    },
                    Key::Tab => {
                        match self.matching_option {
                            Some(option) => {
                                self.input = TextInput::new(option.to_owned());
                                self.recompute_matching_option();
                            },
                            None => {},
                        }
                        return None;
                    },
                    _ => {},
                }
            },
            _ => {},
        }
        self.input.handle_event(event);
        self.recompute_matching_option();
        None
    }
}

} // verus!
