use crate::components::text_input::TextInput;
use crate::event_ext::{Event, Key};
use vstd::prelude::*;
use vstd::string::*;

verus! {

/// A labelled line of a dialog that the user fills in.
#[derive(Debug)]
pub struct InputField<InputId> {
    pub id: InputId,
    pub title: String,
    pub value: TextInput,
}

impl<InputId> InputField<InputId> {
    pub fn new(id: InputId, title: &str, value: &str) -> (field: Self)
        ensures
            field.id == id,
            field.title@ == title@,
            field.value@ == value@,
            field.value.cursor_at() == value@.len(),
    {
        Self { id, title: String::from_str(title), value: TextInput::new(String::from_str(value)) }
    }

    fn update(&mut self, event: &Event)
        ensures
            final(self).id == old(self).id,
            final(self).title == old(self).title,
            (final(self).value@, final(self).value.cursor_at()) == old(self).value.after_event(
                *event,
            ),
    {
        self.value.handle_event(event);
    }
}

/// A button of a dialog.
pub struct Button<ButtonId> {
    id: ButtonId,
    title: String,
}

impl<ButtonId> Button<ButtonId> {
    pub closed spec fn id(&self) -> ButtonId {
        self.id
    }

    pub closed spec fn title(&self) -> Seq<char> {
        self.title@
    }

    pub fn new(id: ButtonId, title: &str) -> (button: Self)
        ensures
            button.id() == id,
            button.title() == title@,
    {
        Self { id, title: String::from_str(title) }
    }

    /// What the button is labelled with.
    pub fn label(&self) -> (title: &str)
        ensures
            title@ == self.title(),
    {
        self.title.as_str()
    }
}

/// What has the focus in a dialog: one of its fields or one of its buttons,
/// by position.
#[derive(Debug, Clone, Copy, PartialEq, Eq, Structural)]
pub enum SelectedItem {
    Field(usize),
    Button(usize),
}

/// Where the focus goes on a key, in a dialog with `fields` fields and
/// `buttons` buttons.
///
/// Among the fields, up and down move by one; down or tab on the last field
/// go to the first button. Among the buttons, left and right move by one,
/// up goes to the last field, and tab moves right and from the last button
/// on to the first field.
pub open spec fn focus_after(
    selected: SelectedItem,
    key: Option<Key>,
    fields: nat,
    buttons: nat,
) -> SelectedItem {
    match selected {
        SelectedItem::Field(i) => {
            if key == Some(Key::Up) {
                if i > 0 {
                    SelectedItem::Field((i - 1) as usize)
                } else {
                    selected
                }
            } else if key == Some(Key::Down) || key == Some(Key::Tab) {
                if i + 1 < fields {
                    SelectedItem::Field((i + 1) as usize)
                } else {
                    SelectedItem::Button(0)
                }
            } else {
                selected
            }
        },
        SelectedItem::Button(i) => {
            if key == Some(Key::Up) {
                SelectedItem::Field(
                    if fields > 0 {
                        (fields - 1) as usize
                    } else {
                        0usize
                    },
                )
            } else if key == Some(Key::Left) {
                if i > 0 {
                    SelectedItem::Button((i - 1) as usize)
                } else {
                    selected
                }
            } else if key == Some(Key::Right) {
                if i + 1 < buttons {
                    SelectedItem::Button((i + 1) as usize)
                } else {
                    selected
                }
            } else if key == Some(Key::Tab) {
                if i + 1 < buttons {
                    SelectedItem::Button((i + 1) as usize)
                } else {
                    SelectedItem::Field(0)
                }
            } else {
                selected
            }
        },
    }
}

/// Whether a key, pressed while a field has the focus, is typed into the
/// field.
pub open spec fn is_typed(key: Option<Key>) -> bool {
    key is Some && key != Some(Key::Up) && key != Some(Key::Down) && key != Some(Key::Tab)
}

/// A dialog with lines to fill in and buttons to press.
pub struct InputDialog<FieldId, ButtonId> {
    title: String,
    fields: Vec<InputField<FieldId>>,
    buttons: Vec<Button<ButtonId>>,
    selected_item: SelectedItem,
}

impl<FieldId, ButtonId> InputDialog<FieldId, ButtonId> {
    pub closed spec fn title(&self) -> Seq<char> {
        self.title@
    }

    pub closed spec fn fields(&self) -> Seq<InputField<FieldId>> {
        self.fields@
    }

    pub closed spec fn buttons(&self) -> Seq<Button<ButtonId>> {
        self.buttons@
    }

    pub closed spec fn selected(&self) -> SelectedItem {
        self.selected_item
    }

    /// A dialog with the focus on its first field.
    pub fn new(title: &str, fields: Vec<InputField<FieldId>>, buttons: Vec<Button<ButtonId>>) -> (d:
        Self)
        ensures
            d.title() == title@,
            d.fields() == fields@,
            d.buttons() == buttons@,
            d.selected() == SelectedItem::Field(0),
    {
        Self {
            title: String::from_str(title),
            selected_item: SelectedItem::Field(0),
            fields,
            buttons,
        }
    }

    /// The dialog's title.
    pub fn title_text(&self) -> (title: &str)
        ensures
            title@ == self.title(),
    {
        self.title.as_str()
    }

    /// The dialog's fields.
    pub fn field_list(&self) -> (fields: &Vec<InputField<FieldId>>)
        ensures
            fields@ == self.fields(),
    {
        &self.fields
    }

    /// The dialog's buttons.
    pub fn button_list(&self) -> (buttons: &Vec<Button<ButtonId>>)
        ensures
            buttons@ == self.buttons(),
    {
        &self.buttons
    }

    /// What has the focus.
    pub fn selected_item(&self) -> (selected: SelectedItem)
        ensures
            selected == self.selected(),
    {
        self.selected_item
    }

    /// The fields are as before, but for the text and cursor of the field at
    /// `edited`, which an event has edited.
    pub open spec fn fields_edited(
        before: Seq<InputField<FieldId>>,
        after: Seq<InputField<FieldId>>,
        edited: int,
        event: Event,
    ) -> bool {
        &&& after.len() == before.len()
        &&& forall|j: int| 0 <= j < before.len() && j != edited ==> after[j] == before[j]
        &&& 0 <= edited < before.len() ==> {
            &&& after[edited].id == before[edited].id
            &&& after[edited].title == before[edited].title
            &&& (after[edited].value@, after[edited].value.cursor_at())
                == before[edited].value.after_event(event)
        }
    }

    fn handle_event_while_input_selected(&mut self, event: &Event, selected_input_index: usize)
        requires
            old(self).selected() == SelectedItem::Field(selected_input_index),
        ensures
            final(self).title() == old(self).title(),
            final(self).buttons() == old(self).buttons(),
            final(self).selected() == focus_after(
                old(self).selected(),
                event.key_code(),
                old(self).fields().len(),
                old(self).buttons().len(),
            ),
            if is_typed(event.key_code()) {
                Self::fields_edited(
                    old(self).fields(),
                    final(self).fields(),
                    selected_input_index as int,
                    *event,
                )
            } else {
                final(self).fields() == old(self).fields()
            },
    {
        match event {
            Event::Key(key_event) => {
                match key_event.code {
                    Key::Up => {
                        if selected_input_index > 0 {
                            self.selected_item = SelectedItem::Field(selected_input_index - 1);
                        }
                    },
                    Key::Down | Key::Tab => {
                        let fields = self.fields.len();
                        if selected_input_index < fields && selected_input_index + 1 < fields {
                            self.selected_item = SelectedItem::Field(selected_input_index + 1);
                        } else {
                            self.selected_item = SelectedItem::Button(0);
                        }
                    },
                    _ => {
                        if selected_input_index < self.fields.len() {
                            let mut field = self.fields.remove(selected_input_index);
                            field.update(event);
                            self.fields.insert(selected_input_index, field);
                        }
                    },
                }
            },
            Event::Other => {},
        }
    }
}

impl<FieldId, ButtonId: Copy> InputDialog<FieldId, ButtonId> {
    /// The button that an event presses: the one with the focus, on enter.
    pub open spec fn pressed(&self, event: Event) -> Option<ButtonId> {
        match self.selected() {
            SelectedItem::Button(i) => if event.key_code() == Some(Key::Enter) && i
                < self.buttons().len() {
                Some(self.buttons()[i as int].id())
            } else {
                None
            },
            SelectedItem::Field(_) => None,
        }
    }

    fn handle_event_while_button_is_selected(
        &mut self,
        event: &Event,
        selected_button_index: usize,
    ) -> (pressed: Option<ButtonId>)
        requires
            old(self).selected() == SelectedItem::Button(selected_button_index),
        ensures
            final(self).title() == old(self).title(),
            final(self).buttons() == old(self).buttons(),
            final(self).fields() == old(self).fields(),
            final(self).selected() == focus_after(
                old(self).selected(),
                event.key_code(),
                old(self).fields().len(),
                old(self).buttons().len(),
            ),
            pressed == old(self).pressed(*event),
    {
        match event {
            Event::Key(key_event) => {
                match key_event.code {
                    Key::Up => {
                        let last = if self.fields.len() > 0 {
                            self.fields.len() - 1
                        } else {
                            0
                        };
                        self.selected_item = SelectedItem::Field(last);
                        None
                    },
                    Key::Left => {
                        if selected_button_index > 0 {
                            self.selected_item = SelectedItem::Button(selected_button_index - 1);
                        }
                        None
                    },
                    Key::Right => {
                        let buttons = self.buttons.len();
                        if selected_button_index < buttons && selected_button_index + 1 < buttons {
                            self.selected_item = SelectedItem::Button(selected_button_index + 1);
                        }
                        None
                    },
                    Key::Enter => {
                        if selected_button_index < self.buttons.len() {
                            Some(self.buttons[selected_button_index].id)
                        } else {
                            None
                        }
                    },
                    Key::Tab => {
                        let buttons = self.buttons.len();
                        if selected_button_index < buttons && selected_button_index + 1 < buttons {
                            self.selected_item = SelectedItem::Button(selected_button_index + 1);
                        } else {
                            self.selected_item = SelectedItem::Field(0);
                        }
                        None
                    },
                    _ => None,
                }
            },
            Event::Other => None,
        }
    }

    /// What handling an event makes of the dialog, and the button that it
    /// presses: keys move the focus or are typed into the field that has it,
    /// and enter on a button presses it.
    pub open spec fn event_handled(
        before: &Self,
        event: Event,
        after: &Self,
        pressed: Option<ButtonId>,
    ) -> bool {
        &&& after.title() == before.title()
        &&& after.buttons() == before.buttons()
        &&& after.selected() == focus_after(
            before.selected(),
            event.key_code(),
            before.fields().len(),
            before.buttons().len(),
        )
        &&& pressed == before.pressed(event)
        &&& match before.selected() {
            SelectedItem::Field(i) => if is_typed(event.key_code()) {
                Self::fields_edited(before.fields(), after.fields(), i as int, event)
            } else {
                after.fields() == before.fields()
            },
            SelectedItem::Button(_) => after.fields() == before.fields(),
        }
    }

    /// Handles an event and hands back the id of the button that it pressed.
    pub fn handle_event(&mut self, event: &Event) -> (pressed: Option<ButtonId>)
        ensures
            Self::event_handled(old(self), *event, final(self), pressed),
    {
        match self.selected_item {
            SelectedItem::Field(i) => {
                self.handle_event_while_input_selected(event, i);
                None
            },
            SelectedItem::Button(i) => self.handle_event_while_button_is_selected(event, i),
        }
    }
}

} // verus!
