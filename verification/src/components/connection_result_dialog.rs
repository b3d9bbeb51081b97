use crate::appframework::HandleEventResult;
use crate::boundary::models::{ConnectResponse, CredentialEntry};
use crate::components::table::filter::FilterItems;
use crate::components::table::page::{all_rows, TablePage, TableRequest};
use crate::components::table::sort::ItemOrder;
use crate::event_ext::{Event, Key, KeyPress, MODIFIER_NONE};
use crate::message::Message;
use vstd::prelude::*;

verus! {

/// The dialog that shows the credentials of a session that was just brokered,
/// and copies them to the clipboard on request.
pub struct ConnectionResultDialog {
    table: TablePage<CredentialEntry>,
}

/// Which part of a credential a key copies.
#[derive(Clone, Copy, Debug, PartialEq, Eq, Structural)]
pub enum CopiedPart {
    Username,
    Password,
}

impl ConnectionResultDialog {
    /// The table of credentials.
    pub closed spec fn table(&self) -> TablePage<CredentialEntry> {
        self.table
    }

    pub open spec fn wf(&self) -> bool {
        self.table().wf()
    }

    /// The part that an event copies: `u` the user name and `p` the password,
    /// pressed without modifier keys.
    pub open spec fn copies(event: Event) -> Option<CopiedPart> {
        if event == Event::Key(KeyPress { code: Key::Char('u'), modifiers: MODIFIER_NONE }) {
            Some(CopiedPart::Username)
        } else if event == Event::Key(KeyPress { code: Key::Char('p'), modifiers: MODIFIER_NONE }) {
            Some(CopiedPart::Password)
        } else {
            None
        }
    }

    /// Whether `m` is the message that copies `part` of the selected row: none
    /// where no row is selected.
    pub open spec fn copy_message(&self, part: CopiedPart, m: Option<Message>) -> bool {
        match self.table().selected_row() {
            Some(entry) => m matches Some(Message::SetClipboard(text)) && text@ == match part {
                CopiedPart::Username => entry.credential.username@,
                CopiedPart::Password => entry.credential.password@,
            },
            None => m is None,
        }
    }

    /// The dialog for the answer to a connect request: its credentials by
    /// user name, the first selected.
    pub fn new(connect_response: ConnectResponse) -> (dialog: Self)
        ensures
            dialog.wf(),
            dialog.table().title() == "Credentials"@,
            !dialog.table().is_loading(),
            dialog.table().items().to_multiset() == connect_response.credentials@.to_multiset(),
            forall|i: int, j: int|
                0 <= i < j < dialog.table().items().len() ==> TablePage::<
                    CredentialEntry,
                >::in_order(&dialog.table().items()[i], &dialog.table().items()[j]),
            dialog.table().visible() == all_rows(dialog.table().items().len()),
            dialog.table().selected() == TablePage::<CredentialEntry>::first_or_none(
                dialog.table().visible(),
            ),
            dialog.table().filter_text() is None,
    {
        let table = TablePage::new("Credentials".to_owned(), connect_response.credentials, false);
        Self { table }
    }

    /// The table of credentials.
    pub fn credentials(&self) -> (table: &TablePage<CredentialEntry>)
        ensures
            *table == self.table(),
    {
        &self.table
    }

    /// The table of credentials, for the screen to report back how it drew it.
    pub fn credentials_mut(&mut self) -> (table: &mut TablePage<CredentialEntry>)
        ensures
            *table == old(self).table(),
            final(self).table() == *final(table),
    {
        &mut self.table
    }

    /// The message that copies the selected user name to the clipboard.
    pub fn copy_selected_username_to_clipboard(&self) -> (m: Option<Message>)
        requires
            self.wf(),
        ensures
            self.copy_message(CopiedPart::Username, m),
    {
        match self.table.selected_item() {
            Some(selected_item) => Some(
                Message::SetClipboard(selected_item.credential.username.clone()),
            ),
            None => None,
        }
    }

    /// The message that copies the selected password to the clipboard.
    pub fn copy_selected_password_to_clipboard(&self) -> (m: Option<Message>)
        requires
            self.wf(),
        ensures
            self.copy_message(CopiedPart::Password, m),
    {
        match self.table.selected_item() {
            Some(selected_item) => Some(
                Message::SetClipboard(selected_item.credential.password.clone()),
            ),
            None => None,
        }
    }

    /// What handling an event makes of the dialog, and the message that it
    /// yields: a copying key yields the message that copies from the selected
    /// row, and every event then goes to the table. What the table asks for
    /// is not passed on.
    pub open spec fn event_handled(
        before: &Self,
        event: Event,
        after: &Self,
        m: Option<Message>,
    ) -> bool {
        &&& match Self::copies(event) {
            Some(part) => before.copy_message(part, m),
            None => m is None,
        }
        &&& TablePage::<CredentialEntry>::event_applied(&before.table(), event, &after.table())
    }

    /// Handles an event.
    pub fn handle_event(&mut self, event: &Event) -> (m: Option<Message>)
        requires
            old(self).wf(),
        ensures
            final(self).wf(),
            Self::event_handled(old(self), *event, final(self), m),
    {
        let mut message = None;
        match event {
            Event::Key(key_event) => {
                if key_event.modifiers == MODIFIER_NONE {
                    match key_event.code {
                        Key::Char('u') => {
                            message = self.copy_selected_username_to_clipboard();
                        },
                        Key::Char('p') => {
                            message = self.copy_selected_password_to_clipboard();
                        },
                        _ => {},
                    }
                }
            },
            Event::Other => {},
        }
        let _ = self.table.handle_event(event);
        message
    }
}

} // verus!
