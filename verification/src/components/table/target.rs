use crate::boundary::models::{ConnectResponse, Scope, Target};
use crate::components::connection_result_dialog::ConnectionResultDialog;
use crate::components::input_dialog::{Button, InputDialog, InputField, SelectedItem};
use crate::components::table::action::{Action, Availability};
use crate::components::table::commands::TargetCommands;
use crate::components::table::filter::FilterItems;
use crate::components::table::page::{all_rows, TablePage};
use crate::components::table::sort::ItemOrder;
use crate::components::table::util::{format_title_with_parent, title_with_parent};
use crate::event_ext::{Event, Key};
use crate::message::{Background, Message, TargetsPageMessage};
use crate::remember_user_input::{RememberUserInput, UserInputError};
use crate::text::{decimal, parse_port, parsed_port, render_unsigned};
use vstd::prelude::*;

verus! {

/// The fields of the dialog that asks how to connect.
#[derive(Debug, Clone, Copy, Eq, PartialEq, Structural)]
pub enum ConnectDialogFields {
    ListenPort,
}

/// The buttons of the dialog that asks how to connect.
#[derive(Debug, Clone, Copy, Eq, PartialEq, Structural)]
pub enum ConnectDialogButtons {
    Cancel,
    Confirm,
}

/// The port offered in the connect dialog: the one remembered for the
/// target, written in decimal; nothing where none is remembered or the
/// memory could not be read.
pub open spec fn suggestion(remembered: Result<Option<u16>, UserInputError>) -> Seq<char> {
    match remembered {
        Ok(Some(port)) => decimal(port as nat),
        _ => Seq::empty(),
    }
}

/// Writes out the port to offer in the connect dialog.
pub fn suggested_port(remembered: Result<Option<u16>, UserInputError>) -> (text: String)
    ensures
        text@ == suggestion(remembered),
{
    match remembered {
        Ok(Some(port)) => render_unsigned(port as u64),
        _ => String::new(),
    }
}

/// The page that lists the targets of a scope, connects to the selected one
/// and shows what came of it.
pub struct TargetsPage<S: RememberUserInput> {
    table_page: TablePage<Target>,
    connect_dialog: Option<InputDialog<ConnectDialogFields, ConnectDialogButtons>>,
    connect_result_dialog: Option<ConnectionResultDialog>,
    parent_scope: Scope,
    remember_user_input: S,
}

impl<S: RememberUserInput> TargetsPage<S> {
    /// The table of targets.
    pub closed spec fn table(&self) -> TablePage<Target> {
        self.table_page
    }

    /// The dialog that asks how to connect, while it is open.
    pub closed spec fn connect_dialog(&self) -> Option<
        InputDialog<ConnectDialogFields, ConnectDialogButtons>,
    > {
        self.connect_dialog
    }

    /// The dialog that shows a brokered session, while it is open.
    pub closed spec fn result_dialog(&self) -> Option<ConnectionResultDialog> {
        self.connect_result_dialog
    }

    /// The scope whose targets are listed.
    pub closed spec fn parent(&self) -> Scope {
        self.parent_scope
    }

    pub open spec fn wf(&self) -> bool {
        &&& self.table().wf()
        &&& self.result_dialog() matches Some(dialog) ==> dialog.wf()
    }

    /// The page for the targets of `parent_scope`: still empty and loading,
    /// without dialogs, together with the message that asks for the targets
    /// to be fetched.
    pub fn new(parent_scope: Scope, remember_user_input: S) -> (r: (Self, Message))
        ensures
            r.0.wf(),
            r.0.parent() == parent_scope,
            r.0.table().title() == title_with_parent("Targets"@, Some(parent_scope.name@)),
            r.0.table().items() == Seq::<Target>::empty(),
            r.0.table().visible() == Seq::<usize>::empty(),
            r.0.table().selected() is None,
            r.0.table().filter_text() is None,
            r.0.table().is_loading(),
            r.0.connect_dialog() is None,
            r.0.result_dialog() is None,
            r.1 matches Message::RunFuture(Background::LoadTargets { scope_id }) && scope_id@
                == parent_scope.id@,
    {
        let title = format_title_with_parent("Targets", Some(parent_scope.name.as_str()));
        let table_page = TablePage::new(title, Vec::new(), true);
        proof {
            assert(table_page.items().len() == 0) by {
                broadcast use vstd::multiset::group_multiset_axioms;

                table_page.items().to_multiset_ensures();
                Seq::<Target>::empty().to_multiset_ensures();
            }
            assert(table_page.items() =~= Seq::<Target>::empty());
            assert(table_page.visible() =~= Seq::<usize>::empty());
        }
        let scope_id = parent_scope.id.clone();
        let page = TargetsPage {
            table_page,
            connect_dialog: None,
            connect_result_dialog: None,
            parent_scope,
            remember_user_input,
        };
        (page, Message::RunFuture(Background::LoadTargets { scope_id }))
    }

    /// The actions that the page offers.
    pub fn actions() -> (list: Vec<Action<Option<TargetCommands>>>)
        ensures
            list@.len() == 4,
            list@[0].id is None && list@[0].name@ == "Quit"@ && list@[0].shortcut@ == "Ctrl + C"@
                && list@[0].enabled == Availability::Always,
            list@[1].id is None && list@[1].name@ == "Back"@ && list@[1].shortcut@ == "ESC"@
                && list@[1].enabled == Availability::Always,
            list@[2].id == Some(TargetCommands::ShowConnections) && list@[2].name@
                == "Show Sessions"@ && list@[2].shortcut@ == "Shift + C"@ && list@[2].enabled
                == Availability::WhenSelected,
            list@[3].id == Some(TargetCommands::Connect) && list@[3].name@ == "Connect"@
                && list@[3].shortcut@ == "c"@ && list@[3].enabled == Availability::WhenPermitted,
    {
        let mut list: Vec<Action<Option<TargetCommands>>> = Vec::new();
        list.push(
            Action::new(None, "Quit".to_owned(), "Ctrl + C".to_owned(), Availability::Always),
        );
        list.push(Action::new(None, "Back".to_owned(), "ESC".to_owned(), Availability::Always));
        list.push(
            Action::new(
                Some(TargetCommands::ShowConnections),
                "Show Sessions".to_owned(),
                "Shift + C".to_owned(),
                Availability::WhenSelected,
            ),
        );
        list.push(
            Action::new(
                Some(TargetCommands::Connect),
                "Connect".to_owned(),
                "c".to_owned(),
                Availability::WhenPermitted,
            ),
        );
        list
    }

    /// The table of targets.
    pub fn table_page(&self) -> (table: &TablePage<Target>)
        ensures
            *table == self.table(),
    {
        &self.table_page
    }

    /// The table of targets, for the screen to report back how it drew it.
    pub fn table_page_mut(&mut self) -> (table: &mut TablePage<Target>)
        ensures
            *table == old(self).table(),
            final(self).table() == *final(table),
            final(self).connect_dialog() == old(self).connect_dialog(),
            final(self).result_dialog() == old(self).result_dialog(),
            final(self).parent() == old(self).parent(),
    {
        &mut self.table_page
    }

    /// The dialog that asks how to connect, while it is open.
    pub fn open_connect_dialog_ref(&self) -> (dialog: Option<
        &InputDialog<ConnectDialogFields, ConnectDialogButtons>,
    >)
        ensures
            match dialog {
                Some(d) => self.connect_dialog() == Some(*d),
                None => self.connect_dialog() is None,
            },
    {
        self.connect_dialog.as_ref()
    }

    /// The dialog that shows a brokered session, while it is open.
    pub fn open_result_dialog_ref(&self) -> (dialog: Option<&ConnectionResultDialog>)
        ensures
            match dialog {
                Some(d) => self.result_dialog() == Some(*d),
                None => self.result_dialog() is None,
            },
    {
        self.connect_result_dialog.as_ref()
    }

    /// Whether `dialog` is a connect dialog as it is opened: titled
    /// `Connect`, with one field for the port to listen on, which holds
    /// `port`, the buttons `Cancel` and `Ok`, and the focus on the field.
    pub open spec fn is_fresh_connect_dialog(
        dialog: InputDialog<ConnectDialogFields, ConnectDialogButtons>,
        port: Seq<char>,
    ) -> bool {
        &&& dialog.title() == "Connect"@
        &&& dialog.fields().len() == 1
        &&& dialog.fields()[0].id == ConnectDialogFields::ListenPort
        &&& dialog.fields()[0].title@ == "Listen Port"@
        &&& dialog.fields()[0].value@ == port
        &&& dialog.buttons().len() == 2
        &&& dialog.buttons()[0].id() == ConnectDialogButtons::Cancel
        &&& dialog.buttons()[0].title() == "Cancel"@
        &&& dialog.buttons()[1].id() == ConnectDialogButtons::Confirm
        &&& dialog.buttons()[1].title() == "Ok"@
        &&& dialog.selected() == SelectedItem::Field(0)
    }

    /// Makes the dialog that asks how to connect, offering `port`.
    pub fn connect_dialog_offering(port: &str) -> (dialog: InputDialog<
        ConnectDialogFields,
        ConnectDialogButtons,
    >)
        ensures
            Self::is_fresh_connect_dialog(dialog, port@),
    {
        let mut fields: Vec<InputField<ConnectDialogFields>> = Vec::new();
        fields.push(InputField::new(ConnectDialogFields::ListenPort, "Listen Port", port));
        let mut buttons: Vec<Button<ConnectDialogButtons>> = Vec::new();
        buttons.push(Button::new(ConnectDialogButtons::Cancel, "Cancel"));
        buttons.push(Button::new(ConnectDialogButtons::Confirm, "Ok"));
        InputDialog::new("Connect", fields, buttons)
    }

    fn open_connect_dialog(&mut self)
        requires
            old(self).wf(),
        ensures
            final(self).wf(),
            final(self).table() == old(self).table(),
            final(self).result_dialog() == old(self).result_dialog(),
            final(self).parent() == old(self).parent(),
            match old(self).table().selected_row() {
                Some(_) => exists|remembered: Result<Option<u16>, UserInputError>|
                    final(self).connect_dialog() matches Some(dialog)
                        && Self::is_fresh_connect_dialog(dialog, #[trigger] suggestion(remembered)),
                None => final(self).connect_dialog() == old(self).connect_dialog(),
            },
    {
        let remembered = match self.table_page.selected_item() {
            Some(selected_item) => Some(self.remember_user_input.get_local_port(&selected_item.id)),
            None => None,
        };
        match remembered {
            Some(remembered) => {
                let port = suggested_port(remembered);
                self.connect_dialog = Some(Self::connect_dialog_offering(port.as_str()));
                assert(Self::is_fresh_connect_dialog(
                    self.connect_dialog()->Some_0,
                    suggestion(remembered),
                ));
            },
            None => {},
        }
    }

    /// The port typed into a connect dialog, where it reads as one.
    pub open spec fn typed_port(
        dialog: InputDialog<ConnectDialogFields, ConnectDialogButtons>,
    ) -> Option<u16> {
        if dialog.fields().len() > 0 {
            parsed_port(dialog.fields()[0].value@)
        } else {
            None
        }
    }

    /// Whether confirming the connect dialog connects: a target is selected
    /// and the typed port reads as one.
    pub open spec fn connects(&self) -> Option<(Target, u16)> {
        match (self.table().selected_row(), self.connect_dialog()) {
            (Some(target), Some(dialog)) => match Self::typed_port(dialog) {
                Some(port) => Some((target, port)),
                None => None,
            },
            _ => None,
        }
    }

    fn connect_to_target(&mut self) -> (m: Option<Message>)
        requires
            old(self).wf(),
        ensures
            final(self).wf(),
            final(self).table() == old(self).table(),
            final(self).result_dialog() == old(self).result_dialog(),
            final(self).parent() == old(self).parent(),
            match old(self).connects() {
                Some((target, port)) => {
                    &&& final(self).connect_dialog() is None
                    &&& m matches Some(Message::Connect { target_id, port: asked })
                    &&& target_id@ == target.id@
                    &&& asked == port
                },
                None => {
                    &&& final(self).connect_dialog() == old(self).connect_dialog()
                    &&& m is None
                },
            },
    {
        let port = match &self.connect_dialog {
            Some(dialog) => {
                let fields = dialog.field_list();
                if fields.len() > 0 {
                    parse_port(fields[0].value.value())
                } else {
                    None
                }
            },
            None => None,
        };
        let target_id = match self.table_page.selected_item() {
            Some(target) => Some(target.id.clone()),
            None => None,
        };
        match (target_id, port) {
            (Some(target_id), Some(port)) => {
                let _ = self.remember_user_input.store_local_port(target_id.clone(), port);
                self.connect_dialog = None;
                Some(Message::Connect { target_id, port })
            },
            _ => None,
        }
    }

    /// Whether `m` asks for the sessions of the selected target: nothing
    /// where no target is selected.
    pub open spec fn shows_sessions(&self, m: Option<Message>) -> bool {
        match self.table().selected_row() {
            Some(selected) => m matches Some(Message::ShowSessions { scope, target }) && scope@
                == selected.scope_id@ && target@ == selected@,
            None => m is None,
        }
    }

    fn show_sessions(&self) -> (m: Option<Message>)
        requires
            self.wf(),
        ensures
            self.shows_sessions(m),
    {
        match self.table_page.selected_item() {
            Some(target) => Some(
                Message::ShowSessions { scope: target.scope_id.clone(), target: target.clone() },
            ),
            None => None,
        }
    }

    /// What handling an event makes of the page and the message that it
    /// yields.
    ///
    /// While the dialog of a brokered session is open, escape closes it and
    /// everything else goes to it. Else, while the connect dialog is open,
    /// the event goes to it: `Cancel` closes it, and `Ok` closes it and asks
    /// to connect to the selected target on the typed port, where a target
    /// is selected and the port reads as one. Else the table gets the event;
    /// what it does not consume goes to the page, where `c` opens the
    /// connect dialog for a target that may be connected to, and `C` asks
    /// for the sessions of the selected target.
    pub open spec fn event_handled(
        before: &Self,
        event: Event,
        after: &Self,
        m: Option<Message>,
    ) -> bool {
        &&& after.parent() == before.parent()
        &&& match before.result_dialog() {
            Some(shown) => {
                &&& after.table() == before.table()
                &&& after.connect_dialog() == before.connect_dialog()
                &&& if event.key_code() == Some(Key::Esc) {
                    after.result_dialog() is None && m is None
                } else {
                    after.result_dialog() matches Some(then)
                        && ConnectionResultDialog::event_handled(&shown, event, &then, m)
                }
            },
            None => match before.connect_dialog() {
                Some(asked) => {
                    &&& after.table() == before.table()
                    &&& after.result_dialog() is None
                    &&& exists|
                        answered: InputDialog<ConnectDialogFields, ConnectDialogButtons>,
                    |
                        #![trigger InputDialog::event_handled(&asked, event, &answered, asked.pressed(event))]
                        {
                            &&& InputDialog::event_handled(
                                &asked,
                                event,
                                &answered,
                                asked.pressed(event),
                            )
                            &&& match asked.pressed(event) {
                                Some(ConnectDialogButtons::Cancel) => after.connect_dialog() is None
                                    && m is None,
                                Some(ConnectDialogButtons::Confirm) => match (
                                    before.table().selected_row(),
                                    Self::typed_port(answered),
                                ) {
                                    (Some(target), Some(port)) => {
                                        &&& after.connect_dialog() is None
                                        &&& m matches Some(
                                            Message::Connect { target_id, port: requested },
                                        )
                                        &&& target_id@ == target.id@
                                        &&& requested == port
                                    },
                                    _ => after.connect_dialog() == Some(answered) && m is None,
                                },
                                None => after.connect_dialog() == Some(answered) && m is None,
                            }
                        }
                },
                None => {
                    &&& after.result_dialog() is None
                    &&& TablePage::<Target>::event_applied(&before.table(), event, &after.table())
                    &&& if before.table().consumes(event) {
                        &&& after.connect_dialog() is None
                        &&& m == if before.table().asks_back(event) {
                            Some(Message::GoBack)
                        } else {
                            None
                        }
                    } else if event.key_code() == Some(Key::Char('c')) {
                        &&& m is None
                        &&& match before.table().selected_row() {
                            Some(target) => if target@.may_connect() {
                                exists|remembered: Result<Option<u16>, UserInputError>|
                                    after.connect_dialog() matches Some(dialog)
                                        && Self::is_fresh_connect_dialog(
                                        dialog,
                                        #[trigger] suggestion(remembered),
                                    )
                            } else {
                                after.connect_dialog() is None
                            },
                            None => after.connect_dialog() is None,
                        }
                    } else if event.key_code() == Some(Key::Char('C')) {
                        after.connect_dialog() is None && before.shows_sessions(m)
                    } else {
                        after.connect_dialog() is None && m is None
                    }
                },
            },
        }
    }

    /// Handles an event.
    pub fn handle_event(&mut self, event: &Event) -> (m: Option<Message>)
        requires
            old(self).wf(),
        ensures
            final(self).wf(),
            Self::event_handled(old(self), *event, final(self), m),
    {
        if self.connect_result_dialog.is_some() {
            match event {
                Event::Key(key_event) if key_event.code == Key::Esc => {
                    self.connect_result_dialog = None;
                    return None;
                },
                _ => {},
            }
            let mut dialog = self.connect_result_dialog.take().unwrap();
            let m = dialog.handle_event(event);
            self.connect_result_dialog = Some(dialog);
            return m;
        }
        if self.connect_dialog.is_some() {
            let mut dialog = self.connect_dialog.take().unwrap();
            let ghost asked = dialog;
            let pressed = dialog.handle_event(event);
            let ghost answered = dialog;
            self.connect_dialog = Some(dialog);
            let m = match pressed {
                Some(ConnectDialogButtons::Cancel) => {
                    self.connect_dialog = None;
                    None
                },
                Some(ConnectDialogButtons::Confirm) => self.connect_to_target(),
                None => None,
            };
            assert(InputDialog::event_handled(&asked, *event, &answered, asked.pressed(*event)));
            return m;
        }
        let answer = self.table_page.handle_event(event);
        if answer.processed {
            return match answer.message {
                Some(_) => Some(Message::GoBack),
                None => None,
            };
        }
        match event {
            Event::Key(key_event) => {
                match key_event.code {
                    Key::Char('c') => {
                        let may_connect = match self.table_page.selected_item() {
                            Some(target) => target.can_connect(),
                            None => false,
                        };
                        if may_connect {
                            self.open_connect_dialog();
                        }
                        None
                    },
                    Key::Char('C') => self.show_sessions(),
                    Key::Esc => Some(Message::GoBack),
                    _ => None,
                }
            },
            Event::Other => None,
        }
    }

    /// Whether `dialog` is the dialog that shows what `response` brokered, as
    /// it is opened.
    pub open spec fn is_fresh_result_dialog(
        dialog: ConnectionResultDialog,
        response: ConnectResponse,
    ) -> bool {
        &&& dialog.wf()
        &&& dialog.table().title() == "Credentials"@
        &&& !dialog.table().is_loading()
        &&& dialog.table().items().to_multiset() == response.credentials@.to_multiset()
        &&& forall|i: int, j: int|
            0 <= i < j < dialog.table().items().len() ==> TablePage::<
                crate::boundary::models::CredentialEntry,
            >::in_order(&dialog.table().items()[i], &dialog.table().items()[j])
        &&& dialog.table().visible() == all_rows(dialog.table().items().len())
        &&& dialog.table().selected() == TablePage::<
            crate::boundary::models::CredentialEntry,
        >::first_or_none(dialog.table().visible())
        &&& dialog.table().filter_text() is None
    }

    /// Opens the dialog that shows the session that was brokered.
    pub fn connection_establised(&mut self, response: ConnectResponse)
        requires
            old(self).wf(),
        ensures
            final(self).wf(),
            final(self).table() == old(self).table(),
            final(self).connect_dialog() == old(self).connect_dialog(),
            final(self).parent() == old(self).parent(),
            final(self).result_dialog() matches Some(dialog) && Self::is_fresh_result_dialog(
                dialog,
                response,
            ),
    {
        self.connect_result_dialog = Some(ConnectionResultDialog::new(response));
    }

    /// What a message makes of the page: a brokered session opens the dialog
    /// that shows it, and fetched targets become the rows of the table,
    /// which is then no longer loading.
    pub open spec fn message_applied(
        before: &Self,
        message: TargetsPageMessage,
        after: &Self,
    ) -> bool {
        &&& after.parent() == before.parent()
        &&& after.connect_dialog() == before.connect_dialog()
        &&& match message {
            TargetsPageMessage::ConnectedToTarget(response) => {
                &&& after.table() == before.table()
                &&& after.result_dialog() matches Some(dialog)
                &&& Self::is_fresh_result_dialog(dialog, response)
            },
            TargetsPageMessage::TargetsLoaded(targets) => {
                &&& after.result_dialog() == before.result_dialog()
                &&& !after.table().is_loading()
                &&& exists|unloaded: TablePage<Target>|
                    #![trigger TablePage::<Target>::rows_replaced(&unloaded, targets@, &after.table())]
                    {
                        &&& unloaded.same_but_loading(&before.table())
                        &&& !unloaded.is_loading()
                        &&& TablePage::<Target>::rows_replaced(&unloaded, targets@, &after.table())
                    }
            },
        }
    }

    /// Takes in what the page is told.
    pub fn handle_message(&mut self, message: TargetsPageMessage)
        requires
            old(self).wf(),
        ensures
            final(self).wf(),
            Self::message_applied(old(self), message, final(self)),
    {
        match message {
            TargetsPageMessage::ConnectedToTarget(response) => {
                self.connection_establised(response);
            },
            TargetsPageMessage::TargetsLoaded(targets) => {
                self.table_page.set_loading(false);
                let ghost unloaded = self.table_page;
                self.table_page.set_items(targets);
                assert(TablePage::<Target>::rows_replaced(&unloaded, targets@, &self.table()));
            },
        }
    }
}

} // verus!
