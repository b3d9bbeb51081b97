use crate::boundary::models::Scope;
use crate::components::table::action::{Action, Availability};
use crate::components::table::commands::ScopeAction;
use crate::components::table::filter::FilterItems;
use crate::components::table::page::{all_rows, TablePage};
use crate::components::table::sort::ItemOrder;
use crate::components::table::util::{format_title_with_parent, title_with_parent};
use crate::event_ext::{Event, Key};
use crate::message::{Background, Message, ScopesPageMessage};
use vstd::prelude::*;

verus! {

/// The text of an optional string.
pub open spec fn option_text(text: Option<String>) -> Option<Seq<char>> {
    match text {
        Some(t) => Some(t@),
        None => None,
    }
}

/// The page that lists the scopes under a parent scope, or the top scopes.
pub struct ScopesPage {
    table_page: TablePage<Scope>,
}

impl ScopesPage {
    /// The table of scopes.
    pub closed spec fn table(&self) -> TablePage<Scope> {
        self.table_page
    }

    pub open spec fn wf(&self) -> bool {
        self.table().wf()
    }

    /// Whether `m` asks for the scopes under `parent` to be fetched.
    pub open spec fn asks_for_scopes(m: Message, parent: Option<Scope>) -> bool {
        m matches Message::RunFuture(Background::LoadScopes { parent_id }) && option_text(parent_id)
            == match parent {
            Some(p) => Some(p.id@),
            None => None,
        }
    }

    /// The page for the scopes under `parent_scope`: still empty and loading,
    /// together with the message that asks for the scopes to be fetched.
    pub fn new(parent_scope: Option<&Scope>) -> (r: (Self, Message))
        ensures
            r.0.wf(),
            r.0.table().title() == title_with_parent(
                "Scopes"@,
                match parent_scope {
                    Some(p) => Some(p.name@),
                    None => None,
                },
            ),
            r.0.table().items() == Seq::<Scope>::empty(),
            r.0.table().visible() == Seq::<usize>::empty(),
            r.0.table().selected() is None,
            r.0.table().filter_text() is None,
            r.0.table().is_loading(),
            Self::asks_for_scopes(
                r.1,
                match parent_scope {
                    Some(p) => Some(*p),
                    None => None,
                },
            ),
    {
        let (parent_id, parent_name) = match parent_scope {
            Some(scope) => (Some(scope.id.clone()), Some(scope.name.as_str())),
            None => (None, None),
        };
        let title = format_title_with_parent("Scopes", parent_name);
        let table_page = TablePage::new(title, Vec::new(), true);
        proof {
            assert(table_page.items().len() == 0) by {
                broadcast use vstd::multiset::group_multiset_axioms;

                table_page.items().to_multiset_ensures();
                Seq::<Scope>::empty().to_multiset_ensures();
            }
            assert(table_page.items() =~= Seq::<Scope>::empty());
            assert(table_page.visible() =~= Seq::<usize>::empty());
        }
        (ScopesPage { table_page }, Message::RunFuture(Background::LoadScopes { parent_id }))
    }

    /// The actions that the page offers.
    pub fn actions() -> (list: Vec<Action<Option<ScopeAction>>>)
        ensures
            list@.len() == 4,
            list@[0].id is None && list@[0].name@ == "Quit"@ && list@[0].shortcut@ == "Ctrl + C"@
                && list@[0].enabled == Availability::Always,
            list@[1].id is None && list@[1].name@ == "Back"@ && list@[1].shortcut@ == "ESC"@
                && list@[1].enabled == Availability::Always,
            list@[2].id == Some(ScopeAction::ListScopes) && list@[2].name@ == "List Scopes"@
                && list@[2].enabled == Availability::WhenPermitted,
            list@[3].id == Some(ScopeAction::ListTargets) && list@[3].name@ == "List Targets"@
                && list@[3].enabled == Availability::WhenPermitted,
    {
        let mut list: Vec<Action<Option<ScopeAction>>> = Vec::new();
        list.push(
            Action::new(None, "Quit".to_owned(), "Ctrl + C".to_owned(), Availability::Always),
        );
        list.push(Action::new(None, "Back".to_owned(), "ESC".to_owned(), Availability::Always));
        list.push(
            Action::new(
                Some(ScopeAction::ListScopes),
                "List Scopes".to_owned(),
                "⏎".to_owned(),
                Availability::WhenPermitted,
            ),
        );
        list.push(
            Action::new(
                Some(ScopeAction::ListTargets),
                "List Targets".to_owned(),
                "⏎".to_owned(),
                Availability::WhenPermitted,
            ),
        );
        list
    }

    /// The table of scopes.
    pub fn table_page(&self) -> (table: &TablePage<Scope>)
        ensures
            *table == self.table(),
    {
        &self.table_page
    }

    /// The table of scopes, for the screen to report back how it drew it.
    pub fn table_page_mut(&mut self) -> (table: &mut TablePage<Scope>)
        ensures
            *table == old(self).table(),
            final(self).table() == *final(table),
    {
        &mut self.table_page
    }

    /// Whether `m` is what enter on the selected scope sends: to its child
    /// scopes where they may be listed, else to its targets where those may
    /// be listed, else nothing.
    pub open spec fn opens(&self, m: Option<Message>) -> bool {
        match self.table().selected_row() {
            Some(scope) => if scope@.may_list_child_scopes() {
                m matches Some(Message::ShowScopes { parent: Some(parent) }) && parent@ == scope@
            } else if scope@.may_list_targets() {
                m matches Some(Message::ShowTargets { parent }) && parent@ == scope@
            } else {
                m is None
            },
            None => m is None,
        }
    }

    /// What handling an event makes of the page and the message that it
    /// yields. The table gets the event first. What the table does not
    /// consume goes to the page, which knows enter.
    pub open spec fn event_handled(
        before: &Self,
        event: Event,
        after: &Self,
        m: Option<Message>,
    ) -> bool {
        &&& TablePage::<Scope>::event_applied(&before.table(), event, &after.table())
        &&& if before.table().consumes(event) {
            m == if before.table().asks_back(event) {
                Some(Message::GoBack)
            } else {
                None
            }
        } else if event.key_code() == Some(Key::Enter) {
            before.opens(m)
        } else {
            m is None
        }
    }

    /// Handles an event.
    pub fn handle_event(&mut self, event: &Event) -> (m: Option<Message>)
        requires
            old(self).wf(),
        ensures
            final(self).wf(),
            Self::event_handled(old(self), *event, final(self), m),
    {
        let answer = self.table_page.handle_event(event);
        if answer.processed {
            return match answer.message {
                Some(_) => Some(Message::GoBack),
                None => None,
            };
        }
        match event {
            Event::Key(key_event) => {
                match key_event.code {
                    Key::Enter => {
                        match self.table_page.selected_item() {
                            Some(scope) => {
                                if scope.can_list_child_scopes() {
                                    Some(Message::ShowScopes { parent: Some(scope.clone()) })
                                } else if scope.can_list_targets() {
                                    Some(Message::ShowTargets { parent: scope.clone() })
                                } else {
                                    None
                                }
                            },
                            None => None,
                        }
                    },
                    _ => None,
                }
            },
            Event::Other => None,
        }
    }

    /// What a message makes of the page: the fetched scopes become the rows
    /// of the table, and the page is no longer loading.
    pub open spec fn message_applied(
        before: &Self,
        message: ScopesPageMessage,
        after: &Self,
    ) -> bool {
        message matches ScopesPageMessage::ScopesLoaded(scopes) && exists|
            loaded: TablePage<Scope>,
        |
            #![trigger TablePage::<Scope>::rows_replaced(&before.table(), scopes@, &loaded)]
            {
                &&& TablePage::<Scope>::rows_replaced(&before.table(), scopes@, &loaded)
                &&& after.table().same_but_loading(&loaded)
                &&& !after.table().is_loading()
            }
    }

    /// Takes in what the page is told.
    pub fn handle_message(&mut self, message: ScopesPageMessage)
        ensures
            final(self).wf(),
            Self::message_applied(old(self), message, final(self)),
    {
        match message {
            ScopesPageMessage::ScopesLoaded(scopes) => {
                self.table_page.set_items(scopes);
                let ghost loaded = self.table_page;
                self.table_page.set_loading(false);
                assert(TablePage::<Scope>::rows_replaced(&old(self).table(), scopes@, &loaded));
            },
        }
    }
}

} // verus!
