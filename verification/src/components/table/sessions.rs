use crate::boundary::models::SessionWithTarget;
use crate::components::table::action::{Action, Availability};
use crate::components::table::commands::SessionCommands;
use crate::components::table::filter::FilterItems;
use crate::components::table::page::{all_rows, TablePage};
use crate::components::table::sort::ItemOrder;
use crate::components::table::util::{format_title_with_parent, title_with_parent};
use crate::event_ext::{Event, Key, KeyPress, MODIFIER_CONTROL};
use crate::message::{Background, Message, SessionsPageMessage, SessionsQuery};
use crate::text::same_text;
use vstd::prelude::*;

verus! {

/// The page that lists sessions, of one target or of one user, and stops the
/// selected one on request.
pub struct SessionsPage {
    table_page: TablePage<SessionWithTarget>,
}

/// The sessions among `sessions` that lead to the target `target_id`, in
/// their order.
pub open spec fn of_target(sessions: Seq<SessionWithTarget>, target_id: Seq<char>) -> Seq<
    SessionWithTarget,
> {
    sessions.filter(|s: SessionWithTarget| s.target.id@ == target_id)
}

/// Keeps the sessions that lead to the target `target_id`.
pub fn sessions_of_target(sessions: Vec<SessionWithTarget>, target_id: &str) -> (kept: Vec<
    SessionWithTarget,
>)
    ensures
        kept@ == of_target(sessions@, target_id@),
{
    let mut sessions = sessions;
    let ghost all = sessions@;
    let ghost wanted = |s: SessionWithTarget| s.target.id@ == target_id@;
    let mut reversed: Vec<SessionWithTarget> = Vec::new();
    while sessions.len() > 0
        invariant
            sessions@.len() <= all.len(),
            sessions@ == all.take(sessions@.len() as int),
            wanted == |s: SessionWithTarget| s.target.id@ == target_id@,
            all.filter(wanted) == sessions@.filter(wanted) + reversed@.reverse(),
        decreases sessions@.len(),
    {
        let ghost before = sessions@;
        let ghost collected = reversed@;
        let last = sessions.pop().unwrap();
        proof {
            assert(sessions@ =~= all.take(sessions@.len() as int));
            assert(before =~= sessions@.push(last));
            Seq::lemma_filter_push(sessions@, last, wanted);
        }
        if same_text(last.target.id.as_str(), target_id) {
            reversed.push(last);
            proof {
                assert(reversed@.reverse() =~= seq![last] + collected.reverse());
                assert(sessions@.filter(wanted).push(last) + collected.reverse()
                    =~= sessions@.filter(wanted) + reversed@.reverse());
            }
        }
    }
    proof {
        assert(sessions@ =~= Seq::<SessionWithTarget>::empty());
        Seq::<SessionWithTarget>::empty().lemma_filter_len(wanted);
        assert(sessions@.filter(wanted) =~= Seq::<SessionWithTarget>::empty());
        assert(all.filter(wanted) =~= reversed@.reverse());
    }
    let mut kept: Vec<SessionWithTarget> = Vec::new();
    while reversed.len() > 0
        invariant
            all.filter(wanted) == kept@ + reversed@.reverse(),
        decreases reversed@.len(),
    {
        let ghost rest = reversed@;
        let ghost done = kept@;
        let s = reversed.pop().unwrap();
        kept.push(s);
        proof {
            assert(rest.reverse() =~= seq![s] + reversed@.reverse());
            assert(done + rest.reverse() =~= kept@ + reversed@.reverse());
        }
    }
    proof {
        assert(reversed@.reverse() =~= Seq::<SessionWithTarget>::empty());
        assert(all.filter(wanted) =~= kept@);
    }
    kept
}

impl SessionsPage {
    /// The table of sessions.
    pub closed spec fn table(&self) -> TablePage<SessionWithTarget> {
        self.table_page
    }

    pub open spec fn wf(&self) -> bool {
        self.table().wf()
    }

    /// The page for the sessions that `query` asks for: still empty and
    /// loading, together with the message that starts fetching them again
    /// and again.
    pub fn new(parent_name: Option<&str>, query: SessionsQuery) -> (r: (Self, Message))
        ensures
            r.0.wf(),
            r.0.table().title() == title_with_parent(
                "Sessions"@,
                match parent_name {
                    Some(p) => Some(p@),
                    None => None,
                },
            ),
            r.0.table().items() == Seq::<SessionWithTarget>::empty(),
            r.0.table().visible() == Seq::<usize>::empty(),
            r.0.table().selected() is None,
            r.0.table().filter_text() is None,
            r.0.table().is_loading(),
            r.1 == Message::RunFuture(Background::RefreshSessions(query)),
    {
        let title = format_title_with_parent("Sessions", parent_name);
        let table_page = TablePage::new(title, Vec::new(), true);
        proof {
            assert(table_page.items().len() == 0) by {
                broadcast use vstd::multiset::group_multiset_axioms;

                table_page.items().to_multiset_ensures();
                Seq::<SessionWithTarget>::empty().to_multiset_ensures();
            }
            assert(table_page.items() =~= Seq::<SessionWithTarget>::empty());
            assert(table_page.visible() =~= Seq::<usize>::empty());
        }
        (SessionsPage { table_page }, Message::RunFuture(Background::RefreshSessions(query)))
    }

    /// The actions that the page offers.
    pub fn actions() -> (list: Vec<Action<Option<SessionCommands>>>)
        ensures
            list@.len() == 3,
            list@[0].id is None && list@[0].name@ == "Quit"@ && list@[0].shortcut@ == "Ctrl + C"@
                && list@[0].enabled == Availability::Always,
            list@[1].id is None && list@[1].name@ == "Back"@ && list@[1].shortcut@ == "ESC"@
                && list@[1].enabled == Availability::Always,
            list@[2].id == Some(SessionCommands::Stop) && list@[2].name@ == "Stop Session"@
                && list@[2].shortcut@ == "d"@ && list@[2].enabled == Availability::WhenPermitted,
    {
        let mut list: Vec<Action<Option<SessionCommands>>> = Vec::new();
        list.push(
            Action::new(None, "Quit".to_owned(), "Ctrl + C".to_owned(), Availability::Always),
        );
        list.push(Action::new(None, "Back".to_owned(), "ESC".to_owned(), Availability::Always));
        list.push(
            Action::new(
                Some(SessionCommands::Stop),
                "Stop Session".to_owned(),
                "d".to_owned(),
                Availability::WhenPermitted,
            ),
        );
        list
    }

    /// The table of sessions.
    pub fn table_page(&self) -> (table: &TablePage<SessionWithTarget>)
        ensures
            *table == self.table(),
    {
        &self.table_page
    }

    /// The table of sessions, for the screen to report back how it drew it.
    pub fn table_page_mut(&mut self) -> (table: &mut TablePage<SessionWithTarget>)
        ensures
            *table == old(self).table(),
            final(self).table() == *final(table),
    {
        &mut self.table_page
    }

    /// Whether `m` asks for the selected session to be stopped: nothing where
    /// no session is selected.
    pub open spec fn stops_selected(&self, m: Option<Message>) -> bool {
        match self.table().selected_row() {
            Some(session) => m matches Some(Message::StopSession { session_id }) && session_id@
                == session.session.id@,
            None => m is None,
        }
    }

    /// The message that asks for the selected session to be stopped.
    pub fn stop_session(&self) -> (m: Option<Message>)
        requires
            self.wf(),
        ensures
            self.stops_selected(m),
    {
        match self.table_page.selected_item() {
            Some(session) => Some(Message::StopSession { session_id: session.session.id.clone() }),
            None => None,
        }
    }

    /// What handling an event makes of the page and the message that it
    /// yields. The table gets the event first. What the table does not
    /// consume goes to the page, which knows control and `d`.
    pub open spec fn event_handled(
        before: &Self,
        event: Event,
        after: &Self,
        m: Option<Message>,
    ) -> bool {
        &&& TablePage::<SessionWithTarget>::event_applied(&before.table(), event, &after.table())
        &&& if before.table().consumes(event) {
            m == if before.table().asks_back(event) {
                Some(Message::GoBack)
            } else {
                None
            }
        } else if event == Event::Key(
            KeyPress { code: Key::Char('d'), modifiers: MODIFIER_CONTROL },
        ) {
            before.stops_selected(m)
        } else {
            m is None
        }
    }

    /// Handles an event.
    pub fn handle_event(&mut self, event: &Event) -> (m: Option<Message>)
        requires
            old(self).wf(),
        ensures
            final(self).wf(),
            Self::event_handled(old(self), *event, final(self), m),
    {
        let answer = self.table_page.handle_event(event);
        if answer.processed {
            return match answer.message {
                Some(_) => Some(Message::GoBack),
                None => None,
            };
        }
        match event {
            Event::Key(key_event) => {
                if key_event.code == Key::Char('d') && key_event.modifiers == MODIFIER_CONTROL {
                    self.stop_session()
                } else {
                    None
                }
            },
            Event::Other => None,
        }
    }

    /// What a message makes of the page: the fetched sessions become the rows
    /// of the table, and the page is no longer loading.
    pub open spec fn message_applied(
        before: &Self,
        message: SessionsPageMessage,
        after: &Self,
    ) -> bool {
        message matches SessionsPageMessage::SessionsLoaded(sessions) && exists|
            loaded: TablePage<SessionWithTarget>,
        |
            #![trigger TablePage::<SessionWithTarget>::rows_replaced(&before.table(), sessions@, &loaded)]
            {
                &&& TablePage::<SessionWithTarget>::rows_replaced(
                    &before.table(),
                    sessions@,
                    &loaded,
                )
                &&& after.table().same_but_loading(&loaded)
                &&& !after.table().is_loading()
            }
    }

    /// Takes in what the page is told.
    pub fn handle_message(&mut self, message: SessionsPageMessage)
        ensures
            final(self).wf(),
            Self::message_applied(old(self), message, final(self)),
    {
        match message {
            SessionsPageMessage::SessionsLoaded(sessions) => {
                self.table_page.set_items(sessions);
                let ghost loaded = self.table_page;
                self.table_page.set_loading(false);
                assert(TablePage::<SessionWithTarget>::rows_replaced(
                    &old(self).table(),
                    sessions@,
                    &loaded,
                ));
            },
        }
    }
}

} // verus!
