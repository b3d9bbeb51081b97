use crate::boundary::error::Error;
use crate::boundary::models::ConnectResponse;
use crate::clipboard::{ClipboardAccess, ClipboardAccessError};
use crate::components::navigation_input::NavigationInput;
use crate::components::table::scope::ScopesPage;
use crate::components::table::sessions::SessionsPage;
use crate::components::table::target::TargetsPage;
use crate::connection::manager::ConnectionError;
use crate::event_ext::{Event, EventExt, Key};
use crate::message::{Background, Message, SessionsQuery, TargetsPageMessage};
use crate::remember_user_input::RememberUserInput;
use crate::text::join;
use vstd::prelude::*;

verus! {

/// The page that is shown.
pub enum Page<R: RememberUserInput> {
    Scopes(ScopesPage),
    Targets(TargetsPage<R>),
    TargetSessions(SessionsPage),
    UserSessions(SessionsPage),
}

impl<R: RememberUserInput> Page<R> {
    pub open spec fn wf(&self) -> bool {
        match self {
            Page::Scopes(page) => page.wf(),
            Page::Targets(page) => page.wf(),
            Page::TargetSessions(page) => page.wf(),
            Page::UserSessions(page) => page.wf(),
        }
    }

    /// What handling an event makes of the page and the message that it
    /// yields: the page stays of its kind and handles the event as pages
    /// of that kind do.
    pub open spec fn event_handled(
        before: &Self,
        event: Event,
        after: &Self,
        m: Option<Message>,
    ) -> bool {
        match (before, after) {
            (Page::Scopes(b), Page::Scopes(a)) => ScopesPage::event_handled(b, event, a, m),
            (Page::Targets(b), Page::Targets(a)) => TargetsPage::<R>::event_handled(b, event, a, m),
            (Page::TargetSessions(b), Page::TargetSessions(a)) => SessionsPage::event_handled(
                b,
                event,
                a,
                m,
            ),
            (Page::UserSessions(b), Page::UserSessions(a)) => SessionsPage::event_handled(
                b,
                event,
                a,
                m,
            ),
            _ => false,
        }
    }

    /// Lets the page handle an event.
    pub fn handle_event(&mut self, event: &Event) -> (m: Option<Message>)
        requires
            old(self).wf(),
        ensures
            final(self).wf(),
            Self::event_handled(old(self), *event, final(self), m),
    {
        match self {
            Page::Scopes(scopes_page) => scopes_page.handle_event(event),
            Page::Targets(targets_page) => targets_page.handle_event(event),
            Page::TargetSessions(sessions_page) => sessions_page.handle_event(event),
            Page::UserSessions(sessions_page) => sessions_page.handle_event(event),
        }
    }
}

/// What the dispatcher asks its runtime to do after it has applied an event
/// or a message.
pub enum Effect {
    /// Nothing.
    Nothing,
    /// Put the message on the command queue.
    Send(Message),
    /// Start the work in the background.
    Run(Background),
    /// Ask the connection manager for a session to the target, and report
    /// what came of it with `connected`.
    Connect { target_id: String, port: u16 },
    /// Ask the connection manager to stop the session, report what came of
    /// it with `session_stopped`, and have the sessions fetched anew.
    StopSession { session_id: String },
    /// Stop every session and leave the loop.
    Shutdown,
}

/// What reaches the dispatcher: one thing at a time.
pub enum Incoming {
    /// A message taken from the command queue.
    Command(Message),
    /// An event of the terminal.
    Input(Event),
    /// Some work in the background has ended.
    BackgroundDone,
}

/// The effect that delivers a message, where there is one.
pub open spec fn delivery(m: Option<Message>) -> Effect {
    match m {
        Some(message) => Effect::Send(message),
        None => Effect::Nothing,
    }
}

fn deliver(m: Option<Message>) -> (e: Effect)
    ensures
        e == delivery(m),
{
    match m {
        Some(message) => Effect::Send(message),
        None => Effect::Nothing,
    }
}

/// The state of the application and the one place that changes it.
///
/// The dispatcher applies one message or event at a time and answers with
/// what its runtime has to do next. It never waits: whatever takes time is
/// an effect, and what comes of it returns as a message.
pub struct BountuiApp<R: RememberUserInput + Copy, C: ClipboardAccess> {
    page: Page<R>,
    history: Vec<Page<R>>,
    alert: Option<(String, String)>,
    user_id: String,
    navigation_input: Option<NavigationInput>,
    remember_user_input: R,
    clipboard: C,
    finished: bool,
}

impl<R: RememberUserInput + Copy, C: ClipboardAccess> BountuiApp<R, C> {
    /// The page that is shown.
    pub closed spec fn page(&self) -> Page<R> {
        self.page
    }

    /// The pages to go back to, the nearest last.
    pub closed spec fn history(&self) -> Seq<Page<R>> {
        self.history@
    }

    /// The title and text of the alert that is shown, if any.
    pub closed spec fn alert(&self) -> Option<(Seq<char>, Seq<char>)> {
        match self.alert {
            Some((title, text)) => Some((title@, text@)),
            None => None,
        }
    }

    /// The line for typing where to go, while it is open.
    pub closed spec fn navigation(&self) -> Option<NavigationInput> {
        self.navigation_input
    }

    /// The user whose sessions `my-sessions` shows.
    pub closed spec fn user(&self) -> Seq<char> {
        self.user_id@
    }

    /// Whether the application was asked to end.
    pub closed spec fn finished(&self) -> bool {
        self.finished
    }

    /// Every page of a history is well formed.
    pub open spec fn all_wf(pages: Seq<Page<R>>) -> bool {
        forall|i: int| 0 <= i < pages.len() ==> (#[trigger] pages[i]).wf()
    }

    pub open spec fn wf(&self) -> bool {
        &&& self.page().wf()
        &&& Self::all_wf(self.history())
        &&& self.navigation() matches Some(nav) ==> nav.wf()
    }

    /// Alert, navigation line, user and end are as before.
    pub open spec fn same_frame(&self, before: &Self) -> bool {
        &&& self.alert() == before.alert()
        &&& self.navigation() == before.navigation()
        &&& self.user() == before.user()
        &&& self.finished() == before.finished()
    }

    /// Nothing is as it was not.
    pub open spec fn unchanged(&self, before: &Self) -> bool {
        &&& self.same_frame(before)
        &&& self.page() == before.page()
        &&& self.history() == before.history()
    }

    /// The application as it starts: on the top scopes, which are still to
    /// be fetched, with the message that asks for them.
    pub fn new(user_id: String, remember_user_input: R, clipboard: C) -> (r: (Self, Message))
        ensures
            r.0.wf(),
            r.0.user() == user_id@,
            r.0.alert() is None,
            r.0.navigation() is None,
            !r.0.finished(),
            r.0.history() == Seq::<Page<R>>::empty(),
            r.0.page() matches Page::Scopes(scopes) && scopes.table().title() == "Scopes"@
                && scopes.table().is_loading() && scopes.table().items() == Seq::<
                crate::boundary::models::Scope,
            >::empty(),
            ScopesPage::asks_for_scopes(r.1, None),
    {
        let (scopes, load) = ScopesPage::new(None);
        let app = BountuiApp {
            page: Page::Scopes(scopes),
            history: Vec::new(),
            alert: None,
            user_id,
            navigation_input: None,
            remember_user_input,
            clipboard,
            finished: false,
        };
        (app, load)
    }

    /// The page that is shown.
    pub fn current_page(&self) -> (page: &Page<R>)
        ensures
            *page == self.page(),
    {
        &self.page
    }

    /// The page that is shown, for the screen to report back how it drew it.
    pub fn current_page_mut(&mut self) -> (page: &mut Page<R>)
        ensures
            *page == old(self).page(),
            final(self).page() == *final(page),
            final(self).history() == old(self).history(),
            final(self).same_frame(old(self)),
    {
        &mut self.page
    }

    /// The title and text of the alert that is shown, if any.
    pub fn current_alert(&self) -> (alert: Option<(&str, &str)>)
        ensures
            match alert {
                Some((title, text)) => self.alert() == Some((title@, text@)),
                None => self.alert() is None,
            },
    {
        match &self.alert {
            Some((title, text)) => Some((title.as_str(), text.as_str())),
            None => None,
        }
    }

    /// The line for typing where to go, while it is open.
    pub fn navigation_input(&self) -> (nav: Option<&NavigationInput>)
        ensures
            match nav {
                Some(n) => self.navigation() == Some(*n),
                None => self.navigation() is None,
            },
    {
        self.navigation_input.as_ref()
    }

    /// How many pages there are to go back to.
    pub fn history_len(&self) -> (n: usize)
        ensures
            n == self.history().len(),
    {
        self.history.len()
    }

    /// Whether the application was asked to end.
    pub fn is_finished(&self) -> (b: bool)
        ensures
            b == self.finished(),
    {
        self.finished
    }

    /// Shows `page`. With `replace_history` the history is dropped;
    /// without, the page shown so far is the first to go back to.
    pub fn navigate_to(&mut self, page: Page<R>, replace_history: bool)
        requires
            old(self).wf(),
            page.wf(),
        ensures
            final(self).wf(),
            final(self).same_frame(old(self)),
            final(self).page() == page,
            final(self).history() == if replace_history {
                Seq::<Page<R>>::empty()
            } else {
                old(self).history().push(old(self).page())
            },
    {
        let mut page = page;
        if replace_history {
            self.history.clear();
            self.page = page;
        } else {
            core::mem::swap(&mut self.page, &mut page);
            self.history.push(page);
            assert forall|i: int| 0 <= i < self.history().len() implies (
            #[trigger] self.history()[i]).wf() by {
                if i < old(self).history().len() {
                    assert(self.history()[i] == old(self).history()[i]);
                } else {
                    assert(self.history()[i] == old(self).page());
                }
            }
        }
    }

    /// Shows the page that was shown before, if there is one.
    pub fn go_back(&mut self)
        requires
            old(self).wf(),
        ensures
            final(self).wf(),
            final(self).same_frame(old(self)),
            if old(self).history().len() > 0 {
                &&& final(self).page() == old(self).history().last()
                &&& final(self).history() == old(self).history().drop_last()
            } else {
                &&& final(self).page() == old(self).page()
                &&& final(self).history() == old(self).history()
            },
    {
        match self.history.pop() {
            Some(page) => {
                assert(page == old(self).history()[old(self).history().len() - 1]);
                self.page = page;
                assert forall|i: int| 0 <= i < self.history().len() implies (
                #[trigger] self.history()[i]).wf() by {
                    assert(self.history()[i] == old(self).history()[i]);
                }
            },
            None => {},
        }
    }

    /// The text of the alert for a clipboard that failed.
    pub open spec fn clipboard_alert(e: ClipboardAccessError) -> (Seq<char>, Seq<char>) {
        ("Clipboard Error"@, "Failed to set clipboard text: "@ + e.message_text())
    }

    /// The alert for a clipboard that failed with `e`.
    pub fn clipboard_failed(e: &ClipboardAccessError) -> (alert: (String, String))
        ensures
            (alert.0@, alert.1@) == Self::clipboard_alert(*e),
    {
        let cause = e.message();
        ("Clipboard Error".to_owned(), join("Failed to set clipboard text: ", cause.as_str()))
    }

    /// What applying a message makes of the application, and the effect it
    /// asks for.
    pub open spec fn message_applied(
        before: &Self,
        message: Message,
        after: &Self,
        effect: Effect,
    ) -> bool {
        &&& after.user() == before.user()
        &&& after.finished() == before.finished()
        &&& match message {
            Message::ShowScopes { parent } => {
                &&& after.alert() == before.alert()
                &&& after.navigation() == before.navigation()
                &&& after.history() == before.history().push(before.page())
                &&& after.page() matches Page::Scopes(scopes)
                &&& scopes.table().title() == crate::components::table::util::title_with_parent(
                    "Scopes"@,
                    match parent {
                        Some(p) => Some(p.name@),
                        None => None,
                    },
                )
                &&& scopes.table().is_loading()
                &&& scopes.table().items().len() == 0
                &&& effect matches Effect::Send(load)
                &&& ScopesPage::asks_for_scopes(load, parent)
            },
            Message::ShowTargets { parent } => {
                &&& after.alert() == before.alert()
                &&& after.navigation() == before.navigation()
                &&& after.history() == before.history().push(before.page())
                &&& after.page() matches Page::Targets(targets)
                &&& targets.parent() == parent
                &&& targets.table().title() == crate::components::table::util::title_with_parent(
                    "Targets"@,
                    Some(parent.name@),
                )
                &&& targets.table().is_loading()
                &&& targets.table().items().len() == 0
                &&& targets.connect_dialog() is None
                &&& targets.result_dialog() is None
                &&& effect matches Effect::Send(
                    Message::RunFuture(Background::LoadTargets { scope_id }),
                )
                &&& scope_id@ == parent.id@
            },
            Message::ShowSessions { scope, target } => {
                &&& after.alert() == before.alert()
                &&& after.navigation() == before.navigation()
                &&& after.history() == before.history().push(before.page())
                &&& after.page() matches Page::TargetSessions(sessions)
                &&& sessions.table().title() == crate::components::table::util::title_with_parent(
                    "Sessions"@,
                    Some(target.name@),
                )
                &&& sessions.table().is_loading()
                &&& sessions.table().items().len() == 0
                &&& effect matches Effect::Send(
                    Message::RunFuture(
                        Background::RefreshSessions(SessionsQuery::OfTarget { scope_id, target_id }),
                    ),
                )
                &&& scope_id == scope
                &&& target_id@ == target.id@
            },
            Message::NavigateToScopeTree => {
                &&& after.alert() == before.alert()
                &&& after.navigation() is None
                &&& after.history() == Seq::<Page<R>>::empty()
                &&& after.page() matches Page::Scopes(scopes)
                &&& scopes.table().title() == "Scopes"@
                &&& scopes.table().is_loading()
                &&& scopes.table().items().len() == 0
                &&& effect matches Effect::Send(load)
                &&& ScopesPage::asks_for_scopes(load, None)
            },
            Message::NavigateToMySessions => {
                &&& after.alert() == before.alert()
                &&& after.navigation() is None
                &&& after.history() == Seq::<Page<R>>::empty()
                &&& after.page() matches Page::UserSessions(sessions)
                &&& sessions.table().title() == crate::components::table::util::title_with_parent(
                    "Sessions"@,
                    Some("User"@),
                )
                &&& sessions.table().is_loading()
                &&& sessions.table().items().len() == 0
                &&& effect matches Effect::Send(
                    Message::RunFuture(
                        Background::RefreshSessions(SessionsQuery::OfUser { user_id }),
                    ),
                )
                &&& user_id@ == before.user()
            },
            Message::Connect { target_id, port } => {
                &&& after.unchanged(before)
                &&& effect == Effect::Connect { target_id, port }
            },
            Message::StopSession { session_id } => {
                &&& after.unchanged(before)
                &&& effect == Effect::StopSession { session_id }
            },
            Message::RunFuture(work) => {
                &&& after.unchanged(before)
                &&& effect == Effect::Run(work)
            },
            Message::GoBack => {
                &&& effect is Nothing
                &&& after.alert() == before.alert()
                &&& after.navigation() == before.navigation()
                &&& if before.history().len() > 0 {
                    &&& after.page() == before.history().last()
                    &&& after.history() == before.history().drop_last()
                } else {
                    &&& after.page() == before.page()
                    &&& after.history() == before.history()
                }
            },
            Message::ShowAlert(title, text) => {
                &&& effect is Nothing
                &&& after.alert() == Some((title@, text@))
                &&& after.navigation() == before.navigation()
                &&& after.page() == before.page()
                &&& after.history() == before.history()
            },
            Message::SetClipboard(_) => {
                &&& effect is Nothing
                &&& after.navigation() == before.navigation()
                &&& after.page() == before.page()
                &&& after.history() == before.history()
                &&& after.alert() == before.alert() || exists|e: ClipboardAccessError|
                    after.alert() == Some(#[trigger] Self::clipboard_alert(e))
            },
            Message::Targets(told) => {
                &&& effect is Nothing
                &&& after.alert() == before.alert()
                &&& after.navigation() == before.navigation()
                &&& after.history() == before.history()
                &&& match before.page() {
                    Page::Targets(targets) => after.page() matches Page::Targets(then)
                        && TargetsPage::<R>::message_applied(&targets, told, &then),
                    _ => after.page() == before.page(),
                }
            },
            Message::Scopes(told) => {
                &&& effect is Nothing
                &&& after.alert() == before.alert()
                &&& after.navigation() == before.navigation()
                &&& after.history() == before.history()
                &&& match before.page() {
                    Page::Scopes(scopes) => after.page() matches Page::Scopes(then)
                        && ScopesPage::message_applied(&scopes, told, &then),
                    _ => after.page() == before.page(),
                }
            },
            Message::SessionsPage(told) => {
                &&& effect is Nothing
                &&& after.alert() == before.alert()
                &&& after.navigation() == before.navigation()
                &&& after.history() == before.history()
                &&& match before.page() {
                    Page::TargetSessions(sessions) => after.page() matches Page::TargetSessions(
                        then,
                    ) && SessionsPage::message_applied(&sessions, told, &then),
                    Page::UserSessions(sessions) => after.page() matches Page::UserSessions(then)
                        && SessionsPage::message_applied(&sessions, told, &then),
                    _ => after.page() == before.page(),
                }
            },
        }
    }

    /// Applies a message.
    pub fn handle_message(&mut self, message: Message) -> (effect: Effect)
        requires
            old(self).wf(),
        ensures
            final(self).wf(),
            Self::message_applied(old(self), message, final(self), effect),
    {
        match message {
            Message::ShowScopes { parent } => {
                let (page, load) = ScopesPage::new(parent.as_ref());
                self.navigate_to(Page::Scopes(page), false);
                Effect::Send(load)
            },
            Message::ShowTargets { parent } => {
                let (page, load) = TargetsPage::new(parent, self.remember_user_input);
                self.navigate_to(Page::Targets(page), false);
                Effect::Send(load)
            },
            Message::Connect { target_id, port } => Effect::Connect { target_id, port },
            Message::ShowSessions { scope, target } => {
                let query = SessionsQuery::OfTarget { scope_id: scope, target_id: target.id.clone() };
                let (page, load) = SessionsPage::new(Some(target.name.as_str()), query);
                self.navigate_to(Page::TargetSessions(page), false);
                Effect::Send(load)
            },
            Message::StopSession { session_id } => Effect::StopSession { session_id },
            Message::ShowAlert(title, message) => {
                self.alert = Some((title, message));
                Effect::Nothing
            },
            Message::GoBack => {
                self.go_back();
                Effect::Nothing
            },
            Message::Targets(targets_message) => {
                match &mut self.page {
                    Page::Targets(targets_page) => {
                        targets_page.handle_message(targets_message);
                    },
                    _ => {},
                }
                Effect::Nothing
            },
            Message::SessionsPage(msg) => {
                match &mut self.page {
                    Page::TargetSessions(sessions_page) => {
                        sessions_page.handle_message(msg);
                    },
                    Page::UserSessions(sessions_page) => {
                        sessions_page.handle_message(msg);
                    },
                    _ => {},
                }
                Effect::Nothing
            },
            Message::NavigateToScopeTree => {
                self.navigation_input = None;
                let (page, load) = ScopesPage::new(None);
                self.navigate_to(Page::Scopes(page), true);
                Effect::Send(load)
            },
            Message::NavigateToMySessions => {
                self.navigation_input = None;
                let query = SessionsQuery::OfUser { user_id: self.user_id.clone() };
                let (page, load) = SessionsPage::new(Some("User"), query);
                self.navigate_to(Page::UserSessions(page), true);
                Effect::Send(load)
            },
            Message::RunFuture(future) => Effect::Run(future),
            Message::Scopes(scopes_message) => {
                match &mut self.page {
                    Page::Scopes(scopes_page) => {
                        scopes_page.handle_message(scopes_message);
                    },
                    _ => {},
                }
                Effect::Nothing
            },
            Message::SetClipboard(text) => {
                match self.clipboard.set_text(text) {
                    Err(e) => {
                        self.alert = Some(Self::clipboard_failed(&e));
                        assert(self.alert() == Some(Self::clipboard_alert(e)));
                    },
                    Ok(_) => {},
                }
                Effect::Nothing
            },
        }
    }

    /// What a key does before the page or the navigation line sees it: `:`
    /// opens the navigation line, and escape closes it while it is open.
    pub open spec fn opens_navigation(event: Event) -> bool {
        event.key_code() == Some(Key::Char(':'))
    }

    /// What handling an event makes of the application, and the effect it
    /// asks for.
    ///
    /// Enter acknowledges the alert, and the event goes on. `:` opens the
    /// navigation line afresh. While the line is open, escape closes it and
    /// everything else goes to it. Otherwise the event goes to the page.
    /// Whatever message comes of it is to be sent.
    pub open spec fn event_handled(
        before: &Self,
        event: Event,
        after: &Self,
        effect: Effect,
    ) -> bool {
        &&& after.user() == before.user()
        &&& after.finished() == before.finished()
        &&& after.history() == before.history()
        &&& after.alert() == if event.confirms() {
            None
        } else {
            before.alert()
        }
        &&& if Self::opens_navigation(event) {
            &&& after.page() == before.page()
            &&& after.navigation() matches Some(nav)
            &&& nav.typed() == Seq::<char>::empty()
            &&& effect is Nothing
        } else {
            match before.navigation() {
                Some(nav) => {
                    &&& after.page() == before.page()
                    &&& if event.key_code() == Some(Key::Esc) {
                        after.navigation() is None && effect is Nothing
                    } else {
                        exists|m: Option<Message>|
                            #![trigger delivery(m)]
                            {
                                &&& effect == delivery(m)
                                &&& after.navigation() matches Some(then)
                                &&& then.wf()
                                &&& match event.key_code() {
                                    Some(Key::Enter) => NavigationInput::destination(nav.typed(), m)
                                        && then.typed() == nav.typed(),
                                    Some(Key::Tab) => m is None && then.typed() == match nav.offered() {
                                        Some(option) => option,
                                        None => nav.typed(),
                                    },
                                    _ => m is None && then.typed() == nav.typed_after(event).0,
                                }
                            }
                    }
                },
                None => {
                    &&& after.navigation() is None
                    &&& exists|m: Option<Message>|
                        #![trigger delivery(m)]
                        effect == delivery(m) && Page::<R>::event_handled(
                            &before.page(),
                            event,
                            &after.page(),
                            m,
                        )
                },
            }
        }
    }

    /// Handles an event of the terminal.
    pub fn handle_event(&mut self, event: &Event) -> (effect: Effect)
        requires
            old(self).wf(),
        ensures
            final(self).wf(),
            Self::event_handled(old(self), *event, final(self), effect),
    {
        if self.alert.is_some() && event.is_enter() {
            self.alert = None;
        }
        match event {
            Event::Key(key_event) => {
                match key_event.code {
                    Key::Char(':') => {
                        self.navigation_input = Some(NavigationInput::new());
                        return Effect::Nothing;
                    },
                    Key::Esc => {
                        if self.navigation_input.is_some() {
                            self.navigation_input = None;
                            return Effect::Nothing;
                        }
                    },
                    _ => {},
                }
            },
            Event::Other => {},
        }
        if self.navigation_input.is_some() {
            let mut nav = self.navigation_input.take().unwrap();
            let m = nav.handle_event(event);
            self.navigation_input = Some(nav);
            let effect = deliver(m);
            assert(effect == delivery(m));
            return effect;
        }
        let m = self.page.handle_event(event);
        let effect = deliver(m);
        assert(effect == delivery(m));
        effect
    }

    /// The effect that reports what came of a connect request: the brokered
    /// session goes to the targets page, a failure becomes an alert.
    pub fn connected(result: Result<ConnectResponse, Error>) -> (effect: Effect)
        ensures
            match result {
                Ok(response) => effect == Effect::Send(
                    Message::Targets(TargetsPageMessage::ConnectedToTarget(response)),
                ),
                Err(e) => effect matches Effect::Send(Message::ShowAlert(title, text)) && title@
                    == "Error"@ && text@ == "Connection Error: "@ + e.message_text(),
            },
    {
        match result {
            Ok(resp) => Effect::Send(Message::Targets(TargetsPageMessage::ConnectedToTarget(resp))),
            Err(e) => {
                let cause = e.message();
                let alert = Message::show_error("Connection Error", cause.as_str());
                assert("Connection Error"@ + ": "@ + cause@ =~= "Connection Error: "@ + cause@) by {
                    reveal_strlit("Connection Error");
                    reveal_strlit(": ");
                    reveal_strlit("Connection Error: ");
                }
                Effect::Send(alert)
            },
        }
    }

    /// The effect that reports what came of a stop request: a failure
    /// becomes an alert.
    pub fn session_stopped(result: Result<(), ConnectionError>) -> (effect: Effect)
        ensures
            match result {
                Ok(_) => effect is Nothing,
                Err(e) => effect matches Effect::Send(Message::ShowAlert(title, text)) && title@
                    == "Error"@ && text@ == "Failed to stop session: "@ + e.message_text(),
            },
    {
        match result {
            Ok(_) => Effect::Nothing,
            Err(e) => {
                let cause = e.message();
                let alert = Message::show_error("Failed to stop session", cause.as_str());
                assert("Failed to stop session"@ + ": "@ + cause@ =~= "Failed to stop session: "@
                    + cause@) by {
                    reveal_strlit("Failed to stop session");
                    reveal_strlit(": ");
                    reveal_strlit("Failed to stop session: ");
                }
                Effect::Send(alert)
            },
        }
    }

    /// What one turn of the loop makes of the application, and the effect it
    /// asks for. A message is applied. An event that asks to stop ends the
    /// application and asks for the shutdown; any other event is handled.
    /// The end of background work changes nothing.
    pub open spec fn dispatched(
        before: &Self,
        incoming: Incoming,
        after: &Self,
        effect: Effect,
    ) -> bool {
        match incoming {
            Incoming::Command(message) => Self::message_applied(before, message, after, effect),
            Incoming::Input(event) => if event.asks_to_stop() {
                &&& effect is Shutdown
                &&& after.finished()
                &&& after.page() == before.page()
                &&& after.history() == before.history()
                &&& after.alert() == before.alert()
                &&& after.navigation() == before.navigation()
                &&& after.user() == before.user()
            } else {
                Self::event_handled(before, event, after, effect)
            },
            Incoming::BackgroundDone => effect is Nothing && after.unchanged(before),
        }
    }

    /// Takes one turn of the loop: applies exactly one message or event.
    pub fn dispatch(&mut self, incoming: Incoming) -> (effect: Effect)
        requires
            old(self).wf(),
        ensures
            final(self).wf(),
            Self::dispatched(old(self), incoming, final(self), effect),
    {
        match incoming {
            Incoming::Command(message) => self.handle_message(message),
            Incoming::Input(event) => {
                if event.is_stop() {
                    self.finished = true;
                    Effect::Shutdown
                } else {
                    self.handle_event(&event)
                }
            },
            Incoming::BackgroundDone => Effect::Nothing,
        }
    }
}

} // verus!
