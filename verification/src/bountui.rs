use crate::components::alerts::Alerts;
use crate::event_ext::{Event, Key, MODIFIER_CONTROL};
use crate::router::Router;
use crate::routes::Routes;
use std::rc::Rc;
use vstd::prelude::*;

verus! {

/// The page that is shown, told by what it shows.
#[derive(Debug)]
pub enum Pages {
    Scopes { parent: Option<String> },
    Targets { scope: String },
    Sessions { scope_id: String, target_id: String },
}

/// The page that a route leads to.
pub open spec fn page_of(route: Routes) -> Pages {
    match route {
        Routes::Scopes { parent } => Pages::Scopes { parent },
        Routes::Targets { scope } => Pages::Targets { scope },
        Routes::Sessions { scope_id, target_id } => Pages::Sessions { scope_id, target_id },
    }
}

/// Who gets an event.
#[derive(Clone, Copy, Debug, PartialEq, Eq, Structural)]
pub enum Offer {
    /// Nobody: the event asked the application to end.
    Finished,
    /// Nobody else: an alert was shown and took the event.
    Consumed,
    /// The page that is shown. What it made of the event is to be reported
    /// with `page_handled`.
    ToPage,
}

/// An application that finds its pages through a router: pages ask the
/// router for another page, and the application follows.
pub struct Bountui {
    user_id: String,
    finished: bool,
    router: Router<Routes>,
    page: Pages,
    alerts: Alerts,
}

impl Bountui {
    /// Whether the application was asked to end.
    pub closed spec fn finished(&self) -> bool {
        self.finished
    }

    /// The router.
    pub closed spec fn router(&self) -> Router<Routes> {
        self.router
    }

    /// The page that is shown.
    pub closed spec fn page(&self) -> Pages {
        self.page
    }

    /// The alerts.
    pub closed spec fn alerts(&self) -> Alerts {
        self.alerts
    }

    /// The user.
    pub closed spec fn user(&self) -> Seq<char> {
        self.user_id@
    }

    /// An application that shows the top scopes.
    pub fn new(user_id: String, router: Router<Routes>, alerts: Alerts) -> (app: Self)
        ensures
            app.user() == user_id@,
            !app.finished(),
            app.router() == router,
            app.alerts() == alerts,
            app.page() == (Pages::Scopes { parent: None }),
    {
        Bountui { user_id, finished: false, router, page: Pages::Scopes { parent: None }, alerts }
    }

    /// Whether the application was asked to end.
    pub fn is_finished(&self) -> (b: bool)
        ensures
            b == self.finished(),
    {
        self.finished
    }

    /// The page that is shown.
    pub fn current_page(&self) -> (page: &Pages)
        ensures
            *page == self.page(),
    {
        &self.page
    }

    /// The router, for a page to ask for another page.
    pub fn router_mut(&mut self) -> (router: &mut Router<Routes>)
        ensures
            *router == old(self).router(),
            final(self).router() == *final(router),
            final(self).finished() == old(self).finished(),
            final(self).page() == old(self).page(),
            final(self).alerts() == old(self).alerts(),
            final(self).user() == old(self).user(),
    {
        &mut self.router
    }

    /// The alerts, for a page to raise one.
    pub fn alerts_mut(&mut self) -> (alerts: &mut Alerts)
        ensures
            *alerts == old(self).alerts(),
            final(self).alerts() == *final(alerts),
            final(self).finished() == old(self).finished(),
            final(self).page() == old(self).page(),
            final(self).router() == old(self).router(),
            final(self).user() == old(self).user(),
    {
        &mut self.alerts
    }

    /// Whether an event asks the application to end: the key `c` with control
    /// held, whatever else is held.
    pub open spec fn asks_to_end(event: Event) -> bool {
        event matches Event::Key(press) && press.code == Key::Char('c') && press.modifiers
            & MODIFIER_CONTROL == MODIFIER_CONTROL
    }

    /// Ends the application where the event asks for it, and says whether it
    /// did.
    pub fn check_ctrl_c(&mut self, event: &Event) -> (asked: bool)
        ensures
            asked == Self::asks_to_end(*event),
            final(self).finished() == (old(self).finished() || asked),
            final(self).router() == old(self).router(),
            final(self).page() == old(self).page(),
            final(self).alerts() == old(self).alerts(),
            final(self).user() == old(self).user(),
    {
        match event {
            Event::Key(key_event) => {
                if key_event.code == Key::Char('c') && key_event.modifiers & MODIFIER_CONTROL
                    == MODIFIER_CONTROL {
                    self.finished = true;
                    return true;
                }
            },
            Event::Other => {},
        }
        false
    }

    fn show(&mut self, route: &Routes)
        ensures
            final(self).page() == page_of(*route),
            final(self).finished() == old(self).finished(),
            final(self).router() == old(self).router(),
            final(self).alerts() == old(self).alerts(),
            final(self).user() == old(self).user(),
    {
        self.page = match route.clone() {
            Routes::Scopes { parent } => Pages::Scopes { parent },
            Routes::Targets { scope } => Pages::Targets { scope },
            Routes::Sessions { scope_id, target_id } => Pages::Sessions { scope_id, target_id },
        };
    }

    /// Follows the router: where it announces a page, that page is shown.
    pub fn poll_router_change(&mut self) -> (changed: Option<Rc<Routes>>)
        ensures
            changed == old(self).router().pending(),
            final(self).router().pending() is None,
            final(self).router().pages() == old(self).router().pages(),
            final(self).page() == match old(self).router().pending() {
                Some(route) => page_of(*route),
                None => old(self).page(),
            },
            final(self).finished() == old(self).finished(),
            final(self).alerts() == old(self).alerts(),
            final(self).user() == old(self).user(),
    {
        let changed = self.router.poll_change();
        match &changed {
            Some(new_route) => {
                self.show(new_route);
            },
            None => {},
        }
        changed
    }

    /// Who gets an event: nobody where it asks the application to end,
    /// else the alerts where one is shown, else the page.
    pub open spec fn offered(&self, event: Event) -> Offer {
        if Self::asks_to_end(event) {
            Offer::Finished
        } else if self.alerts()@.len() > 0 {
            Offer::Consumed
        } else {
            Offer::ToPage
        }
    }

    /// Takes an event and says who gets it. An alert that takes the event is
    /// acknowledged by enter.
    pub fn handle_event(&mut self, event: &Event) -> (offer: Offer)
        ensures
            offer == old(self).offered(*event),
            final(self).finished() == (old(self).finished() || offer == Offer::Finished),
            final(self).router() == old(self).router(),
            final(self).page() == old(self).page(),
            final(self).user() == old(self).user(),
            final(self).alerts()@ == if offer == Offer::Consumed && event.key_code() == Some(
                Key::Enter,
            ) {
                old(self).alerts()@.drop_last()
            } else {
                old(self).alerts()@
            },
    {
        if self.check_ctrl_c(event) {
            return Offer::Finished;
        }
        if self.alerts.handle_event(event).handled() {
            return Offer::Consumed;
        }
        Offer::ToPage
    }

    /// Ends the handling of an event that went to the page. Where the page
    /// did not handle it and it is escape, the router goes back. Then
    /// the router is followed.
    pub fn page_handled(&mut self, event: &Event, handled: bool) -> (changed: Option<Rc<Routes>>)
        ensures
            final(self).finished() == old(self).finished(),
            final(self).alerts() == old(self).alerts(),
            final(self).user() == old(self).user(),
            final(self).router().pending() is None,
            ({
                let back = !handled && event.key_code() == Some(Key::Esc) && old(self).router().pages().len() > 1;
                &&& final(self).router().pages() == if back {
                    old(self).router().pages().drop_last()
                } else {
                    old(self).router().pages()
                }
                &&& changed == if back {
                    Some(final(self).router().pages().last())
                } else {
                    old(self).router().pending()
                }
                &&& final(self).page() == match changed {
                    Some(route) => page_of(*route),
                    None => old(self).page(),
                }
            }),
    {
        if !handled {
            match event {
                Event::Key(key_event) => {
                    if key_event.code == Key::Esc {
                        self.router.pop();
                    }
                },
                Event::Other => {},
            }
        }
        self.poll_router_change()
    }
}

} // verus!
