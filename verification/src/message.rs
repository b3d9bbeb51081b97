use crate::boundary::models::{ConnectResponse, Scope, SessionWithTarget, Target};
use crate::boundary::error::Error;
use crate::text::{join, join3};
use vstd::prelude::*;

verus! {

/// What the scopes page is told.
pub enum ScopesPageMessage {
    ScopesLoaded(Vec<Scope>),
}

/// What the targets page is told.
pub enum TargetsPageMessage {
    ConnectedToTarget(ConnectResponse),
    TargetsLoaded(Vec<Target>),
}

/// What a sessions page is told.
pub enum SessionsPageMessage {
    SessionsLoaded(Vec<SessionWithTarget>),
}

/// Which sessions a sessions page shows.
pub enum SessionsQuery {
    /// The sessions of one target.
    OfTarget { scope_id: String, target_id: String },
    /// The sessions of one user, over all scopes.
    OfUser { user_id: String },
}

/// Work that runs in the background and reports back with a message.
pub enum Background {
    /// Fetch the scopes under a parent, or the top scopes.
    LoadScopes { parent_id: Option<String> },
    /// Fetch the targets of a scope.
    LoadTargets { scope_id: String },
    /// Fetch sessions now and then again every few seconds, until the page
    /// that asked is left.
    RefreshSessions(SessionsQuery),
}

/// A request to change the application's state. Every change goes through a
/// message, and messages are applied one at a time.
pub enum Message {
    ShowScopes { parent: Option<Scope> },
    ShowTargets { parent: Scope },
    ShowSessions { scope: String, target: Target },
    Connect { target_id: String, port: u16 },
    StopSession { session_id: String },
    GoBack,
    ShowAlert(String, String),
    SetClipboard(String),
    Targets(TargetsPageMessage),
    Scopes(ScopesPageMessage),
    SessionsPage(SessionsPageMessage),
    NavigateToScopeTree,
    NavigateToMySessions,
    RunFuture(Background),
}

impl Message {
    /// The alert that reports a failure: titled `Error`, it reads what was
    /// tried, a colon, and the error.
    pub fn show_error(message: &str, error: &str) -> (m: Message)
        ensures
            m matches Message::ShowAlert(title, text) && title@ == "Error"@ && text@ == message@
                + ": "@ + error@,
    {
        Message::ShowAlert("Error".to_owned(), join3(message, ": ", error))
    }
}

/// How many seconds pass between two fetches of a sessions page.
pub const SESSIONS_REFRESH_SECONDS: u64 = 5;

impl Message {
    /// The message that reports how fetching scopes ended: the scopes for the
    /// scopes page, or an alert.
    pub fn scopes_loaded(result: Result<Vec<Scope>, Error>) -> (m: Message)
        ensures
            match result {
                Ok(scopes) => m == Message::Scopes(ScopesPageMessage::ScopesLoaded(scopes)),
                Err(e) => m matches Message::ShowAlert(title, text) && title@ == "Error"@ && text@
                    == "Failed to load scopes: "@ + e.message_text(),
            },
    {
        match result {
            Ok(scopes) => Message::Scopes(ScopesPageMessage::ScopesLoaded(scopes)),
            Err(e) => {
                let cause = e.message();
                Message::ShowAlert(
                    "Error".to_owned(),
                    join("Failed to load scopes: ", cause.as_str()),
                )
            },
        }
    }

    /// The message that reports how fetching targets ended: the targets for
    /// the targets page, or an alert.
    pub fn targets_loaded(result: Result<Vec<Target>, Error>) -> (m: Message)
        ensures
            match result {
                Ok(targets) => m == Message::Targets(TargetsPageMessage::TargetsLoaded(targets)),
                Err(e) => m matches Message::ShowAlert(title, text) && title@ == "Error"@ && text@
                    == "Failed to load targets: "@ + e.message_text(),
            },
    {
        match result {
            Ok(targets) => Message::Targets(TargetsPageMessage::TargetsLoaded(targets)),
            Err(e) => {
                let cause = e.message();
                Message::ShowAlert(
                    "Error".to_owned(),
                    join("Failed to load targets: ", cause.as_str()),
                )
            },
        }
    }

    /// The message that reports how fetching sessions ended: the sessions for
    /// the sessions page, or an alert.
    pub fn sessions_loaded(result: Result<Vec<SessionWithTarget>, Error>) -> (m: Message)
        ensures
            match result {
                Ok(sessions) => m == Message::SessionsPage(
                    SessionsPageMessage::SessionsLoaded(sessions),
                ),
                Err(e) => m matches Message::ShowAlert(title, text) && title@ == "Error"@ && text@
                    == "Error loading sessions"@ + ": "@ + e.message_text(),
            },
    {
        match result {
            Ok(sessions) => Message::SessionsPage(SessionsPageMessage::SessionsLoaded(sessions)),
            Err(e) => {
                let cause = e.message();
                Message::show_error("Error loading sessions", cause.as_str())
            },
        }
    }
}

impl From<ScopesPageMessage> for Message {
    fn from(value: ScopesPageMessage) -> (m: Message) {
        Message::Scopes(value)
    }
}

impl vstd::std_specs::convert::FromSpecImpl<ScopesPageMessage> for Message {
    open spec fn obeys_from_spec() -> bool {
        true
    }

    open spec fn from_spec(value: ScopesPageMessage) -> Message {
        Message::Scopes(value)
    }
}

impl From<TargetsPageMessage> for Message {
    fn from(value: TargetsPageMessage) -> (m: Message) {
        Message::Targets(value)
    }
}

impl vstd::std_specs::convert::FromSpecImpl<TargetsPageMessage> for Message {
    open spec fn obeys_from_spec() -> bool {
        true
    }

    open spec fn from_spec(value: TargetsPageMessage) -> Message {
        Message::Targets(value)
    }
}

impl From<SessionsPageMessage> for Message {
    fn from(value: SessionsPageMessage) -> (m: Message) {
        Message::SessionsPage(value)
    }
}

impl vstd::std_specs::convert::FromSpecImpl<SessionsPageMessage> for Message {
    open spec fn obeys_from_spec() -> bool {
        true
    }

    open spec fn from_spec(value: SessionsPageMessage) -> Message {
        Message::SessionsPage(value)
    }
}

} // verus!
