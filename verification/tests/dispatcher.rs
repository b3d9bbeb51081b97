use bountui::boundary::error::Error;
use bountui::boundary::models::{
    CollectionActions, ConnectResponse, Scope, Session, SessionWithTarget, Target, Timestamp,
};
use bountui::clipboard::{BrokenClipboard, ClipboardAccess, ClipboardAccessError};
use bountui::connection::manager::ConnectionError;
use bountui::dispatcher::{BountuiApp, Effect, Incoming, Page};
use bountui::event_ext::{Event, Key, KeyPress};
use bountui::message::{
    Background, Message, ScopesPageMessage, SessionsPageMessage, SessionsQuery, TargetsPageMessage,
};
use bountui::remember_user_input::{RememberUserInput, UserInputError};
use std::cell::RefCell;
use std::rc::Rc;

fn key(code: Key) -> Event {
    Event::Key(KeyPress::plain(code))
}

fn key_char(c: char) -> Event {
    key(Key::Char(c))
}

/// A place that remembers nothing.
#[derive(Clone, Copy)]
struct NoMemory;

impl RememberUserInput for NoMemory {
    fn store_local_port(&mut self, _target: String, _port: u16) -> Result<(), UserInputError> {
        Ok(())
    }

    fn get_local_port(&self, _target_id: &String) -> Result<Option<u16>, UserInputError> {
        Ok(Some(2222))
    }
}

/// A clipboard that records what it is given and answers as it is told.
struct MockClipboardAccess {
    texts: Rc<RefCell<Vec<String>>>,
    answer: Result<(), ClipboardAccessError>,
}

impl MockClipboardAccess {
    fn new() -> Self {
        MockClipboardAccess { texts: Rc::new(RefCell::new(vec![])), answer: Ok(()) }
    }
}

impl ClipboardAccess for MockClipboardAccess {
    fn set_text(&mut self, text: String) -> Result<(), ClipboardAccessError> {
        self.texts.borrow_mut().push(text);
        self.answer.clone()
    }
}

type App = BountuiApp<Option<NoMemory>, MockClipboardAccess>;

fn app(clipboard: MockClipboardAccess, memory: Option<NoMemory>) -> App {
    let (app, load) = BountuiApp::new("user-1".to_string(), memory, clipboard);
    assert!(matches!(load, Message::RunFuture(Background::LoadScopes { parent_id: None })));
    app
}

fn scope(id: &str, grants: &[(&str, &str)]) -> Scope {
    Scope {
        id: id.to_string(),
        name: format!("{id}-name"),
        description: "".to_string(),
        resource_type: "project".to_string(),
        authorized_collection_actions: grants
            .iter()
            .map(|(collection, action)| CollectionActions {
                collection: collection.to_string(),
                actions: vec![action.to_string()],
            })
            .collect(),
    }
}

fn target(id: &str) -> Target {
    Target {
        id: id.to_string(),
        name: format!("{id}-name"),
        description: "".to_string(),
        resource_type: "tcp".to_string(),
        authorized_collection_actions: vec![],
        authorized_actions: vec!["authorize-session".to_string()],
        scope_id: "p_1".to_string(),
    }
}

fn response(session_id: &str) -> ConnectResponse {
    ConnectResponse {
        credentials: vec![],
        session_id: session_id.to_string(),
        expiration: Timestamp { seconds: 10, nanos: 0 },
    }
}

fn title(page: &Page<Option<NoMemory>>) -> String {
    match page {
        Page::Scopes(p) => p.table_page().title_text().to_string(),
        Page::Targets(p) => p.table_page().title_text().to_string(),
        Page::TargetSessions(p) => p.table_page().title_text().to_string(),
        Page::UserSessions(p) => p.table_page().title_text().to_string(),
    }
}

#[test]
fn set_clipboard_success_clears_alert() {
    let mock_clip = MockClipboardAccess::new();
    let texts = mock_clip.texts.clone();
    let remember_user_input: Option<NoMemory> = None;
    let mut app = app(mock_clip, remember_user_input);

    app.handle_message(Message::SetClipboard("hello".to_string()));

    assert!(app.current_alert().is_none(), "Alert should not be set on clipboard success");
    assert_eq!(*texts.borrow(), vec!["hello".to_string()]);
}

#[test]
fn set_clipboard_error_sets_alert() {
    let mut mock_clip = MockClipboardAccess::new();
    mock_clip.answer = Err(ClipboardAccessError::Unknown("boom".to_string()));
    let texts = mock_clip.texts.clone();
    let remember_user_input: Option<NoMemory> = None;
    let mut app = app(mock_clip, remember_user_input);

    app.handle_message(Message::SetClipboard("oops".to_string()));

    match app.current_alert() {
        Some((title, msg)) => {
            assert_eq!(title, "Clipboard Error");
            assert_eq!(
                msg,
                "Failed to set clipboard text: Unknown error while interacting with the clipboard: boom"
            );
        }
        None => panic!("Expected clipboard error alert to be set"),
    }
    assert_eq!(*texts.borrow(), vec!["oops".to_string()]);
}

#[test]
fn broken_clipboard_always_fails() {
    let mut clipboard = BrokenClipboard::new(ClipboardAccessError::ClipboardOccupied);
    for _ in 0..2 {
        match clipboard.set_text("x".to_string()) {
            Err(ClipboardAccessError::ClipboardOccupied) => {}
            other => panic!("unexpected {other:?}"),
        }
    }
    let (mut app, _) =
        BountuiApp::new("u".to_string(), NoMemory, BrokenClipboard::new(ClipboardAccessError::ConversionFailure));
    app.handle_message(Message::SetClipboard("x".to_string()));
    let (title, text) = app.current_alert().unwrap();
    assert_eq!(title, "Clipboard Error");
    assert_eq!(
        text,
        "Failed to set clipboard text: The image or the text that was about the be transferred to/from the clipboard could not be converted to the appropriate format."
    );
}

#[test]
fn clipboard_errors_read_as_documented() {
    assert_eq!(
        ClipboardAccessError::ContentNotAvailable.message(),
        "The clipboard contents were not available in the requested format or the clipboard is empty."
    );
    assert_eq!(
        ClipboardAccessError::ClipboardNotSupported.message(),
        "The selected clipboard is not supported with the current system configuration."
    );
    assert_eq!(
        ClipboardAccessError::ClipboardOccupied.message(),
        "The native clipboard is not accessible due to being held by an other party."
    );
    assert_eq!(
        ClipboardAccessError::Unknown("x".to_string()).message(),
        "Unknown error while interacting with the clipboard: x"
    );
}

#[test]
fn application_starts_on_the_top_scopes() {
    let app = app(MockClipboardAccess::new(), None);
    assert_eq!(title(app.current_page()), "Scopes");
    assert_eq!(app.history_len(), 0);
    assert!(app.current_alert().is_none());
    assert!(app.navigation_input().is_none());
    assert!(!app.is_finished());
}

#[test]
fn showing_pages_builds_a_history() {
    let mut app = app(MockClipboardAccess::new(), None);
    let parent = scope("o_1", &[("scopes", "list")]);
    match app.handle_message(Message::ShowScopes { parent: Some(parent) }) {
        Effect::Send(Message::RunFuture(Background::LoadScopes { parent_id })) => {
            assert_eq!(parent_id, Some("o_1".to_string()))
        }
        _ => panic!("expected the scopes to be fetched"),
    }
    assert_eq!(title(app.current_page()), "Scopes(o_1-name)");
    assert_eq!(app.history_len(), 1);

    match app.handle_message(Message::ShowTargets { parent: scope("p_1", &[]) }) {
        Effect::Send(Message::RunFuture(Background::LoadTargets { scope_id })) => {
            assert_eq!(scope_id, "p_1")
        }
        _ => panic!("expected the targets to be fetched"),
    }
    assert_eq!(title(app.current_page()), "Targets(p_1-name)");
    assert_eq!(app.history_len(), 2);

    match app.handle_message(Message::ShowSessions { scope: "p_1".to_string(), target: target("t_1") }) {
        Effect::Send(Message::RunFuture(Background::RefreshSessions(SessionsQuery::OfTarget {
            scope_id,
            target_id,
        }))) => {
            assert_eq!(scope_id, "p_1");
            assert_eq!(target_id, "t_1");
        }
        _ => panic!("expected the sessions to be fetched"),
    }
    assert_eq!(title(app.current_page()), "Sessions(t_1-name)");
    assert!(matches!(app.current_page(), Page::TargetSessions(_)));
    assert_eq!(app.history_len(), 3);

    assert!(matches!(app.handle_message(Message::GoBack), Effect::Nothing));
    assert_eq!(title(app.current_page()), "Targets(p_1-name)");
    app.handle_message(Message::GoBack);
    app.handle_message(Message::GoBack);
    assert_eq!(title(app.current_page()), "Scopes");
    assert_eq!(app.history_len(), 0);
    app.handle_message(Message::GoBack);
    assert_eq!(title(app.current_page()), "Scopes");
}

#[test]
fn navigating_to_a_root_page_drops_the_history() {
    let mut app = app(MockClipboardAccess::new(), None);
    app.handle_message(Message::ShowTargets { parent: scope("p_1", &[]) });
    app.handle_event(&key_char(':'));
    assert!(app.navigation_input().is_some());
    match app.handle_message(Message::NavigateToMySessions) {
        Effect::Send(Message::RunFuture(Background::RefreshSessions(SessionsQuery::OfUser { user_id }))) => {
            assert_eq!(user_id, "user-1")
        }
        _ => panic!("expected the user's sessions to be fetched"),
    }
    assert!(matches!(app.current_page(), Page::UserSessions(_)));
    assert_eq!(title(app.current_page()), "Sessions(User)");
    assert_eq!(app.history_len(), 0);
    assert!(app.navigation_input().is_none());

    app.handle_message(Message::ShowTargets { parent: scope("p_1", &[]) });
    match app.handle_message(Message::NavigateToScopeTree) {
        Effect::Send(Message::RunFuture(Background::LoadScopes { parent_id: None })) => {}
        _ => panic!("expected the top scopes to be fetched"),
    }
    assert_eq!(title(app.current_page()), "Scopes");
    assert_eq!(app.history_len(), 0);
}

#[test]
fn work_for_the_runtime_is_handed_on() {
    let mut app = app(MockClipboardAccess::new(), None);
    match app.handle_message(Message::Connect { target_id: "t1".to_string(), port: 8080 }) {
        Effect::Connect { target_id, port } => {
            assert_eq!(target_id, "t1");
            assert_eq!(port, 8080);
        }
        _ => panic!("expected a connect request"),
    }
    match app.handle_message(Message::StopSession { session_id: "s1".to_string() }) {
        Effect::StopSession { session_id } => assert_eq!(session_id, "s1"),
        _ => panic!("expected a stop request"),
    }
    let work = Background::LoadTargets { scope_id: "p".to_string() };
    match app.handle_message(Message::RunFuture(work)) {
        Effect::Run(Background::LoadTargets { scope_id }) => assert_eq!(scope_id, "p"),
        _ => panic!("expected background work"),
    }
    assert_eq!(app.history_len(), 0);
    assert_eq!(title(app.current_page()), "Scopes");
}

#[test]
fn outcomes_come_back_as_messages() {
    match App::connected(Ok(response("s1"))) {
        Effect::Send(Message::Targets(TargetsPageMessage::ConnectedToTarget(r))) => {
            assert_eq!(r.session_id, "s1")
        }
        _ => panic!("expected the brokered session"),
    }
    match App::connected(Err(Error::ApiError(500, "down".to_string()))) {
        Effect::Send(Message::ShowAlert(title, text)) => {
            assert_eq!(title, "Error");
            assert_eq!(text, "Connection Error: 500: down");
        }
        _ => panic!("expected an alert"),
    }
    assert!(matches!(App::session_stopped(Ok(())), Effect::Nothing));
    let unknown = ConnectionError::StopFailedUnknownSessionId("s9".to_string());
    match App::session_stopped(Err(unknown)) {
        Effect::Send(Message::ShowAlert(title, text)) => {
            assert_eq!(title, "Error");
            assert_eq!(
                text,
                "Failed to stop session: Failed to stop the connection: The session id 's9' is unknown"
            );
        }
        _ => panic!("expected an alert"),
    }
    let remote = ConnectionError::from(Error::Io("pipe".to_string()));
    match App::session_stopped(Err(remote)) {
        Effect::Send(Message::ShowAlert(_, text)) => assert_eq!(
            text,
            "Failed to stop session: Boundary error: An error occurred while executing the command: pipe"
        ),
        _ => panic!("expected an alert"),
    }
}

#[test]
fn alert_is_shown_until_enter() {
    let mut app = app(MockClipboardAccess::new(), None);
    app.handle_message(Message::ShowAlert("Error".to_string(), "nope".to_string()));
    assert_eq!(app.current_alert(), Some(("Error", "nope")));
    app.handle_event(&key(Key::Down));
    assert_eq!(app.current_alert(), Some(("Error", "nope")));
    app.handle_event(&key(Key::Enter));
    assert!(app.current_alert().is_none());
}

#[test]
fn page_messages_reach_only_their_page() {
    let mut app = app(MockClipboardAccess::new(), None);
    // a targets message on the scopes page is dropped
    app.handle_message(Message::Targets(TargetsPageMessage::TargetsLoaded(vec![target("t")])));
    app.handle_message(Message::SessionsPage(SessionsPageMessage::SessionsLoaded(vec![])));
    match app.current_page() {
        Page::Scopes(page) => {
            assert!(page.table_page().loading());
            assert!(page.table_page().all_items().is_empty());
        }
        _ => panic!("expected the scopes page"),
    }
    let loaded = vec![scope("b", &[]), scope("a", &[])];
    app.handle_message(Message::from(ScopesPageMessage::ScopesLoaded(loaded)));
    match app.current_page() {
        Page::Scopes(page) => {
            assert!(!page.table_page().loading());
            assert_eq!(page.table_page().all_items()[0].id, "a");
        }
        _ => panic!("expected the scopes page"),
    }
    app.handle_message(Message::ShowTargets { parent: scope("p_1", &[]) });
    app.handle_message(Message::from(TargetsPageMessage::TargetsLoaded(vec![target("t")])));
    app.handle_message(Message::Scopes(ScopesPageMessage::ScopesLoaded(vec![])));
    match app.current_page() {
        Page::Targets(page) => assert_eq!(page.table_page().all_items().len(), 1),
        _ => panic!("expected the targets page"),
    }
    app.handle_message(Message::NavigateToMySessions);
    let session = SessionWithTarget {
        session: Session {
            id: "s".to_string(),
            target_id: "t".to_string(),
            user_id: "user-1".to_string(),
            session_type: "tcp".to_string(),
            created_time: Timestamp { seconds: 0, nanos: 0 },
            status: "active".to_string(),
            authorized_actions: vec![],
        },
        target: target("t"),
    };
    app.handle_message(Message::from(SessionsPageMessage::SessionsLoaded(vec![session])));
    match app.current_page() {
        Page::UserSessions(page) => assert_eq!(page.table_page().all_items().len(), 1),
        _ => panic!("expected the user's sessions"),
    }
}

#[test]
fn colon_opens_the_navigation_line() {
    let mut app = app(MockClipboardAccess::new(), None);
    assert!(matches!(app.handle_event(&key_char(':')), Effect::Nothing));
    for c in "my".chars() {
        assert!(matches!(app.handle_event(&key_char(c)), Effect::Nothing));
    }
    assert_eq!(app.navigation_input().unwrap().value(), "my");
    app.handle_event(&key(Key::Tab));
    assert_eq!(app.navigation_input().unwrap().value(), "my-sessions");
    assert!(matches!(
        app.handle_event(&key(Key::Enter)),
        Effect::Send(Message::NavigateToMySessions)
    ));
    // the page below has not seen any of this
    assert_eq!(title(app.current_page()), "Scopes");
    // `:` starts the line afresh, escape closes it
    app.handle_event(&key_char(':'));
    assert_eq!(app.navigation_input().unwrap().value(), "");
    assert!(matches!(app.handle_event(&key(Key::Esc)), Effect::Nothing));
    assert!(app.navigation_input().is_none());
    // without the line, escape goes to the page
    assert!(matches!(app.handle_event(&key(Key::Esc)), Effect::Send(Message::GoBack)));
}

#[test]
fn events_reach_the_page() {
    let mut app = app(MockClipboardAccess::new(), None);
    let loaded = vec![scope("a", &[("targets", "list")])];
    app.handle_message(Message::Scopes(ScopesPageMessage::ScopesLoaded(loaded)));
    assert!(matches!(app.handle_event(&key(Key::Down)), Effect::Nothing));
    match app.handle_event(&key(Key::Enter)) {
        Effect::Send(Message::ShowTargets { parent }) => assert_eq!(parent.id, "a"),
        _ => panic!("expected the targets"),
    }
    assert!(matches!(app.handle_event(&Event::Other), Effect::Nothing));
}

#[test]
fn remembered_port_reaches_the_connect_dialog() {
    let mut app = app(MockClipboardAccess::new(), Some(NoMemory));
    app.handle_message(Message::ShowTargets { parent: scope("p_1", &[]) });
    app.handle_message(Message::Targets(TargetsPageMessage::TargetsLoaded(vec![target("t")])));
    app.handle_event(&key(Key::Down));
    app.handle_event(&key_char('c'));
    app.handle_event(&key(Key::Tab));
    app.handle_event(&key(Key::Right));
    match app.handle_event(&key(Key::Enter)) {
        Effect::Send(Message::Connect { target_id, port }) => {
            assert_eq!(target_id, "t");
            assert_eq!(port, 2222);
        }
        _ => panic!("expected a connect request"),
    }
}

#[test]
fn one_turn_applies_one_thing() {
    let mut app = app(MockClipboardAccess::new(), None);
    let alert = Message::ShowAlert("a".to_string(), "b".to_string());
    assert!(matches!(app.dispatch(Incoming::Command(alert)), Effect::Nothing));
    assert_eq!(app.current_alert(), Some(("a", "b")));
    assert!(matches!(app.dispatch(Incoming::BackgroundDone), Effect::Nothing));
    assert!(matches!(app.dispatch(Incoming::Input(key_char(':'))), Effect::Nothing));
    assert!(app.navigation_input().is_some());
    assert!(!app.is_finished());
}

#[test]
fn stop_chord_asks_for_the_shutdown() {
    let mut app = app(MockClipboardAccess::new(), None);
    app.handle_message(Message::ShowAlert("a".to_string(), "b".to_string()));
    let stop = Event::Key(KeyPress::control(Key::Char('c')));
    assert!(matches!(app.dispatch(Incoming::Input(stop)), Effect::Shutdown));
    assert!(app.is_finished());
    assert_eq!(app.current_alert(), Some(("a", "b")));
    assert!(matches!(app.dispatch(Incoming::Input(key_char('c'))), Effect::Nothing));
}

#[test]
fn errors_are_shown_with_what_was_tried() {
    match Message::show_error("Error loading sessions", "404: gone") {
        Message::ShowAlert(title, text) => {
            assert_eq!(title, "Error");
            assert_eq!(text, "Error loading sessions: 404: gone");
        }
        _ => panic!("expected an alert"),
    }
}

#[test]
fn option_without_a_place_remembers_nothing() {
    let mut nowhere: Option<NoMemory> = None;
    assert!(nowhere.store_local_port("t".to_string(), 1).is_ok());
    assert!(matches!(nowhere.get_local_port(&"t".to_string()), Ok(None)));
    let mut somewhere = Some(NoMemory);
    assert!(somewhere.store_local_port("t".to_string(), 1).is_ok());
    assert!(matches!(somewhere.get_local_port(&"t".to_string()), Ok(Some(2222))));
}
