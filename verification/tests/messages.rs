use bountui::boundary::error::Error;
use bountui::boundary::models::{
    ConnectResponse, Credential, CredentialEntry, CredentialSource, Timestamp,
};
use bountui::event_ext::{EditKey, Key};
use bountui::message::{
    Message, ScopesPageMessage, SessionsPageMessage, TargetsPageMessage, SESSIONS_REFRESH_SECONDS,
};
use bountui::widgets::connection_result_dialog::ConnectResponseDialog;

fn alert(message: Message) -> (String, String) {
    match message {
        Message::ShowAlert(title, text) => (title, text),
        _ => panic!("expected an alert"),
    }
}

#[test]
fn fetched_rows_go_to_their_page() {
    assert!(matches!(
        Message::scopes_loaded(Ok(vec![])),
        Message::Scopes(ScopesPageMessage::ScopesLoaded(scopes)) if scopes.is_empty()
    ));
    assert!(matches!(
        Message::targets_loaded(Ok(vec![])),
        Message::Targets(TargetsPageMessage::TargetsLoaded(targets)) if targets.is_empty()
    ));
    assert!(matches!(
        Message::sessions_loaded(Ok(vec![])),
        Message::SessionsPage(SessionsPageMessage::SessionsLoaded(sessions)) if sessions.is_empty()
    ));
}

#[test]
fn failed_fetches_become_alerts() {
    let failure = || Error::ApiError(401, "unauthenticated".to_string());
    assert_eq!(
        alert(Message::scopes_loaded(Err(failure()))),
        ("Error".to_string(), "Failed to load scopes: 401: unauthenticated".to_string())
    );
    assert_eq!(
        alert(Message::targets_loaded(Err(failure()))),
        ("Error".to_string(), "Failed to load targets: 401: unauthenticated".to_string())
    );
    assert_eq!(
        alert(Message::sessions_loaded(Err(failure()))),
        ("Error".to_string(), "Error loading sessions: 401: unauthenticated".to_string())
    );
}

#[test]
fn sessions_are_fetched_every_five_seconds() {
    assert_eq!(SESSIONS_REFRESH_SECONDS, 5);
}

#[test]
fn only_some_keys_edit_text() {
    assert_eq!(Key::Backspace.edit_key(), Some(EditKey::Backspace));
    assert_eq!(Key::Delete.edit_key(), Some(EditKey::Delete));
    assert_eq!(Key::Left.edit_key(), Some(EditKey::Left));
    assert_eq!(Key::Right.edit_key(), Some(EditKey::Right));
    assert_eq!(Key::Home.edit_key(), Some(EditKey::Home));
    assert_eq!(Key::End.edit_key(), Some(EditKey::End));
    assert_eq!(Key::Char('x').edit_key(), Some(EditKey::Char('x')));
    for key in [Key::Enter, Key::Esc, Key::Tab, Key::Up, Key::Down, Key::PageUp, Key::PageDown, Key::Other]
    {
        assert_eq!(key.edit_key(), None);
    }
}

#[test]
fn response_dialog_lists_the_credentials() {
    let entry = |username: &str, password: &str| CredentialEntry {
        credential: Credential { username: username.to_string(), password: password.to_string() },
        credential_source: CredentialSource { name: "vault".to_string() },
    };
    let response = ConnectResponse {
        credentials: vec![entry("admin", "secret"), entry("reader", "")],
        session_id: "s_1".to_string(),
        expiration: Timestamp { seconds: 0, nanos: 0 },
    };
    let dialog = ConnectResponseDialog::new(&response);
    assert_eq!(dialog.title(), "Success");
    assert_eq!(
        dialog.lines(),
        vec!["", "Connection established", "", "admin: secret", "", "reader: "]
    );

    let bare = ConnectResponse {
        credentials: vec![],
        session_id: "s_2".to_string(),
        expiration: Timestamp { seconds: 0, nanos: 0 },
    };
    assert_eq!(ConnectResponseDialog::new(&bare).lines(), vec!["", "Connection established"]);
}
