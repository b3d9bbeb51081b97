use bountui::boundary::client::{
    collect_user_sessions, combine_sessions_with_target, first_response, read_exit,
    scopes_listing_sessions, CliClient, OutputReading,
};
use bountui::boundary::error::Error;
use bountui::boundary::models::{
    clone_grants, clone_strings, has_action, is_granted, CollectionActions, Scope, Session,
    SessionWithTarget, Target, Timestamp,
};
use bountui::boundary::response::{ApiError, ErrorResponse, ItemResponse, ListResponse};
use bountui::text::{join, join3, render_signed, render_unsigned, same_text};

fn grant(collection: &str, actions: &[&str]) -> CollectionActions {
    CollectionActions {
        collection: collection.to_string(),
        actions: actions.iter().map(|a| a.to_string()).collect(),
    }
}

fn scope(id: &str, grants: Vec<CollectionActions>) -> Scope {
    Scope {
        id: id.to_string(),
        name: format!("{id}-name"),
        description: format!("{id}-description"),
        resource_type: "scope".to_string(),
        authorized_collection_actions: grants,
    }
}

fn target(id: &str, name: &str, actions: &[&str]) -> Target {
    Target {
        id: id.to_string(),
        name: name.to_string(),
        description: "".to_string(),
        resource_type: "tcp".to_string(),
        authorized_collection_actions: vec![],
        authorized_actions: actions.iter().map(|a| a.to_string()).collect(),
        scope_id: "p_1".to_string(),
    }
}

fn session(id: &str, target_id: &str, user_id: &str) -> Session {
    Session {
        id: id.to_string(),
        target_id: target_id.to_string(),
        user_id: user_id.to_string(),
        session_type: "tcp".to_string(),
        created_time: Timestamp { seconds: 0, nanos: 0 },
        status: "active".to_string(),
        authorized_actions: vec!["cancel:self".to_string()],
    }
}

#[test]
fn numbers_are_written_in_decimal() {
    assert_eq!(render_unsigned(0), "0");
    assert_eq!(render_unsigned(7), "7");
    assert_eq!(render_unsigned(10), "10");
    assert_eq!(render_unsigned(8080), "8080");
    assert_eq!(render_unsigned(65535), "65535");
    assert_eq!(render_unsigned(u64::MAX), "18446744073709551615");
    assert_eq!(render_signed(0), "0");
    assert_eq!(render_signed(-1), "-1");
    assert_eq!(render_signed(-130), "-130");
    assert_eq!(render_signed(42), "42");
    assert_eq!(render_signed(i64::MIN), "-9223372036854775808");
    assert_eq!(render_signed(i64::MAX), "9223372036854775807");
}

#[test]
fn texts_are_joined_and_compared() {
    assert_eq!(join("ab", "cd"), "abcd");
    assert_eq!(join("", ""), "");
    assert_eq!(join3("a", "", "c"), "ac");
    assert!(same_text("héllo", "héllo"));
    assert!(!same_text("hello", "Hello"));
    assert!(!same_text("hello", "hell"));
}

#[test]
fn error_messages_read_as_documented() {
    assert_eq!(
        Error::Io("no such file".to_string()).message(),
        "An error occurred while executing the command: no such file"
    );
    assert_eq!(
        Error::CliError(Some(2), "ignored".to_string()).message(),
        "boundary cli returned an error code: Some(2)"
    );
    assert_eq!(
        Error::CliError(Some(-9), "".to_string()).message(),
        "boundary cli returned an error code: Some(-9)"
    );
    assert_eq!(
        Error::CliError(None, "killed".to_string()).message(),
        "boundary cli returned an error code: None"
    );
    assert_eq!(Error::ApiError(404, "not found".to_string()).message(), "404: not found");
    assert_eq!(
        Error::JsonError("expected value".to_string()).message(),
        "An error occurred while parsing JSON: expected value"
    );
}

#[test]
fn refusal_becomes_an_api_error() {
    let response = ErrorResponse {
        status_code: 403,
        api_error: ApiError { message: "forbidden".to_string() },
    };
    match Error::from_error_response(response) {
        Error::ApiError(403, message) => assert_eq!(message, "forbidden"),
        other => panic!("unexpected {other:?}"),
    }
}

#[test]
fn envelopes_hand_out_their_content() {
    let listing = ListResponse { items: Some(vec![1, 2, 3]) };
    assert_eq!(listing.into_items(), vec![1, 2, 3]);
    let nothing: ListResponse<u8> = ListResponse { items: None };
    assert!(nothing.into_items().is_empty());
    assert_eq!(ItemResponse { item: "x" }.item, "x");
}

#[test]
fn scope_permissions_follow_its_grants() {
    let both = scope("s", vec![grant("scopes", &["create", "list"]), grant("targets", &["list"])]);
    assert!(both.can_list_child_scopes());
    assert!(both.can_list_targets());
    assert!(!both.can_list_sessions());

    let none = scope("s", vec![grant("scopes", &["create"]), grant("target", &["list"])]);
    assert!(!none.can_list_child_scopes());
    assert!(!none.can_list_targets());

    let empty = scope("s", vec![]);
    assert!(!empty.can_list_child_scopes());
    assert!(!empty.can_list_targets());

    let sessions = scope("s", vec![grant("sessions", &["list"])]);
    assert!(sessions.can_list_sessions());
}

#[test]
fn target_and_session_permissions() {
    assert!(target("t", "n", &["read", "authorize-session"]).can_connect());
    assert!(!target("t", "n", &["read"]).can_connect());
    assert!(!target("t", "n", &[]).can_connect());
    assert!(session("s", "t", "u").can_cancel());
    let mut frozen = session("s", "t", "u");
    frozen.authorized_actions = vec!["read:self".to_string()];
    assert!(!frozen.can_cancel());
}

#[test]
fn grants_and_actions_are_looked_up_exactly() {
    let actions = vec!["list".to_string(), "read".to_string()];
    assert!(has_action(&actions, "read"));
    assert!(!has_action(&actions, "rea"));
    assert!(!has_action(&actions, "READ"));
    let grants = vec![grant("a", &["x"]), grant("b", &["y"]), grant("a", &["z"])];
    assert!(is_granted(&grants, "a", "x"));
    assert!(is_granted(&grants, "a", "z"));
    assert!(!is_granted(&grants, "a", "y"));
    assert!(!is_granted(&grants, "c", "x"));
}

#[test]
fn copies_equal_what_they_copy() {
    let first = scope("s", vec![grant("scopes", &["list"])]);
    assert_eq!(first.clone(), first);
    let t = target("t", "name", &["authorize-session"]);
    assert_eq!(t.clone(), t);
    let s = session("s", "t", "u");
    assert_eq!(s.clone(), s);
    let both = SessionWithTarget::new(s.clone(), t.clone());
    assert_eq!(both.clone(), both);
    assert_eq!(both.session, s);
    assert_eq!(both.target, t);
    let strings = vec!["a".to_string(), "".to_string()];
    assert_eq!(clone_strings(&strings), strings);
    let grants = vec![grant("a", &["x", "y"])];
    assert_eq!(clone_grants(&grants), grants);
}

#[test]
fn timestamps_compare_by_instant() {
    let early = Timestamp { seconds: 10, nanos: 999_999_999 };
    let late = Timestamp { seconds: 11, nanos: 0 };
    assert!(early.not_after(&late));
    assert!(!late.not_after(&early));
    assert!(early.not_after(&early));
    assert_eq!(early.total_nanos(), 10_999_999_999);
    assert_eq!(Timestamp { seconds: -1, nanos: 1 }.total_nanos(), -999_999_999);
}

#[test]
fn timestamps_are_written_by_the_calendar() {
    assert_eq!(
        Timestamp { seconds: 0, nanos: 0 }.to_text(),
        Some("1970-01-01 00:00:00 UTC".to_string())
    );
    assert_eq!(
        Timestamp { seconds: 1431648000, nanos: 0 }.to_text(),
        Some("2015-05-15 00:00:00 UTC".to_string())
    );
    assert_eq!(
        Timestamp { seconds: 1, nanos: 500_000_000 }.to_text(),
        Some("1970-01-01 00:00:01.500 UTC".to_string())
    );
    assert_eq!(Timestamp { seconds: i64::MAX, nanos: 0 }.to_text(), None);
}

#[test]
fn sessions_are_paired_with_their_targets() {
    let sessions = vec![session("s1", "t2", "u"), session("s2", "gone", "u"), session("s3", "t1", "u")];
    let targets = vec![target("t1", "one", &[]), target("t2", "two", &[]), target("t1", "again", &[])];
    let combined = combine_sessions_with_target(sessions, targets);
    assert_eq!(combined.len(), 2);
    assert_eq!(combined[0].session.id, "s1");
    assert_eq!(combined[0].target.name, "two");
    assert_eq!(combined[1].session.id, "s3");
    assert_eq!(combined[1].target.name, "one");
    assert!(combine_sessions_with_target(vec![], vec![target("t", "n", &[])]).is_empty());
    assert!(combine_sessions_with_target(vec![session("s", "t", "u")], vec![]).is_empty());
}

#[test]
fn only_scopes_that_list_sessions_are_kept() {
    let scopes = vec![
        scope("a", vec![grant("sessions", &["list"])]),
        scope("b", vec![grant("targets", &["list"])]),
        scope("c", vec![grant("sessions", &["read", "list"])]),
    ];
    let kept = scopes_listing_sessions(scopes);
    let ids: Vec<&str> = kept.iter().map(|s| s.id.as_str()).collect();
    assert_eq!(ids, vec!["a", "c"]);
}

#[test]
fn user_sessions_are_gathered_in_order() {
    let listings = vec![
        Ok(vec![session("s1", "t", "me"), session("s2", "t", "you")]),
        Ok(vec![]),
        Ok(vec![session("s3", "t", "me")]),
    ];
    let sessions = collect_user_sessions(listings, "me").unwrap();
    let ids: Vec<&str> = sessions.iter().map(|s| s.id.as_str()).collect();
    assert_eq!(ids, vec!["s1", "s3"]);
}

#[test]
fn first_failed_listing_fails_the_whole() {
    let listings = vec![
        Ok(vec![session("s1", "t", "me")]),
        Err(Error::ApiError(500, "first".to_string())),
        Err(Error::ApiError(501, "second".to_string())),
    ];
    match collect_user_sessions(listings, "me") {
        Err(Error::ApiError(500, message)) => assert_eq!(message, "first"),
        other => panic!("unexpected {other:?}"),
    }
}

#[test]
fn exit_codes_are_read() {
    assert!(matches!(read_exit(Some(0), "".to_string()), OutputReading::Answer));
    assert!(matches!(read_exit(Some(1), "{}".to_string()), OutputReading::Refusal));
    match read_exit(Some(3), "boom".to_string()) {
        OutputReading::Failed(Error::CliError(Some(3), text)) => assert_eq!(text, "boom"),
        _ => panic!("expected a failure"),
    }
    match read_exit(None, "killed".to_string()) {
        OutputReading::Failed(Error::CliError(None, text)) => assert_eq!(text, "killed"),
        _ => panic!("expected a failure"),
    }
    assert!(matches!(read_exit(Some(-1), "".to_string()), OutputReading::Failed(_)));
}

#[test]
fn missing_connect_response_is_reported() {
    assert_eq!(first_response(Some("{}".to_string())).unwrap(), "{}");
    match first_response(None) {
        Err(Error::CliError(None, reason)) => assert_eq!(reason, "No response from boundary"),
        other => panic!("unexpected {other:?}"),
    }
}

#[test]
fn commands_carry_their_arguments() {
    type Client = CliClient<()>;
    assert_eq!(Client::scopes_command(None, false), vec!["scopes", "list", "-format", "json"]);
    assert_eq!(
        Client::scopes_command(Some("o_1"), true),
        vec!["scopes", "list", "-format", "json", "-scope-id", "o_1", "-recursive"]
    );
    assert_eq!(
        Client::scopes_command(None, true),
        vec!["scopes", "list", "-format", "json", "-recursive"]
    );
    assert_eq!(Client::targets_command(None), vec!["targets", "list", "-format", "json"]);
    assert_eq!(
        Client::targets_command(Some("p_1")),
        vec!["targets", "list", "-format", "json", "-scope-id", "p_1"]
    );
    assert_eq!(
        Client::sessions_command("p_1"),
        vec!["sessions", "list", "-scope-id", "p_1", "-format", "json"]
    );
    assert_eq!(
        Client::connect_command("ttcp_1", 8080),
        vec!["connect", "-target-id", "ttcp_1", "-listen-port", "8080", "-format", "json"]
    );
    assert_eq!(
        Client::cancel_session_command("s_1"),
        vec!["sessions", "cancel", "-id", "s_1", "-format", "json"]
    );
    assert_eq!(Client::authenticate_command(), vec!["authenticate", "-format", "json"]);
}

#[test]
fn default_client_runs_boundary() {
    let client = CliClient::default_client();
    assert_eq!(client.bin_path(), "boundary");
    let other = CliClient::new("/opt/boundary".to_string(), 7u8);
    assert_eq!(other.bin_path(), "/opt/boundary");
    assert_eq!(*other.command_runner(), 7);
}
