use bountui::boundary::error::Error;
use bountui::boundary::models::{ConnectResponse, Timestamp};
use bountui::connection::manager::{collect_failures, ConnectionError, DefaultConnectionManager};
use bountui::connection::task::{
    wait_until_session_is_expired, ExpiryWait, Phase, SessionTask, TaskAction, Termination, Wait,
};

/// A tunnel that counts how often it was asked to stop.
struct Tunnel {
    stops: usize,
    stop_fails: bool,
}

/// What the manager keeps per session in these tests: whether the session's
/// task was signalled to stop.
#[derive(Debug, PartialEq)]
struct Signal {
    port: u16,
}

/// One supervised session: its task, its tunnel, and when its wait began.
struct Supervised {
    task: SessionTask,
    tunnel: Tunnel,
    started: Timestamp,
    cancelled: bool,
}

fn at(seconds: i64) -> Timestamp {
    Timestamp { seconds, nanos: 0 }
}

fn response(session_id: &str, expiration: Timestamp) -> ConnectResponse {
    ConnectResponse { credentials: vec![], session_id: session_id.to_string(), expiration }
}

fn connect(
    manager: &mut DefaultConnectionManager<Signal>,
    session_id: &str,
    port: u16,
    now: Timestamp,
    life_seconds: i64,
) -> Supervised {
    let expiration = at(now.seconds + life_seconds);
    let answer = manager.connect(Ok((response(session_id, expiration), Signal { port })));
    let answer = answer.expect("Should be able to connect to target");
    assert_eq!(answer.session_id, session_id);
    Supervised {
        task: SessionTask::new(answer.session_id, answer.expiration),
        tunnel: Tunnel { stops: 0, stop_fails: false },
        started: now,
        cancelled: false,
    }
}

/// Lets the supervised session see the clock at `now`: the first of
/// cancellation and expiry that has happened ends its wait.
fn poll(
    manager: &mut DefaultConnectionManager<Signal>,
    session: &mut Supervised,
    now: Timestamp,
) {
    let event = if session.cancelled {
        Some(Termination::Cancelled)
    } else {
        match session.task.expiry_wait(session.started) {
            ExpiryWait::After(wait) => {
                let wakes = session.started.seconds as i128 + wait.seconds as i128;
                if wakes <= now.seconds as i128 {
                    Some(Termination::Expired)
                } else {
                    None
                }
            }
            ExpiryWait::Never => None,
        }
    };
    if let Some(event) = event {
        if session.task.settle(event) == TaskAction::StopHandle {
            session.tunnel.stops += 1;
            let _ = session.tunnel.stop_fails;
        }
        session.task.finish(manager);
    }
}

fn stop(
    manager: &mut DefaultConnectionManager<Signal>,
    session: &mut Supervised,
    id: &str,
    cancelled: Result<(), Error>,
    now: Timestamp,
) -> Result<(), ConnectionError> {
    let entry = manager.stop(id, cancelled)?;
    let _ = entry.port;
    session.cancelled = true;
    poll(manager, session, now);
    Ok(())
}

#[test]
fn test_connection_is_closed_after_sessions_is_expired() {
    let session_id = "session-id";
    let mut sut = DefaultConnectionManager::new();
    let life = 8 * 60 * 60;
    let mut session = connect(&mut sut, session_id, 8080, at(0), life);
    assert!(sut.is_connected(session_id));
    poll(&mut sut, &mut session, at(life + 60));
    assert_eq!(session.tunnel.stops, 1);
    assert!(!sut.is_connected(session_id));
    assert_eq!(session.task.current_phase(), Phase::Finished(Termination::Expired));
}

#[test]
fn test_connection_is_not_closed_before_session_is_expired() {
    let session_id = "session-id";
    let mut sut = DefaultConnectionManager::new();
    let mut session = connect(&mut sut, session_id, 8080, at(0), 10);
    poll(&mut sut, &mut session, at(5));
    assert_eq!(session.tunnel.stops, 0);
    assert!(sut.is_connected(session_id));
    assert_eq!(session.task.current_phase(), Phase::Racing);
}

#[test]
fn test_stop_session() {
    let session_id = "session-id";
    let mut sut = DefaultConnectionManager::new();
    let mut session = connect(&mut sut, session_id, 8080, at(0), 8 * 60 * 60);
    stop(&mut sut, &mut session, session_id, Ok(()), at(5))
        .expect("Should be able to stop session");
    assert_eq!(session.tunnel.stops, 1);
    assert!(!sut.is_connected(session_id));
}

#[test]
fn test_shutdown() {
    let mut sut = DefaultConnectionManager::new();
    let mut sessions = vec![
        connect(&mut sut, "session_id_1", 8081, at(0), 8 * 60 * 60),
        connect(&mut sut, "session_id_2", 8082, at(0), 8 * 60 * 60),
        connect(&mut sut, "session_id_3", 8083, at(0), 8 * 60 * 60),
    ];
    assert_eq!(sut.active(), 3);

    let drained = sut.shutdown();
    assert_eq!(sut.active(), 0);
    let ids: Vec<&str> = drained.iter().map(|(id, _)| id.as_str()).collect();
    assert_eq!(ids, vec!["session_id_1", "session_id_2", "session_id_3"]);
    let ports: Vec<u16> = drained.iter().map(|(_, signal)| signal.port).collect();
    assert_eq!(ports, vec![8081, 8082, 8083]);

    let mut outcomes = Vec::new();
    for ((_, entry), session) in drained.into_iter().zip(sessions.iter_mut()) {
        let outcome = DefaultConnectionManager::stop_connection_entry(Ok(()), entry).map(|_| {
            session.cancelled = true;
            poll(&mut sut, session, at(5));
        });
        outcomes.push(outcome);
    }
    let result = collect_failures(outcomes);
    assert!(result.is_ok(), "The result should be Ok");
    for session in &sessions {
        assert_eq!(session.tunnel.stops, 1);
    }
    assert_eq!(sut.active(), 0);
}

#[test]
fn shutdown_collects_every_failure() {
    let mut sut = DefaultConnectionManager::new();
    for (id, port) in [("s1", 1u16), ("s2", 2), ("s3", 3), ("s4", 4)] {
        sut.connect(Ok((response(id, at(100)), Signal { port }))).unwrap();
    }
    let drained = sut.shutdown();
    assert_eq!(sut.active(), 0);
    let mut outcomes = Vec::new();
    for (id, entry) in drained {
        let cancelled = if id == "s2" || id == "s4" {
            Err(Error::ApiError(500, format!("cannot cancel {id}")))
        } else {
            Ok(())
        };
        outcomes.push(DefaultConnectionManager::stop_connection_entry(cancelled, entry).map(|_| ()));
    }
    match collect_failures(outcomes) {
        Ok(()) => panic!("two sessions failed to stop"),
        Err(errors) => {
            assert_eq!(errors.len(), 2);
            assert_eq!(errors[0].message(), "Boundary error: 500: cannot cancel s2");
            assert_eq!(errors[1].message(), "Boundary error: 500: cannot cancel s4");
        }
    }
    assert_eq!(sut.active(), 0);
}

#[test]
fn shutdown_of_an_empty_manager_succeeds() {
    let mut sut: DefaultConnectionManager<Signal> = DefaultConnectionManager::new();
    assert!(sut.shutdown().is_empty());
    assert!(collect_failures(vec![]).is_ok());
}

#[test]
fn session_expires_eleven_seconds_into_a_ten_second_life() {
    let mut sut = DefaultConnectionManager::new();
    let mut session = connect(&mut sut, "t1-session", 8080, at(1_000), 10);
    poll(&mut sut, &mut session, at(1_011));
    assert_eq!(session.tunnel.stops, 1);
    assert!(!sut.is_connected("t1-session"));
    // the task is over: nothing that comes later reaches the tunnel
    poll(&mut sut, &mut session, at(1_020));
    assert_eq!(session.task.settle(Termination::Cancelled), TaskAction::Nothing);
    assert_eq!(session.tunnel.stops, 1);
}

#[test]
fn stop_after_five_seconds_makes_the_expiry_moot() {
    let mut sut = DefaultConnectionManager::new();
    let mut session = connect(&mut sut, "t1-session", 8080, at(0), 10);
    stop(&mut sut, &mut session, "t1-session", Ok(()), at(5)).unwrap();
    assert_eq!(session.tunnel.stops, 1);
    assert!(!sut.is_connected("t1-session"));
    // the timer of the expiry branch would have fired at ten seconds
    assert_eq!(session.task.settle(Termination::Expired), TaskAction::Nothing);
    assert!(!session.task.finish(&mut sut));
    assert_eq!(session.tunnel.stops, 1);
    assert_eq!(session.task.current_phase(), Phase::Finished(Termination::Cancelled));
}

#[test]
fn stop_of_unknown_session_changes_nothing() {
    let mut sut = DefaultConnectionManager::new();
    sut.connect(Ok((response("known", at(10)), Signal { port: 1 }))).unwrap();
    match sut.stop("unknown", Ok(())) {
        Err(ConnectionError::StopFailedUnknownSessionId(id)) => assert_eq!(id, "unknown"),
        other => panic!("expected an unknown session, got {other:?}"),
    }
    assert_eq!(sut.active(), 1);
    assert!(sut.is_connected("known"));
}

#[test]
fn second_stop_reports_unknown_session() {
    let mut sut = DefaultConnectionManager::new();
    sut.connect(Ok((response("s", at(10)), Signal { port: 7 }))).unwrap();
    assert_eq!(sut.stop("s", Ok(())).unwrap(), Signal { port: 7 });
    let again = sut.stop("s", Ok(()));
    assert!(matches!(again, Err(ConnectionError::StopFailedUnknownSessionId(id)) if id == "s"));
    assert_eq!(
        sut.stop("s", Ok(())).unwrap_err().message(),
        "Failed to stop the connection: The session id 's' is unknown"
    );
}

#[test]
fn failed_remote_cancel_leaves_the_session_registered() {
    let mut sut = DefaultConnectionManager::new();
    sut.connect(Ok((response("s", at(10)), Signal { port: 7 }))).unwrap();
    let answer = sut.stop("s", Err(Error::ApiError(403, "forbidden".to_string())));
    match answer {
        Err(ConnectionError::BoundaryError(Error::ApiError(403, message))) => {
            assert_eq!(message, "forbidden")
        }
        other => panic!("expected the remote error, got {other:?}"),
    }
    assert!(sut.is_connected("s"));
    assert_eq!(sut.active(), 1);
}

#[test]
fn failed_connect_registers_nothing() {
    let mut sut: DefaultConnectionManager<Signal> = DefaultConnectionManager::new();
    let answer = sut.connect(Err(Error::CliError(Some(2), "no such target".to_string())));
    assert!(matches!(answer, Err(Error::CliError(Some(2), _))));
    assert_eq!(sut.active(), 0);
}

#[test]
fn connect_under_a_live_id_replaces_the_entry() {
    let mut sut = DefaultConnectionManager::new();
    sut.connect(Ok((response("s", at(10)), Signal { port: 1 }))).unwrap();
    sut.connect(Ok((response("s", at(20)), Signal { port: 2 }))).unwrap();
    assert_eq!(sut.active(), 1);
    assert_eq!(sut.stop("s", Ok(())).unwrap(), Signal { port: 2 });
}

#[test]
fn natural_completion_needs_no_stop() {
    let mut sut = DefaultConnectionManager::new();
    let mut session = connect(&mut sut, "s", 1, at(0), 10);
    assert_eq!(session.task.settle(Termination::HandleCompleted), TaskAction::Finish);
    assert!(session.task.finish(&mut sut));
    assert!(!sut.is_connected("s"));
    assert!(!session.task.finish(&mut sut));
    assert_eq!(session.task.current_phase(), Phase::Finished(Termination::HandleCompleted));
}

#[test]
fn only_the_first_event_acts() {
    let mut task = SessionTask::new("s".to_string(), at(10));
    assert_eq!(task.session_id(), "s");
    assert_eq!(task.settle(Termination::Expired), TaskAction::StopHandle);
    assert_eq!(task.settle(Termination::Cancelled), TaskAction::Nothing);
    assert_eq!(task.settle(Termination::HandleCompleted), TaskAction::Nothing);
    assert_eq!(task.current_phase(), Phase::Settled(Termination::Expired));
    assert!(Termination::Cancelled.stops_handle());
    assert!(Termination::Expired.stops_handle());
    assert!(!Termination::HandleCompleted.stops_handle());
}

#[test]
fn finish_before_the_race_is_decided_does_nothing() {
    let mut sut = DefaultConnectionManager::new();
    let mut session = connect(&mut sut, "s", 1, at(0), 10);
    assert!(!session.task.finish(&mut sut));
    assert!(sut.is_connected("s"));
    assert_eq!(session.task.current_phase(), Phase::Racing);
}

#[test]
fn expiry_wait_is_the_time_left() {
    let expiration = Timestamp { seconds: 100, nanos: 250 };
    let now = Timestamp { seconds: 89, nanos: 750 };
    assert_eq!(
        wait_until_session_is_expired(expiration, now),
        ExpiryWait::After(Wait { seconds: 10, nanos: 999_999_500 })
    );
    assert_eq!(
        wait_until_session_is_expired(expiration, expiration),
        ExpiryWait::After(Wait { seconds: 0, nanos: 0 })
    );
}

#[test]
fn past_expiration_waits_forever() {
    assert_eq!(wait_until_session_is_expired(at(10), at(11)), ExpiryWait::Never);
    assert_eq!(
        wait_until_session_is_expired(
            Timestamp { seconds: 10, nanos: 0 },
            Timestamp { seconds: 10, nanos: 1 }
        ),
        ExpiryWait::Never
    );
    assert_eq!(wait_until_session_is_expired(at(i64::MIN), at(i64::MAX)), ExpiryWait::Never);
}

#[test]
fn unrepresentable_wait_is_forever() {
    let far = Timestamp { seconds: i64::MAX, nanos: 2_000_000_000 };
    let long_ago = Timestamp { seconds: i64::MIN, nanos: 0 };
    assert_eq!(wait_until_session_is_expired(far, long_ago), ExpiryWait::Never);
    assert_eq!(
        wait_until_session_is_expired(at(i64::MAX), long_ago),
        ExpiryWait::After(Wait { seconds: u64::MAX, nanos: 0 })
    );
}
