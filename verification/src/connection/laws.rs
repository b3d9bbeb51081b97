use crate::boundary::error::Error;
use crate::boundary::models::{ConnectResponse, Timestamp};
use crate::connection::manager::{
    failure_count, failures, sessions_after_connect, sessions_after_stop, shutdown_outcomes,
    stop_answers, ConnectionError,
};
use crate::connection::task::{
    expiry_wait, phase_after, remaining_nanos, settle_action, settle_phase, stop_requests,
    ExpiryWait, Phase, TaskAction, Termination,
};
use vstd::prelude::*;

verus! {

/// Once the race is decided, no run of further events changes the phase or
/// asks for the tunnel to be stopped.
pub proof fn law_decided_race_is_final(phase: Phase, events: Seq<Termination>)
    requires
        phase != Phase::Racing,
    ensures
        phase_after(phase, events) == phase,
        stop_requests(phase, events) == 0,
    decreases events.len(),
{
    if events.len() > 0 {
        law_decided_race_is_final(phase, events.drop_last());
    }
}

/// The first event of a race decides it alone: the tunnel is stopped once
/// where that event is a cancellation or the expiry, never where the tunnel
/// ended by itself, whatever events follow.
pub proof fn law_first_event_decides(first: Termination, later: Seq<Termination>)
    ensures
        phase_after(Phase::Racing, seq![first] + later) == Phase::Settled(first),
        stop_requests(Phase::Racing, seq![first] + later) == if first.needs_stop() {
            1nat
        } else {
            0nat
        },
    decreases later.len(),
{
    let events = seq![first] + later;
    if later.len() == 0 {
        assert(events.drop_last() =~= Seq::<Termination>::empty());
        assert(events.last() == first);
        assert(phase_after(Phase::Racing, events.drop_last()) == Phase::Racing);
        assert(stop_requests(Phase::Racing, events.drop_last()) == 0);
    } else {
        assert(events.drop_last() =~= seq![first] + later.drop_last());
        law_first_event_decides(first, later.drop_last());
    }
}

/// A task asks at most once for its tunnel to be stopped, whatever events
/// reach it and in whatever order.
pub proof fn law_stop_at_most_once(events: Seq<Termination>)
    ensures
        stop_requests(Phase::Racing, events) <= 1,
{
    if events.len() > 0 {
        let first = events[0];
        let later = events.subrange(1, events.len() as int);
        assert(events =~= seq![first] + later);
        law_first_event_decides(first, later);
    }
}

/// A session that is connected and at once stopped: the stop request hands
/// out the entry that the connect request registered, the registry holds no
/// entry for the id afterwards, the task's own removal then finds nothing to
/// remove, and the task, woken by the cancellation, asks exactly once for the
/// tunnel to be stopped, whatever reaches it later.
pub proof fn law_connect_then_stop<E>(
    sessions: Map<Seq<char>, E>,
    response: ConnectResponse,
    entry: E,
    answer: Result<E, ConnectionError>,
    later: Seq<Termination>,
)
    requires
        stop_answers(
            sessions_after_connect(sessions, Ok::<(ConnectResponse, E), Error>((response, entry))),
            response.session_id@,
            Ok::<(), Error>(()),
            answer,
        ),
    ensures
        answer == Ok::<E, ConnectionError>(entry),
        !sessions_after_stop(
            sessions_after_connect(sessions, Ok::<(ConnectResponse, E), Error>((response, entry))),
            response.session_id@,
            Ok::<(), Error>(()),
        ).contains_key(response.session_id@),
        sessions_after_stop(
            sessions_after_connect(sessions, Ok::<(ConnectResponse, E), Error>((response, entry))),
            response.session_id@,
            Ok::<(), Error>(()),
        ).remove(response.session_id@) == sessions_after_stop(
            sessions_after_connect(sessions, Ok::<(ConnectResponse, E), Error>((response, entry))),
            response.session_id@,
            Ok::<(), Error>(()),
        ),
        stop_requests(Phase::Racing, seq![Termination::Cancelled] + later) == 1,
        phase_after(Phase::Racing, seq![Termination::Cancelled] + later) == Phase::Settled(
            Termination::Cancelled,
        ),
{
    let connected = sessions_after_connect(
        sessions,
        Ok::<(ConnectResponse, E), Error>((response, entry)),
    );
    let stopped = sessions_after_stop(connected, response.session_id@, Ok::<(), Error>(()));
    assert(stopped.remove(response.session_id@) =~= stopped);
    law_first_event_decides(Termination::Cancelled, later);
}

/// A session whose expiration is not yet past when its task starts to wait:
/// the expiry branch sleeps once, for exactly the time that is left (where
/// that can be told as a span). When it wakes before any other event, the
/// task asks exactly once for the tunnel to be stopped, and its removal takes
/// the entry out of the registry; a second removal changes nothing.
pub proof fn law_expiry_ends_session<E>(
    sessions: Map<Seq<char>, E>,
    id: Seq<char>,
    expiration: Timestamp,
    now: Timestamp,
    later: Seq<Termination>,
)
    requires
        remaining_nanos(expiration, now) >= 0,
        remaining_nanos(expiration, now) / 1_000_000_000 <= u64::MAX,
    ensures
        expiry_wait(expiration, now) matches ExpiryWait::After(wait) && wait.seconds
            * 1_000_000_000 + wait.nanos == remaining_nanos(expiration, now),
        settle_action(Phase::Racing, Termination::Expired) == TaskAction::StopHandle,
        stop_requests(Phase::Racing, seq![Termination::Expired] + later) == 1,
        phase_after(Phase::Racing, seq![Termination::Expired] + later) == Phase::Settled(
            Termination::Expired,
        ),
        !sessions.remove(id).contains_key(id),
        sessions.remove(id).remove(id) == sessions.remove(id),
{
    law_first_event_decides(Termination::Expired, later);
    assert(sessions.remove(id).remove(id) =~= sessions.remove(id));
}

/// An expiration that is already past never wakes the expiry branch.
pub proof fn law_past_expiration_never_wakes(expiration: Timestamp, now: Timestamp)
    requires
        remaining_nanos(expiration, now) < 0,
    ensures
        expiry_wait(expiration, now) == ExpiryWait::Never,
{
}

/// A stop request for an id without a live session changes nothing, whatever
/// the remote side answered, and reports the id as unknown where the remote
/// side had cancelled.
pub proof fn law_stop_unknown_changes_nothing<E>(
    sessions: Map<Seq<char>, E>,
    id: Seq<char>,
    cancelled: Result<(), Error>,
    answer: Result<E, ConnectionError>,
)
    requires
        !sessions.contains_key(id),
        stop_answers(sessions, id, cancelled, answer),
    ensures
        sessions_after_stop(sessions, id, cancelled) == sessions,
        answer is Err,
        cancelled is Ok ==> (answer matches Err(
            ConnectionError::StopFailedUnknownSessionId(unknown),
        ) && unknown@ == id),
{
    assert(sessions.remove(id) =~= sessions);
}

/// After a stop request has taken a session out, a second stop request for
/// the same id finds it unknown and changes nothing.
pub proof fn law_second_stop_finds_nothing<E>(
    sessions: Map<Seq<char>, E>,
    id: Seq<char>,
    second: Result<E, ConnectionError>,
)
    requires
        stop_answers(
            sessions_after_stop(sessions, id, Ok::<(), Error>(())),
            id,
            Ok::<(), Error>(()),
            second,
        ),
    ensures
        second matches Err(ConnectionError::StopFailedUnknownSessionId(unknown)) && unknown@ == id,
        sessions_after_stop(
            sessions_after_stop(sessions, id, Ok::<(), Error>(())),
            id,
            Ok::<(), Error>(()),
        ) == sessions_after_stop(sessions, id, Ok::<(), Error>(())),
{
    assert(sessions.remove(id).remove(id) =~= sessions.remove(id));
}

/// As many errors are collected as sessions failed to stop.
pub proof fn law_failures_are_counted(outcomes: Seq<Result<(), ConnectionError>>)
    ensures
        failures(outcomes).len() == failure_count(outcomes),
        failure_count(outcomes) <= outcomes.len(),
    decreases outcomes.len(),
{
    if outcomes.len() > 0 {
        law_failures_are_counted(outcomes.drop_last());
    }
}

/// Where every session stopped, nothing is collected.
pub proof fn law_no_failure_nothing_collected(outcomes: Seq<Result<(), ConnectionError>>)
    requires
        forall|i: int| 0 <= i < outcomes.len() ==> (#[trigger] outcomes[i]) is Ok,
    ensures
        failures(outcomes) == Seq::<ConnectionError>::empty(),
        failure_count(outcomes) == 0,
    decreases outcomes.len(),
{
    if outcomes.len() > 0 {
        let before = outcomes.drop_last();
        assert forall|i: int| 0 <= i < before.len() implies (#[trigger] before[i]) is Ok by {
            assert(before[i] == outcomes[i]);
        }
        law_no_failure_nothing_collected(before);
        assert(outcomes.last() == outcomes[outcomes.len() - 1]);
    }
}

/// How many of the remote side's answers are failures.
pub open spec fn failed_cancellations(cancellations: Seq<Result<(), Error>>) -> nat
    decreases cancellations.len(),
{
    if cancellations.len() == 0 {
        0
    } else {
        failed_cancellations(cancellations.drop_last()) + if cancellations.last() is Err {
            1nat
        } else {
            0nat
        }
    }
}

/// A shutdown collects one error for each session that the remote side
/// failed to cancel, and nothing where it cancelled them all.
pub proof fn law_shutdown_reports_failed_cancellations(cancellations: Seq<Result<(), Error>>)
    ensures
        failures(shutdown_outcomes(cancellations)).len() == failed_cancellations(cancellations),
        (forall|i: int| 0 <= i < cancellations.len() ==> (#[trigger] cancellations[i]) is Ok)
            ==> failures(shutdown_outcomes(cancellations)) == Seq::<ConnectionError>::empty(),
    decreases cancellations.len(),
{
    let outcomes = shutdown_outcomes(cancellations);
    if cancellations.len() > 0 {
        let before = cancellations.drop_last();
        law_shutdown_reports_failed_cancellations(before);
        assert(outcomes.drop_last() =~= shutdown_outcomes(before));
        assert(outcomes.last() is Err == cancellations.last() is Err);
        if forall|i: int| 0 <= i < cancellations.len() ==> (#[trigger] cancellations[i]) is Ok {
            assert forall|i: int| 0 <= i < outcomes.len() implies (#[trigger] outcomes[i]) is Ok by {
                assert(cancellations[i] is Ok);
            }
            law_no_failure_nothing_collected(outcomes);
        }
    } else {
        assert(outcomes =~= Seq::<Result<(), ConnectionError>>::empty());
    }
}

/// Every collected error is the failure of one session, and the failures keep
/// the order of the sessions.
pub proof fn law_failures_keep_order(outcomes: Seq<Result<(), ConnectionError>>, i: int, j: int)
    requires
        0 <= i < j < failures(outcomes).len(),
    ensures
        exists|a: int, b: int|
            0 <= a < b < outcomes.len() && outcomes[a] == Err::<(), ConnectionError>(
                failures(outcomes)[i],
            ) && outcomes[b] == Err::<(), ConnectionError>(failures(outcomes)[j]),
    decreases outcomes.len(),
{
    let before = outcomes.drop_last();
    let n = outcomes.len() - 1;
    law_failures_are_counted(before);
    if j < failures(before).len() {
        law_failures_keep_order(before, i, j);
        let (a, b) = choose|a: int, b: int|
            0 <= a < b < before.len() && before[a] == Err::<(), ConnectionError>(
                failures(before)[i],
            ) && before[b] == Err::<(), ConnectionError>(failures(before)[j]);
        assert(outcomes[a] == before[a] && outcomes[b] == before[b]);
    } else {
        lemma_failure_has_source(before, i);
        let a = choose|a: int|
            0 <= a < before.len() && before[a] == Err::<(), ConnectionError>(failures(before)[i]);
        assert(outcomes[a] == before[a]);
        assert(outcomes[n] == Err::<(), ConnectionError>(failures(outcomes)[j]));
    }
}

proof fn lemma_failure_has_source(outcomes: Seq<Result<(), ConnectionError>>, i: int)
    requires
        0 <= i < failures(outcomes).len(),
    ensures
        exists|a: int|
            0 <= a < outcomes.len() && outcomes[a] == Err::<(), ConnectionError>(
                failures(outcomes)[i],
            ),
    decreases outcomes.len(),
{
    let before = outcomes.drop_last();
    let n = outcomes.len() - 1;
    if i < failures(before).len() {
        lemma_failure_has_source(before, i);
        let a = choose|a: int|
            0 <= a < before.len() && before[a] == Err::<(), ConnectionError>(failures(before)[i]);
        assert(outcomes[a] == before[a]);
    } else {
        assert(outcomes[n] == Err::<(), ConnectionError>(failures(outcomes)[i]));
    }
}

} // verus!
