use crate::boundary::error::Error;
use crate::boundary::models::ConnectResponse;
use crate::connection::registry::Registry;
use crate::text::join3;
use vstd::prelude::*;

verus! {

/// Why a session could not be stopped.
#[derive(Clone, Debug)]
pub enum ConnectionError {
    /// The remote side failed to cancel the session.
    BoundaryError(Error),
    /// No live session has this id.
    StopFailedUnknownSessionId(String),
}

impl ConnectionError {
    /// The message shown for the error.
    pub open spec fn message_text(&self) -> Seq<char> {
        match self {
            ConnectionError::BoundaryError(e) => "Boundary error: "@ + e.message_text(),
            ConnectionError::StopFailedUnknownSessionId(id) =>
                "Failed to stop the connection: The session id '"@ + id@ + "' is unknown"@,
        }
    }

    /// The message shown for the error.
    pub fn message(&self) -> (text: String)
        ensures
            text@ == self.message_text(),
    {
        match self {
            ConnectionError::BoundaryError(e) => {
                let cause = e.message();
                crate::text::join("Boundary error: ", cause.as_str())
            },
            ConnectionError::StopFailedUnknownSessionId(id) => join3(
                "Failed to stop the connection: The session id '",
                id.as_str(),
                "' is unknown",
            ),
        }
    }
}

impl From<Error> for ConnectionError {
    fn from(e: Error) -> (r: ConnectionError) {
        ConnectionError::BoundaryError(e)
    }
}

impl vstd::std_specs::convert::FromSpecImpl<Error> for ConnectionError {
    open spec fn obeys_from_spec() -> bool {
        true
    }

    open spec fn from_spec(e: Error) -> ConnectionError {
        ConnectionError::BoundaryError(e)
    }
}

/// The errors among the outcomes of stopping several sessions, in the order of
/// the outcomes.
pub open spec fn failures(outcomes: Seq<Result<(), ConnectionError>>) -> Seq<ConnectionError>
    decreases outcomes.len(),
{
    if outcomes.len() == 0 {
        Seq::empty()
    } else {
        match outcomes.last() {
            Ok(_) => failures(outcomes.drop_last()),
            Err(e) => failures(outcomes.drop_last()).push(e),
        }
    }
}

/// How many of the outcomes are failures.
pub open spec fn failure_count(outcomes: Seq<Result<(), ConnectionError>>) -> nat
    decreases outcomes.len(),
{
    if outcomes.len() == 0 {
        0
    } else {
        failure_count(outcomes.drop_last()) + if outcomes.last() is Err {
            1nat
        } else {
            0nat
        }
    }
}

/// The live sessions after a connect request was concluded with `outcome`.
pub open spec fn sessions_after_connect<E>(
    sessions: Map<Seq<char>, E>,
    outcome: Result<(ConnectResponse, E), Error>,
) -> Map<Seq<char>, E> {
    match outcome {
        Ok((response, entry)) => sessions.insert(response.session_id@, entry),
        Err(_) => sessions,
    }
}

/// The live sessions after a stop request for `id` was concluded, the remote
/// side having answered the cancel request with `cancelled`.
pub open spec fn sessions_after_stop<E>(
    sessions: Map<Seq<char>, E>,
    id: Seq<char>,
    cancelled: Result<(), Error>,
) -> Map<Seq<char>, E> {
    if cancelled is Ok {
        sessions.remove(id)
    } else {
        sessions
    }
}

/// What follows the remote side's answer to the cancel request for one
/// drained session: on success the entry is handed on, to be signalled and
/// awaited; on failure the remote side's error is the outcome.
pub open spec fn stop_entry_answer<E>(cancelled: Result<(), Error>, entry: E) -> Result<
    E,
    ConnectionError,
> {
    match cancelled {
        Ok(_) => Ok(entry),
        Err(e) => Err(ConnectionError::BoundaryError(e)),
    }
}

/// The outcomes of stopping the drained sessions, one for each, in their
/// order: a session fails to stop where the remote side failed to cancel
/// it.
pub open spec fn shutdown_outcomes(cancellations: Seq<Result<(), Error>>) -> Seq<
    Result<(), ConnectionError>,
> {
    Seq::new(
        cancellations.len(),
        |i: int|
            match stop_entry_answer(cancellations[i], ()) {
                Ok(_) => Ok(()),
                Err(e) => Err(e),
            },
    )
}

/// Whether `answer` is what a stop request for `id` returns, the remote side
/// having answered the cancel request with `cancelled`.
pub open spec fn stop_answers<E>(
    sessions: Map<Seq<char>, E>,
    id: Seq<char>,
    cancelled: Result<(), Error>,
    answer: Result<E, ConnectionError>,
) -> bool {
    match cancelled {
        Err(e) => answer == Err::<E, ConnectionError>(ConnectionError::BoundaryError(e)),
        Ok(_) => if sessions.contains_key(id) {
            answer == Ok::<E, ConnectionError>(sessions[id])
        } else {
            answer matches Err(ConnectionError::StopFailedUnknownSessionId(unknown))
                && unknown@ == id
        },
    }
}

/// The registry of live sessions and the decisions that start and stop them.
///
/// The manager never talks to the remote side itself. Its caller makes the
/// remote call and hands the manager what came back; the manager says what
/// becomes of the registry and what the caller owes next. `E` is what the
/// caller keeps per live session, such as its cancellation signal and the
/// handle of its supervising task.
pub struct DefaultConnectionManager<E> {
    connections: Registry<E>,
}

impl<E> DefaultConnectionManager<E> {
    /// The registry is consistent.
    pub closed spec fn wf(&self) -> bool {
        self.connections.wf()
    }

    /// The live sessions, as a map from session id to what is kept for each.
    pub closed spec fn view(&self) -> Map<Seq<char>, E> {
        self.connections@
    }

    /// The ids of the live sessions, oldest first.
    pub closed spec fn order(&self) -> Seq<Seq<char>> {
        self.connections.order()
    }

    /// A manager without sessions.
    pub fn new() -> (m: Self)
        ensures
            m.wf(),
            m@ == Map::<Seq<char>, E>::empty(),
            m.order() == Seq::<Seq<char>>::empty(),
    {
        DefaultConnectionManager { connections: Registry::new() }
    }

    /// Number of live sessions.
    pub fn active(&self) -> (n: usize)
        requires
            self.wf(),
        ensures
            n == self@.dom().len(),
            n == self.order().len(),
    {
        self.connections.len()
    }

    /// Whether the session is live.
    pub fn is_connected(&self, session_id: &str) -> (b: bool)
        requires
            self.wf(),
        ensures
            b == self@.contains_key(session_id@),
    {
        self.connections.contains(session_id)
    }

    /// Concludes a connect request from what the remote side answered.
    ///
    /// A failure is handed on and leaves the registry as it was. On success the
    /// session is registered under its id, with the entry that the caller made
    /// for it, before the response is handed back.
    pub fn connect(&mut self, outcome: Result<(ConnectResponse, E), Error>) -> (r: Result<
        ConnectResponse,
        Error,
    >)
        requires
            old(self).wf(),
        ensures
            final(self).wf(),
            final(self)@ == sessions_after_connect(old(self)@, outcome),
            match outcome {
                Ok((response, entry)) => {
                    &&& r == Ok::<ConnectResponse, Error>(response)
                    &&& final(self)@ == old(self)@.insert(response.session_id@, entry)
                    &&& old(self)@.contains_key(response.session_id@) ==> final(self).order()
                        == old(self).order()
                    &&& !old(self)@.contains_key(response.session_id@) ==> final(self).order()
                        == old(self).order().push(response.session_id@)
                },
                Err(e) => {
                    &&& r == Err::<ConnectResponse, Error>(e)
                    &&& final(self)@ == old(self)@
                    &&& final(self).order() == old(self).order()
                },
            },
    {
        match outcome {
            Ok((response, entry)) => {
                let _ = self.connections.insert(response.session_id.clone(), entry);
                Ok(response)
            },
            Err(e) => Err(e),
        }
    }

    /// Decides what follows the remote side's answer to a cancel request for
    /// one session: on success the caller signals the session's task and
    /// waits for it, on failure the error is reported and nothing is signalled.
    pub fn stop_connection_entry(cancelled: Result<(), Error>, entry: E) -> (r: Result<
        E,
        ConnectionError,
    >)
        ensures
            r == stop_entry_answer(cancelled, entry),
    {
        match cancelled {
            Ok(_) => Ok(entry),
            Err(e) => Err(ConnectionError::from(e)),
        }
    }

    /// Concludes a stop request from what the remote side answered to the
    /// cancel request.
    ///
    /// Where the remote side failed, its error is reported and the registry is
    /// left as it was. Where it succeeded and the session is live, the session
    /// leaves the registry and its entry is handed back for the caller to
    /// signal and await. Where it succeeded and no such session is live, the
    /// id is reported as unknown and the registry is left as it was.
    pub fn stop(&mut self, id: &str, cancelled: Result<(), Error>) -> (r: Result<
        E,
        ConnectionError,
    >)
        requires
            old(self).wf(),
        ensures
            final(self).wf(),
            final(self)@ == sessions_after_stop(old(self)@, id@, cancelled),
            stop_answers(old(self)@, id@, cancelled, r),
            match cancelled {
                Err(e) => {
                    &&& r == Err::<E, ConnectionError>(ConnectionError::BoundaryError(e))
                    &&& final(self)@ == old(self)@
                    &&& final(self).order() == old(self).order()
                },
                Ok(_) => if old(self)@.contains_key(id@) {
                    &&& r == Ok::<E, ConnectionError>(old(self)@[id@])
                    &&& final(self)@ == old(self)@.remove(id@)
                    &&& final(self).order() == old(self).order().remove(
                        old(self).order().index_of(id@),
                    )
                } else {
                    &&& r matches Err(ConnectionError::StopFailedUnknownSessionId(unknown))
                    &&& unknown@ == id@
                    &&& final(self)@ == old(self)@
                    &&& final(self).order() == old(self).order()
                },
            },
    {
        match cancelled {
            Err(e) => Err(ConnectionError::from(e)),
            Ok(_) => {
                match self.connections.remove(id) {
                    Some(entry) => Ok(entry),
                    None => {
                        proof {
                            assert(self@ =~= old(self)@);
                        }
                        Err(ConnectionError::StopFailedUnknownSessionId(id.to_owned()))
                    },
                }
            },
        }
    }

    /// Removes a session's entry when its task has ended. Whoever comes second,
    /// the task or a stop request, finds no entry and changes nothing.
    pub fn release(&mut self, id: &str) -> (entry: Option<E>)
        requires
            old(self).wf(),
        ensures
            final(self).wf(),
            final(self)@ == old(self)@.remove(id@),
            entry == if old(self)@.contains_key(id@) {
                Some(old(self)@[id@])
            } else {
                None::<E>
            },
    {
        self.connections.remove(id)
    }

    /// Takes every session out of the registry at once, for the caller to stop
    /// each of them; oldest first.
    pub fn shutdown(&mut self) -> (drained: Vec<(String, E)>)
        requires
            old(self).wf(),
        ensures
            final(self).wf(),
            final(self)@ == Map::<Seq<char>, E>::empty(),
            final(self).order() == Seq::<Seq<char>>::empty(),
            drained@.len() == old(self).order().len(),
            forall|i: int|
                0 <= i < drained@.len() ==> (#[trigger] drained@[i]).0@ == old(self).order()[i]
                    && drained@[i].1 == old(self)@[old(self).order()[i]],
    {
        self.connections.drain()
    }
}

/// Sums up a shutdown from the outcome of stopping each drained session:
/// success where none failed, else every failure, in the order of the
/// outcomes.
pub fn collect_failures(outcomes: Vec<Result<(), ConnectionError>>) -> (r: Result<
    (),
    Vec<ConnectionError>,
>)
    ensures
        match r {
            Ok(_) => failures(outcomes@).len() == 0,
            Err(errors) => errors@.len() > 0 && errors@ == failures(outcomes@),
        },
{
    let mut outcomes = outcomes;
    let ghost all = outcomes@;
    let mut reversed: Vec<ConnectionError> = Vec::new();
    while outcomes.len() > 0
        invariant
            outcomes@.len() <= all.len(),
            outcomes@ == all.take(outcomes@.len() as int),
            failures(all) == failures(outcomes@) + reversed@.reverse(),
        decreases outcomes@.len(),
    {
        let ghost before = outcomes@;
        let ghost collected = reversed@;
        let last = outcomes.pop();
        proof {
            assert(outcomes@ == before.drop_last());
            assert(outcomes@ =~= all.take(outcomes@.len() as int));
        }
        match last {
            Some(Err(e)) => {
                reversed.push(e);
                proof {
                    assert(reversed@.reverse() =~= seq![e] + collected.reverse());
                    assert(failures(before) == failures(outcomes@).push(e));
                    assert(failures(outcomes@).push(e) + collected.reverse() =~= failures(
                        outcomes@,
                    ) + reversed@.reverse());
                }
            },
            _ => {},
        }
    }
    proof {
        assert(failures(outcomes@) =~= Seq::<ConnectionError>::empty());
        assert(failures(all) =~= reversed@.reverse());
    }
    let mut errors: Vec<ConnectionError> = Vec::new();
    while reversed.len() > 0
        invariant
            failures(all) == errors@ + reversed@.reverse(),
        decreases reversed@.len(),
    {
        let ghost rest = reversed@;
        let ghost done = errors@;
        let e = reversed.pop().unwrap();
        errors.push(e);
        proof {
            assert(rest.reverse() =~= seq![e] + reversed@.reverse());
            assert(done + rest.reverse() =~= errors@ + reversed@.reverse());
        }
    }
    proof {
        assert(reversed@.reverse() =~= Seq::<ConnectionError>::empty());
        assert(failures(all) =~= errors@);
    }
    if errors.len() == 0 {
        Ok(())
    } else {
        Err(errors)
    }
}

} // verus!
