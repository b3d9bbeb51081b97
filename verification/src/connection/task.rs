use crate::boundary::models::Timestamp;
use crate::connection::manager::DefaultConnectionManager;
use vstd::prelude::*;

verus! {

/// What ended a session's supervised wait.
#[derive(Clone, Copy, Debug, PartialEq, Eq, Structural)]
pub enum Termination {
    /// The manager signalled the task to stop.
    Cancelled,
    /// The tunnel ended by itself.
    HandleCompleted,
    /// The session's expiration was reached.
    Expired,
}

impl Termination {
    /// Whether the tunnel is still up when the wait ends this way, so that it
    /// has to be stopped.
    pub open spec fn needs_stop(self) -> bool {
        self != Termination::HandleCompleted
    }

    /// Whether the tunnel has to be stopped when the wait ends this way.
    pub fn stops_handle(&self) -> (b: bool)
        ensures
            b == self.needs_stop(),
    {
        match self {
            Termination::Cancelled => true,
            Termination::HandleCompleted => false,
            Termination::Expired => true,
        }
    }
}

/// A span of time: whole seconds and the nanoseconds beyond them.
#[derive(Clone, Copy, Debug, PartialEq, Eq, Structural)]
pub struct Wait {
    pub seconds: u64,
    pub nanos: u32,
}

/// How long the expiry branch of a task's wait sleeps.
#[derive(Clone, Copy, Debug, PartialEq, Eq, Structural)]
pub enum ExpiryWait {
    /// Sleep this long, then end the session as expired.
    After(Wait),
    /// Never wake: the expiration is already past, or too far away to be told
    /// as a span. One of the other branches has to end the session.
    Never,
}

/// Nanoseconds from `now` until `expiration`; negative where it is past.
pub open spec fn remaining_nanos(expiration: Timestamp, now: Timestamp) -> int {
    expiration.as_nanos() - now.as_nanos()
}

/// The wait that the expiry branch makes at `now` for a session that expires at
/// `expiration`.
pub open spec fn expiry_wait(expiration: Timestamp, now: Timestamp) -> ExpiryWait {
    let remaining = remaining_nanos(expiration, now);
    if 0 <= remaining && remaining / 1_000_000_000 <= u64::MAX {
        ExpiryWait::After(
            Wait {
                seconds: (remaining / 1_000_000_000) as u64,
                nanos: (remaining % 1_000_000_000) as u32,
            },
        )
    } else {
        ExpiryWait::Never
    }
}

/// Computes how long to sleep until the session expires. A span that is
/// negative or does not fit is answered with `Never`, so that an expiration
/// already past does not pre-empt the other branches.
pub fn wait_until_session_is_expired(expiration: Timestamp, now: Timestamp) -> (wait: ExpiryWait)
    ensures
        wait == expiry_wait(expiration, now),
{
    let remaining: i128 = expiration.total_nanos() - now.total_nanos();
    if remaining < 0 {
        return ExpiryWait::Never;
    }
    let seconds: i128 = remaining / 1_000_000_000i128;
    let nanos: i128 = remaining % 1_000_000_000i128;
    if seconds > 18446744073709551615i128 {
        return ExpiryWait::Never;
    }
    ExpiryWait::After(Wait { seconds: seconds as u64, nanos: nanos as u32 })
}

/// Where a session's task stands.
#[derive(Clone, Copy, Debug, PartialEq, Eq, Structural)]
pub enum Phase {
    /// Waiting for the first of cancellation, completion and expiry.
    Racing,
    /// The wait has ended for the given reason; the entry is still to be
    /// removed.
    Settled(Termination),
    /// The task has removed its entry and is over.
    Finished(Termination),
}

/// What the task's owner has to do after an event.
#[derive(Clone, Copy, Debug, PartialEq, Eq, Structural)]
pub enum TaskAction {
    /// Stop the tunnel, then let the task finish.
    StopHandle,
    /// Let the task finish; the tunnel is gone already.
    Finish,
    /// Nothing: the race was decided before.
    Nothing,
}

/// The phase after one event.
pub open spec fn settle_phase(phase: Phase, event: Termination) -> Phase {
    match phase {
        Phase::Racing => Phase::Settled(event),
        _ => phase,
    }
}

/// The action that one event asks for.
pub open spec fn settle_action(phase: Phase, event: Termination) -> TaskAction {
    match phase {
        Phase::Racing => if event.needs_stop() {
            TaskAction::StopHandle
        } else {
            TaskAction::Finish
        },
        _ => TaskAction::Nothing,
    }
}

/// The phase after a run of events.
pub open spec fn phase_after(phase: Phase, events: Seq<Termination>) -> Phase
    decreases events.len(),
{
    if events.len() == 0 {
        phase
    } else {
        settle_phase(phase_after(phase, events.drop_last()), events.last())
    }
}

/// How often a run of events asks for the tunnel to be stopped.
pub open spec fn stop_requests(phase: Phase, events: Seq<Termination>) -> nat
    decreases events.len(),
{
    if events.len() == 0 {
        0
    } else {
        let before = events.drop_last();
        stop_requests(phase, before) + if settle_action(phase_after(phase, before), events.last())
            == TaskAction::StopHandle {
            1nat
        } else {
            0nat
        }
    }
}

/// The supervisor of one session: it waits for the first of three events, acts
/// on that one alone, and removes the session's entry when it ends.
pub struct SessionTask {
    session_id: String,
    expiration: Timestamp,
    phase: Phase,
}

impl SessionTask {
    pub closed spec fn id(&self) -> Seq<char> {
        self.session_id@
    }

    pub closed spec fn expires(&self) -> Timestamp {
        self.expiration
    }

    pub closed spec fn phase(&self) -> Phase {
        self.phase
    }

    /// The task of a session that has just been brokered.
    pub fn new(session_id: String, expiration: Timestamp) -> (task: Self)
        ensures
            task.id() == session_id@,
            task.expires() == expiration,
            task.phase() == Phase::Racing,
    {
        SessionTask { session_id, expiration, phase: Phase::Racing }
    }

    pub fn session_id(&self) -> (id: &String)
        ensures
            id@ == self.id(),
    {
        &self.session_id
    }

    pub fn current_phase(&self) -> (phase: Phase)
        ensures
            phase == self.phase(),
    {
        self.phase
    }

    /// How long the expiry branch sleeps when the wait starts at `now`.
    pub fn expiry_wait(&self, now: Timestamp) -> (wait: ExpiryWait)
        ensures
            wait == expiry_wait(self.expires(), now),
    {
        wait_until_session_is_expired(self.expiration, now)
    }

    /// Takes note of an event. The first event decides the race and says what
    /// to do with the tunnel; every later one is ignored.
    pub fn settle(&mut self, event: Termination) -> (action: TaskAction)
        ensures
            final(self).id() == old(self).id(),
            final(self).expires() == old(self).expires(),
            final(self).phase() == settle_phase(old(self).phase(), event),
            action == settle_action(old(self).phase(), event),
    {
        match self.phase {
            Phase::Racing => {
                self.phase = Phase::Settled(event);
                if event.stops_handle() {
                    TaskAction::StopHandle
                } else {
                    TaskAction::Finish
                }
            },
            _ => TaskAction::Nothing,
        }
    }

    /// Ends a settled task: its entry leaves the registry, whether or not the
    /// tunnel could be stopped. Where a stop request took the entry before,
    /// or the task has not settled or is over already, the registry stays as
    /// it is. The result says whether this call removed the entry.
    pub fn finish<E>(&mut self, manager: &mut DefaultConnectionManager<E>) -> (removed: bool)
        requires
            old(manager).wf(),
        ensures
            final(manager).wf(),
            final(self).id() == old(self).id(),
            final(self).expires() == old(self).expires(),
            match old(self).phase() {
                Phase::Settled(cause) => {
                    &&& final(self).phase() == Phase::Finished(cause)
                    &&& final(manager)@ == old(manager)@.remove(old(self).id())
                    &&& removed == old(manager)@.contains_key(old(self).id())
                },
                _ => {
                    &&& final(self).phase() == old(self).phase()
                    &&& final(manager)@ == old(manager)@
                    &&& !removed
                },
            },
    {
        match self.phase {
            Phase::Settled(cause) => {
                self.phase = Phase::Finished(cause);
                manager.release(self.session_id.as_str()).is_some()
            },
            _ => false,
        }
    }
}

} // verus!
