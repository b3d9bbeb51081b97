use crate::boundary::error::Error;
use crate::boundary::models::ConnectResponse;
use crate::connection::manager::{sessions_after_connect, sessions_after_stop};
use crate::connection::task::{settle_action, settle_phase, Phase, TaskAction, Termination};
use vstd::prelude::*;

verus! {

/// The manager and the tasks of its sessions, seen together: which sessions
/// are registered, where each session's task stands, and how often each
/// session's tunnel was asked to stop.
pub struct World<E> {
    pub sessions: Map<Seq<char>, E>,
    pub phases: Map<Seq<char>, Phase>,
    pub stops: Map<Seq<char>, nat>,
}

/// What can happen to the manager and its tasks, one thing at a time.
pub enum Step<E> {
    /// A connect request is concluded with what the remote side answered.
    Connect(Result<(ConnectResponse, E), Error>),
    /// A stop request for a session is concluded with what the remote side
    /// answered to the cancel request.
    Stop(Seq<char>, Result<(), Error>),
    /// An event reaches the task of a session.
    Settle(Seq<char>, Termination),
    /// The task of a session ends.
    Finish(Seq<char>),
    /// All sessions are drained for shutdown.
    Shutdown,
}

/// The world before anything has happened.
pub open spec fn initial<E>() -> World<E> {
    World { sessions: Map::empty(), phases: Map::empty(), stops: Map::empty() }
}

/// Whether a step can happen: the remote side gives every session an id of
/// its own, so a brokered session never bears the id of an earlier one.
pub open spec fn can_happen<E>(world: World<E>, step: Step<E>) -> bool {
    match step {
        Step::Connect(Ok((response, _))) => !world.phases.contains_key(response.session_id@),
        _ => true,
    }
}

/// The world after a step. The registry changes as the manager's `connect`,
/// `stop`, `release` and `shutdown` change it, and a task moves as `settle`
/// and `finish` move it.
pub open spec fn after<E>(world: World<E>, step: Step<E>) -> World<E> {
    match step {
        Step::Connect(outcome) => match outcome {
            Ok((response, _)) => World {
                sessions: sessions_after_connect(world.sessions, outcome),
                phases: world.phases.insert(response.session_id@, Phase::Racing),
                stops: world.stops.insert(response.session_id@, 0),
            },
            Err(_) => world,
        },
        Step::Stop(id, cancelled) => World {
            sessions: sessions_after_stop(world.sessions, id, cancelled),
            ..world
        },
        Step::Settle(id, event) => if world.phases.contains_key(id) {
            World {
                sessions: world.sessions,
                phases: world.phases.insert(id, settle_phase(world.phases[id], event)),
                stops: world.stops.insert(
                    id,
                    world.stops[id] + if settle_action(world.phases[id], event)
                        == TaskAction::StopHandle {
                        1nat
                    } else {
                        0nat
                    },
                ),
            }
        } else {
            world
        },
        Step::Finish(id) => if world.phases.contains_key(id) {
            match world.phases[id] {
                Phase::Settled(cause) => World {
                    sessions: world.sessions.remove(id),
                    phases: world.phases.insert(id, Phase::Finished(cause)),
                    stops: world.stops,
                },
                _ => world,
            }
        } else {
            world
        },
        Step::Shutdown => World { sessions: Map::empty(), ..world },
    }
}

/// Whether the steps can happen one after the other, starting in `world`.
pub open spec fn can_all_happen<E>(world: World<E>, steps: Seq<Step<E>>) -> bool
    decreases steps.len(),
{
    if steps.len() == 0 {
        true
    } else {
        can_all_happen(world, steps.drop_last()) && can_happen(
            after_all(world, steps.drop_last()),
            steps.last(),
        )
    }
}

/// The world after a run of steps.
pub open spec fn after_all<E>(world: World<E>, steps: Seq<Step<E>>) -> World<E>
    decreases steps.len(),
{
    if steps.len() == 0 {
        world
    } else {
        after(after_all(world, steps.drop_last()), steps.last())
    }
}

/// How often the tunnel of a task in this phase was asked to stop: once where
/// the task's wait was ended by a cancellation or by the expiry, else never.
pub open spec fn stops_owed(phase: Phase) -> nat {
    match phase {
        Phase::Racing => 0,
        Phase::Settled(cause) | Phase::Finished(cause) => if cause.needs_stop() {
            1
        } else {
            0
        },
    }
}

/// What holds of every world that can come about:
/// every tunnel was asked to stop as often as the phase of its task owes,
/// which is never more than once; and a registered session has a task that
/// is not over.
pub open spec fn consistent<E>(world: World<E>) -> bool {
    &&& world.stops.dom() == world.phases.dom()
    &&& forall|id: Seq<char>| #[trigger]
        world.phases.contains_key(id) ==> world.stops[id] == stops_owed(world.phases[id])
    &&& forall|id: Seq<char>| #[trigger]
        world.sessions.contains_key(id) ==> world.phases.contains_key(id) && !(
        world.phases[id] is Finished)
}

/// A step that can happen keeps a consistent world consistent.
pub proof fn law_step_keeps_consistency<E>(world: World<E>, step: Step<E>)
    requires
        consistent(world),
        can_happen(world, step),
    ensures
        consistent(after(world, step)),
{
    let next = after(world, step);
    match step {
        Step::Connect(outcome) => {
            match outcome {
                Ok((response, entry)) => {
                    let id = response.session_id@;
                    assert(next.stops.dom() =~= next.phases.dom());
                    assert forall|other: Seq<char>| #[trigger]
                        next.sessions.contains_key(other) implies next.phases.contains_key(other)
                        && !(next.phases[other] is Finished) by {
                        if other != id {
                            assert(world.sessions.contains_key(other));
                        }
                    }
                },
                Err(_) => {},
            }
        },
        Step::Stop(id, cancelled) => {
            assert forall|other: Seq<char>| #[trigger]
                next.sessions.contains_key(other) implies next.phases.contains_key(other) && !(
            next.phases[other] is Finished) by {
                assert(world.sessions.contains_key(other));
            }
        },
        Step::Settle(id, event) => {
            if world.phases.contains_key(id) {
                assert(next.stops.dom() =~= next.phases.dom());
                assert forall|other: Seq<char>| #[trigger]
                    next.sessions.contains_key(other) implies next.phases.contains_key(other) && !(
                next.phases[other] is Finished) by {
                    assert(world.sessions.contains_key(other));
                }
            }
        },
        Step::Finish(id) => {
            if world.phases.contains_key(id) {
                match world.phases[id] {
                    Phase::Settled(cause) => {
                        assert(next.stops.dom() =~= next.phases.dom());
                        assert forall|other: Seq<char>| #[trigger]
                            next.sessions.contains_key(other) implies next.phases.contains_key(
                            other,
                        ) && !(next.phases[other] is Finished) by {
                            assert(world.sessions.contains_key(other));
                        }
                    },
                    _ => {},
                }
            }
        },
        Step::Shutdown => {},
    }
}

/// Every world that comes about from a consistent one is consistent. In
/// particular, whatever happens and in whatever order, no tunnel is asked to
/// stop more than once, and no session whose task is over is registered.
pub proof fn law_consistency_is_kept<E>(world: World<E>, steps: Seq<Step<E>>)
    requires
        consistent(world),
        can_all_happen(world, steps),
    ensures
        consistent(after_all(world, steps)),
        forall|id: Seq<char>| #[trigger]
            after_all(world, steps).phases.contains_key(id) ==> after_all(world, steps).stops[id]
                <= 1,
        forall|id: Seq<char>|
            after_all(world, steps).phases.contains_key(id) && (#[trigger] after_all(
                world,
                steps,
            ).phases[id]) is Finished ==> !after_all(world, steps).sessions.contains_key(id),
    decreases steps.len(),
{
    if steps.len() > 0 {
        law_consistency_is_kept(world, steps.drop_last());
        law_step_keeps_consistency(after_all(world, steps.drop_last()), steps.last());
    }
}

/// The world at the start is consistent.
pub proof fn law_initial_world_is_consistent<E>()
    ensures
        consistent(initial::<E>()),
{
    assert(initial::<E>().stops.dom() =~= initial::<E>().phases.dom());
}

/// Once the wait of a task has ended, nothing that happens later changes why
/// it ended or how often its tunnel was asked to stop; and once the task is
/// over, its session stays away from the registry.
pub proof fn law_ended_wait_stays_ended<E>(
    world: World<E>,
    steps: Seq<Step<E>>,
    id: Seq<char>,
    cause: Termination,
)
    requires
        consistent(world),
        can_all_happen(world, steps),
        world.phases.contains_key(id),
        world.phases[id] == Phase::Settled(cause) || world.phases[id] == Phase::Finished(cause),
    ensures
        after_all(world, steps).phases.contains_key(id),
        after_all(world, steps).phases[id] == Phase::Settled(cause) || after_all(
            world,
            steps,
        ).phases[id] == Phase::Finished(cause),
        world.phases[id] is Finished ==> after_all(world, steps).phases[id] is Finished,
        after_all(world, steps).stops[id] == world.stops[id],
        world.phases[id] is Finished ==> !after_all(world, steps).sessions.contains_key(id),
    decreases steps.len(),
{
    if steps.len() > 0 {
        law_ended_wait_stays_ended(world, steps.drop_last(), id, cause);
        law_consistency_is_kept(world, steps.drop_last());
        law_consistency_is_kept(world, steps);
    }
}

/// A session that is connected and at once stopped, its task then woken by
/// the cancellation and ended: the registry holds no entry for it, its
/// tunnel was asked to stop exactly once, and whatever happens later leaves
/// both as they are.
pub proof fn law_connect_stop_in_every_world<E>(
    world: World<E>,
    response: ConnectResponse,
    entry: E,
    later: Seq<Step<E>>,
)
    requires
        consistent(world),
        !world.phases.contains_key(response.session_id@),
        can_all_happen(
            after_all(
                world,
                seq![
                    Step::Connect(Ok((response, entry))),
                    Step::Stop(response.session_id@, Ok(())),
                    Step::Settle(response.session_id@, Termination::Cancelled),
                    Step::Finish(response.session_id@),
                ],
            ),
            later,
        ),
    ensures
        ({
            let id = response.session_id@;
            let ended = after_all(
                world,
                seq![
                    Step::Connect(Ok((response, entry))),
                    Step::Stop(id, Ok(())),
                    Step::Settle(id, Termination::Cancelled),
                    Step::Finish(id),
                ],
            );
            let end = after_all(ended, later);
            &&& !ended.sessions.contains_key(id)
            &&& ended.stops[id] == 1
            &&& ended.phases[id] == Phase::Finished(Termination::Cancelled)
            &&& !end.sessions.contains_key(id)
            &&& end.stops[id] == 1
        }),
{
    let id = response.session_id@;
    let s1 = Step::Connect(Ok::<(ConnectResponse, E), Error>((response, entry)));
    let s2 = Step::<E>::Stop(id, Ok(()));
    let s3 = Step::<E>::Settle(id, Termination::Cancelled);
    let s4 = Step::<E>::Finish(id);
    let steps = seq![s1, s2, s3, s4];
    lemma_four_steps(world, s1, s2, s3, s4);
    let w1 = after(world, s1);
    let w2 = after(w1, s2);
    let w3 = after(w2, s3);
    let w4 = after(w3, s4);
    law_step_keeps_consistency(world, s1);
    law_step_keeps_consistency(w1, s2);
    law_step_keeps_consistency(w2, s3);
    law_step_keeps_consistency(w3, s4);
    law_ended_wait_stays_ended(w4, later, id, Termination::Cancelled);
}

/// A session whose expiry wakes its task before anything else does, the task
/// then ended: the registry holds no entry for it, its tunnel was asked to
/// stop exactly once, and whatever happens later leaves both as they are.
pub proof fn law_expiry_in_every_world<E>(world: World<E>, id: Seq<char>, later: Seq<Step<E>>)
    requires
        consistent(world),
        world.phases.contains_key(id),
        world.phases[id] == Phase::Racing,
        can_all_happen(
            after_all(world, seq![Step::Settle(id, Termination::Expired), Step::Finish(id)]),
            later,
        ),
    ensures
        ({
            let ended = after_all(
                world,
                seq![Step::Settle(id, Termination::Expired), Step::Finish(id)],
            );
            let end = after_all(ended, later);
            &&& !ended.sessions.contains_key(id)
            &&& ended.stops[id] == 1
            &&& ended.phases[id] == Phase::Finished(Termination::Expired)
            &&& !end.sessions.contains_key(id)
            &&& end.stops[id] == 1
        }),
{
    let s1 = Step::<E>::Settle(id, Termination::Expired);
    let s2 = Step::<E>::Finish(id);
    lemma_two_steps(world, s1, s2);
    let w1 = after(world, s1);
    let w2 = after(w1, s2);
    law_step_keeps_consistency(world, s1);
    law_step_keeps_consistency(w1, s2);
    law_ended_wait_stays_ended(w2, later, id, Termination::Expired);
}

/// After a shutdown the registry is empty, whatever was registered and
/// wherever the tasks stood.
pub proof fn law_shutdown_empties_registry<E>(world: World<E>)
    ensures
        after(world, Step::Shutdown).sessions == Map::<Seq<char>, E>::empty(),
        after(world, Step::Shutdown).phases == world.phases,
        after(world, Step::Shutdown).stops == world.stops,
{
}

proof fn lemma_two_steps<E>(world: World<E>, s1: Step<E>, s2: Step<E>)
    ensures
        after_all(world, seq![s1, s2]) == after(after(world, s1), s2),
{
    let steps = seq![s1, s2];
    assert(steps.drop_last() =~= seq![s1]);
    assert(seq![s1].drop_last() =~= Seq::<Step<E>>::empty());
    assert(after_all(world, seq![s1]) == after(after_all(world, seq![s1].drop_last()), s1));
    assert(after_all(world, seq![s1].drop_last()) == world);
}

proof fn lemma_four_steps<E>(world: World<E>, s1: Step<E>, s2: Step<E>, s3: Step<E>, s4: Step<E>)
    ensures
        after_all(world, seq![s1, s2, s3, s4]) == after(
            after(after(after(world, s1), s2), s3),
            s4,
        ),
{
    let steps = seq![s1, s2, s3, s4];
    assert(steps.drop_last() =~= seq![s1, s2, s3]);
    assert(seq![s1, s2, s3].drop_last() =~= seq![s1, s2]);
    lemma_two_steps(world, s1, s2);
    assert(after_all(world, seq![s1, s2, s3]) == after(after_all(world, seq![s1, s2]), s3));
}

} // verus!
