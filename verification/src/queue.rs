use vstd::prelude::*;

verus! {

/// How many commands the dispatcher's queue holds at most. With one slot a
/// producer cannot hand in a second command before the first was taken.
pub const DISPATCHER_QUEUE_CAPACITY: usize = 1;

/// The commands waiting after one more is offered: it joins the end where
/// there is room, else nothing changes.
pub open spec fn after_submit<T>(waiting: Seq<T>, capacity: nat, command: T) -> Seq<T> {
    if waiting.len() < capacity {
        waiting.push(command)
    } else {
        waiting
    }
}

/// The commands waiting after the oldest was taken.
pub open spec fn after_take<T>(waiting: Seq<T>) -> Seq<T> {
    if waiting.len() > 0 {
        waiting.skip(1)
    } else {
        waiting
    }
}

/// A bounded queue of commands, first in, first out.
///
/// It is the one way into the dispatcher: whoever wants state changed offers
/// a command here, and the dispatcher takes them one at a time. A full queue
/// refuses the offer and hands the command back, so that the producer waits
/// and offers it again.
pub struct CommandQueue<T> {
    waiting: Vec<T>,
    capacity: usize,
}

impl<T> CommandQueue<T> {
    /// The commands waiting, oldest first.
    pub closed spec fn view(&self) -> Seq<T> {
        self.waiting@
    }

    /// The most commands that can wait.
    pub closed spec fn limit(&self) -> nat {
        self.capacity as nat
    }

    /// The queue holds no more than its limit, and the limit is at least one.
    pub closed spec fn wf(&self) -> bool {
        0 < self.capacity && self.waiting@.len() <= self.capacity
    }

    /// An empty queue with room for `capacity` commands.
    pub fn new(capacity: usize) -> (q: Self)
        requires
            capacity > 0,
        ensures
            q.wf(),
            q@ == Seq::<T>::empty(),
            q.limit() == capacity,
    {
        CommandQueue { waiting: Vec::new(), capacity }
    }

    /// The dispatcher's queue: empty, with a single slot.
    pub fn for_dispatcher() -> (q: Self)
        ensures
            q.wf(),
            q@ == Seq::<T>::empty(),
            q.limit() == 1,
    {
        CommandQueue { waiting: Vec::new(), capacity: DISPATCHER_QUEUE_CAPACITY }
    }

    pub fn capacity(&self) -> (n: usize)
        ensures
            n == self.limit(),
    {
        self.capacity
    }

    pub fn len(&self) -> (n: usize)
        ensures
            n == self@.len(),
    {
        self.waiting.len()
    }

    pub fn is_empty(&self) -> (b: bool)
        ensures
            b == (self@.len() == 0),
    {
        self.waiting.len() == 0
    }

    pub fn is_full(&self) -> (b: bool)
        ensures
            b == (self@.len() >= self.limit()),
    {
        self.waiting.len() >= self.capacity
    }

    /// Offers a command. Where there is room it joins the end of the queue;
    /// where the queue is full it comes back in `Err` and nothing changes.
    pub fn submit(&mut self, command: T) -> (r: Result<(), T>)
        requires
            old(self).wf(),
        ensures
            final(self).wf(),
            final(self).limit() == old(self).limit(),
            final(self)@ == after_submit(old(self)@, old(self).limit(), command),
            r == if old(self)@.len() < old(self).limit() {
                Ok::<(), T>(())
            } else {
                Err::<(), T>(command)
            },
    {
        if self.waiting.len() < self.capacity {
            self.waiting.push(command);
            Ok(())
        } else {
            Err(command)
        }
    }

    /// Takes the oldest waiting command, if there is one.
    pub fn take(&mut self) -> (command: Option<T>)
        requires
            old(self).wf(),
        ensures
            final(self).wf(),
            final(self).limit() == old(self).limit(),
            final(self)@ == after_take(old(self)@),
            command == if old(self)@.len() > 0 {
                Some(old(self)@[0])
            } else {
                None::<T>
            },
    {
        if self.waiting.len() > 0 {
            let command = self.waiting.remove(0);
            assert(self.waiting@ =~= old(self)@.skip(1));
            Some(command)
        } else {
            None
        }
    }
}

/// One step of a queue's history: a producer offers a command, or the
/// dispatcher takes one.
pub enum QueueStep<T> {
    Submit(T),
    Take,
}

/// Where a queue stands after a history: the commands that were accepted, in
/// the order of their acceptance, and how many of them the dispatcher has
/// taken and applied.
pub struct QueueRecord<T> {
    pub accepted: Seq<T>,
    pub applied: nat,
}

impl<T> QueueRecord<T> {
    /// The commands the dispatcher has applied, in the order it applied them.
    pub open spec fn applied_commands(self) -> Seq<T> {
        self.accepted.take(self.applied as int)
    }

    /// The commands accepted and not yet taken.
    pub open spec fn waiting(self) -> Seq<T> {
        self.accepted.skip(self.applied as int)
    }
}

/// The record of a queue that starts empty, has room for `capacity` commands
/// and goes through `steps`.
pub open spec fn record_of<T>(capacity: nat, steps: Seq<QueueStep<T>>) -> QueueRecord<T>
    decreases steps.len(),
{
    if steps.len() == 0 {
        QueueRecord { accepted: Seq::empty(), applied: 0 }
    } else {
        let before = record_of(capacity, steps.drop_last());
        match steps.last() {
            QueueStep::Submit(command) => if before.accepted.len() - before.applied < capacity {
                QueueRecord { accepted: before.accepted.push(command), applied: before.applied }
            } else {
                before
            },
            QueueStep::Take => if before.applied < before.accepted.len() {
                QueueRecord { accepted: before.accepted, applied: before.applied + 1 }
            } else {
                before
            },
        }
    }
}

/// The commands waiting in a queue that starts empty and goes through `steps`,
/// each step changing the queue as `submit` and `take` do.
pub open spec fn waiting_after<T>(capacity: nat, steps: Seq<QueueStep<T>>) -> Seq<T>
    decreases steps.len(),
{
    if steps.len() == 0 {
        Seq::empty()
    } else {
        let before = waiting_after(capacity, steps.drop_last());
        match steps.last() {
            QueueStep::Submit(command) => after_submit(before, capacity, command),
            QueueStep::Take => after_take(before),
        }
    }
}

/// The record tells what the queue holds: after any history the queue holds
/// the accepted commands that were not yet applied, never more than its
/// capacity, and no more were applied than accepted.
pub proof fn law_record_matches_queue<T>(capacity: nat, steps: Seq<QueueStep<T>>)
    ensures
        record_of(capacity, steps).applied <= record_of(capacity, steps).accepted.len(),
        waiting_after(capacity, steps) == record_of(capacity, steps).waiting(),
        waiting_after(capacity, steps).len() <= capacity,
    decreases steps.len(),
{
    if steps.len() > 0 {
        let before = record_of(capacity, steps.drop_last());
        let after = record_of(capacity, steps);
        law_record_matches_queue(capacity, steps.drop_last());
        match steps.last() {
            QueueStep::Submit(command) => {
                if before.accepted.len() - before.applied < capacity {
                    assert(after.waiting() =~= before.waiting().push(command));
                }
            },
            QueueStep::Take => {
                if before.applied < before.accepted.len() {
                    assert(after.waiting() =~= before.waiting().skip(1));
                }
            },
        }
    } else {
        assert(record_of(capacity, steps).waiting() =~= Seq::<T>::empty());
    }
}

/// Commands are applied in the order in which they were accepted: a longer
/// history only adds to the end of what was accepted and of what was
/// applied, and what was applied is always the front of what was accepted.
pub proof fn law_applied_in_order_of_acceptance<T>(
    capacity: nat,
    steps: Seq<QueueStep<T>>,
    more: Seq<QueueStep<T>>,
)
    ensures
        record_of(capacity, steps).accepted.is_prefix_of(
            record_of(capacity, steps + more).accepted,
        ),
        record_of(capacity, steps).applied_commands().is_prefix_of(
            record_of(capacity, steps + more).applied_commands(),
        ),
        record_of(capacity, steps + more).applied_commands().is_prefix_of(
            record_of(capacity, steps + more).accepted,
        ),
    decreases more.len(),
{
    let all = steps + more;
    law_record_matches_queue(capacity, all);
    law_record_matches_queue(capacity, steps);
    if more.len() == 0 {
        assert(all =~= steps);
        assert(record_of(capacity, steps).accepted.is_prefix_of(record_of(capacity, all).accepted));
    } else {
        assert(all.drop_last() =~= steps + more.drop_last());
        law_applied_in_order_of_acceptance(capacity, steps, more.drop_last());
        law_record_matches_queue(capacity, all.drop_last());
        let shorter = record_of(capacity, all.drop_last());
        let longer = record_of(capacity, all);
        assert(shorter.accepted.is_prefix_of(longer.accepted));
        assert(shorter.applied <= longer.applied);
        assert(shorter.applied_commands().is_prefix_of(longer.applied_commands()));
    }
}

/// The commands of one producer are applied in the order in which that
/// producer handed them in, whatever other producers do in between: picking
/// one producer's commands out of what was applied gives the front of that
/// producer's accepted commands.
pub proof fn law_fifo_per_producer<T>(
    capacity: nat,
    steps: Seq<QueueStep<T>>,
    from_producer: spec_fn(T) -> bool,
)
    ensures
        record_of(capacity, steps).applied_commands().filter(from_producer).is_prefix_of(
            record_of(capacity, steps).accepted.filter(from_producer),
        ),
{
    let record = record_of(capacity, steps);
    law_record_matches_queue(capacity, steps);
    assert(record.accepted =~= record.applied_commands() + record.waiting());
    Seq::filter_distributes_over_add(record.applied_commands(), record.waiting(), from_producer);
}

/// With a single slot, a command is accepted only after every command
/// accepted before it has been applied.
pub proof fn law_single_slot_serialises<T>(steps: Seq<QueueStep<T>>)
    requires
        steps.len() > 0,
        record_of(1, steps).accepted.len() > record_of(1, steps.drop_last()).accepted.len(),
    ensures
        record_of(1, steps.drop_last()).applied == record_of(1, steps.drop_last()).accepted.len(),
        record_of(1, steps).accepted.len() == record_of(1, steps).applied + 1,
{
    law_record_matches_queue(1, steps.drop_last());
}

} // verus!
