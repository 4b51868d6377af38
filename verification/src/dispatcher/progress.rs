//! Why every delivery comes to an end, whatever the subscribers do and in
//! whatever order things happen.

use vstd::prelude::*;
use crate::dispatcher::delivery::DeliveryState;
use crate::dispatcher::pool::{lemma_has_first_free, Pool, Step, Task};

verus! {

/// The most events that the delivery on a worker can still take before it
/// leaves: a failure and a backoff for every retry left, and a last attempt.
pub open spec fn task_work(slot: Option<Task>) -> nat {
    match slot {
        Some(task) => match task.state {
            DeliveryState::Attempting { retries_left } => 2 * retries_left as nat + 1,
            DeliveryState::Retrying { retries_left } => 2 * retries_left as nat + 2,
            _ => 0,
        },
        None => 0,
    }
}

/// The work left on all workers.
pub open spec fn slots_work(slots: Seq<Option<Task>>) -> nat
    decreases slots.len(),
{
    if slots.len() == 0 {
        0
    } else {
        slots_work(slots.drop_last()) + task_work(slots.last())
    }
}

/// The work that a delivery in the queue stands for: its start and all that
/// can follow.
pub open spec fn queued_work(retries: u8) -> nat {
    2 * retries as nat + 2
}

/// The work left in a pool: an upper bound on the steps that can still
/// change it, short of new deliveries being queued.
pub open spec fn work(pool: Pool) -> nat {
    slots_work(pool.slots) + pool.queue.len() * queued_work(pool.retries)
}

/// Nothing is left to do: no delivery waits and no worker holds one.
pub open spec fn drained(pool: Pool) -> bool {
    &&& pool.queue.len() == 0
    &&& forall|i: int| 0 <= i < pool.slots.len() ==> pool.slots[i] is None
}

/// The number of steps among `steps` that change the pool they meet.
pub open spec fn changes(pool: Pool, steps: Seq<Step>) -> nat
    decreases steps.len(),
{
    if steps.len() == 0 {
        0
    } else {
        let before = pool.after_all(steps.drop_last());
        changes(pool, steps.drop_last()) + if before.after(steps.last()) != before {
            1nat
        } else {
            0nat
        }
    }
}

/// None of `steps` queues deliveries.
pub open spec fn no_notify(steps: Seq<Step>) -> bool {
    forall|i: int| 0 <= i < steps.len() ==> !(#[trigger] steps[i] is Notify)
}

/// Replacing what one worker holds changes the work by the difference.
pub proof fn lemma_slots_work_update(slots: Seq<Option<Task>>, slot: int, held: Option<Task>)
    requires
        0 <= slot < slots.len(),
    ensures
        slots_work(slots.update(slot, held)) + task_work(slots[slot]) == slots_work(slots)
            + task_work(held),
    decreases slots.len(),
{
    let updated = slots.update(slot, held);
    if slot == slots.len() - 1 {
        assert(updated.drop_last() =~= slots.drop_last());
    } else {
        lemma_slots_work_update(slots.drop_last(), slot, held);
        assert(updated.drop_last() =~= slots.drop_last().update(slot, held));
    }
}

/// Every step that changes a pool without queueing anything does some of its
/// work: the work left never grows, and shrinks whenever the pool changes.
pub proof fn lemma_step_does_work(pool: Pool, step: Step)
    requires
        pool.well_formed(),
        !(step is Notify),
    ensures
        work(pool.after(step)) <= work(pool),
        pool.after(step) != pool ==> work(pool.after(step)) < work(pool),
{
    let after = pool.after(step);
    let each = queued_work(pool.retries);
    match step {
        Step::Dispatch => {
            if pool.can_dispatch() {
                lemma_has_first_free(pool.slots);
                let slot = crate::dispatcher::pool::first_free(pool.slots);
                lemma_slots_work_update(pool.slots, slot, after.slots[slot]);
                assert(after.queue.len() == pool.queue.len() - 1);
                assert(after.queue.len() * each == pool.queue.len() * each - each)
                    by (nonlinear_arith)
                    requires
                        after.queue.len() == pool.queue.len() - 1,
                ;
            }
        },
        Step::AttemptFinished { slot, delivered } => {
            if after != pool {
                assert(after.slots != pool.slots);
                lemma_slots_work_update(pool.slots, slot, after.slots[slot]);
            }
        },
        Step::BackoffElapsed { slot } => {
            if after != pool {
                assert(after.slots != pool.slots);
                lemma_slots_work_update(pool.slots, slot, after.slots[slot]);
            }
        },
        Step::Notify { .. } => {},
    }
}

/// Every delivery comes to an end: as long as nothing new is queued, the
/// steps that change a pool are at most as many as the work that was left in
/// it, in whatever order they come and however the attempts end.
pub proof fn lemma_work_is_bounded(pool: Pool, steps: Seq<Step>)
    requires
        pool.well_formed(),
        no_notify(steps),
    ensures
        changes(pool, steps) + work(pool.after_all(steps)) <= work(pool),
    decreases steps.len(),
{
    if steps.len() > 0 {
        let earlier = steps.drop_last();
        assert(no_notify(earlier)) by {
            assert forall|i: int| 0 <= i < earlier.len() implies !(#[trigger] earlier[i]
                is Notify) by {
                assert(earlier[i] == steps[i]);
            }
        }
        lemma_work_is_bounded(pool, earlier);
        crate::dispatcher::pool::lemma_ceiling_holds(pool, earlier);
        assert(!(steps[steps.len() - 1] is Notify));
        lemma_step_does_work(pool.after_all(earlier), steps.last());
    }
}

/// Nothing gets stuck: a pool with at least one worker in which a delivery
/// waits or is held always has a step that changes it.  A held delivery can
/// take its next event, whether the attempt fails or not; and where every
/// worker is free, the next delivery can start.
pub proof fn lemma_some_step_works(pool: Pool) -> (step: Step)
    requires
        pool.well_formed(),
        pool.ceiling() > 0,
        !drained(pool),
    ensures
        !(step is Notify),
        pool.after(step) != pool,
        work(pool.after(step)) < work(pool),
{
    let step = if exists|i: int| 0 <= i < pool.slots.len() && pool.slots[i] is Some {
        let slot = choose|i: int| 0 <= i < pool.slots.len() && pool.slots[i] is Some;
        let task = pool.slots[slot]->0;
        if task.state is Attempting {
            let step = Step::AttemptFinished { slot, delivered: false };
            assert(pool.after(step).slots[slot] != pool.slots[slot]);
            step
        } else {
            let step = Step::BackoffElapsed { slot };
            assert(pool.after(step).slots[slot] != pool.slots[slot]);
            step
        }
    } else {
        assert(pool.slots[0] is None);
        assert(pool.queue.len() > 0);
        assert(pool.can_dispatch());
        assert(pool.after(Step::Dispatch).queue.len() != pool.queue.len());
        Step::Dispatch
    };
    lemma_step_does_work(pool, step);
    step
}

/// When no work is left, nothing is left: every delivery has been started
/// and has come to its end.
pub proof fn lemma_no_work_is_drained(pool: Pool)
    requires
        pool.well_formed(),
        work(pool) == 0,
    ensures
        drained(pool),
{
    assert(pool.queue.len() == 0) by {
        if pool.queue.len() > 0 {
            assert(pool.queue.len() * queued_work(pool.retries) >= queued_work(pool.retries))
                by (nonlinear_arith)
                requires
                    pool.queue.len() >= 1,
            ;
        }
    }
    assert forall|i: int| 0 <= i < pool.slots.len() implies pool.slots[i] is None by {
        if pool.slots[i] is Some {
            lemma_slots_work_update(pool.slots, i, None);
        }
    }
}

} // verus!
