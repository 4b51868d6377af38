//! The dispatcher as a mathematical object: workers, a queue in front of
//! them, and the steps that change them.
//!
//! A delivery waits in the queue until a worker is free, holds the worker
//! through its attempts and the backoff between them, and releases it when it
//! is delivered or given up.

use vstd::prelude::*;
use crate::dispatcher::delivery::{Delivery, DeliveryEvent, DeliveryState, RETRY_BACKOFF_MILLIS};

verus! {

/// A delivery that holds a worker.
#[derive(Clone, Debug, PartialEq, Eq)]
pub struct Task {
    pub delivery: Delivery,
    pub state: DeliveryState,
}

/// A delivery that was given up.
#[derive(Clone, Debug, PartialEq, Eq)]
pub struct DeliveryFailure {
    pub delivery: Delivery,
    /// The number of attempts made, all of which failed.
    pub attempts: u16,
}

/// What the end of an attempt means for its driver.
#[derive(Clone, Debug, PartialEq, Eq)]
pub enum Verdict {
    /// No attempt was under way on that worker; nothing changed.
    Ignored,
    /// The delivery is done and the worker is free.
    Delivered { delivery: Delivery, attempts: u16 },
    /// The delivery will be attempted again on the same worker once the
    /// backoff has passed.
    Retry { backoff_millis: u64 },
    /// The delivery is given up and the worker is free.  This is for the log;
    /// nobody else hears of it.
    GaveUp(DeliveryFailure),
}

/// The workers, the queue and the number of retries.
pub struct Pool {
    /// For each worker, the delivery it holds, if any.
    pub slots: Seq<Option<Task>>,
    /// The deliveries that wait for a worker, the next one first.
    pub queue: Seq<Delivery>,
    /// How often a failed delivery is tried again.
    pub retries: u8,
}

/// What can happen to a pool.
pub enum Step {
    /// Deliveries are queued.
    Notify { deliveries: Seq<Delivery> },
    /// The head of the queue is started, if a worker is free.
    Dispatch,
    /// The attempt on a worker has ended.
    AttemptFinished { slot: int, delivered: bool },
    /// The backoff on a worker has passed.
    BackoffElapsed { slot: int },
}

/// The number of workers with an attempt under way.
pub open spec fn count_attempting(slots: Seq<Option<Task>>) -> nat
    decreases slots.len(),
{
    if slots.len() == 0 {
        0
    } else {
        count_attempting(slots.drop_last()) + if slots.last() matches Some(task)
            && task.state is Attempting {
            1nat
        } else {
            0nat
        }
    }
}

/// The number of workers that hold a delivery.
pub open spec fn count_busy(slots: Seq<Option<Task>>) -> nat
    decreases slots.len(),
{
    if slots.len() == 0 {
        0
    } else {
        count_busy(slots.drop_last()) + if slots.last() is Some {
            1nat
        } else {
            0nat
        }
    }
}

/// Some worker is free.
pub open spec fn has_free(slots: Seq<Option<Task>>) -> bool {
    exists|i: int| 0 <= i < slots.len() && slots[i] is None
}

/// `slot` is the first free worker.
pub open spec fn is_first_free(slots: Seq<Option<Task>>, slot: int) -> bool {
    &&& 0 <= slot < slots.len()
    &&& slots[slot] is None
    &&& forall|i: int| 0 <= i < slot ==> slots[i] is Some
}

/// The first free worker, where there is one.
pub open spec fn first_free(slots: Seq<Option<Task>>) -> int {
    choose|slot: int| is_first_free(slots, slot)
}

/// A task that may hold a worker: attempting or waiting to retry, with no
/// more retries left than deliveries get.
pub open spec fn task_fits(task: Task, retries: u8) -> bool {
    match task.state {
        DeliveryState::Attempting { retries_left } => retries_left <= retries,
        DeliveryState::Retrying { retries_left } => retries_left < retries,
        _ => false,
    }
}

/// The number of attempts behind a task with an attempt under way, that
/// attempt included.
pub open spec fn spec_attempts_made(retries_left: u8, retries: u8) -> u16 {
    (retries - retries_left + 1) as u16
}

impl Pool {
    /// The number of workers: the ceiling on attempts under way at once.
    pub open spec fn ceiling(self) -> nat {
        self.slots.len()
    }

    /// The number of attempts under way.
    pub open spec fn in_flight(self) -> nat {
        count_attempting(self.slots)
    }

    /// Every worker that holds a delivery holds one that is attempting or
    /// waiting to retry.
    pub open spec fn well_formed(self) -> bool {
        forall|i: int|
            0 <= i < self.slots.len() ==> (#[trigger] self.slots[i] matches Some(task)
                ==> task_fits(task, self.retries))
    }

    /// A pool of `ceiling` idle workers with an empty queue.
    pub open spec fn idle(ceiling: nat, retries: u8) -> Pool {
        Pool { slots: Seq::new(ceiling, |i: int| None::<Task>), queue: Seq::empty(), retries }
    }

    /// The pool with `deliveries` queued behind what waits already.
    pub open spec fn notify(self, deliveries: Seq<Delivery>) -> Pool {
        Pool { queue: self.queue + deliveries, ..self }
    }

    /// Whether a delivery can start: one waits and a worker is free.
    pub open spec fn can_dispatch(self) -> bool {
        self.queue.len() > 0 && has_free(self.slots)
    }

    /// The pool after the head of the queue has started on the first free
    /// worker, and that worker; the pool as it is, and no worker, where none
    /// can start.
    pub open spec fn dispatch(self) -> (Pool, Option<int>) {
        if self.can_dispatch() {
            let slot = first_free(self.slots);
            let task = Task {
                delivery: self.queue[0],
                state: DeliveryState::Pending.spec_step(DeliveryEvent::Started, self.retries),
            };
            (
                Pool {
                    slots: self.slots.update(slot, Some(task)),
                    queue: self.queue.drop_first(),
                    ..self
                },
                Some(slot),
            )
        } else {
            (self, None)
        }
    }

    /// The pool and the verdict after the attempt on `slot` has ended,
    /// `delivered` or not.
    ///
    /// Only a worker with an attempt under way is touched.  A delivery that
    /// succeeded or ran out of retries leaves its worker; one that has a retry
    /// left stays and waits.
    pub open spec fn attempt_finished(self, slot: int, delivered: bool) -> (Pool, Verdict) {
        if 0 <= slot < self.slots.len() && self.slots[slot] is Some {
            let task = self.slots[slot]->0;
            match task.state {
                DeliveryState::Attempting { retries_left } => {
                    let event = if delivered {
                        DeliveryEvent::Succeeded
                    } else {
                        DeliveryEvent::Failed
                    };
                    let attempts = spec_attempts_made(retries_left, self.retries);
                    match task.state.spec_step(event, self.retries) {
                        DeliveryState::Delivered => (
                            Pool { slots: self.slots.update(slot, None), ..self },
                            Verdict::Delivered { delivery: task.delivery, attempts },
                        ),
                        DeliveryState::Failed => (
                            Pool { slots: self.slots.update(slot, None), ..self },
                            Verdict::GaveUp(DeliveryFailure { delivery: task.delivery, attempts }),
                        ),
                        next => (
                            Pool {
                                slots: self.slots.update(
                                    slot,
                                    Some(Task { delivery: task.delivery, state: next }),
                                ),
                                ..self
                            },
                            Verdict::Retry { backoff_millis: RETRY_BACKOFF_MILLIS },
                        ),
                    }
                },
                _ => (self, Verdict::Ignored),
            }
        } else {
            (self, Verdict::Ignored)
        }
    }

    /// The pool after the backoff on `slot` has passed, and whether an attempt
    /// is to be made: only a worker that waits to retry is touched.
    pub open spec fn backoff_elapsed(self, slot: int) -> (Pool, bool) {
        if 0 <= slot < self.slots.len() && self.slots[slot] is Some
            && self.slots[slot]->0.state is Retrying {
            let task = self.slots[slot]->0;
            let next = task.state.spec_step(DeliveryEvent::BackoffElapsed, self.retries);
            (
                Pool {
                    slots: self.slots.update(
                        slot,
                        Some(Task { delivery: task.delivery, state: next }),
                    ),
                    ..self
                },
                true,
            )
        } else {
            (self, false)
        }
    }

    /// The pool after `step`.
    pub open spec fn after(self, step: Step) -> Pool {
        match step {
            Step::Notify { deliveries } => self.notify(deliveries),
            Step::Dispatch => self.dispatch().0,
            Step::AttemptFinished { slot, delivered } => self.attempt_finished(slot, delivered).0,
            Step::BackoffElapsed { slot } => self.backoff_elapsed(slot).0,
        }
    }

    /// The pool after `steps`, the first one first.
    pub open spec fn after_all(self, steps: Seq<Step>) -> Pool
        decreases steps.len(),
    {
        if steps.len() == 0 {
            self
        } else {
            self.after_all(steps.drop_last()).after(steps.last())
        }
    }

    /// The deliveries that `steps` start, in the order in which they start.
    pub open spec fn started_by(self, steps: Seq<Step>) -> Seq<Delivery>
        decreases steps.len(),
    {
        if steps.len() == 0 {
            Seq::empty()
        } else {
            let before = self.after_all(steps.drop_last());
            let earlier = self.started_by(steps.drop_last());
            if steps.last() is Dispatch && before.can_dispatch() {
                earlier.push(before.queue[0])
            } else {
                earlier
            }
        }
    }
}

/// The deliveries that `steps` queue, in the order in which they queue them.
pub open spec fn notified_by(steps: Seq<Step>) -> Seq<Delivery>
    decreases steps.len(),
{
    if steps.len() == 0 {
        Seq::empty()
    } else {
        let earlier = notified_by(steps.drop_last());
        match steps.last() {
            Step::Notify { deliveries } => earlier + deliveries,
            _ => earlier,
        }
    }
}

/// No more attempts are under way than workers hold a delivery, and no more
/// workers hold one than there are.
pub proof fn lemma_counts_bounded(slots: Seq<Option<Task>>)
    ensures
        count_attempting(slots) <= count_busy(slots) <= slots.len(),
    decreases slots.len(),
{
    if slots.len() > 0 {
        lemma_counts_bounded(slots.drop_last());
    }
}

/// The first free worker is the only one that is first and free.
pub proof fn lemma_first_free(slots: Seq<Option<Task>>, slot: int)
    requires
        is_first_free(slots, slot),
    ensures
        has_free(slots),
        first_free(slots) == slot,
{
    let chosen = first_free(slots);
    assert(is_first_free(slots, chosen));
    if chosen < slot {
        assert(slots[chosen] is Some);
    }
    if slot < chosen {
        assert(slots[slot] is Some);
    }
}

/// Where a worker is free, one of them is the first.
pub proof fn lemma_has_first_free(slots: Seq<Option<Task>>)
    requires
        has_free(slots),
    ensures
        is_first_free(slots, first_free(slots)),
    decreases slots.len(),
{
    let free = choose|i: int| 0 <= i < slots.len() && slots[i] is None;
    lemma_first_free_below(slots, free);
}

proof fn lemma_first_free_below(slots: Seq<Option<Task>>, free: int)
    requires
        0 <= free < slots.len(),
        slots[free] is None,
    ensures
        exists|slot: int| is_first_free(slots, slot),
    decreases free,
{
    if exists|i: int| 0 <= i < free && slots[i] is None {
        let lower = choose|i: int| 0 <= i < free && slots[i] is None;
        lemma_first_free_below(slots, lower);
    } else {
        assert(is_first_free(slots, free));
    }
}

/// One step keeps a pool in order and its workers as many as they were.
pub proof fn lemma_step_keeps_order(pool: Pool, step: Step)
    requires
        pool.well_formed(),
    ensures
        pool.after(step).well_formed(),
        pool.after(step).ceiling() == pool.ceiling(),
        pool.after(step).retries == pool.retries,
{
    match step {
        Step::Dispatch => {
            if pool.can_dispatch() {
                lemma_has_first_free(pool.slots);
            }
        },
        _ => {},
    }
}

/// The ceiling holds for ever: whatever happens to a pool, and however many
/// deliveries wait, it keeps its workers, and there are never more attempts
/// under way than it has workers.
pub proof fn lemma_ceiling_holds(pool: Pool, steps: Seq<Step>)
    requires
        pool.well_formed(),
    ensures
        pool.after_all(steps).well_formed(),
        pool.after_all(steps).ceiling() == pool.ceiling(),
        pool.after_all(steps).retries == pool.retries,
        pool.after_all(steps).in_flight() <= pool.ceiling(),
    decreases steps.len(),
{
    if steps.len() > 0 {
        lemma_ceiling_holds(pool, steps.drop_last());
        lemma_step_keeps_order(pool.after_all(steps.drop_last()), steps.last());
    }
    lemma_counts_bounded(pool.after_all(steps).slots);
}

/// Nothing is lost and nothing is sent twice: whatever happens to a pool, the
/// deliveries that were started, followed by those that still wait, are the
/// deliveries that waited at first followed by those that were queued since,
/// each once and in order.
pub proof fn lemma_queue_is_conserved(pool: Pool, steps: Seq<Step>)
    ensures
        pool.started_by(steps) + pool.after_all(steps).queue == pool.queue + notified_by(steps),
    decreases steps.len(),
{
    if steps.len() == 0 {
        assert(pool.started_by(steps) + pool.after_all(steps).queue =~= pool.queue + notified_by(
            steps,
        ));
    } else {
        let earlier = steps.drop_last();
        lemma_queue_is_conserved(pool, earlier);
        let before = pool.after_all(earlier);
        assert(pool.started_by(earlier) + before.queue == pool.queue + notified_by(earlier));
        match steps.last() {
            Step::Notify { deliveries } => {
                assert(pool.started_by(steps) + pool.after_all(steps).queue =~= (pool.started_by(
                    earlier,
                ) + before.queue) + deliveries);
                assert(pool.queue + notified_by(steps) =~= (pool.queue + notified_by(earlier))
                    + deliveries);
            },
            Step::Dispatch => {
                if before.can_dispatch() {
                    assert(pool.started_by(steps) + pool.after_all(steps).queue
                        =~= pool.started_by(earlier) + before.queue);
                }
            },
            _ => {},
        }
    }
}

/// Deliveries do not disturb each other: the end of an attempt and the end of
/// a backoff change nothing but the worker they happen on, so a subscriber
/// that cannot be reached holds up nobody else's delivery.
pub proof fn lemma_workers_are_isolated(pool: Pool, slot: int, delivered: bool, other: int)
    requires
        0 <= other < pool.slots.len(),
        other != slot,
    ensures
        pool.attempt_finished(slot, delivered).0.slots[other] == pool.slots[other],
        pool.attempt_finished(slot, delivered).0.queue == pool.queue,
        pool.backoff_elapsed(slot).0.slots[other] == pool.slots[other],
        pool.backoff_elapsed(slot).0.queue == pool.queue,
{
}

/// The event that `step` is for the delivery on `slot`, if it is one.
pub open spec fn event_on(step: Step, slot: int) -> Option<DeliveryEvent> {
    match step {
        Step::AttemptFinished { slot: at, delivered } if at == slot => Some(
            if delivered {
                DeliveryEvent::Succeeded
            } else {
                DeliveryEvent::Failed
            },
        ),
        Step::BackoffElapsed { slot: at } if at == slot => Some(DeliveryEvent::BackoffElapsed),
        _ => None,
    }
}

/// A delivery answers to its own events only: whatever happens to a pool, a
/// delivery that holds a worker stays what it is and where it is unless the
/// step is an event on that worker; then it moves as its own state machine
/// says, and leaves the worker exactly when that takes it to its end.
pub proof fn lemma_delivery_follows_its_own_events(pool: Pool, step: Step, slot: int)
    requires
        pool.well_formed(),
        0 <= slot < pool.slots.len(),
        pool.slots[slot] is Some,
    ensures
        ({
            let task = pool.slots[slot]->0;
            let after = pool.after(step).slots[slot];
            let next = match event_on(step, slot) {
                Some(event) => task.state.spec_step(event, pool.retries),
                None => task.state,
            };
            if next.spec_is_terminal() {
                after is None
            } else {
                after == Some(Task { delivery: task.delivery, state: next })
            }
        }),
{
    match step {
        Step::Dispatch => {
            if pool.can_dispatch() {
                lemma_has_first_free(pool.slots);
            }
        },
        _ => {},
    }
}

/// A failing subscriber does not keep its worker: once the attempts that a
/// delivery is entitled to have all failed, the worker is free again and the
/// next delivery can start on it.
pub proof fn lemma_failure_frees_worker(pool: Pool, slot: int)
    requires
        0 <= slot < pool.slots.len(),
        pool.slots[slot] matches Some(task) && task.state == (DeliveryState::Attempting {
            retries_left: 0,
        }),
    ensures
        ({
            let (after, verdict) = pool.attempt_finished(slot, false);
            &&& verdict is GaveUp
            &&& after.slots[slot] is None
            &&& has_free(after.slots)
            &&& after.queue.len() > 0 ==> after.dispatch().1 is Some
        }),
{
    let (after, verdict) = pool.attempt_finished(slot, false);
    assert(after.slots[slot] is None);
}

} // verus!
