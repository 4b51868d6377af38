//! The dispatcher that a driver holds: the pool, in memory.

use std::collections::VecDeque;
use vstd::prelude::*;
use crate::dispatcher::delivery::{
    Delivery,
    DeliveryEvent,
    DeliveryState,
    DEFAULT_CEILING,
    DEFAULT_RETRIES,
    RETRY_BACKOFF_MILLIS,
};
use crate::dispatcher::notify::{delivery_for, spec_plan};
use crate::dispatcher::pool::{
    count_attempting,
    is_first_free,
    lemma_counts_bounded,
    lemma_first_free,
    task_fits,
    DeliveryFailure,
    Pool,
    Task,
    Verdict,
};
use crate::entities::sensor_data;
use crate::entities::subscribers;
use crate::error::StoreFailure;

verus! {

/// The dispatcher.
pub struct Dispatcher {
    slots: Vec<Option<Task>>,
    queue: VecDeque<Delivery>,
    retries: u8,
}

impl View for Dispatcher {
    type V = Pool;

    closed spec fn view(&self) -> Pool {
        Pool { slots: self.slots@, queue: self.queue@, retries: self.retries }
    }
}

impl Dispatcher {
    /// A dispatcher with `ceiling` idle workers and an empty queue, whose
    /// deliveries are retried `retries` times.
    pub fn new(ceiling: usize, retries: u8) -> (dispatcher: Self)
        ensures
            dispatcher@ == Pool::idle(ceiling as nat, retries),
            dispatcher@.well_formed(),
    {
        let mut slots: Vec<Option<Task>> = Vec::new();
        let mut i: usize = 0;
        while i < ceiling
            invariant
                i <= ceiling,
                slots@.len() == i,
                forall|j: int| 0 <= j < i ==> slots@[j] is None,
            decreases ceiling - i,
        {
            slots.push(None);
            i += 1;
        }
        assert(slots@ =~= Seq::new(ceiling as nat, |i: int| None::<Task>));
        Dispatcher { slots, queue: VecDeque::new(), retries }
    }

    /// A dispatcher with the default ceiling and the default number of retries.
    pub fn with_defaults() -> (dispatcher: Self)
        ensures
            dispatcher@ == Pool::idle(DEFAULT_CEILING as nat, DEFAULT_RETRIES),
            dispatcher@.well_formed(),
    {
        Dispatcher::new(DEFAULT_CEILING, DEFAULT_RETRIES)
    }

    /// Queues the deliveries for `reading`: one for each subscriber that the
    /// store listed for its container, behind what is queued already.  Where
    /// the store failed to list them nobody is told, and nothing changes.
    /// The workers are not touched, and there is nothing to report but the
    /// number queued: the reading is recorded whatever becomes of its
    /// notifications.
    pub fn notify(
        &mut self,
        reading: &sensor_data::Model,
        container_id: &String,
        listed: Result<Vec<subscribers::Model>, StoreFailure>,
    ) -> (queued: usize)
        requires
            old(self)@.well_formed(),
        ensures
            final(self)@.well_formed(),
            final(self)@ == old(self)@.notify(
                match listed {
                    Ok(subscribers) => spec_plan(*reading, *container_id, subscribers@),
                    Err(_) => Seq::<Delivery>::empty(),
                },
            ),
            queued == (match listed {
                Ok(subscribers) => subscribers@.len(),
                Err(_) => 0,
            }),
    {
        match listed {
            Ok(subscribers) => {
                let ghost before = self.queue@;
                let ghost planned = spec_plan(*reading, *container_id, subscribers@);
                let mut i: usize = 0;
                while i < subscribers.len()
                    invariant
                        i <= subscribers.len(),
                        planned == spec_plan(*reading, *container_id, subscribers@),
                        self.queue@ == before + planned.subrange(0, i as int),
                        self.slots == old(self).slots,
                        self.retries == old(self).retries,
                    decreases subscribers.len() - i,
                {
                    let delivery = delivery_for(reading, container_id, &subscribers[i]);
                    self.queue.push_back(delivery);
                    i += 1;
                    assert(self.queue@ =~= before + planned.subrange(0, i as int));
                }
                assert(planned.subrange(0, i as int) =~= planned);
                i
            },
            Err(_) => {
                assert(self.queue@ + Seq::<Delivery>::empty() =~= self.queue@);
                0
            },
        }
    }

    /// Starts the delivery at the head of the queue on the first free worker,
    /// and says on which.  Nothing starts, and nothing changes, while the
    /// queue is empty or every worker holds a delivery.
    pub fn dispatch(&mut self) -> (started: Option<usize>)
        requires
            old(self)@.well_formed(),
        ensures
            final(self)@.well_formed(),
            final(self)@ == old(self)@.dispatch().0,
            started is Some == old(self)@.dispatch().1 is Some,
            started matches Some(slot) ==> old(self)@.dispatch().1 == Some(slot as int),
    {
        if self.queue.len() == 0 {
            return None;
        }
        let mut slot: usize = 0;
        while slot < self.slots.len() && self.slots[slot].is_some()
            invariant
                slot <= self.slots.len(),
                forall|i: int| 0 <= i < slot ==> self.slots@[i] is Some,
            decreases self.slots.len() - slot,
        {
            slot += 1;
        }
        if slot == self.slots.len() {
            return None;
        }
        let ghost before = self.slots@;
        proof {
            assert(is_first_free(before, slot as int));
            lemma_first_free(before, slot as int);
        }
        match self.queue.pop_front() {
            Some(delivery) => {
                let state = DeliveryState::Pending.step(DeliveryEvent::Started, self.retries);
                self.slots[slot] = Some(Task { delivery, state });
                proof {
                    assert(self.queue@ =~= old(self)@.queue.drop_first());
                }
                Some(slot)
            },
            None => None,
        }
    }

    /// The delivery that the worker `slot` holds, if it holds one.
    pub fn delivery(&self, slot: usize) -> (delivery: Option<&Delivery>)
        ensures
            delivery is Some <==> slot < self@.slots.len() && self@.slots[slot as int] is Some,
            delivery matches Some(held) ==> *held == self@.slots[slot as int]->0.delivery,
    {
        if slot < self.slots.len() {
            match &self.slots[slot] {
                Some(task) => Some(&task.delivery),
                None => None,
            }
        } else {
            None
        }
    }

    /// Takes note that the attempt on the worker `slot` has ended, `delivered`
    /// or not, and says what follows.  No other worker is touched, and neither
    /// is the queue.
    pub fn attempt_finished(&mut self, slot: usize, delivered: bool) -> (verdict: Verdict)
        requires
            old(self)@.well_formed(),
        ensures
            final(self)@.well_formed(),
            (final(self)@, verdict) == old(self)@.attempt_finished(slot as int, delivered),
    {
        if slot >= self.slots.len() {
            return Verdict::Ignored;
        }
        let retries_left = match &self.slots[slot] {
            Some(task) => match task.state {
                DeliveryState::Attempting { retries_left } => retries_left,
                _ => {
                    return Verdict::Ignored;
                },
            },
            None => {
                return Verdict::Ignored;
            },
        };
        let ghost before = self.slots@;
        assert(task_fits(before[slot as int]->0, self.retries));
        let taken = self.slots[slot].take();
        match taken {
            Some(task) => {
                let event = if delivered {
                    DeliveryEvent::Succeeded
                } else {
                    DeliveryEvent::Failed
                };
                let attempts: u16 = (self.retries - retries_left) as u16 + 1;
                let next = task.state.step(event, self.retries);
                match next {
                    DeliveryState::Delivered => {
                        assert(self.slots@ =~= before.update(slot as int, None));
                        Verdict::Delivered { delivery: task.delivery, attempts }
                    },
                    DeliveryState::Failed => {
                        assert(self.slots@ =~= before.update(slot as int, None));
                        Verdict::GaveUp(DeliveryFailure { delivery: task.delivery, attempts })
                    },
                    _ => {
                        self.slots[slot] = Some(Task { delivery: task.delivery, state: next });
                        assert(self.slots@ =~= before.update(
                            slot as int,
                            Some(Task { delivery: task.delivery, state: next }),
                        ));
                        Verdict::Retry { backoff_millis: RETRY_BACKOFF_MILLIS }
                    },
                }
            },
            None => Verdict::Ignored,
        }
    }

    /// Takes note that the backoff on the worker `slot` has passed, and says
    /// whether the delivery it holds is to be attempted again now.  No other
    /// worker is touched, and neither is the queue.
    pub fn backoff_elapsed(&mut self, slot: usize) -> (attempt: bool)
        requires
            old(self)@.well_formed(),
        ensures
            final(self)@.well_formed(),
            (final(self)@, attempt) == old(self)@.backoff_elapsed(slot as int),
    {
        if slot >= self.slots.len() {
            return false;
        }
        let waiting = match &self.slots[slot] {
            Some(task) => match task.state {
                DeliveryState::Retrying { .. } => true,
                _ => false,
            },
            None => false,
        };
        if !waiting {
            return false;
        }
        let ghost before = self.slots@;
        assert(task_fits(before[slot as int]->0, self.retries));
        let taken = self.slots[slot].take();
        match taken {
            Some(task) => {
                let next = task.state.step(DeliveryEvent::BackoffElapsed, self.retries);
                self.slots[slot] = Some(Task { delivery: task.delivery, state: next });
                assert(self.slots@ =~= before.update(
                    slot as int,
                    Some(Task { delivery: task.delivery, state: next }),
                ));
                true
            },
            None => false,
        }
    }

    /// The number of attempts under way: never more than there are workers.
    pub fn attempts_in_flight(&self) -> (count: usize)
        ensures
            count == self@.in_flight(),
            count <= self@.ceiling(),
    {
        let mut count: usize = 0;
        let mut i: usize = 0;
        while i < self.slots.len()
            invariant
                i <= self.slots.len(),
                count == count_attempting(self.slots@.subrange(0, i as int)),
                count <= i,
            decreases self.slots.len() - i,
        {
            proof {
                assert(self.slots@.subrange(0, i as int + 1).drop_last() =~= self.slots@.subrange(
                    0,
                    i as int,
                ));
            }
            let attempting = match &self.slots[i] {
                Some(task) => match task.state {
                    DeliveryState::Attempting { .. } => true,
                    _ => false,
                },
                None => false,
            };
            if attempting {
                count += 1;
            }
            i += 1;
        }
        assert(self.slots@.subrange(0, i as int) =~= self.slots@);
        count
    }

    /// The number of workers.
    pub fn workers(&self) -> (count: usize)
        ensures
            count == self@.ceiling(),
    {
        self.slots.len()
    }

    /// The number of deliveries that wait for a worker.
    pub fn waiting(&self) -> (count: usize)
        ensures
            count == self@.queue.len(),
    {
        self.queue.len()
    }
}

} // verus!
