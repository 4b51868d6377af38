//! One delivery: what is sent where, and how far it has got.

use vstd::prelude::*;

verus! {

/// How many deliveries are attempted at once unless told otherwise.
pub const DEFAULT_CEILING: usize = 16;

/// How often a failed delivery is tried again unless told otherwise.
pub const DEFAULT_RETRIES: u8 = 2;

/// Seconds after which an attempt that has not succeeded counts as failed.
pub const ATTEMPT_TIMEOUT_SECONDS: u64 = 5;

/// Milliseconds to wait after a failed attempt before the next.
pub const RETRY_BACKOFF_MILLIS: u64 = 200;

/// What a subscriber is told about a reading.
#[derive(Clone, Debug, PartialEq, Eq)]
pub struct Notification {
    pub reading_id: String,
    pub container_id: String,
    /// What was read, as JSON text; none where the reading holds nothing.
    pub payload: Option<String>,
}

/// A notification and the URL it goes to.
#[derive(Clone, Debug, PartialEq, Eq)]
pub struct Delivery {
    pub url: String,
    pub notification: Notification,
}

/// How far a delivery has got.
#[derive(Clone, Copy, Debug, PartialEq, Eq, Structural)]
pub enum DeliveryState {
    /// Waiting for its first attempt.
    Pending,
    /// An attempt is under way; `retries_left` more may follow it.
    Attempting { retries_left: u8 },
    /// The last attempt failed; the next one, after which `retries_left` more
    /// may follow, waits for the backoff to pass.
    Retrying { retries_left: u8 },
    /// An attempt succeeded.
    Delivered,
    /// The last attempt failed and no retry was left.
    Failed,
}

/// What happens to a delivery.
#[derive(Clone, Copy, Debug, PartialEq, Eq, Structural)]
pub enum DeliveryEvent {
    /// The first attempt begins.
    Started,
    /// The attempt under way got a success response in time.
    Succeeded,
    /// The attempt under way timed out, could not connect or was refused.
    Failed,
    /// The backoff after a failed attempt has passed.
    BackoffElapsed,
}

impl DeliveryState {
    /// Delivered or failed: nothing will happen any more.
    pub open spec fn spec_is_terminal(self) -> bool {
        self is Delivered || self is Failed
    }

    /// Holding a worker: attempting or waiting to retry.
    pub open spec fn spec_is_active(self) -> bool {
        self is Attempting || self is Retrying
    }

    /// The state after `event`, for a delivery that may be retried `retries`
    /// times.  An event that does not fit the state changes nothing.
    pub open spec fn spec_step(self, event: DeliveryEvent, retries: u8) -> DeliveryState {
        match (self, event) {
            (DeliveryState::Pending, DeliveryEvent::Started) => DeliveryState::Attempting {
                retries_left: retries,
            },
            (DeliveryState::Attempting { .. }, DeliveryEvent::Succeeded) => DeliveryState::Delivered,
            (DeliveryState::Attempting { retries_left }, DeliveryEvent::Failed) => if retries_left
                > 0 {
                DeliveryState::Retrying { retries_left: (retries_left - 1) as u8 }
            } else {
                DeliveryState::Failed
            },
            (
                DeliveryState::Retrying { retries_left },
                DeliveryEvent::BackoffElapsed,
            ) => DeliveryState::Attempting { retries_left },
            (state, _) => state,
        }
    }

    pub fn is_terminal(&self) -> (yes: bool)
        ensures
            yes == self.spec_is_terminal(),
    {
        match self {
            DeliveryState::Delivered => true,
            DeliveryState::Failed => true,
            _ => false,
        }
    }

    pub fn is_active(&self) -> (yes: bool)
        ensures
            yes == self.spec_is_active(),
    {
        match self {
            DeliveryState::Attempting { .. } => true,
            DeliveryState::Retrying { .. } => true,
            _ => false,
        }
    }

    /// Moves the delivery on by `event`.
    pub fn step(self, event: DeliveryEvent, retries: u8) -> (next: DeliveryState)
        ensures
            next == self.spec_step(event, retries),
    {
        match self {
            DeliveryState::Pending => match event {
                DeliveryEvent::Started => DeliveryState::Attempting { retries_left: retries },
                _ => self,
            },
            DeliveryState::Attempting { retries_left } => match event {
                DeliveryEvent::Succeeded => DeliveryState::Delivered,
                DeliveryEvent::Failed => if retries_left > 0 {
                    DeliveryState::Retrying { retries_left: retries_left - 1 }
                } else {
                    DeliveryState::Failed
                },
                _ => self,
            },
            DeliveryState::Retrying { retries_left } => match event {
                DeliveryEvent::BackoffElapsed => DeliveryState::Attempting { retries_left },
                _ => self,
            },
            DeliveryState::Delivered => self,
            DeliveryState::Failed => self,
        }
    }
}

/// Where a delivery ends up, and after how many attempts, when an attempt is
/// under way with `retries_left` retries to follow and the attempts come out
/// as `results` says, the first result first.  The delivery waits out the
/// backoff after every failure that leaves a retry.  It is still attempting
/// if the results run out first.
pub open spec fn spec_attempts(retries_left: u8, results: Seq<bool>) -> (DeliveryState, nat)
    decreases results.len(),
{
    let attempting = DeliveryState::Attempting { retries_left };
    if results.len() == 0 {
        (attempting, 0)
    } else if results[0] {
        (attempting.spec_step(DeliveryEvent::Succeeded, retries_left), 1)
    } else {
        let failed = attempting.spec_step(DeliveryEvent::Failed, retries_left);
        match failed.spec_step(DeliveryEvent::BackoffElapsed, retries_left) {
            DeliveryState::Attempting { retries_left: left } => {
                let (end, attempts) = spec_attempts(left, results.drop_first());
                (end, attempts + 1)
            },
            end => (end, 1),
        }
    }
}

/// The life of a delivery that may be retried `retries` times: from pending,
/// through its first attempt, to where `results` take it.
pub open spec fn spec_deliver(retries: u8, results: Seq<bool>) -> (DeliveryState, nat) {
    match DeliveryState::Pending.spec_step(DeliveryEvent::Started, retries) {
        DeliveryState::Attempting { retries_left } => spec_attempts(retries_left, results),
        state => (state, 0),
    }
}

/// The number of results before the first success among the first `limit`.
pub open spec fn failures_before_success(results: Seq<bool>, limit: nat) -> nat
    decreases limit,
{
    if limit == 0 || results.len() == 0 || results[0] {
        0
    } else {
        1 + failures_before_success(results.drop_first(), (limit - 1) as nat)
    }
}

/// The failures before the first success are failures, and a success follows
/// them unless the limit or the end of the results comes first.
pub proof fn lemma_failures_before_success(results: Seq<bool>, limit: nat)
    ensures
        ({
            let failures = failures_before_success(results, limit);
            &&& failures <= limit
            &&& failures <= results.len()
            &&& forall|i: int| 0 <= i < failures ==> !results[i]
            &&& failures < limit && failures < results.len() ==> results[failures as int]
        }),
    decreases limit,
{
    if !(limit == 0 || results.len() == 0 || results[0]) {
        let rest = results.drop_first();
        lemma_failures_before_success(rest, (limit - 1) as nat);
        let failures = failures_before_success(rest, (limit - 1) as nat);
        assert forall|i: int| 0 <= i < failures + 1 implies !results[i] by {
            if i > 0 {
                assert(results[i] == rest[i - 1]);
            }
        }
        if failures + 1 < limit && failures + 1 < results.len() {
            assert(results[failures as int + 1] == rest[failures as int]);
        }
    }
}

/// An attempt under way comes to an end within the retries it has left: given
/// a result for each attempt that may be made, the delivery ends delivered or
/// failed; it is delivered exactly if one of those attempts succeeds, and
/// then after the first success; else it fails after all of them.
pub proof fn lemma_attempts_end(retries_left: u8, results: Seq<bool>)
    requires
        results.len() > retries_left,
    ensures
        ({
            let (end, attempts) = spec_attempts(retries_left, results);
            let failures = failures_before_success(results, retries_left as nat + 1);
            &&& end.spec_is_terminal()
            &&& 1 <= attempts <= retries_left + 1
            &&& end is Delivered <==> failures <= retries_left
            &&& end is Delivered ==> attempts == failures + 1 && results[failures as int]
            &&& end is Failed ==> attempts == retries_left + 1
            &&& forall|i: int| 0 <= i < attempts - 1 ==> !results[i]
        }),
    decreases results.len(),
{
    if !results[0] && retries_left > 0 {
        let rest = results.drop_first();
        let left = (retries_left - 1) as u8;
        lemma_attempts_end(left, rest);
        let (end, attempts) = spec_attempts(left, rest);
        let failures = failures_before_success(rest, left as nat + 1);
        assert(spec_attempts(retries_left, results) == (end, attempts + 1));
        assert(failures_before_success(results, retries_left as nat + 1) == failures + 1);
        assert forall|i: int| 0 <= i < attempts implies !results[i] by {
            if i > 0 {
                assert(results[i] == rest[i - 1]);
            }
        }
        if end is Delivered {
            assert(results[failures as int + 1] == rest[failures as int]);
        }
    }
}

/// Every delivery comes to an end after at most one attempt more than it may
/// be retried, whatever the subscriber does: it ends delivered after the first
/// attempt that succeeds, if one of them does, and else failed.
pub proof fn lemma_delivery_ends(retries: u8, results: Seq<bool>)
    requires
        results.len() > retries,
    ensures
        ({
            let (end, attempts) = spec_deliver(retries, results);
            &&& end.spec_is_terminal()
            &&& 1 <= attempts <= retries + 1
            &&& end is Delivered <==> exists|i: int| 0 <= i <= retries && results[i]
            &&& end is Delivered ==> results[attempts - 1]
            &&& forall|i: int| 0 <= i < attempts - 1 ==> !results[i]
        }),
{
    lemma_attempts_end(retries, results);
    lemma_failures_before_success(results, retries as nat + 1);
    let (end, attempts) = spec_deliver(retries, results);
    let failures = failures_before_success(results, retries as nat + 1);
    if end is Delivered {
        assert(0 <= failures <= retries && results[failures as int]);
    }
}

/// A subscriber that can be reached is told exactly once: a delivery whose
/// first attempt succeeds is delivered by that attempt, and no other is made.
pub proof fn lemma_reachable_is_told_once(retries: u8, results: Seq<bool>)
    requires
        results.len() > 0,
        results[0],
    ensures
        spec_deliver(retries, results) == (DeliveryState::Delivered, 1nat),
{
}

/// A subscriber that cannot be reached is given up after every attempt it is
/// entitled to: one, and one more for every retry.
pub proof fn lemma_unreachable_is_given_up(retries: u8, results: Seq<bool>)
    requires
        results.len() > retries,
        forall|i: int| 0 <= i <= retries ==> !results[i],
    ensures
        spec_deliver(retries, results) == (DeliveryState::Failed, (retries + 1) as nat),
{
    lemma_delivery_ends(retries, results);
    lemma_attempts_end(retries, results);
}

} // verus!
