//! The shape shared by all operations.

use vstd::prelude::*;
use crate::entity::Entity;
use crate::accessor::request::{Reply, Request};

verus! {

/// An operation in progress.
///
/// A driver asks for the pending request, carries it out, and hands the reply
/// to `step`, until no request is pending; then `finish` gives the outcome.
/// A reply that does not answer the pending request leaves the operation as
/// it is.
pub trait Machine<E: Entity>: Sized {
    /// What the operation hands to its caller.
    type Output;

    /// The request that has to be carried out next; none once the operation is over.
    spec fn spec_request(&self) -> Option<Request<'_, E>>;

    /// The operation after `reply` has come in.
    spec fn spec_step(self, reply: Reply<E>) -> Self;

    /// The outcome, once the operation is over.
    spec fn spec_output(self) -> Option<Self::Output>;

    /// An upper bound on the number of requests still to come.
    spec fn spec_remaining(&self) -> nat;

    fn request(&self) -> (request: Option<Request<'_, E>>)
        ensures
            request == self.spec_request(),
    ;

    fn step(self, reply: Reply<E>) -> (next: Self)
        ensures
            next == self.spec_step(reply),
    ;

    fn finish(self) -> (output: Option<Self::Output>)
        ensures
            output == self.spec_output(),
    ;

    /// An operation is over exactly when it has an outcome, and then no
    /// request remains.
    proof fn lemma_over(self)
        ensures
            self.spec_request() is None <==> self.spec_output() is Some,
            self.spec_request() is None ==> self.spec_remaining() == 0,
    ;

    /// No reply makes more requests remain, and every reply that moves the
    /// operation makes fewer remain: an operation asks for no more than what
    /// remained at its start.
    proof fn lemma_step_remaining(self, reply: Reply<E>)
        ensures
            self.spec_step(reply).spec_remaining() <= self.spec_remaining(),
            self.spec_step(reply) != self ==> self.spec_step(reply).spec_remaining()
                < self.spec_remaining(),
    ;
}

} // verus!
