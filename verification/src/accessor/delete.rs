//! Deleting an entity: delete the row, then drop the cached copy.

use vstd::prelude::*;
use crate::accessor::machine::Machine;
use crate::accessor::request::{Reply, Request};
use crate::entity::Entity;
use crate::error::AccessError;

verus! {

/// The deletion of one entity.
pub enum Delete {
    /// The row has to be deleted.
    Remove { id: String },
    /// The row is gone; the cached copy has to be dropped.
    Invalidate { id: String },
    /// Over.
    Done(Result<(), AccessError>),
}

impl Delete {
    /// The deletion of the entity `id`, before anything has been asked.
    pub open spec fn spec_start(id: String) -> Self {
        Delete::Remove { id }
    }

    /// Starts the deletion of the entity `id`.
    pub fn start(id: String) -> (delete: Self)
        ensures
            delete == Self::spec_start(id),
    {
        Delete::Remove { id }
    }

    /// The outcome, once the deletion is over.
    pub open spec fn spec_outcome(self) -> Option<Result<(), AccessError>> {
        match self {
            Delete::Done(outcome) => Some(outcome),
            _ => None,
        }
    }
}

impl<E: Entity> Machine<E> for Delete {
    type Output = Result<(), AccessError>;

    open spec fn spec_request(&self) -> Option<Request<'_, E>> {
        match self {
            Delete::Remove { id } => Some(Request::StoreDeleteById { id }),
            Delete::Invalidate { id } => Some(Request::CacheDelete { id }),
            Delete::Done(_) => None,
        }
    }

    open spec fn spec_step(self, reply: Reply<E>) -> Self {
        match (self, reply) {
            (Delete::Remove { id }, Reply::Deleted(Ok(_))) => Delete::Invalidate { id },
            (Delete::Remove { .. }, Reply::Deleted(Err(_))) => Delete::Done(
                Err(AccessError::StoreError),
            ),
            (Delete::Invalidate { .. }, Reply::CacheDone(_)) => Delete::Done(Ok(())),
            (delete, _) => delete,
        }
    }

    open spec fn spec_output(self) -> Option<Result<(), AccessError>> {
        self.spec_outcome()
    }

    open spec fn spec_remaining(&self) -> nat {
        match self {
            Delete::Remove { .. } => 2,
            Delete::Invalidate { .. } => 1,
            Delete::Done(_) => 0,
        }
    }

    fn request(&self) -> (request: Option<Request<'_, E>>) {
        match self {
            Delete::Remove { id } => Some(Request::StoreDeleteById { id }),
            Delete::Invalidate { id } => Some(Request::CacheDelete { id }),
            Delete::Done(_) => None,
        }
    }

    fn step(self, reply: Reply<E>) -> (next: Self) {
        match self {
            Delete::Remove { id } => match reply {
                Reply::Deleted(Ok(_)) => Delete::Invalidate { id },
                Reply::Deleted(Err(_)) => Delete::Done(Err(AccessError::StoreError)),
                _ => Delete::Remove { id },
            },
            Delete::Invalidate { id } => match reply {
                Reply::CacheDone(_) => Delete::Done(Ok(())),
                _ => Delete::Invalidate { id },
            },
            Delete::Done(outcome) => Delete::Done(outcome),
        }
    }

    fn finish(self) -> (output: Option<Result<(), AccessError>>) {
        match self {
            Delete::Done(outcome) => Some(outcome),
            _ => None,
        }
    }

    proof fn lemma_over(self) {
    }

    proof fn lemma_step_remaining(self, reply: Reply<E>) {
    }
}

} // verus!
