//! Subscribers: who wants to hear about the readings of a data container.

use vstd::prelude::*;
use crate::entity::{Entity, Updatable};
use crate::url::{is_absolute_url, spec_is_absolute_url};

verus! {

/// A subscriber as the store keeps it.
#[derive(Clone, Debug, PartialEq, Eq)]
pub struct Model {
    pub id: String,
    /// The data container whose readings the subscriber wants.
    pub container_id: String,
    /// Where the readings are sent.
    pub notification_url: String,
    /// Microseconds since the Unix epoch.
    pub created_at: i64,
}

/// What a caller supplies to register a subscriber.
#[derive(Clone, Debug, PartialEq, Eq)]
pub struct SubscriberCreate {
    pub container_id: String,
    pub notification_url: String,
}

/// What a caller supplies to change a subscriber.
#[derive(Clone, Debug, PartialEq, Eq)]
pub struct SubscriberUpdate {
    pub notification_url: String,
}

impl Entity for Model {
    type Fields = SubscriberCreate;

    open spec fn spec_route() -> Seq<char> {
        "Subscriber"@
    }

    fn route() -> (route: &'static str) {
        "Subscriber"
    }

    proof fn lemma_route_plain() {
        reveal_strlit("Subscriber");
    }

    open spec fn spec_id_length() -> usize {
        10
    }

    fn id_length() -> (length: usize) {
        10
    }

    open spec fn spec_id(&self) -> String {
        self.id
    }

    fn id(&self) -> (id: &String) {
        &self.id
    }

    open spec fn spec_parent(fields: &SubscriberCreate) -> Option<String> {
        Some(fields.container_id)
    }

    /// A subscriber needs an absolute URL to be notified at.
    open spec fn spec_accepts(fields: &SubscriberCreate) -> bool {
        spec_is_absolute_url(fields.notification_url@)
    }

    fn accepts(fields: &SubscriberCreate) -> (ok: bool) {
        is_absolute_url(fields.notification_url.as_str())
    }

    open spec fn spec_row(id: String, fields: SubscriberCreate, created_at: i64) -> Self {
        Model {
            id,
            container_id: fields.container_id,
            notification_url: fields.notification_url,
            created_at,
        }
    }

    proof fn lemma_row_id(id: String, fields: SubscriberCreate, created_at: i64) {
    }
}

impl Updatable for Model {
    type Changes = SubscriberUpdate;

    open spec fn spec_admits(changes: &SubscriberUpdate) -> bool {
        spec_is_absolute_url(changes.notification_url@)
    }

    fn admits(changes: &SubscriberUpdate) -> (ok: bool) {
        is_absolute_url(changes.notification_url.as_str())
    }

    open spec fn spec_apply(self, changes: SubscriberUpdate) -> Self {
        Model { notification_url: changes.notification_url, ..self }
    }

    fn apply(self, changes: SubscriberUpdate) -> (changed: Self) {
        Model {
            id: self.id,
            container_id: self.container_id,
            notification_url: changes.notification_url,
            created_at: self.created_at,
        }
    }

    proof fn lemma_apply_keeps_id(self, changes: SubscriberUpdate) {
    }
}

} // verus!
