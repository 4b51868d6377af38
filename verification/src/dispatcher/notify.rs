//! From a reading and the subscribers of its container to the deliveries to make.

use vstd::prelude::*;
use crate::dispatcher::delivery::{Delivery, Notification};
use crate::entities::sensor_data;
use crate::entities::subscribers;
use crate::error::AccessError;

verus! {

/// What `subscriber` is sent about `reading`: the reading's identifier, the
/// container and what was read, to the subscriber's URL.
pub open spec fn spec_delivery(
    reading: sensor_data::Model,
    container_id: String,
    subscriber: subscribers::Model,
) -> Delivery {
    Delivery {
        url: subscriber.notification_url,
        notification: Notification {
            reading_id: reading.id,
            container_id,
            payload: reading.data,
        },
    }
}

/// The deliveries for `reading`: one for each subscriber, in their order.
pub open spec fn spec_plan(
    reading: sensor_data::Model,
    container_id: String,
    subscribers: Seq<subscribers::Model>,
) -> Seq<Delivery> {
    Seq::new(subscribers.len(), |i: int| spec_delivery(reading, container_id, subscribers[i]))
}

/// The container whose subscribers are to be told, given how the recording of
/// a reading ended: the reading's container where it was recorded, none where
/// it was not.  So every recorded reading is announced once, and nothing else is.
pub fn container_to_notify(outcome: &Result<sensor_data::Model, AccessError>) -> (container: Option<
    &String,
>)
    ensures
        container == (match outcome {
            Ok(reading) => Some(&reading.container_id),
            Err(_) => None,
        }),
{
    match outcome {
        Ok(reading) => Some(&reading.container_id),
        Err(_) => None,
    }
}

/// The delivery that tells `subscriber` about `reading`.
pub fn delivery_for(
    reading: &sensor_data::Model,
    container_id: &String,
    subscriber: &subscribers::Model,
) -> (delivery: Delivery)
    ensures
        delivery == spec_delivery(*reading, *container_id, *subscriber),
{
    let payload = match &reading.data {
        Some(text) => Some(text.clone()),
        None => None,
    };
    Delivery {
        url: subscriber.notification_url.clone(),
        notification: Notification {
            reading_id: reading.id.clone(),
            container_id: container_id.clone(),
            payload,
        },
    }
}

/// The deliveries that tell `subscribers` about `reading`: exactly one for
/// each of them, in their order.
pub fn plan(
    reading: &sensor_data::Model,
    container_id: &String,
    subscribers: &Vec<subscribers::Model>,
) -> (deliveries: Vec<Delivery>)
    ensures
        deliveries@ == spec_plan(*reading, *container_id, subscribers@),
{
    let mut deliveries: Vec<Delivery> = Vec::new();
    let mut i: usize = 0;
    while i < subscribers.len()
        invariant
            i <= subscribers.len(),
            deliveries@.len() == i,
            forall|j: int|
                0 <= j < i ==> deliveries@[j] == spec_delivery(
                    *reading,
                    *container_id,
                    subscribers@[j],
                ),
        decreases subscribers.len() - i,
    {
        deliveries.push(delivery_for(reading, container_id, &subscribers[i]));
        i += 1;
    }
    assert(deliveries@ =~= spec_plan(*reading, *container_id, subscribers@));
    deliveries
}

/// Nobody is left out and nobody is told twice: the plan has exactly one
/// delivery for each subscriber, addressed to that subscriber's URL, and every
/// one of them carries the reading's identifier, the container and what was
/// read.
pub proof fn lemma_plan_covers_subscribers(
    reading: sensor_data::Model,
    container_id: String,
    subscribers: Seq<subscribers::Model>,
)
    ensures
        spec_plan(reading, container_id, subscribers).len() == subscribers.len(),
        forall|i: int|
            0 <= i < subscribers.len() ==> {
                let delivery = #[trigger] spec_plan(reading, container_id, subscribers)[i];
                &&& delivery.url == subscribers[i].notification_url
                &&& delivery.notification.reading_id == reading.id
                &&& delivery.notification.container_id == container_id
                &&& delivery.notification.payload == reading.data
            },
{
}

} // verus!
