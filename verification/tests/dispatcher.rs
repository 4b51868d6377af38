use sensor_registry::dispatcher::delivery::{
    Delivery, DeliveryEvent, DeliveryState, Notification, ATTEMPT_TIMEOUT_SECONDS, DEFAULT_CEILING,
    DEFAULT_RETRIES, RETRY_BACKOFF_MILLIS,
};
use sensor_registry::dispatcher::notify::{delivery_for, plan};
use sensor_registry::dispatcher::pool::{DeliveryFailure, Verdict};
use sensor_registry::dispatcher::service::Dispatcher;
use sensor_registry::entities::{sensor_data, subscribers};
use sensor_registry::error::StoreFailure;

fn reading(id: &str, container: &str, data: Option<&str>) -> sensor_data::Model {
    sensor_data::Model {
        id: id.to_string(),
        container_id: container.to_string(),
        data: data.map(|text| text.to_string()),
        created_at: 42,
    }
}

fn subscriber(id: &str, container: &str, url: &str) -> subscribers::Model {
    subscribers::Model {
        id: id.to_string(),
        container_id: container.to_string(),
        notification_url: url.to_string(),
        created_at: 7,
    }
}

fn subscribers_of(container: &str, count: usize) -> Vec<subscribers::Model> {
    (1..=count)
        .map(|n| subscriber(&format!("u{n}"), container, &format!("http://s{n}.test/hook")))
        .collect()
}

fn delivery(url: &str, reading_id: &str) -> Delivery {
    Delivery {
        url: url.to_string(),
        notification: Notification {
            reading_id: reading_id.to_string(),
            container_id: "c1".to_string(),
            payload: Some("{\"temp\":21.5}".to_string()),
        },
    }
}

fn start_all(dispatcher: &mut Dispatcher) -> Vec<usize> {
    let mut started = Vec::new();
    while let Some(slot) = dispatcher.dispatch() {
        started.push(slot);
    }
    started
}

#[test]
fn limits_are_as_documented() {
    assert_eq!(DEFAULT_CEILING, 16);
    assert_eq!(DEFAULT_RETRIES, 2);
    assert_eq!(ATTEMPT_TIMEOUT_SECONDS, 5);
    assert_eq!(RETRY_BACKOFF_MILLIS, 200);
    let dispatcher = Dispatcher::with_defaults();
    assert_eq!(dispatcher.workers(), 16);
    assert_eq!(dispatcher.waiting(), 0);
    assert_eq!(dispatcher.attempts_in_flight(), 0);
}

#[test]
fn delivery_walks_through_its_states() {
    let pending = DeliveryState::Pending;
    let first = pending.step(DeliveryEvent::Started, 2);
    assert_eq!(first, DeliveryState::Attempting { retries_left: 2 });
    let waiting = first.step(DeliveryEvent::Failed, 2);
    assert_eq!(waiting, DeliveryState::Retrying { retries_left: 1 });
    let second = waiting.step(DeliveryEvent::BackoffElapsed, 2);
    assert_eq!(second, DeliveryState::Attempting { retries_left: 1 });
    let waiting = second.step(DeliveryEvent::Failed, 2);
    assert_eq!(waiting, DeliveryState::Retrying { retries_left: 0 });
    let third = waiting.step(DeliveryEvent::BackoffElapsed, 2);
    assert_eq!(third, DeliveryState::Attempting { retries_left: 0 });
    assert_eq!(third.step(DeliveryEvent::Failed, 2), DeliveryState::Failed);
    assert_eq!(third.step(DeliveryEvent::Succeeded, 2), DeliveryState::Delivered);
    assert_eq!(first.step(DeliveryEvent::Succeeded, 2), DeliveryState::Delivered);
}

#[test]
fn delivery_without_retries_fails_at_once() {
    let attempt = DeliveryState::Pending.step(DeliveryEvent::Started, 0);
    assert_eq!(attempt, DeliveryState::Attempting { retries_left: 0 });
    assert_eq!(attempt.step(DeliveryEvent::Failed, 0), DeliveryState::Failed);
}

#[test]
fn delivered_and_failed_are_final() {
    for state in [DeliveryState::Delivered, DeliveryState::Failed] {
        assert!(state.is_terminal());
        assert!(!state.is_active());
        for event in [
            DeliveryEvent::Started,
            DeliveryEvent::Succeeded,
            DeliveryEvent::Failed,
            DeliveryEvent::BackoffElapsed,
        ] {
            assert_eq!(state.step(event, 2), state);
        }
    }
}

#[test]
fn events_that_do_not_fit_change_nothing() {
    let pending = DeliveryState::Pending;
    assert!(!pending.is_terminal());
    assert!(!pending.is_active());
    assert_eq!(pending.step(DeliveryEvent::Succeeded, 2), pending);
    assert_eq!(pending.step(DeliveryEvent::Failed, 2), pending);
    assert_eq!(pending.step(DeliveryEvent::BackoffElapsed, 2), pending);

    let attempting = DeliveryState::Attempting { retries_left: 1 };
    assert!(attempting.is_active());
    assert_eq!(attempting.step(DeliveryEvent::Started, 2), attempting);
    assert_eq!(attempting.step(DeliveryEvent::BackoffElapsed, 2), attempting);

    let retrying = DeliveryState::Retrying { retries_left: 1 };
    assert!(retrying.is_active());
    assert_eq!(retrying.step(DeliveryEvent::Started, 2), retrying);
    assert_eq!(retrying.step(DeliveryEvent::Succeeded, 2), retrying);
    assert_eq!(retrying.step(DeliveryEvent::Failed, 2), retrying);
}

#[test]
fn plan_has_one_delivery_per_subscriber_in_order() {
    let reading = reading("r1", "c1", Some("{\"temp\":21.5}"));
    let subscribers = subscribers_of("c1", 3);
    let deliveries = plan(&reading, &"c1".to_string(), &subscribers);
    assert_eq!(
        deliveries,
        vec![
            delivery("http://s1.test/hook", "r1"),
            delivery("http://s2.test/hook", "r1"),
            delivery("http://s3.test/hook", "r1"),
        ]
    );
    assert_eq!(plan(&reading, &"c1".to_string(), &Vec::new()), Vec::new());
}

#[test]
fn delivery_carries_the_reading_and_the_container_named() {
    let empty = reading("r9", "c1", None);
    let made = delivery_for(&empty, &"c2".to_string(), &subscriber("u1", "c1", "http://a.test"));
    assert_eq!(
        made,
        Delivery {
            url: "http://a.test".to_string(),
            notification: Notification {
                reading_id: "r9".to_string(),
                container_id: "c2".to_string(),
                payload: None,
            },
        }
    );
}

#[test]
fn notify_queues_one_delivery_per_subscriber() {
    let mut dispatcher = Dispatcher::new(2, 2);
    let reading = reading("r1", "c1", Some("{\"temp\":21.5}"));
    assert_eq!(dispatcher.notify(&reading, &"c1".to_string(), Ok(subscribers_of("c1", 5))), 5);
    assert_eq!(dispatcher.waiting(), 5);
    assert_eq!(dispatcher.attempts_in_flight(), 0);
    assert_eq!(dispatcher.notify(&reading, &"c1".to_string(), Ok(Vec::new())), 0);
    assert_eq!(dispatcher.waiting(), 5);
}

#[test]
fn notify_tells_nobody_when_the_subscribers_cannot_be_listed() {
    let mut dispatcher = Dispatcher::new(2, 2);
    let reading = reading("r1", "c1", None);
    assert_eq!(dispatcher.notify(&reading, &"c1".to_string(), Err(StoreFailure::Other)), 0);
    assert_eq!(dispatcher.waiting(), 0);
    assert_eq!(dispatcher.dispatch(), None);
}

#[test]
fn deliveries_start_in_order_on_the_first_free_worker() {
    let mut dispatcher = Dispatcher::new(3, 2);
    let reading = reading("r1", "c1", None);
    dispatcher.notify(&reading, &"c1".to_string(), Ok(subscribers_of("c1", 4)));
    assert_eq!(dispatcher.dispatch(), Some(0));
    assert_eq!(dispatcher.dispatch(), Some(1));
    assert_eq!(dispatcher.delivery(0).unwrap().url, "http://s1.test/hook");
    assert_eq!(dispatcher.delivery(1).unwrap().url, "http://s2.test/hook");
    assert_eq!(dispatcher.delivery(2), None);
    assert_eq!(dispatcher.delivery(3), None);

    assert!(matches!(dispatcher.attempt_finished(0, true), Verdict::Delivered { .. }));
    assert_eq!(dispatcher.dispatch(), Some(0));
    assert_eq!(dispatcher.delivery(0).unwrap().url, "http://s3.test/hook");
    assert_eq!(dispatcher.dispatch(), Some(2));
    assert_eq!(dispatcher.delivery(2).unwrap().url, "http://s4.test/hook");
    assert_eq!(dispatcher.dispatch(), None);
    assert_eq!(dispatcher.waiting(), 0);
}

#[test]
fn no_more_attempts_are_in_flight_than_the_ceiling() {
    let mut dispatcher = Dispatcher::new(2, 2);
    let first = reading("r1", "c1", None);
    let second = reading("r2", "c2", None);
    dispatcher.notify(&first, &"c1".to_string(), Ok(subscribers_of("c1", 3)));
    dispatcher.notify(&second, &"c2".to_string(), Ok(subscribers_of("c2", 2)));
    assert_eq!(dispatcher.waiting(), 5);

    assert_eq!(start_all(&mut dispatcher), vec![0, 1]);
    assert_eq!(dispatcher.attempts_in_flight(), 2);
    assert_eq!(dispatcher.waiting(), 3);
    assert_eq!(dispatcher.dispatch(), None);
    assert_eq!(dispatcher.attempts_in_flight(), 2);

    let mut finished = 0;
    let mut peak = 0;
    while dispatcher.attempts_in_flight() > 0 {
        peak = peak.max(dispatcher.attempts_in_flight());
        let slot = if dispatcher.delivery(0).is_some() { 0 } else { 1 };
        assert!(matches!(dispatcher.attempt_finished(slot, true), Verdict::Delivered { .. }));
        finished += 1;
        start_all(&mut dispatcher);
        assert!(dispatcher.attempts_in_flight() <= 2);
    }
    assert_eq!(peak, 2);
    assert_eq!(finished, 5);
    assert_eq!(dispatcher.waiting(), 0);
}

#[test]
fn a_dispatcher_without_workers_starts_nothing() {
    let mut dispatcher = Dispatcher::new(0, 2);
    let reading = reading("r1", "c1", None);
    assert_eq!(dispatcher.notify(&reading, &"c1".to_string(), Ok(subscribers_of("c1", 2))), 2);
    assert_eq!(dispatcher.dispatch(), None);
    assert_eq!(dispatcher.attempts_in_flight(), 0);
    assert_eq!(dispatcher.waiting(), 2);
}

#[test]
fn an_unreachable_subscriber_is_retried_twice_and_given_up() {
    let mut dispatcher = Dispatcher::new(1, 2);
    let reading = reading("r1", "c1", Some("1"));
    dispatcher.notify(&reading, &"c1".to_string(), Ok(subscribers_of("c1", 1)));
    assert_eq!(dispatcher.dispatch(), Some(0));

    assert_eq!(dispatcher.attempt_finished(0, false), Verdict::Retry { backoff_millis: 200 });
    assert_eq!(dispatcher.attempts_in_flight(), 0);
    assert_eq!(dispatcher.dispatch(), None);
    assert!(dispatcher.backoff_elapsed(0));
    assert_eq!(dispatcher.attempts_in_flight(), 1);

    assert_eq!(dispatcher.attempt_finished(0, false), Verdict::Retry { backoff_millis: 200 });
    assert!(dispatcher.backoff_elapsed(0));

    let expected = Delivery {
        url: "http://s1.test/hook".to_string(),
        notification: Notification {
            reading_id: "r1".to_string(),
            container_id: "c1".to_string(),
            payload: Some("1".to_string()),
        },
    };
    assert_eq!(
        dispatcher.attempt_finished(0, false),
        Verdict::GaveUp(DeliveryFailure { delivery: expected, attempts: 3 })
    );
    assert_eq!(dispatcher.delivery(0), None);
    assert_eq!(dispatcher.attempts_in_flight(), 0);
}

#[test]
fn a_retry_that_succeeds_reports_its_attempts() {
    let mut dispatcher = Dispatcher::new(1, 2);
    let reading = reading("r1", "c1", None);
    dispatcher.notify(&reading, &"c1".to_string(), Ok(subscribers_of("c1", 1)));
    dispatcher.dispatch();
    assert_eq!(dispatcher.attempt_finished(0, false), Verdict::Retry { backoff_millis: 200 });
    assert!(dispatcher.backoff_elapsed(0));
    match dispatcher.attempt_finished(0, true) {
        Verdict::Delivered { delivery, attempts } => {
            assert_eq!(delivery.url, "http://s1.test/hook");
            assert_eq!(attempts, 2);
        }
        other => panic!("expected a delivery, got {other:?}"),
    }
}

#[test]
fn events_on_idle_or_unknown_workers_are_ignored() {
    let mut dispatcher = Dispatcher::new(2, 2);
    assert_eq!(dispatcher.attempt_finished(0, true), Verdict::Ignored);
    assert_eq!(dispatcher.attempt_finished(7, false), Verdict::Ignored);
    assert!(!dispatcher.backoff_elapsed(0));
    assert!(!dispatcher.backoff_elapsed(7));

    let reading = reading("r1", "c1", None);
    dispatcher.notify(&reading, &"c1".to_string(), Ok(subscribers_of("c1", 1)));
    dispatcher.dispatch();
    // No backoff is running while the attempt is under way.
    assert!(!dispatcher.backoff_elapsed(0));
    assert_eq!(dispatcher.attempt_finished(0, false), Verdict::Retry { backoff_millis: 200 });
    // No attempt is under way while the backoff is running.
    assert_eq!(dispatcher.attempt_finished(0, true), Verdict::Ignored);
    assert_eq!(dispatcher.delivery(0).unwrap().url, "http://s1.test/hook");
}

#[test]
fn one_unreachable_subscriber_does_not_hold_up_the_others() {
    let mut dispatcher = Dispatcher::new(2, 2);
    let reading = reading("r1", "c1", Some("{\"temp\":21.5}"));
    assert_eq!(dispatcher.notify(&reading, &"c1".to_string(), Ok(subscribers_of("c1", 5))), 5);

    let mut attempts: Vec<String> = Vec::new();
    let mut delivered: Vec<(String, u16)> = Vec::new();
    let mut given_up: Vec<(String, u16)> = Vec::new();
    let mut running = start_all(&mut dispatcher);
    while !running.is_empty() {
        let slot = running.remove(0);
        let url = dispatcher.delivery(slot).unwrap().url.clone();
        attempts.push(url.clone());
        match dispatcher.attempt_finished(slot, url != "http://s3.test/hook") {
            Verdict::Delivered { delivery, attempts } => delivered.push((delivery.url, attempts)),
            Verdict::GaveUp(failure) => given_up.push((failure.delivery.url, failure.attempts)),
            Verdict::Retry { .. } => {
                assert!(dispatcher.backoff_elapsed(slot));
                running.push(slot);
            }
            Verdict::Ignored => panic!("an attempt was under way"),
        }
        running.extend(start_all(&mut dispatcher));
        assert!(dispatcher.attempts_in_flight() <= 2);
    }

    delivered.sort();
    assert_eq!(
        delivered,
        vec![
            ("http://s1.test/hook".to_string(), 1),
            ("http://s2.test/hook".to_string(), 1),
            ("http://s4.test/hook".to_string(), 1),
            ("http://s5.test/hook".to_string(), 1),
        ]
    );
    assert_eq!(given_up, vec![("http://s3.test/hook".to_string(), 3)]);
    for n in [1, 2, 4, 5] {
        let url = format!("http://s{n}.test/hook");
        assert_eq!(attempts.iter().filter(|made| **made == url).count(), 1);
    }
    assert_eq!(attempts.iter().filter(|made| *made == "http://s3.test/hook").count(), 3);
    assert_eq!(dispatcher.waiting(), 0);
    assert_eq!(dispatcher.attempts_in_flight(), 0);
}
