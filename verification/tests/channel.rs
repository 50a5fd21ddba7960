//! Backpressure and ordering of the bounded delivery channel.

use milky::channel::{DeliveryQueue, SendOutcome};
use milky::types::event::{BotOfflineData, Event, EventKind};

fn ev(t: i64) -> Event {
    Event {
        time: t,
        self_id: 1,
        kind: EventKind::BotOffline(BotOfflineData { reason: "r".to_string() }),
    }
}

#[test]
fn overfull_offer_waits_and_drops_nothing() {
    let mut q = DeliveryQueue::new(2);
    assert_eq!(q.try_send(ev(1)), SendOutcome::Accepted);
    assert_eq!(q.try_send(ev(2)), SendOutcome::Accepted);
    assert_eq!(q.len(), 2);
    assert_eq!(q.try_send(ev(3)), SendOutcome::MustWait);
    assert_eq!(q.len(), 2);
    let first = q.recv().expect("one event must come out");
    assert_eq!(first.time, 1);
    assert_eq!(q.try_send(ev(3)), SendOutcome::Accepted);
    assert_eq!(q.len(), 2);
}

#[test]
fn delivery_is_first_in_first_out() {
    let mut q = DeliveryQueue::new(4);
    for t in 1..=4 {
        assert_eq!(q.try_send(ev(t)), SendOutcome::Accepted);
    }
    for t in 1..=4 {
        assert_eq!(q.recv().expect("event").time, t);
    }
    assert!(q.recv().is_none());
}
