use pulse::delivery::{Delivery, DeliveryAction, SendOutcome};
use pulse::error::PulseError;
use pulse::hub::WsHub;
use pulse::metrics::Metrics;
use pulse::models::{Event, EventPayload};

fn post_event() -> Event {
    Event {
        event_id: 1,
        payload: EventPayload::PostCreated {
            post_id: "p".to_string(),
            author_id: "alice".to_string(),
            text: "t".to_string(),
        },
        timestamp_ms: 0,
    }
}

fn alert_event() -> Event {
    Event {
        event_id: 2,
        payload: EventPayload::SystemAlert { level: "critical".to_string(), message: "m".to_string() },
        timestamp_ms: 0,
    }
}

/// Drives a fan-out to its end; returns the sends asked for and the result.
fn drive(
    mut d: Delivery,
    metrics: &mut Metrics,
    outcome: impl Fn(u64) -> SendOutcome,
) -> (Vec<(u64, bool)>, Result<(), PulseError>) {
    let mut sends = Vec::new();
    loop {
        match d.next_action() {
            DeliveryAction::Send { subscriber, wait } => {
                sends.push((subscriber, wait));
                d.report(outcome(subscriber), metrics);
            }
            DeliveryAction::Done => return (sends, Ok(())),
            DeliveryAction::Failed(e) => return (sends, Err(e)),
        }
    }
}

#[test]
fn empty_topic_is_refused() {
    let mut hub = WsHub::new();
    match hub.subscribe(String::new(), 1) {
        Err(PulseError::InvalidTopic(m)) => assert_eq!(m, "Topic cannot be empty"),
        other => panic!("unexpected {:?}", other),
    }
    assert!(hub.subscribers(&String::new()).is_empty());
}

#[test]
fn topic_of_256_bytes_is_refused() {
    let mut hub = WsHub::new();
    let topic = "a".repeat(256);
    match hub.subscribe(topic.clone(), 1) {
        Err(PulseError::InvalidTopic(m)) => assert_eq!(m, "Topic too long (max 255 chars)"),
        other => panic!("unexpected {:?}", other),
    }
    assert!(hub.subscribers(&topic).is_empty());
}

#[test]
fn topic_of_255_bytes_is_accepted() {
    let mut hub = WsHub::new();
    let topic = "a".repeat(255);
    assert!(hub.subscribe(topic.clone(), 9).is_ok());
    assert_eq!(hub.subscribers(&topic), vec![9]);
}

#[test]
fn topic_length_counts_bytes_not_characters() {
    let mut hub = WsHub::new();
    // 128 characters, 256 bytes of UTF-8.
    let topic = "é".repeat(128);
    assert!(matches!(hub.subscribe(topic, 1), Err(PulseError::InvalidTopic(_))));
    let short = "é".repeat(127);
    assert!(hub.subscribe(short, 1).is_ok());
}

#[test]
fn subscribers_keep_subscription_order_per_topic() {
    let mut hub = WsHub::new();
    assert!(hub.subscribe("feed:a".to_string(), 3).is_ok());
    assert!(hub.subscribe("feed:b".to_string(), 1).is_ok());
    assert!(hub.subscribe("feed:a".to_string(), 2).is_ok());
    assert!(hub.subscribe("feed:a".to_string(), 3).is_ok());
    assert_eq!(hub.subscribers(&"feed:a".to_string()), vec![3, 2, 3]);
    assert_eq!(hub.subscribers(&"feed:b".to_string()), vec![1]);
    assert!(hub.subscribers(&"feed:c".to_string()).is_empty());
}

#[test]
fn publish_to_topic_without_subscribers_succeeds_at_once() {
    let hub = WsHub::new();
    let mut m = Metrics::new();
    let (sends, r) = drive(hub.publish(&"feed:alice".to_string(), &post_event()), &mut m, |_| SendOutcome::Delivered);
    assert!(sends.is_empty());
    assert!(r.is_ok());
    assert_eq!(m, Metrics::new());
}

#[test]
fn normal_event_drops_for_slow_subscribers_and_succeeds() {
    let mut hub = WsHub::new();
    for id in [1u64, 2, 3, 4] {
        assert!(hub.subscribe("feed:alice".to_string(), id).is_ok());
    }
    let mut m = Metrics::new();
    let outcome = |id: u64| match id {
        2 => SendOutcome::Full,
        4 => SendOutcome::Closed,
        _ => SendOutcome::Delivered,
    };
    let (sends, r) = drive(hub.publish(&"feed:alice".to_string(), &post_event()), &mut m, outcome);
    assert_eq!(sends, vec![(1, false), (2, false), (3, false), (4, false)]);
    assert!(r.is_ok());
    assert_eq!(m.events_delivered, 2);
    assert_eq!(m.dropped_events, 2);
    assert_eq!(m.events_delivered + m.dropped_events, 4);
}

#[test]
fn critical_event_waits_and_succeeds_when_all_receive() {
    let mut hub = WsHub::new();
    for id in [5u64, 6] {
        assert!(hub.subscribe("alerts:critical".to_string(), id).is_ok());
    }
    let mut m = Metrics::new();
    let (sends, r) = drive(hub.publish(&"alerts:critical".to_string(), &alert_event()), &mut m, |_| SendOutcome::Delivered);
    assert_eq!(sends, vec![(5, true), (6, true)]);
    assert!(r.is_ok());
    assert_eq!(m.events_delivered, 2);
    assert_eq!(m.dropped_events, 0);
}

#[test]
fn critical_event_reaches_everyone_left_and_still_fails() {
    let mut hub = WsHub::new();
    for id in [5u64, 6, 7] {
        assert!(hub.subscribe("alerts:critical".to_string(), id).is_ok());
    }
    let mut m = Metrics::new();
    let topic = "alerts:critical".to_string();
    let mut d = hub.publish(&topic, &alert_event());
    let mut sends = Vec::new();
    let result = loop {
        match d.next_action() {
            DeliveryAction::Send { subscriber, wait } => {
                sends.push((subscriber, wait));
                let o = if subscriber == 6 { SendOutcome::Closed } else { SendOutcome::Delivered };
                d.report(o, &mut m);
            }
            DeliveryAction::Done => break Ok(()),
            DeliveryAction::Failed(e) => break Err(e),
        }
    };
    assert_eq!(sends, vec![(5, true), (6, true), (7, true)]);
    match result {
        Err(e @ PulseError::Channel(_)) => {
            assert_eq!(e.message(), "Channel error: Critical event send failed: channel closed")
        }
        other => panic!("unexpected {:?}", other),
    }
    assert_eq!(m.events_delivered, 2);
    assert_eq!(m.dropped_events, 0);
    assert_eq!(d.refused(), vec![6]);
    hub.remove_subscribers(&topic, &d.refused());
    assert_eq!(hub.subscribers(&topic), vec![5, 7]);
}

#[test]
fn slow_subscribers_are_dropped_from_the_topic() {
    let mut hub = WsHub::new();
    for id in [1u64, 2, 3, 4] {
        assert!(hub.subscribe("feed:alice".to_string(), id).is_ok());
    }
    assert!(hub.subscribe("feed:bob".to_string(), 2).is_ok());
    let topic = "feed:alice".to_string();
    let mut m = Metrics::new();
    let mut d = hub.publish(&topic, &post_event());
    while let DeliveryAction::Send { subscriber, .. } = d.next_action() {
        let o = match subscriber {
            2 => SendOutcome::Full,
            4 => SendOutcome::Closed,
            _ => SendOutcome::Delivered,
        };
        d.report(o, &mut m);
    }
    assert!(matches!(d.next_action(), DeliveryAction::Done));
    let refused = d.refused();
    assert_eq!(refused, vec![2, 4]);
    hub.remove_subscribers(&topic, &refused);
    assert_eq!(hub.subscribers(&topic), vec![1, 3]);
    assert_eq!(hub.subscribers(&"feed:bob".to_string()), vec![2]);
    let (sends, r) = drive(hub.publish(&topic, &post_event()), &mut m, |_| SendOutcome::Delivered);
    assert_eq!(sends, vec![(1, false), (3, false)]);
    assert!(r.is_ok());
    assert_eq!((m.events_delivered, m.dropped_events), (4, 2));
}

#[test]
fn removing_from_unknown_topic_changes_nothing() {
    let mut hub = WsHub::new();
    assert!(hub.subscribe("a".to_string(), 1).is_ok());
    hub.remove_subscribers(&"b".to_string(), &vec![1]);
    assert_eq!(hub.subscribers(&"a".to_string()), vec![1]);
    assert!(hub.subscribers(&"b".to_string()).is_empty());
}

#[test]
fn reports_after_the_end_change_nothing() {
    let hub = WsHub::new();
    let mut m = Metrics::new();
    let mut d = hub.publish(&"x".to_string(), &post_event());
    d.report(SendOutcome::Delivered, &mut m);
    d.report(SendOutcome::Full, &mut m);
    assert_eq!(m, Metrics::new());
    assert!(matches!(d.next_action(), DeliveryAction::Done));
}
