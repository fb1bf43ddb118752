use pulse::api::{health_reply, ingest_reply, resolve_topic};
use pulse::error::PulseError;
use pulse::models::EventPayload;
use pulse::sim::{
    events_url, feed_url, generate_notification, generate_post, generate_system_alert, metrics_url,
    next_traffic_event, notification_event, event_for_roll, post_event, alert_event, traffic_kind, user_name, TrafficKind,
};

#[test]
fn ingest_reply_accepted() {
    let r = ingest_reply(&Ok(()));
    assert_eq!((r.status, r.field.as_str(), r.text.as_str()), (202, "message", "event created"));
}

#[test]
fn ingest_reply_failed() {
    let r = ingest_reply(&Err(PulseError::Channel("x".to_string())));
    assert_eq!((r.status, r.field.as_str(), r.text.as_str()), (500, "error", "Failed to process event"));
}

#[test]
fn health_is_ok() {
    let r = health_reply();
    assert_eq!((r.status, r.field.as_str(), r.text.as_str()), (200, "message", "ok"));
}

#[test]
fn topic_defaults_when_not_requested() {
    assert_eq!(resolve_topic(None), "default");
    assert_eq!(resolve_topic(Some("feed:user-1".to_string())), "feed:user-1");
    assert_eq!(resolve_topic(Some(String::new())), "");
}

#[test]
fn roll_thresholds() {
    assert_eq!(traffic_kind(0), TrafficKind::Post);
    assert_eq!(traffic_kind(69), TrafficKind::Post);
    assert_eq!(traffic_kind(70), TrafficKind::Notification);
    assert_eq!(traffic_kind(89), TrafficKind::Notification);
    assert_eq!(traffic_kind(90), TrafficKind::Alert);
    assert_eq!(traffic_kind(99), TrafficKind::Alert);
}

#[test]
fn traffic_mix_is_seventy_twenty_ten() {
    let mut counts = [0; 3];
    for roll in 0u8..100 {
        match traffic_kind(roll) {
            TrafficKind::Post => counts[0] += 1,
            TrafficKind::Notification => counts[1] += 1,
            TrafficKind::Alert => counts[2] += 1,
        }
    }
    assert_eq!(counts, [70, 20, 10]);
}

fn is_v4(id: u128) -> bool {
    (id >> 76) & 0xf == 4 && (id >> 62) & 0x3 == 2
}

#[test]
fn generated_post_has_fresh_uuid_text_and_author() {
    let e = generate_post("user-7");
    assert!(is_v4(e.event_id));
    match &e.payload {
        EventPayload::PostCreated { post_id, author_id, text } => {
            assert_eq!(author_id, "user-7");
            assert_eq!(text, "hello from pulse-sim");
            assert_eq!(post_id.len(), 36);
            let parsed = uuid::Uuid::parse_str(post_id).unwrap();
            assert_eq!(parsed.get_version_num(), 4);
            assert_eq!(&parsed.hyphenated().to_string(), post_id);
            assert_ne!(parsed.as_u128(), e.event_id);
            for (i, c) in post_id.chars().enumerate() {
                if [8, 13, 18, 23].contains(&i) {
                    assert_eq!(c, '-');
                } else {
                    assert!(c.is_ascii_hexdigit() && !c.is_ascii_uppercase());
                }
            }
        }
        other => panic!("unexpected {:?}", other),
    }
    assert_eq!(e.payload.route_topic(), "feed:user-7");
    assert!(e.timestamp_ms > 1_600_000_000_000);
}

#[test]
fn generated_notification_and_alert() {
    let n = generate_notification("user-3");
    assert!(is_v4(n.event_id));
    match &n.payload {
        EventPayload::Notification { user_id, message } => {
            assert_eq!(user_id, "user-3");
            assert_eq!(message, "you have a new follower");
        }
        other => panic!("unexpected {:?}", other),
    }
    for _ in 0..20 {
        let a = generate_system_alert();
        assert!(is_v4(a.event_id));
        match &a.payload {
            EventPayload::SystemAlert { level, message } => {
                assert!(["info", "warning", "critical"].contains(&level.as_str()));
                assert_eq!(message, "simulated system alert");
            }
            other => panic!("unexpected {:?}", other),
        }
    }
}

#[test]
fn assembled_events_are_exact() {
    let p = post_event(5, 6, "pid".to_string(), "a");
    assert_eq!((p.event_id, p.timestamp_ms), (5, 6));
    assert!(matches!(&p.payload, EventPayload::PostCreated { post_id, author_id, text }
        if post_id == "pid" && author_id == "a" && text == "hello from pulse-sim"));
    let n = notification_event(1, 2, "u");
    assert!(matches!(&n.payload, EventPayload::Notification { user_id, message }
        if user_id == "u" && message == "you have a new follower"));
    let a = alert_event(3, 4, "warning");
    assert!(matches!(&a.payload, EventPayload::SystemAlert { level, message }
        if level == "warning" && message == "simulated system alert"));
    assert_eq!(a.payload.route_topic(), "alerts:warning");
}

#[test]
fn traffic_events_name_known_users() {
    let users = vec!["user-0".to_string(), "user-1".to_string()];
    for _ in 0..50 {
        let e = next_traffic_event(&users);
        assert!(is_v4(e.event_id));
        match &e.payload {
            EventPayload::PostCreated { author_id, .. } => assert!(users.contains(author_id)),
            EventPayload::Notification { user_id, .. } => assert!(users.contains(user_id)),
            EventPayload::SystemAlert { .. } => {}
        }
    }
}

#[test]
fn names_and_addresses() {
    assert_eq!(user_name(0), "user-0");
    assert_eq!(user_name(999), "user-999");
    assert_eq!(feed_url("ws://localhost:8080", "feed:user-1"), "ws://localhost:8080/ws?topic=feed:user-1");
    assert_eq!(events_url("http://localhost:8080"), "http://localhost:8080/events");
    assert_eq!(metrics_url("http://localhost:8080"), "http://localhost:8080/metrics");
}

#[test]
fn roll_decides_the_kind_of_event() {
    for roll in 0u8..100 {
        let e = event_for_roll(roll, "user-5");
        match (&e.payload, traffic_kind(roll)) {
            (EventPayload::PostCreated { author_id, text, .. }, TrafficKind::Post) => {
                assert_eq!(author_id, "user-5");
                assert_eq!(text, "hello from pulse-sim");
            }
            (EventPayload::Notification { user_id, .. }, TrafficKind::Notification) => {
                assert_eq!(user_id, "user-5")
            }
            (EventPayload::SystemAlert { .. }, TrafficKind::Alert) => {}
            (p, k) => panic!("roll {} gave {:?} for {:?}", roll, p, k),
        }
        assert!(is_v4(e.event_id));
    }
}
