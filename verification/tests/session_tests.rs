use pulse::broker::{ingest_event, worker_action, BrokerMessage, WorkerAction, WorkerInput};
use pulse::metrics::Metrics;
use pulse::models::{Event, EventPayload};
use pulse::session::{Session, SessionAction, SessionInput};


fn ev(id: u128) -> Event {
    Event {
        event_id: id,
        payload: EventPayload::Notification { user_id: "u".to_string(), message: "m".to_string() },
        timestamp_ms: 0,
    }
}

fn ids(batch: &[Event]) -> Vec<u128> {
    batch.iter().map(|e| e.event_id).collect()
}

#[test]
fn tick_with_nothing_buffered_waits() {
    let mut m = Metrics::new();
    let mut s = Session::start(&mut m);
    assert!(matches!(s.step(SessionInput::Tick, &mut m), SessionAction::Wait));
    assert!(s.is_open());
}

#[test]
fn events_are_flushed_in_order_on_tick() {
    let mut m = Metrics::new();
    let mut s = Session::start(&mut m);
    assert!(matches!(s.step(SessionInput::Received(ev(1)), &mut m), SessionAction::Wait));
    assert!(matches!(s.step(SessionInput::Received(ev(2)), &mut m), SessionAction::Wait));
    match s.step(SessionInput::Tick, &mut m) {
        SessionAction::SendBatch(b) => assert_eq!(ids(&b), vec![1, 2]),
        other => panic!("unexpected {:?}", other),
    }
    assert!(matches!(s.step(SessionInput::Tick, &mut m), SessionAction::Wait));
    assert!(matches!(s.step(SessionInput::Received(ev(3)), &mut m), SessionAction::Wait));
    match s.step(SessionInput::Tick, &mut m) {
        SessionAction::SendBatch(b) => assert_eq!(ids(&b), vec![3]),
        other => panic!("unexpected {:?}", other),
    }
}

#[test]
fn all_received_events_come_out_once_in_order() {
    let mut m = Metrics::new();
    let mut s = Session::start(&mut m);
    let mut sent = Vec::new();
    let script = [1u128, 0, 2, 3, 0, 0, 4, 5, 6, 0];
    for x in script {
        let input = if x == 0 { SessionInput::Tick } else { SessionInput::Received(ev(x)) };
        if let SessionAction::SendBatch(b) = s.step(input, &mut m) {
            sent.extend(ids(&b));
        }
    }
    assert_eq!(sent, vec![1, 2, 3, 4, 5, 6]);
}

#[test]
fn shutdown_closes_socket_and_ends() {
    let mut m = Metrics::new();
    let mut s = Session::start(&mut m);
    s.step(SessionInput::Received(ev(1)), &mut m);
    assert!(matches!(s.step(SessionInput::Shutdown, &mut m), SessionAction::CloseAndStop));
    assert!(!s.is_open());
    assert!(matches!(s.step(SessionInput::Tick, &mut m), SessionAction::Stop));
}

#[test]
fn disconnect_and_failed_send_end_the_session() {
    let mut m = Metrics::new();
    let mut s = Session::start(&mut m);
    assert!(matches!(s.step(SessionInput::Disconnected, &mut m), SessionAction::Stop));
    assert!(!s.is_open());
    let mut t = Session::start(&mut m);
    t.step(SessionInput::Received(ev(1)), &mut m);
    assert!(matches!(t.step(SessionInput::SendFailed, &mut m), SessionAction::Stop));
    assert!(matches!(t.step(SessionInput::Received(ev(2)), &mut m), SessionAction::Stop));
    assert!(matches!(t.step(SessionInput::Tick, &mut m), SessionAction::Stop));
}

#[test]
fn worker_publishes_messages_and_stops_otherwise() {
    let m = BrokerMessage { topic: "user:u".to_string(), event: ev(9) };
    match worker_action(WorkerInput::Received(Some(m))) {
        WorkerAction::Publish(p) => {
            assert_eq!(p.topic, "user:u");
            assert_eq!(p.event.event_id, 9);
        }
        other => panic!("unexpected {:?}", other),
    }
    assert!(matches!(worker_action(WorkerInput::Received(None)), WorkerAction::Stop));
    assert!(matches!(worker_action(WorkerInput::Shutdown), WorkerAction::Stop));
}

#[test]
fn ingest_counts_and_routes() {
    let mut metrics = Metrics::new();
    let msg = ingest_event(ev(4), &mut metrics);
    assert_eq!(msg.topic, "notifications:u");
    assert_eq!(msg.event.event_id, 4);
    assert_eq!(metrics.events_received, 1);
    assert_eq!(metrics.events_delivered, 0);
}

#[test]
fn open_sessions_are_counted_until_they_end() {
    let mut m = Metrics::new();
    let mut a = Session::start(&mut m);
    let mut b = Session::start(&mut m);
    assert_eq!(m.active_ws, 2);
    a.step(SessionInput::Tick, &mut m);
    a.step(SessionInput::Received(ev(1)), &mut m);
    assert_eq!(m.active_ws, 2);
    assert!(matches!(a.step(SessionInput::Disconnected, &mut m), SessionAction::Stop));
    assert_eq!(m.active_ws, 1);
    a.step(SessionInput::Shutdown, &mut m);
    assert_eq!(m.active_ws, 1);
    assert!(matches!(b.step(SessionInput::Shutdown, &mut m), SessionAction::CloseAndStop));
    assert_eq!(m.active_ws, 0);
    assert_eq!((m.events_received, m.events_delivered, m.dropped_events), (0, 0, 0));
}

#[test]
fn worker_passes_a_stream_of_messages_in_order() {
    let mut seen = Vec::new();
    let inputs = vec![
        WorkerInput::Received(Some(BrokerMessage { topic: "a".to_string(), event: ev(1) })),
        WorkerInput::Received(Some(BrokerMessage { topic: "b".to_string(), event: ev(2) })),
        WorkerInput::Shutdown,
        WorkerInput::Received(Some(BrokerMessage { topic: "c".to_string(), event: ev(3) })),
    ];
    for input in inputs {
        match worker_action(input) {
            WorkerAction::Publish(m) => seen.push((m.topic, m.event.event_id)),
            WorkerAction::Stop => break,
        }
    }
    assert_eq!(seen, vec![("a".to_string(), 1), ("b".to_string(), 2)]);
}
