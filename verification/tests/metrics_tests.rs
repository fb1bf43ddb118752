use pulse::metrics::Metrics;
use pulse::text::{prefixed, decimal_string};

#[test]
fn new_metrics_are_zero() {
    let m = Metrics::new();
    assert_eq!(m, Metrics { events_received: 0, events_delivered: 0, dropped_events: 0, active_ws: 0 });
    assert_eq!(Metrics::default(), m);
}

#[test]
fn each_increment_touches_one_counter() {
    let mut m = Metrics::new();
    m.inc_received();
    m.inc_received();
    m.inc_delivered(5);
    m.inc_dropped();
    m.inc_ws();
    assert_eq!(m, Metrics { events_received: 2, events_delivered: 5, dropped_events: 1, active_ws: 1 });
}

#[test]
fn counters_wrap_like_atomics() {
    let mut m = Metrics { events_received: u64::MAX, events_delivered: u64::MAX - 1, dropped_events: u64::MAX, active_ws: 0 };
    m.inc_received();
    m.inc_delivered(3);
    m.inc_dropped();
    m.dec_ws();
    assert_eq!(m.events_received, 0);
    assert_eq!(m.events_delivered, 1);
    assert_eq!(m.dropped_events, 0);
    assert_eq!(m.active_ws, u64::MAX);
}

#[test]
fn open_then_close_restores_active_ws() {
    for start in [0u64, 1, 17, u64::MAX] {
        let mut m = Metrics { events_received: 3, events_delivered: 4, dropped_events: 5, active_ws: start };
        let before = m;
        m.inc_ws();
        m.dec_ws();
        assert_eq!(m, before);
    }
}

#[test]
fn render_lists_all_counters() {
    let m = Metrics { events_received: 12, events_delivered: 0, dropped_events: 3, active_ws: 1000 };
    assert_eq!(
        m.render(),
        "events_received 12\nevents_delivered 0\ndropped_events 3\nactive_ws 1000\n"
    );
}

#[test]
fn render_matches_format_of_large_values() {
    let m = Metrics { events_received: u64::MAX, events_delivered: 1, dropped_events: 10, active_ws: 99 };
    let expected = format!(
        "events_received {}\nevents_delivered {}\ndropped_events {}\nactive_ws {}\n",
        u64::MAX, 1, 10, 99
    );
    assert_eq!(m.render(), expected);
}

#[test]
fn decimal_string_matches_std_formatting() {
    for n in [0u64, 7, 9, 10, 11, 99, 100, 1234567890, u64::MAX - 1, u64::MAX] {
        assert_eq!(decimal_string(n), n.to_string());
    }
}

#[test]
fn concat_joins_in_order() {
    assert_eq!(prefixed("feed:", "a"), "feed:a");
    assert_eq!(prefixed("", ""), "");
}
