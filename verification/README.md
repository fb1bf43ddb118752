# pulse

A real-time event fan-out service: events are ingested over HTTP, routed to a
topic, and delivered in batches to WebSocket subscribers of that topic, with
backpressure for normal events and guaranteed delivery for critical ones.

- `src/` is the verified library (Verus): event routing and priority
  (`models`), the subscription hub (`hub`), one event's fan-out as a state
  machine (`delivery`), a socket session's batching (`session`), the broker
  worker and ingestion (`broker`), endpoint replies (`api`), counters
  (`metrics`), errors (`error`), decimal text (`text`), and the load
  simulator's traffic mix and event generation (`sim`).
- `app/` is the server and the simulator around it (axum, tokio, reqwest,
  tokio-tungstenite): it performs the sends, timers and I/O that the
  library's state machines ask for.
- `tests/` runs the library on concrete values.
