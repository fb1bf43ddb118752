//! The broker between ingestion and fan-out: what travels through its queue,
//! and the decisions of the worker that drains it.
use vstd::prelude::*;
use crate::metrics::{Metrics, wrap_add};
use crate::models::{Event, topic_of};

verus! {

/// An event on its way to the hub, with the topic it is published on.
#[derive(Debug, Clone)]
pub struct BrokerMessage {
    pub topic: String,
    pub event: Event,
}

/// What the broker worker observed.
pub enum WorkerInput {
    /// The broker queue yielded this; `None` when the queue is closed.
    Received(Option<BrokerMessage>),
    /// The service is shutting down.
    Shutdown,
}

/// What the broker worker does next.
#[derive(Debug)]
pub enum WorkerAction {
    /// Publish this message on the hub, then wait for the next input.
    Publish(BrokerMessage),
    /// Stop the worker.
    Stop,
}

/// What the worker does on `input`: publish a received message unchanged;
/// stop when the queue is closed or the service shuts down.
pub open spec fn worker_decision(input: WorkerInput) -> WorkerAction {
    match input {
        WorkerInput::Received(Some(m)) => WorkerAction::Publish(m),
        _ => WorkerAction::Stop,
    }
}

/// The worker publishes each message it receives and stops when its queue is
/// closed or the service shuts down.
pub fn worker_action(input: WorkerInput) -> (a: WorkerAction)
    ensures
        a == worker_decision(input),
{
    match input {
        WorkerInput::Received(Some(m)) => WorkerAction::Publish(m),
        _ => WorkerAction::Stop,
    }
}

/// The messages that a worker publishes, in order, when it observes `inputs`
/// one after another: each message up to the first input that stops it.
pub open spec fn published(inputs: Seq<WorkerInput>) -> Seq<BrokerMessage>
    decreases inputs.len(),
{
    if inputs.len() == 0 {
        Seq::empty()
    } else {
        match worker_decision(inputs[0]) {
            WorkerAction::Publish(m) => seq![m] + published(inputs.drop_first()),
            WorkerAction::Stop => Seq::empty(),
        }
    }
}

/// The inputs that deliver `ms` one after another from the queue.
pub open spec fn received_all(ms: Seq<BrokerMessage>) -> Seq<WorkerInput> {
    ms.map_values(|m: BrokerMessage| WorkerInput::Received(Some(m)))
}

/// The worker publishes every message taken from its queue exactly once, in
/// the order taken and unchanged; once its queue closes or the service shuts
/// down, it publishes nothing more, whatever follows.
pub proof fn law_worker_publishes_in_order(ms: Seq<BrokerMessage>, rest: Seq<WorkerInput>)
    ensures
        published(received_all(ms)) == ms,
        published(received_all(ms) + seq![WorkerInput::Shutdown] + rest) == ms,
        published(received_all(ms) + seq![WorkerInput::Received(None)] + rest) == ms,
    decreases ms.len(),
{
    if ms.len() > 0 {
        law_worker_publishes_in_order(ms.drop_first(), rest);
        let a = received_all(ms);
        let b = received_all(ms.drop_first());
        assert(a.drop_first() =~= b);
        assert((a + seq![WorkerInput::Shutdown] + rest).drop_first() =~= b + seq![WorkerInput::Shutdown] + rest);
        assert((a + seq![WorkerInput::Received(None)] + rest).drop_first() =~= b + seq![
            WorkerInput::Received(None),
        ] + rest);
        assert((a + seq![WorkerInput::Shutdown] + rest)[0] == a[0]);
        assert((a + seq![WorkerInput::Received(None)] + rest)[0] == a[0]);
        assert(seq![ms[0]] + ms.drop_first() =~= ms);
    } else {
        assert(received_all(ms) + seq![WorkerInput::Shutdown] + rest =~= seq![WorkerInput::Shutdown] + rest);
        assert(received_all(ms) + seq![WorkerInput::Received(None)] + rest =~= seq![
            WorkerInput::Received(None),
        ] + rest);
    }
}

/// Takes in an event: counts it as received and routes it to its topic.
pub fn ingest_event(event: Event, metrics: &mut Metrics) -> (m: BrokerMessage)
    ensures
        m.topic@ == topic_of(event.payload),
        m.event == event,
        final(metrics).events_received == wrap_add(old(metrics).events_received, 1),
        final(metrics).events_delivered == old(metrics).events_delivered,
        final(metrics).dropped_events == old(metrics).dropped_events,
        final(metrics).active_ws == old(metrics).active_ws,
{
    metrics.inc_received();
    let topic = event.payload.route_topic();
    BrokerMessage { topic, event }
}

} // verus!
