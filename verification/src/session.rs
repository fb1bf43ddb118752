//! One subscriber's WebSocket session: events that arrive for the subscriber
//! are buffered and flushed as one batch on each tick of the flush timer.
//!
//! The application waits for whichever comes first (an event, the end of the
//! subscriber's channel, a tick, a shutdown signal), hands it to `step`, and
//! carries out the action returned: send a batch, close the socket, or stop.
use vstd::prelude::*;
use crate::metrics::{Metrics, wrap_add, wrap_sub};
use crate::models::Event;

verus! {

/// What happened to the session.
#[derive(Debug)]
pub enum SessionInput {
    /// An event for the subscriber arrived on its channel.
    Received(Event),
    /// The subscriber's channel was closed.
    Disconnected,
    /// The flush timer ticked.
    Tick,
    /// Sending the last batch on the socket failed.
    SendFailed,
    /// The service is shutting down.
    Shutdown,
}

/// What the application does next.
#[derive(Debug)]
pub enum SessionAction {
    /// Nothing; wait for the next input.
    Wait,
    /// Send these events, in order, as one batch on the socket.
    SendBatch(Vec<Event>),
    /// Close the socket, then end the session.
    CloseAndStop,
    /// End the session.
    Stop,
}

/// The events buffered and not yet sent, and whether the session still runs.
#[verifier::ext_equal]
pub struct SessionState {
    pub pending: Seq<Event>,
    pub open: bool,
}

/// A subscriber's session.
pub struct Session {
    buffer: Vec<Event>,
    open: bool,
}

impl View for Session {
    type V = SessionState;

    closed spec fn view(&self) -> SessionState {
        SessionState { pending: self.buffer@, open: self.open }
    }
}

/// The state after `input`. A session that has ended stays as it is.
pub open spec fn session_step(s: SessionState, input: SessionInput) -> SessionState {
    if !s.open {
        s
    } else {
        match input {
            SessionInput::Received(e) => SessionState { pending: s.pending.push(e), open: true },
            SessionInput::Tick => SessionState { pending: Seq::empty(), open: true },
            _ => SessionState { pending: s.pending, open: false },
        }
    }
}

/// The batch that `input` makes the session send, if any: on a tick, all
/// buffered events, when there is at least one.
pub open spec fn batch_of(s: SessionState, input: SessionInput) -> Option<Seq<Event>> {
    if s.open && input is Tick && s.pending.len() > 0 {
        Some(s.pending)
    } else {
        None
    }
}

impl Session {
    /// Opens a session with nothing buffered and counts it as an open
    /// connection.
    pub fn start(metrics: &mut Metrics) -> (s: Self)
        ensures
            s@.open,
            s@.pending.len() == 0,
            final(metrics).active_ws == wrap_add(old(metrics).active_ws, 1),
            final(metrics).events_received == old(metrics).events_received,
            final(metrics).events_delivered == old(metrics).events_delivered,
            final(metrics).dropped_events == old(metrics).dropped_events,
    {
        metrics.inc_ws();
        Session { buffer: Vec::new(), open: true }
    }

    /// Takes in what happened and says what to do next. The step that ends
    /// the session counts its connection as closed.
    pub fn step(&mut self, input: SessionInput, metrics: &mut Metrics) -> (a: SessionAction)
        ensures
            final(self)@ == session_step(old(self)@, input),
            final(metrics).active_ws == (if old(self)@.open && !final(self)@.open {
                wrap_sub(old(metrics).active_ws, 1)
            } else {
                old(metrics).active_ws
            }),
            final(metrics).events_received == old(metrics).events_received,
            final(metrics).events_delivered == old(metrics).events_delivered,
            final(metrics).dropped_events == old(metrics).dropped_events,
            a matches SessionAction::SendBatch(b) ==> batch_of(old(self)@, input) == Some(b@),
            batch_of(old(self)@, input) is Some ==> a is SendBatch,
            a is CloseAndStop <==> old(self)@.open && input is Shutdown,
            a is Stop <==> !old(self)@.open || input is Disconnected || input is SendFailed,
            a is Wait <==> old(self)@.open && (input is Received || (input is Tick
                && old(self)@.pending.len() == 0)),
    {
        if !self.open {
            return SessionAction::Stop;
        }
        match input {
            SessionInput::Received(e) => {
                self.buffer.push(e);
                SessionAction::Wait
            },
            SessionInput::Tick => {
                if self.buffer.len() == 0 {
                    SessionAction::Wait
                } else {
                    let mut batch: Vec<Event> = Vec::new();
                    std::mem::swap(&mut batch, &mut self.buffer);
                    SessionAction::SendBatch(batch)
                }
            },
            SessionInput::Shutdown => {
                self.open = false;
                metrics.dec_ws();
                SessionAction::CloseAndStop
            },
            _ => {
                self.open = false;
                metrics.dec_ws();
                SessionAction::Stop
            },
        }
    }

    /// Whether the session still runs.
    pub fn is_open(&self) -> (b: bool)
        ensures
            b == self@.open,
    {
        self.open
    }
}

/// The batches sent, in order, joined into one sequence.
pub open spec fn joined(batches: Seq<Seq<Event>>) -> Seq<Event>
    decreases batches.len(),
{
    if batches.len() == 0 {
        Seq::empty()
    } else {
        joined(batches.drop_last()) + batches.last()
    }
}

/// The state after `inputs`, in order.
pub open spec fn replay_state(s: SessionState, inputs: Seq<SessionInput>) -> SessionState
    decreases inputs.len(),
{
    if inputs.len() == 0 {
        s
    } else {
        session_step(replay_state(s, inputs.drop_last()), inputs.last())
    }
}

/// The batches sent along `inputs`, in order.
pub open spec fn replay_batches(s: SessionState, inputs: Seq<SessionInput>) -> Seq<Seq<Event>>
    decreases inputs.len(),
{
    if inputs.len() == 0 {
        Seq::empty()
    } else {
        let prev = replay_batches(s, inputs.drop_last());
        match batch_of(replay_state(s, inputs.drop_last()), inputs.last()) {
            Some(b) => prev.push(b),
            None => prev,
        }
    }
}

/// The events that the session took in along `inputs`: those that arrived
/// while it ran.
pub open spec fn accepted(s: SessionState, inputs: Seq<SessionInput>) -> Seq<Event>
    decreases inputs.len(),
{
    if inputs.len() == 0 {
        Seq::empty()
    } else {
        let prev = accepted(s, inputs.drop_last());
        if replay_state(s, inputs.drop_last()).open && inputs.last() is Received {
            prev.push(inputs.last()->Received_0)
        } else {
            prev
        }
    }
}

/// The open-connection counter after `inputs`, from `w`: one less at the
/// step that ends the session.
pub open spec fn active_after(s: SessionState, inputs: Seq<SessionInput>, w: u64) -> u64
    decreases inputs.len(),
{
    if inputs.len() == 0 {
        w
    } else {
        let a = active_after(s, inputs.drop_last(), w);
        let s0 = replay_state(s, inputs.drop_last());
        if s0.open && !session_step(s0, inputs.last()).open {
            wrap_sub(a, 1)
        } else {
            a
        }
    }
}

/// The open-connection counter counts live sessions: a session started when
/// the counter was at `a` keeps it at one more while it runs, and brings it
/// back to `a` once it has ended, however it ended.
pub proof fn law_session_counts_itself(s: SessionState, inputs: Seq<SessionInput>, a: u64)
    requires
        s.open,
    ensures
        active_after(s, inputs, wrap_add(a, 1)) == (if replay_state(s, inputs).open {
            wrap_add(a, 1)
        } else {
            a
        }),
    decreases inputs.len(),
{
    if inputs.len() > 0 {
        law_session_counts_itself(s, inputs.drop_last(), a);
    }
}

/// Nothing is lost or reordered while the session runs: the batches sent,
/// joined in order, followed by what is still buffered, are exactly what was
/// buffered at the start followed by every event taken in, in arrival order.
pub proof fn law_batches_keep_order(s: SessionState, inputs: Seq<SessionInput>)
    ensures
        joined(replay_batches(s, inputs)) + replay_state(s, inputs).pending == s.pending + accepted(s, inputs),
    decreases inputs.len(),
{
    if inputs.len() > 0 {
        let prev = inputs.drop_last();
        law_batches_keep_order(s, prev);
        let s0 = replay_state(s, prev);
        let b0 = replay_batches(s, prev);
        let a0 = accepted(s, prev);
        if s0.open {
            match inputs.last() {
                SessionInput::Received(e) => {
                    assert(joined(b0) + s0.pending.push(e) =~= (joined(b0) + s0.pending).push(e));
                    assert((s.pending + a0).push(e) =~= s.pending + a0.push(e));
                },
                SessionInput::Tick => {
                    if s0.pending.len() > 0 {
                        assert(b0.push(s0.pending).drop_last() =~= b0);
                        assert(joined(b0.push(s0.pending)) + Seq::<Event>::empty() =~= joined(b0) + s0.pending);
                    } else {
                        assert(joined(b0) + Seq::<Event>::empty() =~= joined(b0) + s0.pending);
                    }
                },
                _ => {},
            }
        }
    }
}

/// Once the session has ended it sends nothing, takes in nothing, and stays
/// ended, whatever happens.
pub proof fn law_ended_session_is_inert(s: SessionState, inputs: Seq<SessionInput>)
    requires
        !s.open,
    ensures
        replay_state(s, inputs) == s,
        replay_batches(s, inputs).len() == 0,
        accepted(s, inputs).len() == 0,
    decreases inputs.len(),
{
    if inputs.len() > 0 {
        law_ended_session_is_inert(s, inputs.drop_last());
    }
}

} // verus!
