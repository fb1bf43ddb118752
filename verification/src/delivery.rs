//! One event's fan-out to the subscribers of its topic, as a state machine.
//!
//! The application performs each send that `next_action` asks for and reports
//! how it went; the machine decides what comes next and keeps the counters.
//! A critical event waits for room in each subscriber's queue; a subscriber
//! that is gone fails the publish, but every other subscriber still gets the
//! event. A normal event is offered without waiting and counted as dropped
//! when the subscriber cannot take it. Every subscriber that refused a send is
//! remembered, so that the hub can drop it from the topic afterwards.
use vstd::prelude::*;
use vstd::string::StringExecFns;
use crate::error::PulseError;
use crate::hub::{WsHub, subscribers_of, removed, lemma_without_contains};
use crate::metrics::{Metrics, wrap_add};
use crate::models::{Event, Priority, priority_of};

verus! {

/// How one send to a subscriber went.
#[derive(Clone, Copy, Debug, PartialEq, Eq, Structural)]
pub enum SendOutcome {
    /// The subscriber's queue took the event.
    Delivered,
    /// The subscriber's queue was full.
    Full,
    /// The subscriber's queue is closed.
    Closed,
}

/// What the application does next for the event being published.
#[derive(Debug)]
pub enum DeliveryAction {
    /// Send the event to `subscriber`; `wait` asks to wait for room in its
    /// queue rather than give up when it is full.
    Send { subscriber: u64, wait: bool },
    /// The publish is over and succeeded.
    Done,
    /// The publish is over and failed with this error.
    Failed(PulseError),
}

/// The fan-out of one event: the subscribers to attempt, whether the event is
/// critical, how many subscribers have been handled, whether it failed, how
/// many sends were counted as delivered and as dropped, and the subscribers
/// that refused a send, in order.
#[verifier::ext_equal]
pub struct DeliveryState {
    pub targets: Seq<u64>,
    pub critical: bool,
    pub position: nat,
    pub failed: bool,
    pub delivered: nat,
    pub dropped: nat,
    pub refused: Seq<u64>,
}

/// An event's fan-out in progress.
pub struct Delivery {
    targets: Vec<u64>,
    critical: bool,
    position: usize,
    failed: bool,
    delivered: Ghost<nat>,
    dropped: Ghost<nat>,
    refused: Vec<u64>,
}

impl View for Delivery {
    type V = DeliveryState;

    closed spec fn view(&self) -> DeliveryState {
        DeliveryState {
            targets: self.targets@,
            critical: self.critical,
            position: self.position as nat,
            failed: self.failed,
            delivered: self.delivered@,
            dropped: self.dropped@,
            refused: self.refused@,
        }
    }
}

/// The state in which a fan-out starts.
pub open spec fn start(targets: Seq<u64>, critical: bool) -> DeliveryState {
    DeliveryState {
        targets,
        critical,
        position: 0,
        failed: false,
        delivered: 0,
        dropped: 0,
        refused: Seq::empty(),
    }
}

/// Whether a send is still to be made.
pub open spec fn pending(d: DeliveryState) -> bool {
    d.position < d.targets.len()
}

/// The state after the current send went as `o`; a finished fan-out stays as
/// it is.
pub open spec fn step(d: DeliveryState, o: SendOutcome) -> DeliveryState {
    if !pending(d) {
        d
    } else if o == SendOutcome::Delivered {
        DeliveryState { position: d.position + 1, delivered: d.delivered + 1, ..d }
    } else if d.critical {
        DeliveryState {
            position: d.position + 1,
            failed: true,
            refused: d.refused.push(d.targets[d.position as int]),
            ..d
        }
    } else {
        DeliveryState {
            position: d.position + 1,
            dropped: d.dropped + 1,
            refused: d.refused.push(d.targets[d.position as int]),
            ..d
        }
    }
}

/// The state after the sends went as `outcomes`, in order.
pub open spec fn run(d: DeliveryState, outcomes: Seq<SendOutcome>) -> DeliveryState
    decreases outcomes.len(),
{
    if outcomes.len() == 0 {
        d
    } else {
        step(run(d, outcomes.drop_last()), outcomes.last())
    }
}

/// The detail of the error with which a critical publish fails.
pub open spec fn critical_failure_detail() -> Seq<char> {
    "Critical event send failed: channel closed"@
}

/// The smaller of two naturals.
pub open spec fn min_nat(a: nat, b: nat) -> nat {
    if a <= b { a } else { b }
}

/// Of the first `n` subscribers, those whose send (the one in `outcomes` at
/// the same place) was refused, in order.
pub open spec fn refusals(targets: Seq<u64>, outcomes: Seq<SendOutcome>, n: nat) -> Seq<u64>
    decreases n,
{
    if n == 0 {
        Seq::empty()
    } else if outcomes[n - 1] == SendOutcome::Delivered {
        refusals(targets, outcomes, (n - 1) as nat)
    } else {
        refusals(targets, outcomes, (n - 1) as nat).push(targets[n - 1])
    }
}

/// Every send is counted once. After the sends went as `outcomes`, the first
/// `min(|outcomes|, |targets|)` subscribers, and no others, have been
/// attempted, in order, whatever the priority; the refused ones are exactly
/// those whose send was refused, in order; each attempt counts as a delivery
/// or a refusal; a refusal of a normal event counts as dropped, a critical
/// event is never counted as dropped; and the publish fails exactly when the
/// event is critical and some send was refused.
pub proof fn law_delivery_run(targets: Seq<u64>, critical: bool, outcomes: Seq<SendOutcome>)
    ensures
        run(start(targets, critical), outcomes).targets == targets,
        run(start(targets, critical), outcomes).critical == critical,
        run(start(targets, critical), outcomes).position == min_nat(outcomes.len(), targets.len()),
        run(start(targets, critical), outcomes).refused == refusals(
            targets,
            outcomes,
            min_nat(outcomes.len(), targets.len()),
        ),
        run(start(targets, critical), outcomes).delivered + run(start(targets, critical), outcomes).refused.len()
            == run(start(targets, critical), outcomes).position,
        run(start(targets, critical), outcomes).dropped == (if critical {
            0
        } else {
            run(start(targets, critical), outcomes).refused.len()
        }),
        run(start(targets, critical), outcomes).failed <==> critical && run(
            start(targets, critical),
            outcomes,
        ).refused.len() > 0,
    decreases outcomes.len(),
{
    if outcomes.len() > 0 {
        let prev = outcomes.drop_last();
        law_delivery_run(targets, critical, prev);
        let n0 = min_nat(prev.len(), targets.len());
        if n0 < targets.len() {
            lemma_refusals_prefix(targets, prev, outcomes, n0);
            assert(outcomes[n0 as int] == outcomes.last());
        } else {
            lemma_refusals_prefix(targets, prev, outcomes, n0);
        }
    }
}

proof fn lemma_refusals_prefix(targets: Seq<u64>, a: Seq<SendOutcome>, b: Seq<SendOutcome>, n: nat)
    requires
        n <= a.len(),
        n <= b.len(),
        forall|i: int| 0 <= i < n ==> a[i] == b[i],
    ensures
        refusals(targets, a, n) == refusals(targets, b, n),
    decreases n,
{
    if n > 0 {
        lemma_refusals_prefix(targets, a, b, (n - 1) as nat);
    }
}

/// When every send went through, every subscriber got the event, none is
/// refused and the publish succeeds, whatever the priority.
pub proof fn law_all_delivered(targets: Seq<u64>, critical: bool, outcomes: Seq<SendOutcome>)
    requires
        outcomes.len() >= targets.len(),
        forall|i: int| 0 <= i < outcomes.len() ==> outcomes[i] == SendOutcome::Delivered,
    ensures
        !pending(run(start(targets, critical), outcomes)),
        !run(start(targets, critical), outcomes).failed,
        run(start(targets, critical), outcomes).delivered == targets.len(),
        run(start(targets, critical), outcomes).refused.len() == 0,
{
    law_delivery_run(targets, critical, outcomes);
    lemma_no_refusals(targets, outcomes, targets.len());
}

proof fn lemma_no_refusals(targets: Seq<u64>, outcomes: Seq<SendOutcome>, n: nat)
    requires
        n <= outcomes.len(),
        forall|i: int| 0 <= i < outcomes.len() ==> outcomes[i] == SendOutcome::Delivered,
    ensures
        refusals(targets, outcomes, n).len() == 0,
    decreases n,
{
    if n > 0 {
        lemma_no_refusals(targets, outcomes, (n - 1) as nat);
    }
}

proof fn lemma_refusals_contains(targets: Seq<u64>, outcomes: Seq<SendOutcome>, n: nat, i: int)
    requires
        0 <= i < n,
        n <= outcomes.len(),
        n <= targets.len(),
        outcomes[i] != SendOutcome::Delivered,
    ensures
        refusals(targets, outcomes, n).contains(targets[i]),
    decreases n,
{
    if i < n - 1 {
        lemma_refusals_contains(targets, outcomes, (n - 1) as nat, i);
        let r = refusals(targets, outcomes, (n - 1) as nat);
        let k = choose|k: int| 0 <= k < r.len() && r[k] == targets[i];
        if outcomes[n - 1] != SendOutcome::Delivered {
            assert(r.push(targets[n - 1])[k] == targets[i]);
        }
    } else {
        assert(refusals(targets, outcomes, n).last() == targets[i]);
    }
}

/// The hub's subscriptions after `m`'s subscribers of `topic` were sent an
/// event of the given priority, the sends went as `outcomes`, and the
/// subscribers that refused were dropped from the topic.
pub open spec fn after_publish(
    m: Map<Seq<char>, Seq<u64>>,
    topic: Seq<char>,
    critical: bool,
    outcomes: Seq<SendOutcome>,
) -> Map<Seq<char>, Seq<u64>> {
    removed(m, topic, run(start(subscribers_of(m, topic), critical), outcomes).refused)
}

/// Slow or gone subscribers are dropped: once the refusing subscribers are
/// removed, no subscriber that refused a send is left on the topic, and a
/// subscriber stays exactly when it was there and never refused.
pub proof fn law_refusing_subscribers_are_dropped(
    m: Map<Seq<char>, Seq<u64>>,
    topic: Seq<char>,
    critical: bool,
    outcomes: Seq<SendOutcome>,
)
    ensures
        forall|i: int|
            0 <= i < min_nat(outcomes.len(), subscribers_of(m, topic).len()) && outcomes[i]
                != SendOutcome::Delivered ==> !subscribers_of(after_publish(m, topic, critical, outcomes), topic).contains(
                #[trigger] subscribers_of(m, topic)[i],
            ),
        forall|x: u64|
            #[trigger] subscribers_of(after_publish(m, topic, critical, outcomes), topic).contains(x) <==> subscribers_of(
                m,
                topic,
            ).contains(x) && !run(start(subscribers_of(m, topic), critical), outcomes).refused.contains(x),
{
    let t = subscribers_of(m, topic);
    let r = run(start(t, critical), outcomes).refused;
    let n = min_nat(outcomes.len(), t.len());
    law_delivery_run(t, critical, outcomes);
    assert forall|x: u64| #[trigger] subscribers_of(after_publish(m, topic, critical, outcomes), topic).contains(x)
        <==> t.contains(x) && !r.contains(x) by {
        if m.dom().contains(topic) {
            lemma_without_contains(t, r, x);
        }
    }
    assert forall|i: int| 0 <= i < n && outcomes[i] != SendOutcome::Delivered implies !subscribers_of(
        after_publish(m, topic, critical, outcomes),
        topic,
    ).contains(#[trigger] t[i]) by {
        lemma_refusals_contains(t, outcomes, n, i);
    }
}

impl Delivery {
    #[verifier::type_invariant]
    spec fn inv(&self) -> bool {
        self.position <= self.targets.len()
    }

    /// The send to make next, or how the publish ended.
    pub fn next_action(&self) -> (a: DeliveryAction)
        ensures
            pending(self@) ==> a == (DeliveryAction::Send {
                subscriber: self@.targets[self@.position as int],
                wait: self@.critical,
            }),
            !pending(self@) && self@.failed ==> (a matches DeliveryAction::Failed(
                PulseError::Channel(m),
            ) && m@ == critical_failure_detail()),
            !pending(self@) && !self@.failed ==> a is Done,
    {
        proof {
            use_type_invariant(self);
        }
        if self.position < self.targets.len() {
            DeliveryAction::Send { subscriber: self.targets[self.position], wait: self.critical }
        } else if self.failed {
            DeliveryAction::Failed(
                PulseError::Channel(String::from_str("Critical event send failed: channel closed")),
            )
        } else {
            DeliveryAction::Done
        }
    }

    /// Takes in how the current send went and counts it: a delivery as
    /// delivered, a refused normal event as dropped; a refused critical event
    /// makes the publish fail but counts nothing. A refusing subscriber is
    /// remembered in either case. On a finished fan-out nothing changes.
    pub fn report(&mut self, outcome: SendOutcome, metrics: &mut Metrics)
        ensures
            final(self)@ == step(old(self)@, outcome),
            final(metrics).events_received == old(metrics).events_received,
            final(metrics).active_ws == old(metrics).active_ws,
            final(metrics).events_delivered == (if pending(old(self)@) && outcome
                == SendOutcome::Delivered {
                wrap_add(old(metrics).events_delivered, 1)
            } else {
                old(metrics).events_delivered
            }),
            final(metrics).dropped_events == (if pending(old(self)@) && outcome
                != SendOutcome::Delivered && !old(self)@.critical {
                wrap_add(old(metrics).dropped_events, 1)
            } else {
                old(metrics).dropped_events
            }),
    {
        proof {
            use_type_invariant(&*self);
        }
        if self.position >= self.targets.len() {
            return;
        }
        let subscriber = self.targets[self.position];
        match outcome {
            SendOutcome::Delivered => {
                metrics.inc_delivered(1);
                self.delivered = Ghost(self.delivered@ + 1);
            },
            _ => {
                if self.critical {
                    self.failed = true;
                } else {
                    metrics.inc_dropped();
                    self.dropped = Ghost(self.dropped@ + 1);
                }
                let mut refused: Vec<u64> = Vec::new();
                std::mem::swap(&mut refused, &mut self.refused);
                refused.push(subscriber);
                self.refused = refused;
            },
        }
        self.position = self.position + 1;
    }

    /// The subscribers that refused a send so far, in order.
    pub fn refused(&self) -> (r: Vec<u64>)
        ensures
            r@ == self@.refused,
    {
        let mut r: Vec<u64> = Vec::new();
        let n = self.refused.len();
        let mut i: usize = 0;
        while i < n
            invariant
                n == self.refused.len(),
                i <= n,
                r@ == self.refused@.take(i as int),
            decreases n - i,
        {
            r.push(self.refused[i]);
            i = i + 1;
            assert(r@ =~= self.refused@.take(i as int));
        }
        assert(self.refused@.take(n as int) =~= self.refused@);
        r
    }
}

impl WsHub {
    /// Starts the fan-out of `event` to the subscribers of `topic`: each of
    /// them is attempted in the order in which they subscribed, waiting for
    /// room when the event is critical.
    pub fn publish(&self, topic: &String, event: &Event) -> (d: Delivery)
        ensures
            d@ == start(subscribers_of(self@, topic@), priority_of(event.payload) == Priority::Critical),
    {
        let targets = self.subscribers(topic);
        let critical = event.payload.priority() == Priority::Critical;
        Delivery {
            targets,
            critical,
            position: 0,
            failed: false,
            delivered: Ghost(0),
            dropped: Ghost(0),
            refused: Vec::new(),
        }
    }
}

} // verus!
