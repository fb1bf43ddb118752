//! Service counters: events received, delivered and dropped, and open sockets.
use vstd::prelude::*;
use vstd::string::StringExecFns;
use crate::text::{decimal, decimal_string, is_digit, law_decimal_reads_back};

verus! {

/// `a + b` modulo 2^64, as an atomic `fetch_add` leaves a 64-bit counter.
pub open spec fn wrap_add(a: u64, b: u64) -> u64 {
    if a + b > u64::MAX {
        (a + b - 0x1_0000_0000_0000_0000) as u64
    } else {
        (a + b) as u64
    }
}

/// `a - b` modulo 2^64, as an atomic `fetch_sub` leaves a 64-bit counter.
pub open spec fn wrap_sub(a: u64, b: u64) -> u64 {
    if a >= b {
        (a - b) as u64
    } else {
        (a - b + 0x1_0000_0000_0000_0000) as u64
    }
}

fn add_wrapping(a: u64, b: u64) -> (r: u64)
    ensures
        r == wrap_add(a, b),
{
    if a > u64::MAX - b {
        a - (u64::MAX - b) - 1
    } else {
        a + b
    }
}

fn sub_wrapping(a: u64, b: u64) -> (r: u64)
    ensures
        r == wrap_sub(a, b),
{
    if a >= b {
        a - b
    } else {
        u64::MAX - (b - a) + 1
    }
}

/// The counters of the service.
#[derive(Debug, Clone, Copy, PartialEq, Eq, Structural)]
pub struct Metrics {
    pub events_received: u64,
    pub events_delivered: u64,
    pub dropped_events: u64,
    pub active_ws: u64,
}

/// The text that the metrics endpoint serves for the given counters.
pub open spec fn metrics_text(m: Metrics) -> Seq<char> {
    "events_received "@ + decimal(m.events_received as nat) + "\n"@
    + "events_delivered "@ + decimal(m.events_delivered as nat) + "\n"@
    + "dropped_events "@ + decimal(m.dropped_events as nat) + "\n"@
    + "active_ws "@ + decimal(m.active_ws as nat) + "\n"@
}

impl Default for Metrics {
    fn default() -> (m: Self)
        ensures
            m.events_received == 0,
            m.events_delivered == 0,
            m.dropped_events == 0,
            m.active_ws == 0,
    {
        Metrics { events_received: 0, events_delivered: 0, dropped_events: 0, active_ws: 0 }
    }
}

impl Metrics {
    /// All counters at zero.
    pub fn new() -> (m: Self)
        ensures
            m.events_received == 0,
            m.events_delivered == 0,
            m.dropped_events == 0,
            m.active_ws == 0,
    {
        Metrics { events_received: 0, events_delivered: 0, dropped_events: 0, active_ws: 0 }
    }

    /// Counts one ingested event.
    pub fn inc_received(&mut self)
        ensures
            final(self).events_received == wrap_add(old(self).events_received, 1),
            final(self).events_delivered == old(self).events_delivered,
            final(self).dropped_events == old(self).dropped_events,
            final(self).active_ws == old(self).active_ws,
    {
        self.events_received = add_wrapping(self.events_received, 1);
    }

    /// Counts `n` deliveries to subscribers.
    pub fn inc_delivered(&mut self, n: u64)
        ensures
            final(self).events_received == old(self).events_received,
            final(self).events_delivered == wrap_add(old(self).events_delivered, n),
            final(self).dropped_events == old(self).dropped_events,
            final(self).active_ws == old(self).active_ws,
    {
        self.events_delivered = add_wrapping(self.events_delivered, n);
    }

    /// Counts one event dropped for a slow or gone subscriber.
    pub fn inc_dropped(&mut self)
        ensures
            final(self).events_received == old(self).events_received,
            final(self).events_delivered == old(self).events_delivered,
            final(self).dropped_events == wrap_add(old(self).dropped_events, 1),
            final(self).active_ws == old(self).active_ws,
    {
        self.dropped_events = add_wrapping(self.dropped_events, 1);
    }

    /// Counts one more open WebSocket connection.
    pub fn inc_ws(&mut self)
        ensures
            final(self).events_received == old(self).events_received,
            final(self).events_delivered == old(self).events_delivered,
            final(self).dropped_events == old(self).dropped_events,
            final(self).active_ws == wrap_add(old(self).active_ws, 1),
    {
        self.active_ws = add_wrapping(self.active_ws, 1);
    }

    /// Counts one WebSocket connection less.
    pub fn dec_ws(&mut self)
        ensures
            final(self).events_received == old(self).events_received,
            final(self).events_delivered == old(self).events_delivered,
            final(self).dropped_events == old(self).dropped_events,
            final(self).active_ws == wrap_sub(old(self).active_ws, 1),
    {
        self.active_ws = sub_wrapping(self.active_ws, 1);
    }

    /// The plain-text snapshot of the counters that the metrics endpoint
    /// serves: one `name value` line per counter.
    pub fn render(&self) -> (s: String)
        ensures
            s@ == metrics_text(*self),
            count_newlines(s@) == 4,
    {
        let mut s = String::from_str("events_received ");
        s.append(decimal_string(self.events_received).as_str());
        s.append("\n");
        s.append("events_delivered ");
        s.append(decimal_string(self.events_delivered).as_str());
        s.append("\n");
        s.append("dropped_events ");
        s.append(decimal_string(self.dropped_events).as_str());
        s.append("\n");
        s.append("active_ws ");
        s.append(decimal_string(self.active_ws).as_str());
        s.append("\n");
        proof {
            law_snapshot_has_four_lines(*self);
        }
        s
    }
}

/// 2^64, the modulus of the counters.
pub open spec fn counter_modulus() -> int {
    0x1_0000_0000_0000_0000
}

/// A counter after `k` single increments from `a`.
pub open spec fn after_increments(a: u64, k: nat) -> u64
    decreases k,
{
    if k == 0 {
        a
    } else {
        wrap_add(after_increments(a, (k - 1) as nat), 1)
    }
}

/// A counter after adding each of `ns` in turn, starting from `a`.
pub open spec fn after_additions(a: u64, ns: Seq<u64>) -> u64
    decreases ns.len(),
{
    if ns.len() == 0 {
        a
    } else {
        wrap_add(after_additions(a, ns.drop_last()), ns.last())
    }
}

/// The sum of `ns`, as a mathematical integer.
pub open spec fn total(ns: Seq<u64>) -> int
    decreases ns.len(),
{
    if ns.len() == 0 {
        0
    } else {
        total(ns.drop_last()) + ns.last()
    }
}

/// How many line breaks a text holds.
pub open spec fn count_newlines(s: Seq<char>) -> nat
    decreases s.len(),
{
    if s.len() == 0 {
        0
    } else {
        count_newlines(s.drop_last()) + if s.last() == '\n' { 1nat } else { 0nat }
    }
}

proof fn lemma_count_newlines_add(a: Seq<char>, b: Seq<char>)
    ensures
        count_newlines(a + b) == count_newlines(a) + count_newlines(b),
    decreases b.len(),
{
    if b.len() > 0 {
        lemma_count_newlines_add(a, b.drop_last());
        assert((a + b).drop_last() =~= a + b.drop_last());
    } else {
        assert(a + b =~= a);
    }
}

proof fn lemma_no_newlines(s: Seq<char>)
    requires
        forall|i: int| 0 <= i < s.len() ==> s[i] != '\n',
    ensures
        count_newlines(s) == 0,
    decreases s.len(),
{
    if s.len() > 0 {
        lemma_no_newlines(s.drop_last());
    }
}

proof fn lemma_decimal_no_newlines(n: nat)
    ensures
        count_newlines(decimal(n)) == 0,
{
    law_decimal_reads_back(n);
    assert forall|i: int| 0 <= i < decimal(n).len() implies decimal(n)[i] != '\n' by {
        assert(is_digit(decimal(n)[i]));
    }
    lemma_no_newlines(decimal(n));
}

/// The snapshot is always four lines, whatever the counters hold (zero
/// included): it starts with the `events_received` line, it ends with the
/// line `active_ws <value>` and a line break, and it holds exactly four line
/// breaks. (Each value is decimal notation that reads back as the counter;
/// see `law_decimal_reads_back`.)
pub proof fn law_snapshot_has_four_lines(m: Metrics)
    ensures
        count_newlines(metrics_text(m)) == 4,
        metrics_text(m).subrange(0, 16) == "events_received "@,
        ({
            let tail = "active_ws "@ + decimal(m.active_ws as nat) + "\n"@;
            metrics_text(m).len() >= tail.len() && metrics_text(m).subrange(
                metrics_text(m).len() - tail.len(),
                metrics_text(m).len() as int,
            ) == tail
        }),
{
    reveal_strlit("events_received ");
    reveal_strlit("events_delivered ");
    reveal_strlit("dropped_events ");
    reveal_strlit("active_ws ");
    reveal_strlit("\n");
    let a = "events_received "@;
    let b = "events_delivered "@;
    let c = "dropped_events "@;
    let d = "active_ws "@;
    let nl = "\n"@;
    let da = decimal(m.events_received as nat);
    let db = decimal(m.events_delivered as nat);
    let dc = decimal(m.dropped_events as nat);
    let dd = decimal(m.active_ws as nat);
    lemma_decimal_no_newlines(m.events_received as nat);
    lemma_decimal_no_newlines(m.events_delivered as nat);
    lemma_decimal_no_newlines(m.dropped_events as nat);
    lemma_decimal_no_newlines(m.active_ws as nat);
    lemma_no_newlines(a);
    lemma_no_newlines(b);
    lemma_no_newlines(c);
    lemma_no_newlines(d);
    assert(count_newlines(nl) == 1) by {
        assert(nl.len() == 1 && nl[0] == '\n');
        assert(nl.drop_last() =~= Seq::<char>::empty());
        assert(count_newlines(Seq::<char>::empty()) == 0);
        assert(nl.last() == '\n');
    }
    let p1 = a + da + nl;
    let p2 = b + db + nl;
    let p3 = c + dc + nl;
    let p4 = d + dd + nl;
    lemma_count_newlines_add(a, da);
    lemma_count_newlines_add(a + da, nl);
    lemma_count_newlines_add(b, db);
    lemma_count_newlines_add(b + db, nl);
    lemma_count_newlines_add(c, dc);
    lemma_count_newlines_add(c + dc, nl);
    lemma_count_newlines_add(d, dd);
    lemma_count_newlines_add(d + dd, nl);
    assert(metrics_text(m) =~= p1 + p2 + p3 + p4);
    lemma_count_newlines_add(p1, p2);
    lemma_count_newlines_add(p1 + p2, p3);
    lemma_count_newlines_add(p1 + p2 + p3, p4);
    assert(metrics_text(m).subrange(0, 16) =~= a);
    let t = metrics_text(m);
    assert(t.subrange(t.len() - p4.len(), t.len() as int) =~= p4);
}

/// A wrapping addition is the sum modulo 2^64.
pub proof fn law_wrap_add_is_modular(a: u64, b: u64)
    ensures
        wrap_add(a, b) as int == (a + b) % counter_modulus(),
{
}

/// No increment is lost: `k` increments of a counter add `k` to it, modulo
/// 2^64, whatever the counter held.
pub proof fn law_increments_add_up(a: u64, k: nat)
    ensures
        after_increments(a, k) as int == (a + k) % counter_modulus(),
    decreases k,
{
    if k > 0 {
        law_increments_add_up(a, (k - 1) as nat);
        let x = after_increments(a, (k - 1) as nat);
        law_wrap_add_is_modular(x, 1);
        assert((((a + k - 1) % counter_modulus()) + 1) % counter_modulus() == (a + k) % counter_modulus())
            by (nonlinear_arith);
    }
}

/// Successive deliveries add up: adding each of `ns` in turn adds their sum,
/// modulo 2^64; adding nothing changes nothing, and adding `a` then `b` is
/// adding their wrapping sum.
pub proof fn law_additions_add_up(d: u64, ns: Seq<u64>, a: u64, b: u64)
    ensures
        after_additions(d, ns) as int == (d + total(ns)) % counter_modulus(),
        wrap_add(d, 0) == d,
        wrap_add(wrap_add(d, a), b) == wrap_add(d, wrap_add(a, b)),
    decreases ns.len(),
{
    if ns.len() > 0 {
        law_additions_add_up(d, ns.drop_last(), a, b);
        let x = after_additions(d, ns.drop_last());
        law_wrap_add_is_modular(x, ns.last());
        let t = total(ns.drop_last());
        assert((((d + t) % counter_modulus()) + ns.last()) % counter_modulus() == (d + t + ns.last())
            % counter_modulus()) by (nonlinear_arith);
    }
}

/// Counting a connection open and then closed leaves the open-connection
/// counter where it was, also at the largest value.
pub proof fn law_ws_open_close_restores(m: Metrics)
    ensures
        wrap_sub(wrap_add(m.active_ws, 1), 1) == m.active_ws,
{
}

} // verus!
