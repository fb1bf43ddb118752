//! The load simulator's side: the traffic mix, the events it generates, and
//! the names and addresses it uses.
use vstd::prelude::*;
use vstd::string::StringExecFns;
use vstd::set_lib::{set_int_range, lemma_int_range};
use rand::RngExt;
use rand::seq::IndexedRandom;
use crate::models::{Event, EventPayload};
use crate::text::{prefixed, decimal, decimal_string, digit_char};

verus! {

/// The kind of event the simulator sends next.
#[derive(Clone, Copy, Debug, PartialEq, Eq, Structural)]
pub enum TrafficKind {
    Post,
    Notification,
    Alert,
}

/// The kind of event for a roll in 0..100: below 70 a post, below 90 a
/// notification, else a system alert.
pub open spec fn traffic_kind_of(roll: int) -> TrafficKind {
    if roll < 70 {
        TrafficKind::Post
    } else if roll < 90 {
        TrafficKind::Notification
    } else {
        TrafficKind::Alert
    }
}

/// The kind of event that a percentile roll selects.
pub fn traffic_kind(roll: u8) -> (k: TrafficKind)
    ensures
        k == traffic_kind_of(roll as int),
{
    if roll < 70 {
        TrafficKind::Post
    } else if roll < 90 {
        TrafficKind::Notification
    } else {
        TrafficKind::Alert
    }
}

/// The rolls in 0..100 that select `kind`.
pub open spec fn rolls_for(kind: TrafficKind) -> Set<int> {
    Set::new(|r: int| 0 <= r < 100 && traffic_kind_of(r) == kind)
}

/// Of the hundred equally likely rolls, 70 select a post, 20 a notification
/// and 10 a system alert.
pub proof fn law_traffic_mix()
    ensures
        rolls_for(TrafficKind::Post).len() == 70,
        rolls_for(TrafficKind::Notification).len() == 20,
        rolls_for(TrafficKind::Alert).len() == 10,
{
    assert(rolls_for(TrafficKind::Post) =~= set_int_range(0, 70));
    assert(rolls_for(TrafficKind::Notification) =~= set_int_range(70, 90));
    assert(rolls_for(TrafficKind::Alert) =~= set_int_range(90, 100));
    lemma_int_range(0, 70);
    lemma_int_range(70, 90);
    lemma_int_range(90, 100);
}

/// The lowercase hexadecimal digit of a nibble.
pub open spec fn hex_digit(n: u128) -> char {
    if n < 10 {
        digit_char(n as nat)
    } else if n == 10 {
        'a'
    } else if n == 11 {
        'b'
    } else if n == 12 {
        'c'
    } else if n == 13 {
        'd'
    } else if n == 14 {
        'e'
    } else {
        'f'
    }
}

/// Nibble `k` of a 128-bit value, counted from the most significant one.
pub open spec fn nibble(v: u128, k: int) -> u128 {
    (v >> ((124 - 4 * k) as u128)) & 0xf
}

/// Which nibble the character at position `i` of the hyphenated form shows.
pub open spec fn hyphenated_nibble_index(i: int) -> int {
    if i < 8 {
        i
    } else if i < 13 {
        i - 1
    } else if i < 18 {
        i - 2
    } else if i < 23 {
        i - 3
    } else {
        i - 4
    }
}

/// The hyphenated form of a UUID given by its 128 bits: 32 lowercase hex
/// digits, most significant first, in groups of 8-4-4-4-12.
pub open spec fn uuid_hyphenated(v: u128) -> Seq<char> {
    Seq::new(
        36,
        |i: int|
            if i == 8 || i == 13 || i == 18 || i == 23 {
                '-'
            } else {
                hex_digit(nibble(v, hyphenated_nibble_index(i)))
            },
    )
}

/// Whether the 128 bits are those of a random (version 4, RFC 4122 variant)
/// UUID.
pub open spec fn is_v4_uuid(v: u128) -> bool {
    &&& (v >> 76u128) & 0xf == 4
    &&& (v >> 62u128) & 0x3 == 2
}

/// `uuid::Uuid::new_v4`, taken as its 128 bits. The bits are random; the
/// version and variant bits are set as for every random UUID.
#[verifier::external_body]
fn random_uuid() -> (v: u128)
    ensures
        is_v4_uuid(v),
{
    uuid::Uuid::new_v4().as_u128()
}

/// `to_string` of `uuid::Uuid`, for the UUID with the given 128 bits: its
/// hyphenated lowercase form.
#[verifier::external_body]
fn uuid_text(v: u128) -> (s: String)
    ensures
        s@ == uuid_hyphenated(v),
{
    uuid::Uuid::from_u128(v).to_string()
}

/// `chrono::Utc::now().timestamp_millis()`: the current time in milliseconds
/// since the Unix epoch. Nothing is stated of it: it is the clock's.
#[verifier::external_body]
fn now_millis() -> (ms: i64) {
    chrono::Utc::now().timestamp_millis()
}

/// `random_range(0..bound)` on `rand::rng()`: a number below `bound`. The
/// range must not be empty, or the call panics.
#[verifier::external_body]
fn random_below(bound: u8) -> (r: u8)
    requires
        bound > 0,
    ensures
        r < bound,
{
    rand::rng().random_range(0..bound)
}

/// `IndexedRandom::choose` with `rand::rng()`: one of the items, picked at
/// random; none when there are no items.
#[verifier::external_body]
fn choose_from(items: &Vec<String>) -> (r: Option<&String>)
    ensures
        r is Some <==> items@.len() > 0,
        r matches Some(x) ==> items@.contains(*x),
{
    items.as_slice().choose(&mut rand::rng())
}

/// The text of every simulated post.
pub open spec fn post_text() -> Seq<char> {
    "hello from pulse-sim"@
}

/// The message of every simulated notification.
pub open spec fn notification_message() -> Seq<char> {
    "you have a new follower"@
}

/// The message of every simulated system alert.
pub open spec fn alert_message() -> Seq<char> {
    "simulated system alert"@
}

/// A simulated post event with the given id, time and post id.
pub fn post_event(event_id: u128, timestamp_ms: u64, post_id: String, author_id: &str) -> (e: Event)
    ensures
        e.event_id == event_id,
        e.timestamp_ms == timestamp_ms,
        e.payload matches EventPayload::PostCreated { post_id: p, author_id: a, text: t }
            && p@ == post_id@ && a@ == author_id@ && t@ == post_text(),
{
    Event {
        event_id,
        timestamp_ms,
        payload: EventPayload::PostCreated {
            post_id,
            author_id: String::from_str(author_id),
            text: String::from_str("hello from pulse-sim"),
        },
    }
}

/// A simulated notification event with the given id and time.
pub fn notification_event(event_id: u128, timestamp_ms: u64, user_id: &str) -> (e: Event)
    ensures
        e.event_id == event_id,
        e.timestamp_ms == timestamp_ms,
        e.payload matches EventPayload::Notification { user_id: u, message: m }
            && u@ == user_id@ && m@ == notification_message(),
{
    Event {
        event_id,
        timestamp_ms,
        payload: EventPayload::Notification {
            user_id: String::from_str(user_id),
            message: String::from_str("you have a new follower"),
        },
    }
}

/// A simulated system alert event with the given id, time and level.
pub fn alert_event(event_id: u128, timestamp_ms: u64, level: &str) -> (e: Event)
    ensures
        e.event_id == event_id,
        e.timestamp_ms == timestamp_ms,
        e.payload matches EventPayload::SystemAlert { level: l, message: m }
            && l@ == level@ && m@ == alert_message(),
{
    Event {
        event_id,
        timestamp_ms,
        payload: EventPayload::SystemAlert {
            level: String::from_str(level),
            message: String::from_str("simulated system alert"),
        },
    }
}

/// A new post by `author_id`, with a fresh random event id and post id and
/// the current time.
pub fn generate_post(author_id: &str) -> (e: Event)
    ensures
        is_v4_uuid(e.event_id),
        e.payload matches EventPayload::PostCreated { post_id: p, author_id: a, text: t }
            && a@ == author_id@ && t@ == post_text()
            && exists|id: u128| is_v4_uuid(id) && p@ == uuid_hyphenated(id),
{
    let event_id = random_uuid();
    let now = now_millis();
    let post_uuid = random_uuid();
    let post_id = uuid_text(post_uuid);
    post_event(event_id, now as u64, post_id, author_id)
}

/// A new notification for `user_id`, with a fresh random event id and the
/// current time.
pub fn generate_notification(user_id: &str) -> (e: Event)
    ensures
        is_v4_uuid(e.event_id),
        e.payload matches EventPayload::Notification { user_id: u, message: m }
            && u@ == user_id@ && m@ == notification_message(),
{
    let event_id = random_uuid();
    let now = now_millis();
    notification_event(event_id, now as u64, user_id)
}

/// The levels a simulated alert picks from.
pub open spec fn is_alert_level(level: Seq<char>) -> bool {
    level == "info"@ || level == "warning"@ || level == "critical"@
}

/// A new system alert at a randomly picked level, with a fresh random event
/// id and the current time.
pub fn generate_system_alert() -> (e: Event)
    ensures
        is_v4_uuid(e.event_id),
        e.payload matches EventPayload::SystemAlert { level: l, message: m }
            && is_alert_level(l@) && m@ == alert_message(),
{
    let mut levels: Vec<String> = Vec::new();
    levels.push(String::from_str("info"));
    levels.push(String::from_str("warning"));
    levels.push(String::from_str("critical"));
    let event_id = random_uuid();
    let now = now_millis();
    match choose_from(&levels) {
        Some(level) => alert_event(event_id, now as u64, level.as_str()),
        None => alert_event(event_id, now as u64, "info"),
    }
}

/// The kind of event a payload is.
pub open spec fn kind_of(p: EventPayload) -> TrafficKind {
    match p {
        EventPayload::PostCreated { .. } => TrafficKind::Post,
        EventPayload::Notification { .. } => TrafficKind::Notification,
        EventPayload::SystemAlert { .. } => TrafficKind::Alert,
    }
}

/// What holds of every event the simulator makes on behalf of `user`: a
/// random event id; a post by `user` with the fixed text and the text of a
/// random UUID as post id; a notification for `user` with the fixed message;
/// or an alert at one of the three levels with the fixed message.
pub open spec fn is_simulated_event(e: Event, user: Seq<char>) -> bool {
    &&& is_v4_uuid(e.event_id)
    &&& match e.payload {
        EventPayload::PostCreated { post_id, author_id, text } => author_id@ == user && text@
            == post_text() && exists|id: u128| is_v4_uuid(id) && post_id@ == uuid_hyphenated(id),
        EventPayload::Notification { user_id, message } => user_id@ == user && message@
            == notification_message(),
        EventPayload::SystemAlert { level, message } => is_alert_level(level@) && message@
            == alert_message(),
    }
}

/// The event that a roll selects: a post by `user`, a notification for
/// `user`, or a system alert, as `traffic_kind` says for the roll.
pub fn event_for_roll(roll: u8, user: &str) -> (e: Event)
    ensures
        kind_of(e.payload) == traffic_kind_of(roll as int),
        is_simulated_event(e, user@),
{
    match traffic_kind(roll) {
        TrafficKind::Post => generate_post(user),
        TrafficKind::Notification => generate_notification(user),
        TrafficKind::Alert => generate_system_alert(),
    }
}

/// The next simulated event: a roll below 100 picks its kind (see
/// `event_for_roll`), and posts and notifications are by or for one of
/// `users`, picked at random.
pub fn next_traffic_event(users: &Vec<String>) -> (e: Event)
    requires
        users@.len() > 0,
    ensures
        exists|i: int| 0 <= i < users@.len() && is_simulated_event(e, #[trigger] users@[i]@),
{
    let roll = random_below(100);
    match choose_from(users) {
        Some(user) => {
            let e = event_for_roll(roll, user.as_str());
            proof {
                let i = choose|i: int| 0 <= i < users@.len() && users@[i] == *user;
                assert(is_simulated_event(e, users@[i]@));
            }
            e
        },
        None => {
            let e = event_for_roll(roll, users[0].as_str());
            assert(is_simulated_event(e, users@[0]@));
            e
        },
    }
}

/// The name of simulated user number `i`: `user-<i>`.
pub fn user_name(i: u64) -> (s: String)
    ensures
        s@ == "user-"@ + decimal(i as nat),
{
    prefixed("user-", decimal_string(i).as_str())
}

/// The WebSocket address that subscribes to `topic` on the server at `base`.
pub fn feed_url(base: &str, topic: &str) -> (s: String)
    ensures
        s@ == base@ + "/ws?topic="@ + topic@,
{
    let mut s = String::from_str(base);
    s.append("/ws?topic=");
    s.append(topic);
    s
}

/// The address at which the server at `base` ingests events.
pub fn events_url(base: &str) -> (s: String)
    ensures
        s@ == base@ + "/events"@,
{
    prefixed(base, "/events")
}

/// The address at which the server at `base` serves its counters.
pub fn metrics_url(base: &str) -> (s: String)
    ensures
        s@ == base@ + "/metrics"@,
{
    prefixed(base, "/metrics")
}

} // verus!
