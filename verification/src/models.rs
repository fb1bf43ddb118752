//! Domain events: what they carry, which priority they have, and the topic
//! that each one is routed to.
use vstd::prelude::*;
use crate::text::prefixed;

verus! {

/// What an event is about.
#[derive(Debug, Clone)]
pub enum EventPayload {
    PostCreated { post_id: String, author_id: String, text: String },
    Notification { user_id: String, message: String },
    SystemAlert { level: String, message: String },
}

/// Delivery priority of an event: critical events are never dropped for a
/// slow subscriber, normal ones are.
#[derive(Clone, Copy, Debug, PartialEq, Eq, Structural)]
pub enum Priority {
    Critical,
    Normal,
}

/// An event as the service ingests it; `event_id` holds the 128 bits of the
/// event's UUID.
#[derive(Debug, Clone)]
pub struct Event {
    pub event_id: u128,
    pub payload: EventPayload,
    pub timestamp_ms: u64,
}

/// Name for what `str::to_lowercase` returns on a string.
pub uninterp spec fn lowercase(s: Seq<char>) -> Seq<char>;

/// ASCII lowercase of one character.
pub open spec fn ascii_lower_char(c: char) -> char {
    if 'A' <= c && c <= 'Z' {
        (c as u32 + 32) as char
    } else {
        c
    }
}

/// Whether every character is ASCII.
pub open spec fn all_ascii(s: Seq<char>) -> bool {
    forall|i: int| 0 <= i < s.len() ==> (s[i] as u32) < 128
}

/// `str::to_lowercase` of std. Its result is named `lowercase`; on an ASCII
/// string it lowers `A`..`Z` and keeps every other character, as the
/// documentation of `char::to_lowercase` gives for ASCII characters. What it
/// does to other characters (Unicode case tables) is left unsaid.
#[verifier::external_body]
fn to_lowercase(s: &str) -> (r: String)
    ensures
        r@ == lowercase(s@),
        all_ascii(s@) ==> r@ == s@.map_values(|c: char| ascii_lower_char(c)),
{
    s.to_lowercase()
}

/// The priority of a payload: system alerts are critical, all else normal.
pub open spec fn priority_of(p: EventPayload) -> Priority {
    match p {
        EventPayload::SystemAlert { .. } => Priority::Critical,
        _ => Priority::Normal,
    }
}

/// The topic an event with this payload is routed to.
pub open spec fn topic_of(p: EventPayload) -> Seq<char> {
    match p {
        EventPayload::PostCreated { author_id, .. } => "feed:"@ + author_id@,
        EventPayload::Notification { user_id, .. } => "notifications:"@ + user_id@,
        EventPayload::SystemAlert { level, .. } => "alerts:"@ + lowercase(level@),
    }
}

/// Every system alert is critical, whatever its level and message; posts and
/// notifications are normal.
pub proof fn law_alerts_are_critical(p: EventPayload)
    ensures
        (priority_of(p) == Priority::Critical) <==> (p is SystemAlert),
        (priority_of(p) == Priority::Normal) <==> !(p is SystemAlert),
{
}

/// Topics are read off the payload without change: a post's topic is
/// `feed:` followed by the author id character for character, a
/// notification's is `notifications:` followed by the user id character for
/// character, and an alert's starts with `alerts:`. So two posts share a topic
/// only when they have the same author, two notifications only when they are
/// for the same user, and events of different kinds never share a topic.
pub proof fn law_topics_keep_ids(p: EventPayload, q: EventPayload)
    ensures
        p is PostCreated ==> topic_of(p).len() == 5 + p->author_id@.len() && topic_of(p).subrange(0, 5)
            == "feed:"@ && topic_of(p).subrange(5, topic_of(p).len() as int) == p->author_id@,
        p is Notification ==> topic_of(p).len() == 14 + p->user_id@.len() && topic_of(p).subrange(0, 14)
            == "notifications:"@ && topic_of(p).subrange(14, topic_of(p).len() as int) == p->user_id@,
        p is SystemAlert ==> topic_of(p).subrange(0, 7) == "alerts:"@,
        p is PostCreated && q is PostCreated && topic_of(p) == topic_of(q) ==> p->author_id@
            == q->author_id@,
        p is Notification && q is Notification && topic_of(p) == topic_of(q) ==> p->user_id@
            == q->user_id@,
        topic_of(p) == topic_of(q) ==> (p is PostCreated <==> q is PostCreated) && (p is Notification
            <==> q is Notification) && (p is SystemAlert <==> q is SystemAlert),
{
    reveal_strlit("feed:");
    reveal_strlit("notifications:");
    reveal_strlit("alerts:");
    let tp = topic_of(p);
    let tq = topic_of(q);
    match p {
        EventPayload::PostCreated { author_id, .. } => {
            assert(tp.subrange(0, 5) =~= "feed:"@);
            assert(tp.subrange(5, tp.len() as int) =~= author_id@);
        },
        EventPayload::Notification { user_id, .. } => {
            assert(tp.subrange(0, 14) =~= "notifications:"@);
            assert(tp.subrange(14, tp.len() as int) =~= user_id@);
        },
        EventPayload::SystemAlert { level, .. } => {
            assert(tp.subrange(0, 7) =~= "alerts:"@);
        },
    }
    match q {
        EventPayload::PostCreated { author_id, .. } => {
            assert(tq.subrange(5, tq.len() as int) =~= author_id@);
        },
        EventPayload::Notification { user_id, .. } => {
            assert(tq.subrange(14, tq.len() as int) =~= user_id@);
        },
        EventPayload::SystemAlert { .. } => {},
    }
    if tp == tq {
        assert(tp[0] == tq[0]);
        assert(tp[1] == tq[1]);
    }
}

impl EventPayload {
    /// The delivery priority of this payload.
    pub fn priority(&self) -> (p: Priority)
        ensures
            p == priority_of(*self),
            (p == Priority::Critical) <==> (*self is SystemAlert),
            (p == Priority::Normal) <==> !(*self is SystemAlert),
    {
        match self {
            EventPayload::SystemAlert { .. } => Priority::Critical,
            _ => Priority::Normal,
        }
    }

    /// The topic this payload is published on: `feed:<author>` for posts,
    /// `notifications:<user>` for notifications, `alerts:<level in
    /// lowercase>` for system alerts.
    pub fn route_topic(&self) -> (t: String)
        ensures
            t@ == topic_of(*self),
            match *self {
                EventPayload::PostCreated { author_id, .. } => t@ == "feed:"@ + author_id@,
                EventPayload::Notification { user_id, .. } => t@ == "notifications:"@ + user_id@,
                EventPayload::SystemAlert { level, .. } => t@ == "alerts:"@ + lowercase(level@),
            },
            self matches EventPayload::SystemAlert { level, .. } ==> (all_ascii(level@)
                ==> t@ == "alerts:"@ + level@.map_values(|c: char| ascii_lower_char(c))),
    {
        match self {
            EventPayload::PostCreated { author_id, .. } => prefixed("feed:", author_id.as_str()),
            EventPayload::Notification { user_id, .. } => prefixed("notifications:", user_id.as_str()),
            EventPayload::SystemAlert { level, .. } => {
                let lowered = to_lowercase(level.as_str());
                prefixed("alerts:", lowered.as_str())
            },
        }
    }
}

} // verus!
