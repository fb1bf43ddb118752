//! The subscription hub: which subscribers listen on which topic, and the
//! bookkeeping of one event's fan-out to the subscribers of its topic.
use vstd::prelude::*;
use vstd::utf8::encode_utf8;
use vstd::string::StringExecFns;
use crate::error::PulseError;

verus! {

/// The longest topic accepted, in bytes of UTF-8.
pub const MAX_TOPIC_BYTES: usize = 255;

struct TopicEntry {
    topic: String,
    subscribers: Vec<u64>,
}

/// The subscribers of each topic. A subscriber is named by the id that the
/// application gave to its outgoing channel; a topic's subscribers are kept
/// in the order in which they subscribed.
pub struct WsHub {
    entries: Vec<TopicEntry>,
}

spec fn entries_map(s: Seq<TopicEntry>) -> Map<Seq<char>, Seq<u64>>
    decreases s.len(),
{
    if s.len() == 0 {
        Map::empty()
    } else {
        entries_map(s.drop_last()).insert(s.last().topic@, s.last().subscribers@)
    }
}

spec fn distinct_topics(s: Seq<TopicEntry>) -> bool {
    forall|i: int, j: int| 0 <= i < j < s.len() ==> s[i].topic@ != s[j].topic@
}

proof fn lemma_entries_dom(s: Seq<TopicEntry>, k: Seq<char>)
    ensures
        entries_map(s).dom().contains(k) <==> exists|i: int| 0 <= i < s.len() && s[i].topic@ == k,
    decreases s.len(),
{
    if s.len() > 0 {
        let t = s.drop_last();
        lemma_entries_dom(t, k);
        if exists|i: int| 0 <= i < s.len() && s[i].topic@ == k {
            let i = choose|i: int| 0 <= i < s.len() && s[i].topic@ == k;
            if i < s.len() - 1 {
                assert(t[i].topic@ == k);
            }
        }
        if exists|i: int| 0 <= i < t.len() && t[i].topic@ == k {
            let i = choose|i: int| 0 <= i < t.len() && t[i].topic@ == k;
            assert(s[i].topic@ == k);
        }
    }
}

proof fn lemma_entries_at(s: Seq<TopicEntry>, i: int)
    requires
        distinct_topics(s),
        0 <= i < s.len(),
    ensures
        entries_map(s).dom().contains(s[i].topic@),
        entries_map(s)[s[i].topic@] == s[i].subscribers@,
    decreases s.len(),
{
    let t = s.drop_last();
    if i < s.len() - 1 {
        assert(distinct_topics(t));
        lemma_entries_at(t, i);
        assert(s[i].topic@ != s.last().topic@);
    }
}

proof fn lemma_entries_replace(s: Seq<TopicEntry>, i: int, e: TopicEntry)
    requires
        distinct_topics(s),
        0 <= i < s.len(),
        e.topic@ == s[i].topic@,
    ensures
        distinct_topics(s.update(i, e)),
        entries_map(s.update(i, e)) =~= entries_map(s).insert(e.topic@, e.subscribers@),
{
    let s2 = s.update(i, e);
    assert(distinct_topics(s2));
    assert forall|k: Seq<char>| #[trigger] entries_map(s2).dom().contains(k)
        <==> entries_map(s).insert(e.topic@, e.subscribers@).dom().contains(k) by {
        lemma_entries_dom(s, k);
        lemma_entries_dom(s2, k);
        if exists|j: int| 0 <= j < s.len() && s[j].topic@ == k {
            let j = choose|j: int| 0 <= j < s.len() && s[j].topic@ == k;
            assert(s2[j].topic@ == k);
        }
        if exists|j: int| 0 <= j < s2.len() && s2[j].topic@ == k {
            let j = choose|j: int| 0 <= j < s2.len() && s2[j].topic@ == k;
            assert(s[j].topic@ == k);
        }
    }
    assert forall|k: Seq<char>| #[trigger] entries_map(s2).dom().contains(k)
        implies entries_map(s2)[k] == entries_map(s).insert(e.topic@, e.subscribers@)[k] by {
        lemma_entries_dom(s2, k);
        let j = choose|j: int| 0 <= j < s2.len() && s2[j].topic@ == k;
        lemma_entries_at(s2, j);
        if j != i {
            lemma_entries_at(s, j);
        }
    }
}

/// The subscribers of `topic` in the hub's map; none where it has no entry.
pub open spec fn subscribers_of(m: Map<Seq<char>, Seq<u64>>, topic: Seq<char>) -> Seq<u64> {
    if m.dom().contains(topic) {
        m[topic]
    } else {
        Seq::empty()
    }
}

/// A subscription is read back: after a subscriber is registered on a topic,
/// the topic's subscribers are those it had before followed by the new one,
/// and every other topic keeps its subscribers.
pub proof fn law_subscribe_then_read(m: Map<Seq<char>, Seq<u64>>, topic: Seq<char>, subscriber: u64, other: Seq<char>)
    ensures
        subscribers_of(m.insert(topic, subscribers_of(m, topic).push(subscriber)), topic)
            == subscribers_of(m, topic).push(subscriber),
        other != topic ==> subscribers_of(m.insert(topic, subscribers_of(m, topic).push(subscriber)), other)
            == subscribers_of(m, other),
{
}

impl View for WsHub {
    type V = Map<Seq<char>, Seq<u64>>;

    closed spec fn view(&self) -> Map<Seq<char>, Seq<u64>> {
        entries_map(self.entries@)
    }
}

fn copy_ids(v: &Vec<u64>) -> (r: Vec<u64>)
    ensures
        r@ == v@,
{
    let mut r: Vec<u64> = Vec::new();
    let n = v.len();
    let mut i: usize = 0;
    while i < n
        invariant
            n == v.len(),
            i <= n,
            r@ == v@.take(i as int),
        decreases n - i,
    {
        r.push(v[i]);
        i = i + 1;
        assert(r@ =~= v@.take(i as int));
    }
    assert(v@.take(n as int) =~= v@);
    r
}

fn find_topic(entries: &Vec<TopicEntry>, topic: &String) -> (r: Option<usize>)
    ensures
        r matches Some(i) ==> i < entries@.len() && entries@[i as int].topic@ == topic@,
        r is None ==> forall|j: int| 0 <= j < entries@.len() ==> entries@[j].topic@ != topic@,
{
    let n = entries.len();
    let mut i: usize = 0;
    while i < n
        invariant
            n == entries.len(),
            i <= n,
            forall|j: int| 0 <= j < i ==> entries@[j].topic@ != topic@,
        decreases n - i,
    {
        if entries[i].topic == *topic {
            return Some(i);
        }
        i = i + 1;
    }
    None
}

/// The subscribers of `s` that are not among `ids`, in their order.
pub open spec fn without(s: Seq<u64>, ids: Seq<u64>) -> Seq<u64>
    decreases s.len(),
{
    if s.len() == 0 {
        Seq::empty()
    } else if ids.contains(s.last()) {
        without(s.drop_last(), ids)
    } else {
        without(s.drop_last(), ids).push(s.last())
    }
}

/// The map with the subscribers named in `ids` taken off `topic`.
pub open spec fn removed(m: Map<Seq<char>, Seq<u64>>, topic: Seq<char>, ids: Seq<u64>) -> Map<
    Seq<char>,
    Seq<u64>,
> {
    if m.dom().contains(topic) {
        m.insert(topic, without(m[topic], ids))
    } else {
        m
    }
}

/// A subscriber is left by the removal exactly when it was there and is not
/// among those removed.
pub proof fn lemma_without_contains(s: Seq<u64>, ids: Seq<u64>, x: u64)
    ensures
        without(s, ids).contains(x) <==> s.contains(x) && !ids.contains(x),
    decreases s.len(),
{
    if s.len() > 0 {
        let t = s.drop_last();
        lemma_without_contains(t, ids, x);
        if s.contains(x) && !ids.contains(x) {
            let i = choose|i: int| 0 <= i < s.len() && s[i] == x;
            if i < s.len() - 1 {
                assert(t[i] == x);
            } else {
                assert(without(s, ids).last() == x);
            }
        }
        if without(s, ids).contains(x) {
            if !without(t, ids).contains(x) {
                assert(s.last() == x);
            } else {
                let j = choose|j: int| 0 <= j < t.len() && t[j] == x;
                assert(s[j] == x);
            }
        }
        if t.contains(x) && !ids.contains(x) {
            let j = choose|j: int| 0 <= j < without(t, ids).len() && without(t, ids)[j] == x;
            if !ids.contains(s.last()) {
                assert(without(s, ids)[j] == x);
            }
        }
    }
}

/// Taking `ids` off a list keeps exactly the subscribers not in `ids`, each
/// as often and in the same order as before: it is the order-preserving
/// filter of the list. Taking nothing off leaves the list as it is, and the
/// result is never longer than the list.
pub proof fn law_without_is_filter(s: Seq<u64>, ids: Seq<u64>)
    ensures
        without(s, ids) == s.filter(|x: u64| !ids.contains(x)),
        without(s, ids).len() <= s.len(),
        ids.len() == 0 ==> without(s, ids) == s,
    decreases s.len(),
{
    reveal(Seq::filter);
    if s.len() > 0 {
        law_without_is_filter(s.drop_last(), ids);
        if ids.len() == 0 {
            assert(!ids.contains(s.last()));
            assert(s.drop_last().push(s.last()) =~= s);
        }
    }
}

fn contains_id(ids: &Vec<u64>, x: u64) -> (b: bool)
    ensures
        b == ids@.contains(x),
{
    let n = ids.len();
    let mut i: usize = 0;
    while i < n
        invariant
            n == ids.len(),
            i <= n,
            forall|j: int| 0 <= j < i ==> ids@[j] != x,
        decreases n - i,
    {
        if ids[i] == x {
            return true;
        }
        i = i + 1;
    }
    false
}

fn retain_absent(s: &Vec<u64>, ids: &Vec<u64>) -> (r: Vec<u64>)
    ensures
        r@ == without(s@, ids@),
{
    let mut r: Vec<u64> = Vec::new();
    let n = s.len();
    let mut i: usize = 0;
    while i < n
        invariant
            n == s.len(),
            i <= n,
            r@ == without(s@.take(i as int), ids@),
        decreases n - i,
    {
        assert(s@.take(i + 1).drop_last() =~= s@.take(i as int));
        if !contains_id(ids, s[i]) {
            r.push(s[i]);
        }
        i = i + 1;
    }
    assert(s@.take(n as int) =~= s@);
    r
}

impl WsHub {
    #[verifier::type_invariant]
    spec fn inv(&self) -> bool {
        distinct_topics(self.entries@)
    }

    /// A hub without subscribers.
    pub fn new() -> (h: Self)
        ensures
            h@ == Map::<Seq<char>, Seq<u64>>::empty(),
    {
        WsHub { entries: Vec::new() }
    }

    /// Registers `subscriber` on `topic`. An empty topic, or one longer than
    /// 255 bytes, is refused with `InvalidTopic` and leaves the hub as it was;
    /// otherwise the subscriber is appended to the topic's subscribers.
    pub fn subscribe(&mut self, topic: String, subscriber: u64) -> (r: Result<(), PulseError>)
        ensures
            r is Ok <==> topic@.len() > 0 && encode_utf8(topic@).len() <= 255,
            topic@.len() == 0 ==> (r matches Err(PulseError::InvalidTopic(m))
                && m@ == "Topic cannot be empty"@),
            topic@.len() > 0 && encode_utf8(topic@).len() > 255 ==> (r matches Err(
                PulseError::InvalidTopic(m),
            ) && m@ == "Topic too long (max 255 chars)"@),
            r is Err ==> final(self)@ == old(self)@,
            r is Ok ==> final(self)@ == old(self)@.insert(
                topic@,
                subscribers_of(old(self)@, topic@).push(subscriber),
            ),
    {
        proof {
            use_type_invariant(&*self);
        }
        if topic.as_str().is_empty() {
            return Err(PulseError::InvalidTopic(String::from_str("Topic cannot be empty")));
        }
        if topic.as_str().as_bytes().len() > MAX_TOPIC_BYTES {
            return Err(PulseError::InvalidTopic(String::from_str("Topic too long (max 255 chars)")));
        }
        let mut entries: Vec<TopicEntry> = Vec::new();
        std::mem::swap(&mut entries, &mut self.entries);
        let ghost before = entries@;
        match find_topic(&entries, &topic) {
            Some(i) => {
                let mut subs = copy_ids(&entries[i].subscribers);
                subs.push(subscriber);
                proof {
                    lemma_entries_at(before, i as int);
                }
                let entry = TopicEntry { topic, subscribers: subs };
                entries.set(i, entry);
                proof {
                    lemma_entries_replace(before, i as int, entry);
                }
            },
            None => {
                proof {
                    lemma_entries_dom(before, topic@);
                }
                let mut subs: Vec<u64> = Vec::new();
                subs.push(subscriber);
                let entry = TopicEntry { topic, subscribers: subs };
                entries.push(entry);
                assert(entries@.drop_last() =~= before);
                assert(subs@ =~= Seq::<u64>::empty().push(subscriber));
            },
        }
        self.entries = entries;
        Ok(())
    }

    /// The subscribers of `topic`, in the order in which they subscribed.
    pub fn subscribers(&self, topic: &String) -> (v: Vec<u64>)
        ensures
            v@ == subscribers_of(self@, topic@),
    {
        proof {
            use_type_invariant(self);
        }
        match find_topic(&self.entries, topic) {
            Some(i) => {
                proof {
                    lemma_entries_at(self.entries@, i as int);
                }
                copy_ids(&self.entries[i].subscribers)
            },
            None => {
                proof {
                    lemma_entries_dom(self.entries@, topic@);
                }
                Vec::new()
            },
        }
    }

    /// Drops the subscribers named in `ids` from `topic`; the topic's other
    /// subscribers keep their order, and other topics are left as they are.
    pub fn remove_subscribers(&mut self, topic: &String, ids: &Vec<u64>)
        ensures
            final(self)@ == removed(old(self)@, topic@, ids@),
            final(self)@.dom() == old(self)@.dom(),
            subscribers_of(final(self)@, topic@) == subscribers_of(old(self)@, topic@).filter(
                |x: u64| !ids@.contains(x),
            ),
            forall|t: Seq<char>| t != topic@ ==> subscribers_of(final(self)@, t) == subscribers_of(
                old(self)@,
                t,
            ),
    {
        proof {
            use_type_invariant(&*self);
        }
        let mut entries: Vec<TopicEntry> = Vec::new();
        std::mem::swap(&mut entries, &mut self.entries);
        let ghost before = entries@;
        match find_topic(&entries, topic) {
            Some(i) => {
                let kept = retain_absent(&entries[i].subscribers, ids);
                let name = entries[i].topic.clone();
                proof {
                    lemma_entries_at(before, i as int);
                }
                let entry = TopicEntry { topic: name, subscribers: kept };
                entries.set(i, entry);
                proof {
                    lemma_entries_replace(before, i as int, entry);
                }
            },
            None => {
                proof {
                    lemma_entries_dom(before, topic@);
                }
            },
        }
        self.entries = entries;
        proof {
            law_without_is_filter(subscribers_of(old(self)@, topic@), ids@);
            reveal(Seq::filter);
            assert(self@.dom() =~= old(self)@.dom());
        }
    }
}

} // verus!
