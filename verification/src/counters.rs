//! The console reporter's table: for each counter the latest value, when it
//! was observed, and how many samples of it came in since the last report.
//!
//! A counter is identified by object name, type id and stat id. The table is
//! kept in the order of these keys, each key once.

use vstd::prelude::*;
use crate::counts::{bump, spec_bump};
use crate::order::{
    lemma_name_order_equal,
    lemma_order_reverse,
    lemma_order_transitive,
    name_order,
    spec_name_order,
    spec_number_order,
    spec_reverse,
    Order,
};
use crate::sai::{SAIStat, SampleView};
use vstd::utf8::encode_utf8;

verus! {

/// What identifies a counter.
#[derive(Debug, PartialEq, Eq, Hash)]
pub struct CounterKey {
    pub object_name: String,
    pub type_id: u32,
    pub stat_id: u32,
}

/// What a counter key is, as a mathematical value.
pub struct KeyView {
    pub object_name: Seq<char>,
    pub type_id: u32,
    pub stat_id: u32,
}

impl View for CounterKey {
    type V = KeyView;

    open spec fn view(&self) -> KeyView {
        KeyView { object_name: self.object_name@, type_id: self.type_id, stat_id: self.stat_id }
    }
}

impl CounterKey {
    /// The key of the counter `stat_id` of the object `object_name` of class
    /// `type_id`.
    pub fn new(object_name: String, type_id: u32, stat_id: u32) -> (key: Self)
        ensures
            key@ == (KeyView { object_name: object_name@, type_id, stat_id }),
    {
        CounterKey { object_name, type_id, stat_id }
    }
}

impl Clone for CounterKey {
    fn clone(&self) -> (out: Self)
        ensures
            out@ == self@,
    {
        CounterKey {
            object_name: self.object_name.clone(),
            type_id: self.type_id,
            stat_id: self.stat_id,
        }
    }
}

/// The latest value of a counter and when it was observed.
#[derive(Debug, Clone, Copy, PartialEq, Eq, Structural)]
pub struct CounterInfo {
    pub counter: u64,
    /// Nanoseconds since the epoch.
    pub last_observation_time: u64,
}

/// The key of a sample.
pub open spec fn spec_key_of(sample: SampleView) -> KeyView {
    KeyView {
        object_name: sample.object_name,
        type_id: sample.type_id,
        stat_id: sample.stat_id,
    }
}

/// How the key `a` stands to `b`: by object name, then by type id, then by
/// stat id.
pub open spec fn spec_key_order(a: KeyView, b: KeyView) -> Order {
    match spec_name_order(a.object_name, b.object_name) {
        Order::Less => Order::Less,
        Order::Greater => Order::Greater,
        Order::Equal => match spec_number_order(a.type_id, b.type_id) {
            Order::Less => Order::Less,
            Order::Greater => Order::Greater,
            Order::Equal => spec_number_order(a.stat_id, b.stat_id),
        },
    }
}

/// Keys that stand equal are the same key.
pub proof fn lemma_key_order_equal(a: KeyView, b: KeyView)
    ensures
        spec_key_order(a, b) == Order::Equal <==> a == b,
{
    lemma_name_order_equal(a.object_name, b.object_name);
}

/// Swapping the two keys turns the order round.
pub proof fn lemma_key_order_reverse(a: KeyView, b: KeyView)
    ensures
        spec_key_order(b, a) == spec_reverse(spec_key_order(a, b)),
{
    lemma_order_reverse(encode_utf8(a.object_name), encode_utf8(b.object_name), 0);
}

/// The order of keys is transitive.
pub proof fn lemma_key_order_transitive(a: KeyView, b: KeyView, c: KeyView)
    requires
        spec_key_order(a, b) != Order::Greater,
        spec_key_order(b, c) != Order::Greater,
    ensures
        spec_key_order(a, c) != Order::Greater,
        spec_key_order(a, b) == Order::Less || spec_key_order(b, c) == Order::Less
            ==> spec_key_order(a, c) == Order::Less,
{
    let na = encode_utf8(a.object_name);
    let nb = encode_utf8(b.object_name);
    let nc = encode_utf8(c.object_name);
    lemma_order_transitive(na, nb, nc, 0);
    lemma_name_order_equal(a.object_name, b.object_name);
    lemma_name_order_equal(b.object_name, c.object_name);
    lemma_name_order_equal(a.object_name, c.object_name);
}

/// Compares two numbers.
fn number_order(a: u32, b: u32) -> (order: Order)
    ensures
        order == spec_number_order(a, b),
{
    if a < b {
        Order::Less
    } else if a > b {
        Order::Greater
    } else {
        Order::Equal
    }
}

/// Compares two keys.
pub fn key_order(a: &CounterKey, b: &CounterKey) -> (order: Order)
    ensures
        order == spec_key_order(a@, b@),
{
    match name_order(a.object_name.as_str(), b.object_name.as_str()) {
        Order::Less => Order::Less,
        Order::Greater => Order::Greater,
        Order::Equal => match number_order(a.type_id, b.type_id) {
            Order::Less => Order::Less,
            Order::Greater => Order::Greater,
            Order::Equal => number_order(a.stat_id, b.stat_id),
        },
    }
}

/// One line of the table.
#[derive(Debug, PartialEq, Eq)]
pub struct CounterEntry {
    pub key: CounterKey,
    pub info: CounterInfo,
    /// Samples of this counter since the last report; stops at `u64::MAX`.
    pub messages_in_period: u64,
}

/// What a line of the table is, as a mathematical value.
pub struct EntryView {
    pub key: KeyView,
    pub info: CounterInfo,
    pub messages_in_period: u64,
}

impl View for CounterEntry {
    type V = EntryView;

    open spec fn view(&self) -> EntryView {
        EntryView {
            key: self.key@,
            info: self.info,
            messages_in_period: self.messages_in_period,
        }
    }
}

impl Clone for CounterEntry {
    fn clone(&self) -> (out: Self)
        ensures
            out@ == self@,
    {
        CounterEntry {
            key: self.key.clone(),
            info: self.info,
            messages_in_period: self.messages_in_period,
        }
    }
}

/// The views of a vector of entries, in order.
pub open spec fn spec_entry_views(entries: Seq<CounterEntry>) -> Seq<EntryView> {
    entries.map_values(|e: CounterEntry| e@)
}

/// The entries stand in the order of their keys, each key once.
pub open spec fn spec_sorted(entries: Seq<EntryView>) -> bool {
    forall|i: int, j: int|
        0 <= i < j < entries.len() ==> spec_key_order(
            (#[trigger] entries[i]).key,
            (#[trigger] entries[j]).key,
        ) == Order::Less
}

/// Position of the first entry from `from` on whose key does not stand
/// before `key`; the number of entries if there is none.
pub open spec fn spec_rank(entries: Seq<EntryView>, key: KeyView, from: int) -> int
    decreases entries.len() - from,
{
    if from < 0 || from >= entries.len() {
        entries.len() as int
    } else if spec_key_order(entries[from].key, key) != Order::Less {
        from
    } else {
        spec_rank(entries, key, from + 1)
    }
}

/// Whether the table has an entry for `key`.
pub open spec fn spec_has(entries: Seq<EntryView>, key: KeyView) -> bool {
    spec_rank(entries, key, 0) < entries.len() && entries[spec_rank(entries, key, 0)].key == key
}

/// The entry of `key`, where the table has one.
pub open spec fn spec_entry_of(entries: Seq<EntryView>, key: KeyView) -> EntryView {
    entries[spec_rank(entries, key, 0)]
}

/// The table after a sample observed at `time` came in: the entry of its
/// counter holds the new value and one more message, or a new entry stands
/// at its place in the order with one message.
pub open spec fn spec_record_sample(entries: Seq<EntryView>, sample: SampleView, time: u64) -> Seq<
    EntryView,
> {
    let key = spec_key_of(sample);
    let at = spec_rank(entries, key, 0);
    let info = CounterInfo { counter: sample.counter, last_observation_time: time };
    if spec_has(entries, key) {
        entries.update(
            at,
            EntryView {
                key,
                info,
                messages_in_period: spec_bump(entries[at].messages_in_period),
            },
        )
    } else {
        entries.insert(at, EntryView { key, info, messages_in_period: 1 })
    }
}

/// The table after the first `k` of `samples` came in, one after the other.
pub open spec fn spec_record_samples(
    entries: Seq<EntryView>,
    samples: Seq<SampleView>,
    time: u64,
    k: int,
) -> Seq<EntryView>
    decreases k,
{
    if k <= 0 {
        entries
    } else {
        spec_record_sample(spec_record_samples(entries, samples, time, k - 1), samples[k - 1], time)
    }
}

/// The table with the messages of the period forgotten.
pub open spec fn spec_reset_period(entries: Seq<EntryView>) -> Seq<EntryView> {
    Seq::new(
        entries.len(),
        |i: int| EntryView { key: entries[i].key, info: entries[i].info, messages_in_period: 0 },
    )
}

/// `spec_rank` stops at the first key that does not stand before `key`.
pub proof fn lemma_rank(entries: Seq<EntryView>, key: KeyView, from: int)
    requires
        0 <= from <= entries.len(),
    ensures
        from <= spec_rank(entries, key, from) <= entries.len(),
        spec_rank(entries, key, from) < entries.len() ==> spec_key_order(
            entries[spec_rank(entries, key, from)].key,
            key,
        ) != Order::Less,
        forall|i: int|
            from <= i < spec_rank(entries, key, from) ==> spec_key_order(
                (#[trigger] entries[i]).key,
                key,
            ) == Order::Less,
    decreases entries.len() - from,
{
    if from < entries.len() && spec_key_order(entries[from].key, key) == Order::Less {
        lemma_rank(entries, key, from + 1);
    }
}

/// In a sorted table a key has an entry just when some entry holds it, and
/// then `spec_rank` finds that entry.
pub proof fn lemma_rank_finds(entries: Seq<EntryView>, key: KeyView, at: int)
    requires
        spec_sorted(entries),
        0 <= at < entries.len(),
        entries[at].key == key,
    ensures
        spec_rank(entries, key, 0) == at,
        spec_has(entries, key),
{
    lemma_rank(entries, key, 0);
    let found = spec_rank(entries, key, 0);
    lemma_key_order_equal(entries[at].key, key);
    if found < at {
        assert(spec_key_order(entries[found].key, entries[at].key) == Order::Less);
    } else if found > at {
        assert(spec_key_order(entries[at].key, key) == Order::Less);
    }
}

/// A sample leaves the table sorted.
pub proof fn lemma_record_keeps_sorted(entries: Seq<EntryView>, sample: SampleView, time: u64)
    requires
        spec_sorted(entries),
    ensures
        spec_sorted(spec_record_sample(entries, sample, time)),
{
    let key = spec_key_of(sample);
    let at = spec_rank(entries, key, 0);
    let after = spec_record_sample(entries, sample, time);
    lemma_rank(entries, key, 0);
    assert forall|i: int, j: int| 0 <= i < j < after.len() implies spec_key_order(
        (#[trigger] after[i]).key,
        (#[trigger] after[j]).key,
    ) == Order::Less by {
        if spec_has(entries, key) {
            assert(after[i].key == entries[i].key);
            assert(after[j].key == entries[j].key);
        } else {
            if j < at {
                assert(after[i] == entries[i] && after[j] == entries[j]);
            } else if j == at {
                assert(after[i] == entries[i]);
                assert(spec_key_order(entries[i].key, key) == Order::Less);
            } else {
                assert(after[j] == entries[j - 1]);
                lemma_key_order_equal(entries[at].key, key);
                lemma_key_order_reverse(entries[at].key, key);
                assert(spec_key_order(key, entries[at].key) == Order::Less);
                if j - 1 > at {
                    assert(spec_key_order(entries[at].key, entries[j - 1].key) == Order::Less);
                } else {
                    lemma_key_order_equal(entries[at].key, entries[j - 1].key);
                }
                lemma_key_order_transitive(key, entries[at].key, entries[j - 1].key);
                if i < at {
                    assert(after[i] == entries[i]);
                    assert(spec_key_order(entries[i].key, entries[j - 1].key) == Order::Less);
                } else if i == at {
                } else {
                    assert(after[i] == entries[i - 1]);
                    assert(spec_key_order(entries[i - 1].key, entries[j - 1].key) == Order::Less);
                }
            }
        }
    }
}

/// Samples leave the table sorted.
pub proof fn lemma_records_keep_sorted(
    entries: Seq<EntryView>,
    samples: Seq<SampleView>,
    time: u64,
    k: int,
)
    requires
        spec_sorted(entries),
    ensures
        spec_sorted(spec_record_samples(entries, samples, time, k)),
    decreases k,
{
    if k > 0 {
        lemma_records_keep_sorted(entries, samples, time, k - 1);
        lemma_record_keeps_sorted(
            spec_record_samples(entries, samples, time, k - 1),
            samples[k - 1],
            time,
        );
    }
}

/// After a sample came in, the table has an entry for its counter, with the
/// sample's value and time; and it has for every other key what it had.
pub proof fn lemma_record_lookup(
    entries: Seq<EntryView>,
    sample: SampleView,
    time: u64,
    key: KeyView,
)
    requires
        spec_sorted(entries),
    ensures
        key == spec_key_of(sample) ==> {
            let after = spec_record_sample(entries, sample, time);
            &&& spec_has(after, key)
            &&& spec_entry_of(after, key).info == (CounterInfo {
                counter: sample.counter,
                last_observation_time: time,
            })
            &&& spec_entry_of(after, key).messages_in_period == if spec_has(entries, key) {
                spec_bump(spec_entry_of(entries, key).messages_in_period)
            } else {
                1
            }
        },
        key != spec_key_of(sample) ==> {
            let after = spec_record_sample(entries, sample, time);
            &&& spec_has(after, key) == spec_has(entries, key)
            &&& spec_has(entries, key) ==> spec_entry_of(after, key) == spec_entry_of(entries, key)
        },
{
    let skey = spec_key_of(sample);
    let at = spec_rank(entries, skey, 0);
    let after = spec_record_sample(entries, sample, time);
    lemma_rank(entries, skey, 0);
    lemma_record_keeps_sorted(entries, sample, time);
    if key == skey {
        assert(after[at].key == key);
        lemma_rank_finds(after, key, at);
    } else {
        lemma_rank(entries, key, 0);
        lemma_rank(after, key, 0);
        if spec_has(entries, key) {
            let was = spec_rank(entries, key, 0);
            let now = if spec_has(entries, skey) || was < at {
                was
            } else {
                was + 1
            };
            assert(after[now] == entries[was]);
            lemma_rank_finds(after, key, now);
        } else if spec_has(after, key) {
            let now = spec_rank(after, key, 0);
            if spec_has(entries, skey) {
                assert(after[now].key == entries[now].key);
                lemma_rank_finds(entries, key, now);
            } else {
                let was = if now < at {
                    now
                } else {
                    now - 1
                };
                assert(now != at);
                assert(after[now] == entries[was]);
                lemma_rank_finds(entries, key, was);
            }
        }
    }
}

/// After the period was reset no entry has a message left in it, and keys,
/// values and times are what they were.
pub proof fn lemma_reset_period(entries: Seq<EntryView>)
    ensures
        spec_reset_period(entries).len() == entries.len(),
        forall|i: int|
            0 <= i < entries.len() ==> {
                &&& (#[trigger] spec_reset_period(entries)[i]).messages_in_period == 0
                &&& spec_reset_period(entries)[i].key == entries[i].key
                &&& spec_reset_period(entries)[i].info == entries[i].info
            },
        spec_sorted(entries) ==> spec_sorted(spec_reset_period(entries)),
{
    let after = spec_reset_period(entries);
    if spec_sorted(entries) {
        assert forall|i: int, j: int| 0 <= i < j < after.len() implies spec_key_order(
            (#[trigger] after[i]).key,
            (#[trigger] after[j]).key,
        ) == Order::Less by {
            assert(spec_key_order(entries[i].key, entries[j].key) == Order::Less);
        }
    }
}

/// Where `key` would stand in the table.
pub fn rank(entries: &Vec<CounterEntry>, key: &CounterKey) -> (r: (usize, bool))
    ensures
        r.0 == spec_rank(spec_entry_views(entries@), key@, 0),
        r.0 <= entries.len(),
        r.1 == spec_has(spec_entry_views(entries@), key@),
{
    let ghost views = spec_entry_views(entries@);
    let mut i: usize = 0;
    while i < entries.len()
        invariant
            i <= entries.len(),
            views == spec_entry_views(entries@),
            spec_rank(views, key@, 0) == spec_rank(views, key@, i as int),
        decreases entries.len() - i,
    {
        match key_order(&entries[i].key, key) {
            Order::Less => {},
            Order::Equal => {
                proof {
                    lemma_key_order_equal(views[i as int].key, key@);
                }
                return (i, true);
            },
            Order::Greater => {
                proof {
                    lemma_key_order_equal(views[i as int].key, key@);
                }
                return (i, false);
            },
        }
        i += 1;
    }
    (i, false)
}

/// Takes a sample observed at `time` into the table.
pub fn record_sample(entries: &mut Vec<CounterEntry>, sample: &SAIStat, time: u64)
    ensures
        spec_entry_views(final(entries)@) == spec_record_sample(
            spec_entry_views(old(entries)@),
            sample@,
            time,
        ),
{
    let key = CounterKey::new(sample.object_name.clone(), sample.type_id, sample.stat_id);
    let info = CounterInfo { counter: sample.counter, last_observation_time: time };
    let ghost before = spec_entry_views(entries@);
    let (at, found) = rank(entries, &key);
    if found {
        let messages_in_period = bump(entries[at].messages_in_period);
        let entry = CounterEntry { key, info, messages_in_period };
        entries[at] = entry;
        assert(spec_entry_views(entries@) =~= before.update(at as int, entry@));
    } else {
        let entry = CounterEntry { key, info, messages_in_period: 1 };
        entries.insert(at, entry);
        assert(spec_entry_views(entries@) =~= before.insert(at as int, entry@));
    }
}

} // verus!
