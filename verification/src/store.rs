//! The active template set: what the publishers have announced and not yet
//! withdrawn, keyed by publisher key and template id.

use vstd::prelude::*;
use crate::template::{IpfixTemplate, TemplateView};
use crate::text::spec_texts;

verus! {

/// A template as one publisher announced it, with the table that resolves
/// the information-element ids of its fields to object labels: position
/// `k - 1` holds the label of id `k`.
#[derive(Debug, PartialEq, Eq)]
pub struct IpfixTemplateUpdate {
    /// The publisher's key; opaque to the pipeline.
    pub publisher_key: String,
    pub template: IpfixTemplate,
    pub object_names: Vec<String>,
}

/// What a template update is, as a mathematical value.
pub struct UpdateView {
    pub publisher_key: Seq<char>,
    pub template: TemplateView,
    pub object_names: Seq<Seq<char>>,
}

impl View for IpfixTemplateUpdate {
    type V = UpdateView;

    open spec fn view(&self) -> UpdateView {
        UpdateView {
            publisher_key: self.publisher_key@,
            template: self.template@,
            object_names: spec_texts(self.object_names@),
        }
    }
}

/// Copies a vector of strings.
pub fn clone_names(names: &Vec<String>) -> (out: Vec<String>)
    ensures
        spec_texts(out@) == spec_texts(names@),
{
    let mut out: Vec<String> = Vec::new();
    let mut i: usize = 0;
    while i < names.len()
        invariant
            i <= names.len(),
            out.len() == i,
            spec_texts(out@) == spec_texts(names@).subrange(0, i as int),
        decreases names.len() - i,
    {
        out.push(names[i].clone());
        i += 1;
        assert(spec_texts(out@) =~= spec_texts(names@).subrange(0, i as int));
    }
    assert(spec_texts(out@) =~= spec_texts(names@));
    out
}

impl Clone for IpfixTemplateUpdate {
    fn clone(&self) -> (out: Self)
        ensures
            out@ == self@,
    {
        IpfixTemplateUpdate {
            publisher_key: self.publisher_key.clone(),
            template: self.template.clone(),
            object_names: clone_names(&self.object_names),
        }
    }
}

/// The views of a vector of updates, in order.
pub open spec fn spec_update_views(entries: Seq<IpfixTemplateUpdate>) -> Seq<UpdateView> {
    entries.map_values(|e: IpfixTemplateUpdate| e@)
}

/// Whether `entry` is the one stored under `(key, template_id)`.
pub open spec fn spec_is_keyed(entry: UpdateView, key: Seq<char>, template_id: u16) -> bool {
    entry.publisher_key == key && entry.template.template_id == template_id
}

/// No two entries share a publisher key and a template id.
pub open spec fn spec_distinct_keys(entries: Seq<UpdateView>) -> bool {
    forall|i: int, j: int|
        0 <= i < j < entries.len() ==> !spec_is_keyed(
            #[trigger] entries[i],
            (#[trigger] entries[j]).publisher_key,
            entries[j].template.template_id,
        )
}

/// Position of the first entry from `from` on that is stored under
/// `(key, template_id)`; the number of entries if there is none.
pub open spec fn spec_position(
    entries: Seq<UpdateView>,
    key: Seq<char>,
    template_id: u16,
    from: int,
) -> int
    decreases entries.len() - from,
{
    if from < 0 || from >= entries.len() {
        entries.len() as int
    } else if spec_is_keyed(entries[from], key, template_id) {
        from
    } else {
        spec_position(entries, key, template_id, from + 1)
    }
}

/// Position of the first entry from `from` on whose template has the id
/// `template_id`, whoever published it; the number of entries if there is
/// none.
pub open spec fn spec_position_of_id(entries: Seq<UpdateView>, template_id: u16, from: int) -> int
    decreases entries.len() - from,
{
    if from < 0 || from >= entries.len() {
        entries.len() as int
    } else if entries[from].template.template_id == template_id {
        from
    } else {
        spec_position_of_id(entries, template_id, from + 1)
    }
}

/// The template that decodes a Data Set with the id `template_id`: the
/// earliest stored entry with that template id.
pub open spec fn spec_template_for(entries: Seq<UpdateView>, template_id: u16) -> Option<
    UpdateView,
> {
    let at = spec_position_of_id(entries, template_id, 0);
    if at < entries.len() {
        Some(entries[at])
    } else {
        None
    }
}

/// The entry stored under `(key, template_id)`.
pub open spec fn spec_lookup(entries: Seq<UpdateView>, key: Seq<char>, template_id: u16) -> Option<
    UpdateView,
> {
    let at = spec_position(entries, key, template_id, 0);
    if at < entries.len() {
        Some(entries[at])
    } else {
        None
    }
}

/// The entries after `update` was published: it takes the place of the
/// entry with its key and template id, or comes last if there is none.
pub open spec fn spec_publish(entries: Seq<UpdateView>, update: UpdateView) -> Seq<UpdateView> {
    let at = spec_position(entries, update.publisher_key, update.template.template_id, 0);
    if at < entries.len() {
        entries.update(at, update)
    } else {
        entries.push(update)
    }
}

/// The entries after `key` was withdrawn: those of other publishers, in
/// their order.
pub open spec fn spec_withdraw(entries: Seq<UpdateView>, key: Seq<char>) -> Seq<UpdateView>
    decreases entries.len(),
{
    if entries.len() == 0 {
        entries
    } else if entries.last().publisher_key == key {
        spec_withdraw(entries.drop_last(), key)
    } else {
        spec_withdraw(entries.drop_last(), key).push(entries.last())
    }
}

/// `spec_position` finds an entry with the key, and none stands before it.
pub proof fn lemma_position(entries: Seq<UpdateView>, key: Seq<char>, template_id: u16, from: int)
    requires
        0 <= from <= entries.len(),
    ensures
        from <= spec_position(entries, key, template_id, from) <= entries.len(),
        spec_position(entries, key, template_id, from) < entries.len() ==> spec_is_keyed(
            entries[spec_position(entries, key, template_id, from)],
            key,
            template_id,
        ),
        forall|i: int|
            from <= i < spec_position(entries, key, template_id, from) ==> !spec_is_keyed(
                #[trigger] entries[i],
                key,
                template_id,
            ),
    decreases entries.len() - from,
{
    if from < entries.len() && !spec_is_keyed(entries[from], key, template_id) {
        lemma_position(entries, key, template_id, from + 1);
    }
}

/// `spec_position_of_id` finds an entry with the id, and none stands before
/// it.
pub proof fn lemma_position_of_id(entries: Seq<UpdateView>, template_id: u16, from: int)
    requires
        0 <= from <= entries.len(),
    ensures
        from <= spec_position_of_id(entries, template_id, from) <= entries.len(),
        spec_position_of_id(entries, template_id, from) < entries.len() ==> entries[spec_position_of_id(
            entries,
            template_id,
            from,
        )].template.template_id == template_id,
        forall|i: int|
            from <= i < spec_position_of_id(entries, template_id, from) ==> (
            #[trigger] entries[i]).template.template_id != template_id,
    decreases entries.len() - from,
{
    if from < entries.len() && entries[from].template.template_id != template_id {
        lemma_position_of_id(entries, template_id, from + 1);
    }
}

/// Where an entry with the key stands, there `spec_position` stops at the
/// latest.
pub proof fn lemma_position_bound(
    entries: Seq<UpdateView>,
    key: Seq<char>,
    template_id: u16,
    from: int,
    at: int,
)
    requires
        0 <= from <= at < entries.len(),
        spec_is_keyed(entries[at], key, template_id),
    ensures
        spec_position(entries, key, template_id, from) <= at,
    decreases at - from,
{
    if from < at && !spec_is_keyed(entries[from], key, template_id) {
        lemma_position_bound(entries, key, template_id, from + 1, at);
    }
}

/// Publishing keeps the keys distinct.
pub proof fn lemma_publish_keeps_distinct(entries: Seq<UpdateView>, update: UpdateView)
    requires
        spec_distinct_keys(entries),
    ensures
        spec_distinct_keys(spec_publish(entries, update)),
{
    let key = update.publisher_key;
    let id = update.template.template_id;
    lemma_position(entries, key, id, 0);
    let at = spec_position(entries, key, id, 0);
    let after = spec_publish(entries, update);
    assert forall|i: int, j: int| 0 <= i < j < after.len() implies !spec_is_keyed(
        #[trigger] after[i],
        (#[trigger] after[j]).publisher_key,
        after[j].template.template_id,
    ) by {
        if at < entries.len() {
            if i == at {
                assert(!spec_is_keyed(entries[at], entries[j].publisher_key, entries[j].template.template_id));
            } else if j == at {
                assert(!spec_is_keyed(entries[i], entries[at].publisher_key, entries[at].template.template_id));
            } else {
                assert(!spec_is_keyed(entries[i], entries[j].publisher_key, entries[j].template.template_id));
            }
        } else {
            if j == entries.len() {
                assert(!spec_is_keyed(entries[i], key, id));
            } else {
                assert(!spec_is_keyed(entries[i], entries[j].publisher_key, entries[j].template.template_id));
            }
        }
    }
}

/// After an update was published it is what is stored under its key and
/// template id, and what is stored under any other key or id is as before.
pub proof fn lemma_publish_lookup(
    entries: Seq<UpdateView>,
    update: UpdateView,
    key: Seq<char>,
    template_id: u16,
)
    requires
        spec_distinct_keys(entries),
    ensures
        spec_is_keyed(update, key, template_id) ==> spec_lookup(
            spec_publish(entries, update),
            key,
            template_id,
        ) == Some(update),
        !spec_is_keyed(update, key, template_id) ==> spec_lookup(
            spec_publish(entries, update),
            key,
            template_id,
        ) == spec_lookup(entries, key, template_id),
{
    let ukey = update.publisher_key;
    let uid = update.template.template_id;
    let after = spec_publish(entries, update);
    lemma_position(entries, ukey, uid, 0);
    lemma_position(entries, key, template_id, 0);
    lemma_position(after, key, template_id, 0);
    let at = spec_position(entries, ukey, uid, 0);
    let before_at = spec_position(entries, key, template_id, 0);
    let after_at = spec_position(after, key, template_id, 0);
    if spec_is_keyed(update, key, template_id) {
        if at < entries.len() {
            lemma_position_bound(after, key, template_id, 0, at);
            if after_at < at {
                assert(after[after_at] == entries[after_at]);
                assert(!spec_is_keyed(entries[after_at], key, template_id));
            }
        } else {
            lemma_position_bound(after, key, template_id, 0, entries.len() as int);
            if after_at < entries.len() {
                assert(after[after_at] == entries[after_at]);
                assert(!spec_is_keyed(entries[after_at], key, template_id));
            }
        }
    } else {
        if before_at < entries.len() {
            assert(before_at != at);
            assert(after[before_at] == entries[before_at]);
            lemma_position_bound(after, key, template_id, 0, before_at);
            if after_at < before_at {
                if after_at != at {
                    assert(after[after_at] == entries[after_at]);
                }
                assert(!spec_is_keyed(entries[after_at], key, template_id));
            }
        } else {
            if after_at < after.len() {
                if after_at < entries.len() && after_at != at {
                    assert(after[after_at] == entries[after_at]);
                    assert(!spec_is_keyed(entries[after_at], key, template_id));
                }
            }
        }
    }
}

/// Publishing the same update a second time changes nothing.
pub proof fn lemma_publish_idempotent(entries: Seq<UpdateView>, update: UpdateView)
    ensures
        spec_publish(spec_publish(entries, update), update) == spec_publish(entries, update),
{
    let key = update.publisher_key;
    let id = update.template.template_id;
    let once = spec_publish(entries, update);
    lemma_position(entries, key, id, 0);
    lemma_position(once, key, id, 0);
    let at = spec_position(entries, key, id, 0);
    let again = spec_position(once, key, id, 0);
    let slot = if at < entries.len() {
        at
    } else {
        entries.len() as int
    };
    lemma_position_bound(once, key, id, 0, slot);
    if again < slot {
        assert(once[again] == entries[again]);
        assert(!spec_is_keyed(entries[again], key, id));
    }
    assert(again == slot);
    assert(spec_publish(once, update) =~= once);
}

/// After a withdrawal no entry of the key is left, and the entries of other
/// publishers are all still there.
pub proof fn lemma_withdraw(entries: Seq<UpdateView>, key: Seq<char>)
    ensures
        forall|i: int|
            0 <= i < spec_withdraw(entries, key).len() ==> (#[trigger] spec_withdraw(
                entries,
                key,
            )[i]).publisher_key != key && entries.contains(spec_withdraw(entries, key)[i]),
        forall|i: int|
            0 <= i < entries.len() && (#[trigger] entries[i]).publisher_key != key
                ==> spec_withdraw(entries, key).contains(entries[i]),
        spec_withdraw(entries, key).len() <= entries.len(),
    decreases entries.len(),
{
    if entries.len() > 0 {
        let front = entries.drop_last();
        lemma_withdraw(front, key);
        let kept = spec_withdraw(front, key);
        let after = spec_withdraw(entries, key);
        assert forall|i: int| 0 <= i < after.len() implies (#[trigger] after[i]).publisher_key
            != key && entries.contains(after[i]) by {
            if i < kept.len() {
                assert(after[i] == kept[i]);
                assert(front.contains(kept[i]));
                let w = choose|w: int| 0 <= w < front.len() && front[w] == kept[i];
                assert(entries[w] == kept[i]);
            } else {
                assert(after[i] == entries.last());
                assert(entries[entries.len() - 1] == after[i]);
            }
        }
        assert forall|i: int|
            0 <= i < entries.len() && (#[trigger] entries[i]).publisher_key != key implies after.contains(
            entries[i],
        ) by {
            if i < front.len() {
                assert(front[i] == entries[i]);
                assert(kept.contains(front[i]));
                let w = choose|w: int| 0 <= w < kept.len() && kept[w] == front[i];
                assert(after[w] == entries[i]);
            } else {
                assert(after[after.len() - 1] == entries[i]);
            }
        }
    }
}

/// The active template set.
pub struct TemplateStore {
    entries: Vec<IpfixTemplateUpdate>,
}

impl View for TemplateStore {
    type V = Seq<UpdateView>;

    closed spec fn view(&self) -> Seq<UpdateView> {
        spec_update_views(self.entries@)
    }
}

impl TemplateStore {
    /// Well-formedness: no two entries share a publisher key and a template
    /// id. Every store that `new` made and the methods below changed is
    /// well-formed.
    pub open spec fn wf(&self) -> bool {
        spec_distinct_keys(self@)
    }

    /// An empty store.
    pub fn new() -> (store: Self)
        ensures
            store@ == Seq::<UpdateView>::empty(),
            store.wf(),
    {
        let store = TemplateStore { entries: Vec::new() };
        assert(store@ =~= Seq::<UpdateView>::empty());
        store
    }

    /// Number of templates stored.
    pub fn len(&self) -> (n: usize)
        ensures
            n == self@.len(),
    {
        self.entries.len()
    }

    /// The entry at `at`, in the order in which the keys were first
    /// published.
    pub fn entry(&self, at: usize) -> (e: &IpfixTemplateUpdate)
        requires
            at < self@.len(),
        ensures
            e@ == self@[at as int],
    {
        &self.entries[at]
    }

    /// Where the entry under `(key, template_id)` stands.
    fn position(&self, key: &String, template_id: u16) -> (at: usize)
        ensures
            at == spec_position(self@, key@, template_id, 0),
            at <= self@.len(),
    {
        let mut i: usize = 0;
        proof {
            lemma_position(self@, key@, template_id, 0);
        }
        while i < self.entries.len()
            invariant
                i <= self.entries.len(),
                self@ == spec_update_views(self.entries@),
                spec_position(self@, key@, template_id, 0) == spec_position(
                    self@,
                    key@,
                    template_id,
                    i as int,
                ),
            decreases self.entries.len() - i,
        {
            let e = &self.entries[i];
            if e.template.template_id == template_id && e.publisher_key == *key {
                return i;
            }
            i += 1;
        }
        i
    }

    /// The entry stored under `(key, template_id)`, if there is one.
    pub fn lookup(&self, key: &String, template_id: u16) -> (r: Option<&IpfixTemplateUpdate>)
        ensures
            match r {
                Some(e) => spec_lookup(self@, key@, template_id) == Some(e@),
                None => spec_lookup(self@, key@, template_id) is None,
            },
    {
        let at = self.position(key, template_id);
        if at < self.entries.len() {
            Some(&self.entries[at])
        } else {
            None
        }
    }

    /// The template that decodes a Data Set with the id `template_id`: the
    /// earliest stored entry with that template id, whoever published it.
    pub fn template_for(&self, template_id: u16) -> (r: Option<&IpfixTemplateUpdate>)
        ensures
            match r {
                Some(e) => spec_template_for(self@, template_id) == Some(e@),
                None => spec_template_for(self@, template_id) is None,
            },
    {
        let mut i: usize = 0;
        while i < self.entries.len()
            invariant
                i <= self.entries.len(),
                self@ == spec_update_views(self.entries@),
                spec_position_of_id(self@, template_id, 0) == spec_position_of_id(
                    self@,
                    template_id,
                    i as int,
                ),
            decreases self.entries.len() - i,
        {
            if self.entries[i].template.template_id == template_id {
                return Some(&self.entries[i]);
            }
            i += 1;
        }
        None
    }

    /// Publishes a template: it replaces the entry with the same publisher
    /// key and template id, or is added behind the others.
    pub fn publish(&mut self, update: IpfixTemplateUpdate)
        requires
            old(self).wf(),
        ensures
            final(self)@ == spec_publish(old(self)@, update@),
            final(self).wf(),
    {
        let at = self.position(&update.publisher_key, update.template.template_id);
        proof {
            lemma_publish_keeps_distinct(self@, update@);
        }
        let ghost before = self@;
        if at < self.entries.len() {
            self.entries[at] = update;
            assert(self@ =~= before.update(at as int, update@));
        } else {
            self.entries.push(update);
            assert(self@ =~= before.push(update@));
        }
    }

    /// Withdraws a publisher: every template published under `key` leaves
    /// the store.
    pub fn withdraw(&mut self, key: &String)
        requires
            old(self).wf(),
        ensures
            final(self)@ == spec_withdraw(old(self)@, key@),
            final(self).wf(),
    {
        let mut kept: Vec<IpfixTemplateUpdate> = Vec::new();
        let ghost before = self@;
        let mut i: usize = 0;
        assert(before.subrange(0, 0) =~= Seq::<UpdateView>::empty());
        while i < self.entries.len()
            invariant
                i <= self.entries.len(),
                before == spec_update_views(self.entries@),
                self@ == before,
                spec_update_views(kept@) == spec_withdraw(before.subrange(0, i as int), key@),
            decreases self.entries.len() - i,
        {
            let ghost upto = before.subrange(0, i + 1);
            assert(upto.drop_last() =~= before.subrange(0, i as int));
            assert(upto.last() == before[i as int]);
            if self.entries[i].publisher_key != *key {
                let e = self.entries[i].clone();
                let ghost kept_before = spec_update_views(kept@);
                kept.push(e);
                assert(spec_update_views(kept@) =~= kept_before.push(e@));
            }
            i += 1;
        }
        assert(before.subrange(0, i as int) =~= before);
        proof {
            lemma_withdraw_keeps_distinct(before, key@);
        }
        self.entries = kept;
    }
}

/// The entries that a withdrawal keeps stand in the order they had.
pub proof fn lemma_withdraw_order(entries: Seq<UpdateView>, key: Seq<char>, i: int, j: int)
        -> (w: (int, int))
    requires
        0 <= i < j < spec_withdraw(entries, key).len(),
    ensures
        0 <= w.0 < w.1 < entries.len(),
        entries[w.0] == spec_withdraw(entries, key)[i],
        entries[w.1] == spec_withdraw(entries, key)[j],
    decreases entries.len(),
{
    let front = entries.drop_last();
    let kept = spec_withdraw(front, key);
    lemma_withdraw(front, key);
    if entries.last().publisher_key == key {
        let w = lemma_withdraw_order(front, key, i, j);
        w
    } else if j < kept.len() {
        let w = lemma_withdraw_order(front, key, i, j);
        w
    } else {
        assert(front.contains(kept[i]));
        let a = choose|a: int| 0 <= a < front.len() && front[a] == kept[i];
        (a, entries.len() - 1)
    }
}

/// Withdrawing keeps the keys distinct.
pub proof fn lemma_withdraw_keeps_distinct(entries: Seq<UpdateView>, key: Seq<char>)
    requires
        spec_distinct_keys(entries),
    ensures
        spec_distinct_keys(spec_withdraw(entries, key)),
{
    let after = spec_withdraw(entries, key);
    assert forall|i: int, j: int| 0 <= i < j < after.len() implies !spec_is_keyed(
        #[trigger] after[i],
        (#[trigger] after[j]).publisher_key,
        after[j].template.template_id,
    ) by {
        let w = lemma_withdraw_order(entries, key, i, j);
        assert(!spec_is_keyed(entries[w.0], entries[w.1].publisher_key, entries[w.1].template.template_id));
    }
}

} // verus!
