//! The cache: a bounded store of items by key, and the rule by which a
//! cached object takes the fields of a fresher copy.

use vstd::prelude::*;
use crate::assoc::{assoc_map, keys_unique, lemma_assoc_contains, lemma_assoc_len, lemma_assoc_remove, lemma_assoc_update, lemma_assoc_value};
use crate::models::ids::{ChannelId, GuildId, Snowflake, UserId};
use crate::models::message::Message;

verus! {

/// A cached object that can take the fields of a fresher copy of itself.
pub trait UpdateCache {
    fn update(&mut self, from: &Self);
}

/// A key of the cache: compared by its view.
pub trait CacheKey: View + Sized {
    fn same_key(&self, other: &Self) -> (r: bool)
        ensures
            r == (self@ == other@),
    ;
}

impl CacheKey for Snowflake {
    fn same_key(&self, other: &Self) -> (r: bool) {
        self.0 == other.0
    }
}

impl CacheKey for GuildId {
    fn same_key(&self, other: &Self) -> (r: bool) {
        self.0.0 == other.0.0
    }
}

impl CacheKey for UserId {
    fn same_key(&self, other: &Self) -> (r: bool) {
        self.0.0 == other.0.0
    }
}

impl CacheKey for ChannelId {
    fn same_key(&self, other: &Self) -> (r: bool) {
        self.0.0 == other.0.0
    }
}

impl CacheKey for u64 {
    fn same_key(&self, other: &Self) -> (r: bool) {
        *self == *other
    }
}

/// The time on the clock, in whole seconds since the UNIX epoch; 0 before
/// the epoch.
fn clock_secs() -> (r: u64) {
    let t = crate::time::now_secs();
    if t < 0 {
        0
    } else {
        t as u64
    }
}

/// An item of the cache, with the age stamp taken when it was stored.
#[derive(Debug)]
pub struct CacheItem<T> {
    /// The time the item was added to the cache, in seconds.
    pub accessed: u64,
    /// The item.
    pub item: T,
}

impl<T> CacheItem<T> {
    /// Wraps an item added at the time `at`, in seconds.
    pub fn new_at(item: T, at: u64) -> (r: CacheItem<T>)
        ensures
            r.item == item,
            r.accessed == at,
    {
        CacheItem { accessed: at, item }
    }

    /// Wraps an item added now: its stamp is the time on the clock, in
    /// seconds since the UNIX epoch, whatever the clock says.
    pub fn new(item: T) -> (r: CacheItem<T>)
        ensures
            r.item == item,
    {
        CacheItem::new_at(item, clock_secs())
    }

    pub fn get(&self) -> (r: &T)
        ensures
            *r == self.item,
    {
        &self.item
    }

    pub fn get_mut(&mut self) -> (r: &mut T)
        ensures
            *r == old(self).item,
            final(self).accessed == old(self).accessed,
            final(self).item == *final(r),
    {
        &mut self.item
    }
}

/// A cache of items by key, meant to hold at most `max_size` of them.
#[derive(Debug)]
pub struct CacheDock<I, T> {
    items: Vec<(I, CacheItem<T>)>,
    max_size: usize,
}

impl<I: View, T> View for CacheDock<I, T> {
    type V = Map<I::V, CacheItem<T>>;

    closed spec fn view(&self) -> Map<I::V, CacheItem<T>> {
        assoc_map(self.items@)
    }
}

impl<I: CacheKey, T> CacheDock<I, T> {
    /// The store is well formed: no key appears twice.
    pub closed spec fn wf(&self) -> bool {
        keys_unique(self.items@)
    }

    /// The bound given at creation.
    pub closed spec fn limit(&self) -> usize {
        self.max_size
    }

    /// An empty store with the given bound.
    pub fn new(max_size: usize) -> (r: CacheDock<I, T>)
        ensures
            r.wf(),
            r@ == Map::<I::V, CacheItem<T>>::empty(),
            r.limit() == max_size,
    {
        CacheDock { items: Vec::new(), max_size }
    }

    /// The number of items stored.
    pub fn len(&self) -> (n: usize)
        requires
            self.wf(),
        ensures
            n == self@.len(),
    {
        proof {
            lemma_assoc_len(self.items@);
        }
        self.items.len()
    }

    fn find(&self, id: &I) -> (r: Option<usize>)
        ensures
            r matches Some(i) ==> i < self.items@.len() && self.items@[i as int].0@ == id@,
            r is None ==> forall|j: int| 0 <= j < self.items@.len() ==> #[trigger] self.items@[j].0@ != id@,
    {
        let mut i: usize = 0;
        while i < self.items.len()
            invariant
                i <= self.items@.len(),
                forall|j: int| 0 <= j < i ==> #[trigger] self.items@[j].0@ != id@,
            decreases self.items.len() - i,
        {
            if self.items[i].0.same_key(id) {
                return Some(i);
            }
            i += 1;
        }
        None
    }

    /// Stores `item` under `id`, stamped with the clock, in place of any
    /// item that `id` held.
    pub fn insert(&mut self, id: I, item: T)
        requires
            old(self).wf(),
        ensures
            final(self).wf(),
            final(self).limit() == old(self).limit(),
            final(self)@.dom() == old(self)@.dom().insert(id@),
            final(self)@[id@].item == item,
            forall|k: I::V| k != id@ && old(self)@.contains_key(k) ==> final(self)@[k] == old(self)@[k],
    {
        let at = clock_secs();
        self.insert_at(id, item, at);
    }

    /// Stores `item` under `id`, added at the time `at` (seconds), in place
    /// of any item that `id` held.
    pub fn insert_at(&mut self, id: I, item: T, at: u64)
        requires
            old(self).wf(),
        ensures
            final(self).wf(),
            final(self).limit() == old(self).limit(),
            final(self)@ == old(self)@.insert(id@, CacheItem { accessed: at, item }),
    {
        let ghost key = id@;
        let cached = CacheItem::new_at(item, at);
        match self.find(&id) {
            Some(i) => {
                proof {
                    lemma_assoc_update(self.items@, i as int, (id, cached));
                }
                self.items.set(i, (id, cached));
            },
            None => {
                proof {
                    lemma_assoc_contains(self.items@, key);
                }
                self.items.push((id, cached));
                proof {
                    assert(self.items@.drop_last() =~= old(self).items@);
                }
            },
        }
    }

    /// The item stored under `id`, if any.
    pub fn get(&self, id: &I) -> (r: Option<&T>)
        requires
            self.wf(),
        ensures
            r is Some == self@.contains_key(id@),
            r matches Some(x) ==> *x == self@[id@].item,
    {
        proof {
            lemma_assoc_contains(self.items@, id@);
        }
        match self.find(id) {
            Some(i) => {
                proof {
                    lemma_assoc_value(self.items@, i as int);
                }
                Some(self.items[i].1.get())
            },
            None => None,
        }
    }

    /// The item stored under `id`, to be changed in place; its stamp stays.
    pub fn get_mut(&mut self, id: &I) -> (r: Option<&mut T>)
        requires
            old(self).wf(),
        ensures
            final(self).wf(),
            final(self).limit() == old(self).limit(),
            r is Some == old(self)@.contains_key(id@),
            r is None ==> final(self)@ == old(self)@,
            r matches Some(x) ==> *x == old(self)@[id@].item && final(self)@ == old(self)@.insert(
                id@,
                CacheItem { accessed: old(self)@[id@].accessed, item: *final(x) },
            ),
    {
        proof {
            lemma_assoc_contains(self.items@, id@);
        }
        match self.find(id) {
            Some(i) => {
                let ghost s0 = self.items@;
                proof {
                    lemma_assoc_value(s0, i as int);
                    assert forall|v: T| #![auto]
                        keys_unique(s0.update(i as int, (s0[i as int].0, CacheItem { accessed: s0[i as int].1.accessed, item: v })))
                        && assoc_map(s0.update(i as int, (s0[i as int].0, CacheItem { accessed: s0[i as int].1.accessed, item: v })))
                            == assoc_map(s0).insert(id@, CacheItem { accessed: s0[i as int].1.accessed, item: v }) by {
                        lemma_assoc_update(s0, i as int, (s0[i as int].0, CacheItem { accessed: s0[i as int].1.accessed, item: v }));
                    }
                }
                let entry = &mut self.items[i];
                Some(entry.1.get_mut())
            },
            None => None,
        }
    }

    /// Takes the item stored under `id` out of the store.
    pub fn remove(&mut self, id: &I) -> (r: Option<T>)
        requires
            old(self).wf(),
        ensures
            final(self).wf(),
            final(self).limit() == old(self).limit(),
            r is Some == old(self)@.contains_key(id@),
            r matches Some(x) ==> x == old(self)@[id@].item,
            final(self)@ == old(self)@.remove(id@),
    {
        proof {
            lemma_assoc_contains(self.items@, id@);
        }
        match self.find(id) {
            Some(i) => {
                proof {
                    lemma_assoc_value(self.items@, i as int);
                    lemma_assoc_remove(self.items@, i as int);
                }
                let (_, cached) = self.items.remove(i);
                Some(cached.item)
            },
            None => {
                proof {
                    assert(assoc_map(self.items@) =~= assoc_map(self.items@).remove(id@));
                }
                None
            },
        }
    }

    /// Keeps the store within its bound: while it holds more items than its
    /// bound, the least recently accessed item leaves, the first one in the
    /// store when several share a stamp.
    pub fn manage_size(&mut self)
        requires
            old(self).wf(),
        ensures
            final(self).wf(),
            final(self).limit() == old(self).limit(),
            old(self)@.len() <= old(self).limit() ==> final(self)@ == old(self)@,
            old(self)@.len() > old(self).limit() ==> final(self)@.len() == old(self).limit(),
            forall|k: I::V| #[trigger] final(self)@.contains_key(k) ==> old(self)@.contains_key(k)
                && final(self)@[k] == old(self)@[k],
            forall|e: I::V, k: I::V|
                old(self)@.contains_key(e) && !final(self)@.contains_key(e) && #[trigger] final(self)@.contains_key(k)
                    ==> #[trigger] old(self)@[e].accessed <= final(self)@[k].accessed,
    {
        proof {
            lemma_assoc_len(self.items@);
        }
        if self.items.len() <= self.max_size {
            return;
        }
        let ghost orig = self@;
        while self.items.len() > self.max_size
            invariant
                keys_unique(self.items@),
                self.max_size == old(self).max_size,
                orig == old(self)@,
                self.items.len() >= self.max_size,
                forall|k: I::V| #[trigger] self@.contains_key(k) ==> orig.contains_key(k) && self@[k] == orig[k],
                forall|e: I::V, k: I::V|
                    orig.contains_key(e) && !self@.contains_key(e) && #[trigger] self@.contains_key(k)
                        ==> #[trigger] orig[e].accessed <= self@[k].accessed,
            decreases self.items.len(),
        {
            let n = self.items.len();
            let mut m: usize = 0;
            let mut j: usize = 1;
            while j < n
                invariant
                    n == self.items@.len(),
                    m < n,
                    1 <= j <= n,
                    forall|t: int| 0 <= t < j ==> self.items@[m as int].1.accessed <= #[trigger] self.items@[t].1.accessed,
                decreases n - j,
            {
                if self.items[j].1.accessed < self.items[m].1.accessed {
                    m = j;
                }
                j += 1;
            }
            let ghost before = self.items@;
            let ghost bm = self@;
            let ghost gone = before[m as int];
            assert(bm == assoc_map(before));
            assert(forall|k: I::V| #[trigger] bm.contains_key(k) ==> orig.contains_key(k) && bm[k] == orig[k]);
            assert(forall|e: I::V, k: I::V|
                orig.contains_key(e) && !bm.contains_key(e) && #[trigger] bm.contains_key(k)
                    ==> #[trigger] orig[e].accessed <= bm[k].accessed);
            proof {
                lemma_assoc_value(before, m as int);
                lemma_assoc_remove(before, m as int);
                assert forall|k: I::V| #[trigger] assoc_map(before).contains_key(k) implies
                    gone.1.accessed <= assoc_map(before)[k].accessed by {
                    lemma_assoc_contains(before, k);
                    let t = choose|t: int| 0 <= t < before.len() && #[trigger] before[t].0@ == k;
                    lemma_assoc_value(before, t);
                }
            }
            self.items.remove(m);
            proof {
                assert(self.items@ == before.remove(m as int));
                let now = assoc_map(self.items@);
                assert(now == bm.remove(gone.0@));
                assert forall|k: I::V| #[trigger] now.contains_key(k) implies orig.contains_key(k) && now[k] == orig[k] by {
                    assert(bm.contains_key(k));
                }
                assert forall|e: I::V, k: I::V|
                    orig.contains_key(e) && !now.contains_key(e) && #[trigger] now.contains_key(k)
                        implies #[trigger] orig[e].accessed <= now[k].accessed by {
                    assert(bm.contains_key(k));
                    assert(now[k] == bm[k]);
                    if bm.contains_key(e) {
                        assert(e == gone.0@);
                        assert(orig[e] == bm[e]);
                        assert(gone.1.accessed <= bm[k].accessed);
                    }
                }
                assert(self@ == now);
            }
        }
        proof {
            lemma_assoc_len(self.items@);
        }
    }
}

/// What a store reads after a history of stores and removals: an item
/// stored under a key reads back with its stamp; removing the key again
/// leaves the store as removing it alone would; and other keys read as
/// before either step.
pub proof fn law_cache_history<K, T>(m: Map<K, CacheItem<T>>, k: K, item: T, at: u64, other: K)
    requires
        other != k,
    ensures
        m.insert(k, CacheItem { accessed: at, item }).contains_key(k),
        m.insert(k, CacheItem { accessed: at, item })[k] == (CacheItem { accessed: at, item }),
        m.insert(k, CacheItem { accessed: at, item }).remove(k) == m.remove(k),
        !m.remove(k).contains_key(k),
        m.insert(k, CacheItem { accessed: at, item }).contains_key(other) == m.contains_key(other),
        m.contains_key(other) ==> m.insert(k, CacheItem { accessed: at, item })[other] == m[other]
            && m.remove(k)[other] == m[other],
{
    assert(m.insert(k, CacheItem { accessed: at, item }).remove(k) =~= m.remove(k));
}

/// Whether two stores of messages hold the same messages under the same
/// ids, with the same age stamps.
pub open spec fn same_cached_messages(
    a: Map<Seq<char>, CacheItem<Message>>,
    b: Map<Seq<char>, CacheItem<Message>>,
) -> bool {
    &&& a.dom() == b.dom()
    &&& forall|k: Seq<char>| #[trigger] a.contains_key(k) ==> a[k].accessed == b[k].accessed && a[k].item@ == b[k].item@
}

proof fn lemma_messages_pointwise(s: Seq<(Snowflake, CacheItem<Message>)>, t: Seq<(Snowflake, CacheItem<Message>)>)
    requires
        s.len() == t.len(),
        forall|i: int| 0 <= i < s.len() ==> (#[trigger] s[i]).0@ == t[i].0@ && s[i].1.accessed == t[i].1.accessed && s[i].1.item@ == t[i].1.item@,
    ensures
        same_cached_messages(assoc_map(s), assoc_map(t)),
        keys_unique(s) ==> keys_unique(t),
    decreases s.len(),
{
    if s.len() > 0 {
        let s1 = s.drop_last();
        let t1 = t.drop_last();
        assert forall|i: int| 0 <= i < s1.len() implies (#[trigger] s1[i]).0@ == t1[i].0@ && s1[i].1.accessed == t1[i].1.accessed && s1[i].1.item@ == t1[i].1.item@ by {
            assert(s1[i] == s[i]);
            assert(t1[i] == t[i]);
        }
        lemma_messages_pointwise(s1, t1);
        assert(assoc_map(s).dom() =~= assoc_map(t).dom());
    }
    if keys_unique(s) {
        assert forall|i: int, j: int| 0 <= i < j < t.len() implies t[i].0@ != t[j].0@ by {
            assert(s[i].0@ != s[j].0@);
        }
    }
}

impl CacheDock<Snowflake, Message> {
    /// A copy of a store of messages.
    pub fn duplicate(&self) -> (r: CacheDock<Snowflake, Message>)
        requires
            self.wf(),
        ensures
            r.wf(),
            r.limit() == self.limit(),
            same_cached_messages(r@, self@),
    {
        let mut items: Vec<(Snowflake, CacheItem<Message>)> = Vec::new();
        let mut i: usize = 0;
        while i < self.items.len()
            invariant
                i <= self.items.len(),
                items@.len() == i,
                forall|j: int| 0 <= j < i ==> (#[trigger] items@[j]).0@ == self.items@[j].0@
                    && items@[j].1.accessed == self.items@[j].1.accessed && items@[j].1.item@ == self.items@[j].1.item@,
            decreases self.items.len() - i,
        {
            let key = self.items[i].0.clone();
            let item = CacheItem { accessed: self.items[i].1.accessed, item: self.items[i].1.item.duplicate() };
            items.push((key, item));
            i = i + 1;
        }
        proof {
            lemma_messages_pointwise(self.items@, items@);
            lemma_messages_pointwise(items@, self.items@);
        }
        CacheDock { items, max_size: self.max_size }
    }
}

/// Whether a store of messages is another with a message stored under `id`:
/// the id is added, its message has the values `m`, and every other
/// message stays.
pub open spec fn message_stored(
    before: Map<Seq<char>, CacheItem<Message>>,
    after: Map<Seq<char>, CacheItem<Message>>,
    id: Seq<char>,
    m: crate::models::message::MessageView,
) -> bool {
    &&& after.dom() == before.dom().insert(id)
    &&& after[id].item@ == m
    &&& forall|k: Seq<char>| k != id && #[trigger] before.contains_key(k) ==> after[k] == before[k]
}

/// Stores a message under its id: a message already there takes the
/// fields of the fresher copy, another is added.
pub fn upsert_message(dock: &mut CacheDock<Snowflake, Message>, message: Message)
    requires
        old(dock).wf(),
    ensures
        final(dock).wf(),
        final(dock).limit() == old(dock).limit(),
        message_stored(old(dock)@, final(dock)@, message.id@, message@),
{
    let id = message.id.clone();
    let ghost mv = message@;
    let ghost before = dock@;
    match dock.remove(&id) {
        Some(mut m) => {
            m.update(&message);
            dock.insert(id, m);
        },
        None => {
            dock.insert(id, message);
        },
    }
    assert(dock@.dom() =~= before.dom().insert(id@));
}

} // verus!
