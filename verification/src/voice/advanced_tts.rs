//! Text-to-speech engine data: the least-recently-used model cache and the
//! engine's configuration types.

use vstd::prelude::*;

verus! {

/// A cache that keeps at most `capacity` entries (at least one once
/// something was put) and, when full, evicts the entry used least recently.
#[derive(Debug)]
pub struct LRUCache<K, V> {
    capacity: usize,
    /// Entries, most recently used first.
    entries: Vec<(K, V)>,
}

/// No key occurs twice in `s`.
pub open spec fn distinct_keys<K, V>(s: Seq<(K, V)>) -> bool {
    forall|i: int, j: int| 0 <= i < s.len() && 0 <= j < s.len() && i != j ==> s[i].0 != s[j].0
}

/// `k` is a key of `s`.
pub open spec fn has_key<K, V>(s: Seq<(K, V)>, k: K) -> bool {
    exists|i: int| 0 <= i < s.len() && s[i].0 == k
}

/// The position of key `k` in `s` (meaningful when `has_key(s, k)`).
pub open spec fn key_pos<K, V>(s: Seq<(K, V)>, k: K) -> int {
    choose|i: int| 0 <= i < s.len() && s[i].0 == k
}

/// The recency list after `put(k, v)` on a cache of capacity `cap`.
pub open spec fn lru_put<K, V>(s: Seq<(K, V)>, cap: nat, k: K, v: V) -> Seq<(K, V)> {
    let base = if has_key(s, k) {
        s.remove(key_pos(s, k))
    } else if s.len() >= cap && s.len() > 0 {
        s.drop_last()
    } else {
        s
    };
    seq![(k, v)] + base
}

/// The recency list after a successful `get(k)`: the entry moves to the
/// front.
pub open spec fn lru_touch<K, V>(s: Seq<(K, V)>, k: K) -> Seq<(K, V)> {
    seq![s[key_pos(s, k)]] + s.remove(key_pos(s, k))
}

/// The most entries a cache of capacity `cap` holds.
pub open spec fn lru_bound(cap: nat) -> nat {
    if cap == 0 { 1 } else { cap }
}

/// A key the cache can hold: two keys are the same key when their views
/// are equal.
pub trait CacheKey: View + Sized {
    fn same_key(&self, other: &Self) -> (r: bool)
        ensures
            r == (self@ == other@),
    ;
}

impl CacheKey for String {
    fn same_key(&self, other: &Self) -> (r: bool) {
        crate::text::str_equal(self.as_str(), other.as_str())
    }
}

impl<'a> CacheKey for &'a str {
    fn same_key(&self, other: &Self) -> (r: bool) {
        crate::text::str_equal(*self, *other)
    }
}

impl CacheKey for u32 {
    fn same_key(&self, other: &Self) -> (r: bool) {
        *self == *other
    }
}

impl CacheKey for u64 {
    fn same_key(&self, other: &Self) -> (r: bool) {
        *self == *other
    }
}

/// The entries of the cache with each key taken by its view.
pub open spec fn keyed_by_view<K: View, V>(s: Seq<(K, V)>) -> Seq<(K::V, V)> {
    s.map_values(|e: (K, V)| (e.0@, e.1))
}

impl<K: View, V> LRUCache<K, V> {
    /// The entries, most recently used first, each key by its view.
    pub closed spec fn recency(&self) -> Seq<(K::V, V)> {
        keyed_by_view(self.entries@)
    }

    /// The capacity the cache was made with.
    pub closed spec fn cap(&self) -> nat {
        self.capacity as nat
    }

    /// The cache's invariant: keys are distinct and the entry count is
    /// within bound.
    pub open spec fn wf(&self) -> bool {
        &&& distinct_keys(self.recency())
        &&& self.recency().len() <= lru_bound(self.cap())
    }
}

proof fn lemma_key_pos_unique<K, V>(s: Seq<(K, V)>, k: K, i: int)
    requires
        distinct_keys(s),
        0 <= i < s.len(),
        s[i].0 == k,
    ensures
        has_key(s, k),
        key_pos(s, k) == i,
{
    assert(0 <= i < s.len() && s[i].0 == k);
    let j = key_pos(s, k);
    assert(0 <= j < s.len() && s[j].0 == k);
}

proof fn lemma_remove_distinct<K, V>(s: Seq<(K, V)>, i: int)
    requires
        distinct_keys(s),
        0 <= i < s.len(),
    ensures
        distinct_keys(s.remove(i)),
        forall|j: int| 0 <= j < s.remove(i).len() ==> s.remove(i)[j].0 != s[i].0,
{
    let r = s.remove(i);
    assert forall|a: int, b: int| 0 <= a < r.len() && 0 <= b < r.len() && a != b implies r[a].0
        != r[b].0 by {
        let a2 = if a < i { a } else { a + 1 };
        let b2 = if b < i { b } else { b + 1 };
        assert(r[a] == s[a2]);
        assert(r[b] == s[b2]);
    }
    assert forall|j: int| 0 <= j < r.len() implies r[j].0 != s[i].0 by {
        let j2 = if j < i { j } else { j + 1 };
        assert(r[j] == s[j2]);
    }
}

proof fn lemma_drop_last_distinct<K, V>(s: Seq<(K, V)>)
    requires
        distinct_keys(s),
        s.len() > 0,
    ensures
        distinct_keys(s.drop_last()),
{
    let r = s.drop_last();
    assert forall|a: int, b: int| 0 <= a < r.len() && 0 <= b < r.len() && a != b implies r[a].0
        != r[b].0 by {
        assert(r[a] == s[a]);
        assert(r[b] == s[b]);
    }
}

proof fn lemma_cons_distinct<K, V>(e: (K, V), r: Seq<(K, V)>)
    requires
        distinct_keys(r),
        forall|j: int| 0 <= j < r.len() ==> r[j].0 != e.0,
    ensures
        distinct_keys(seq![e] + r),
{
    let t = seq![e] + r;
    assert forall|a: int, b: int| 0 <= a < t.len() && 0 <= b < t.len() && a != b implies t[a].0
        != t[b].0 by {
        if a == 0 {
            assert(t[b] == r[b - 1]);
        } else if b == 0 {
            assert(t[a] == r[a - 1]);
        } else {
            assert(t[a] == r[a - 1]);
            assert(t[b] == r[b - 1]);
        }
    }
}

impl<K: CacheKey + Clone + Eq + std::hash::Hash, V> LRUCache<K, V> {
    /// An empty cache that holds up to `capacity` entries.
    pub fn new(capacity: usize) -> (c: Self)
        ensures
            c.wf(),
            c.cap() == capacity,
            c.recency() == Seq::<(K::V, V)>::empty(),
    {
        let c = LRUCache { capacity, entries: Vec::new() };
        assert(c.recency() =~= Seq::<(K::V, V)>::empty());
        c
    }

    fn position_of(&self, key: &K) -> (r: Option<usize>)
        ensures
            match r {
                Some(i) => i < self.recency().len() && self.recency()[i as int].0 == key@,
                None => !has_key(self.recency(), key@),
            },
    {
        let mut i: usize = 0;
        while i < self.entries.len()
            invariant
                i <= self.entries@.len(),
                forall|j: int| 0 <= j < i ==> self.entries@[j].0@ != key@,
            decreases self.entries@.len() - i,
        {
            if self.entries[i].0.same_key(key) {
                return Some(i);
            }
            i = i + 1;
        }
        None
    }

    /// Looks `key` up; a hit makes its entry the most recently used.
    pub fn get(&mut self, key: &K) -> (r: Option<&V>)
        requires
            old(self).wf(),
        ensures
            final(self).wf(),
            final(self).cap() == old(self).cap(),
            has_key(old(self).recency(), key@) ==> {
                &&& final(self).recency() == lru_touch(old(self).recency(), key@)
                &&& r == Some(&old(self).recency()[key_pos(old(self).recency(), key@)].1)
            },
            !has_key(old(self).recency(), key@) ==> {
                &&& final(self).recency() == old(self).recency()
                &&& r is None
            },
    {
        match self.position_of(key) {
            Some(i) => {
                let ghost s = self.recency();
                proof {
                    lemma_key_pos_unique(s, key@, i as int);
                    lemma_remove_distinct(s, i as int);
                    lemma_cons_distinct(s[i as int], s.remove(i as int));
                }
                let entry = self.entries.remove(i);
                self.entries.insert(0, entry);
                assert(self.recency() =~= lru_touch(s, key@));
                Some(&self.entries[0].1)
            },
            None => None,
        }
    }

    /// Stores `value` under `key` as the most recently used entry; when the
    /// key is new and the cache is full, the least recently used entry is
    /// evicted first.
    pub fn put(&mut self, key: K, value: V)
        requires
            old(self).wf(),
        ensures
            final(self).wf(),
            final(self).cap() == old(self).cap(),
            final(self).recency() == lru_put(old(self).recency(), old(self).cap(), key@, value),
    {
        let ghost s = self.recency();
        let ghost kv = key@;
        match self.position_of(&key) {
            Some(i) => {
                proof {
                    lemma_key_pos_unique(s, kv, i as int);
                    lemma_remove_distinct(s, i as int);
                    lemma_cons_distinct((kv, value), s.remove(i as int));
                }
                self.entries.remove(i);
                assert(self.recency() =~= s.remove(i as int));
            },
            None => {
                if self.entries.len() >= self.capacity && self.entries.len() > 0 {
                    proof {
                        lemma_drop_last_distinct(s);
                    }
                    self.entries.pop();
                    assert(self.recency() =~= s.drop_last());
                }
                proof {
                    assert forall|j: int| 0 <= j < self.recency().len() implies self.recency()[j].0 != kv by {
                        assert(self.recency()[j] == s[j]);
                    }
                    lemma_cons_distinct((kv, value), self.recency());
                }
            },
        }
        self.entries.insert(0, (key, value));
        assert(self.recency() =~= lru_put(s, self.capacity as nat, kv, value));
    }
}

/// Reading a key right after writing it gives back the value written.
pub proof fn law_get_after_put<K, V>(s: Seq<(K, V)>, cap: nat, k: K, v: V)
    requires
        distinct_keys(s),
    ensures
        has_key(lru_put(s, cap, k, v), k),
        lru_put(s, cap, k, v)[key_pos(lru_put(s, cap, k, v), k)].1 == v,
{
    let t = lru_put(s, cap, k, v);
    if has_key(s, k) {
        let i = key_pos(s, k);
        lemma_remove_distinct(s, i);
        lemma_cons_distinct((k, v), s.remove(i));
    } else {
        let base = if s.len() >= cap && s.len() > 0 { s.drop_last() } else { s };
        if s.len() >= cap && s.len() > 0 {
            lemma_drop_last_distinct(s);
        }
        assert forall|j: int| 0 <= j < base.len() implies base[j].0 != k by {
            assert(base[j] == s[j]);
        }
        lemma_cons_distinct((k, v), base);
    }
    lemma_key_pos_unique(t, k, 0);
}

/// A write to a new key on a full cache evicts exactly the least recently
/// used entry and keeps every other one.
pub proof fn law_put_evicts_least_recent<K, V>(s: Seq<(K, V)>, cap: nat, k: K, v: V)
    requires
        distinct_keys(s),
        !has_key(s, k),
        s.len() >= cap,
        s.len() > 0,
    ensures
        !has_key(lru_put(s, cap, k, v), s.last().0),
        forall|j: int| 0 <= j < s.len() - 1 ==> has_key(lru_put(s, cap, k, v), #[trigger] s[j].0),
        lru_put(s, cap, k, v).len() == s.len(),
{
    let t = lru_put(s, cap, k, v);
    assert(t =~= seq![(k, v)] + s.drop_last());
    assert forall|i: int| 0 <= i < t.len() implies t[i].0 != s.last().0 by {
        if i == 0 {
            assert(t[0].0 == k);
            assert(s[s.len() - 1].0 == s.last().0);
        } else {
            assert(t[i] == s[i - 1]);
        }
    }
    assert forall|j: int| 0 <= j < s.len() - 1 implies has_key(t, #[trigger] s[j].0) by {
        assert(t[j + 1] == s[j]);
    }
}

/// A write to a key already cached evicts nothing: every key stays.
pub proof fn law_put_existing_keeps_keys<K, V>(s: Seq<(K, V)>, cap: nat, k: K, v: V, k2: K)
    requires
        distinct_keys(s),
        has_key(s, k),
        has_key(s, k2),
    ensures
        has_key(lru_put(s, cap, k, v), k2),
        lru_put(s, cap, k, v).len() == s.len(),
{
    let t = lru_put(s, cap, k, v);
    let i = key_pos(s, k);
    let j = key_pos(s, k2);
    if k2 == k {
        assert(t[0].0 == k);
    } else {
        assert(j != i);
        if j < i {
            assert(t[j + 1] == s.remove(i)[j]);
        } else {
            assert(t[j] == s.remove(i)[j - 1]);
        }
    }
}

/// A read that hits keeps the same entries, with the one read moved to
/// the front.
pub proof fn law_touch_keeps_entries<K, V>(s: Seq<(K, V)>, k: K)
    requires
        distinct_keys(s),
        has_key(s, k),
    ensures
        lru_touch(s, k).len() == s.len(),
        lru_touch(s, k)[0] == s[key_pos(s, k)],
        lru_touch(s, k).to_multiset() == s.to_multiset(),
{
    let i = key_pos(s, k);
    let t = lru_touch(s, k);
    vstd::seq_lib::lemma_seq_union_to_multiset_commutative(seq![s[i]], s.remove(i));
    assert(s.remove(i) + seq![s[i]] =~= s.subrange(0, i) + s.subrange(i + 1, s.len() as int) + seq![s[i]]);
    assert(s =~= s.subrange(0, i) + (seq![s[i]] + s.subrange(i + 1, s.len() as int)));
    vstd::seq_lib::lemma_multiset_commutative(s.subrange(0, i), seq![s[i]] + s.subrange(i + 1, s.len() as int));
    vstd::seq_lib::lemma_multiset_commutative(seq![s[i]], s.subrange(i + 1, s.len() as int));
    vstd::seq_lib::lemma_multiset_commutative(s.subrange(0, i), s.subrange(i + 1, s.len() as int));
    vstd::seq_lib::lemma_multiset_commutative(s.subrange(0, i) + s.subrange(i + 1, s.len() as int), seq![s[i]]);
    vstd::seq_lib::lemma_multiset_commutative(seq![s[i]], s.remove(i));
}

/// The cache's contents as a map from keys to values.
pub open spec fn lru_contents<K, V>(s: Seq<(K, V)>) -> Map<K, V> {
    Map::new(|k: K| has_key(s, k), |k: K| s[key_pos(s, k)].1)
}

/// The keys of the cache, most recently used first.
pub open spec fn lru_order<K, V>(s: Seq<(K, V)>) -> Seq<K> {
    s.map_values(|e: (K, V)| e.0)
}

/// Whether a key differs from `k`.
pub open spec fn key_other_than<K>(k: K) -> spec_fn(K) -> bool {
    |x: K| x != k
}

proof fn lemma_contents_cons<K, V>(e: (K, V), r: Seq<(K, V)>)
    requires
        distinct_keys(seq![e] + r),
    ensures
        lru_contents(seq![e] + r) == lru_contents(r).insert(e.0, e.1),
{
    let t = seq![e] + r;
    assert(t[0] == e);
    assert forall|j: int| 0 <= j < r.len() implies r[j].0 != e.0 by {
        assert(t[j + 1] == r[j]);
    }
    assert forall|x: K| #[trigger] has_key(t, x) <==> (x == e.0 || has_key(r, x)) by {
        if has_key(r, x) {
            let j = key_pos(r, x);
            assert(t[j + 1] == r[j]);
        }
        if has_key(t, x) && x != e.0 {
            let j = key_pos(t, x);
            assert(j != 0);
            assert(r[j - 1] == t[j]);
        }
    }
    assert forall|x: K| has_key(t, x) implies #[trigger] lru_contents(t)[x] == lru_contents(r).insert(e.0, e.1)[x] by {
        if x == e.0 {
            lemma_key_pos_unique(t, x, 0);
        } else {
            let j = key_pos(r, x);
            assert(t[j + 1] == r[j]);
            lemma_key_pos_unique(t, x, j + 1);
        }
    }
    assert(lru_contents(t) =~= lru_contents(r).insert(e.0, e.1));
}

proof fn lemma_contents_remove<K, V>(s: Seq<(K, V)>, i: int)
    requires
        distinct_keys(s),
        0 <= i < s.len(),
    ensures
        lru_contents(s.remove(i)) == lru_contents(s).remove(s[i].0),
{
    let r = s.remove(i);
    lemma_remove_distinct(s, i);
    assert forall|x: K| #[trigger] has_key(r, x) <==> (has_key(s, x) && x != s[i].0) by {
        if has_key(r, x) {
            let j = key_pos(r, x);
            let j2 = if j < i { j } else { j + 1 };
            assert(r[j] == s[j2]);
        }
        if has_key(s, x) && x != s[i].0 {
            let j = key_pos(s, x);
            assert(j != i);
            let j2 = if j < i { j } else { j - 1 };
            assert(r[j2] == s[j]);
        }
    }
    assert forall|x: K| has_key(r, x) implies #[trigger] lru_contents(r)[x] == lru_contents(s).remove(s[i].0)[x] by {
        let j = key_pos(r, x);
        let j2 = if j < i { j } else { j + 1 };
        assert(r[j] == s[j2]);
        lemma_key_pos_unique(s, x, j2);
    }
    assert(lru_contents(r) =~= lru_contents(s).remove(s[i].0));
}

proof fn lemma_order_holds_keys<K, V>(s: Seq<(K, V)>)
    ensures
        forall|x: K| #[trigger] lru_order(s).contains(x) <==> has_key(s, x),
{
    assert forall|x: K| #[trigger] lru_order(s).contains(x) <==> has_key(s, x) by {
        if has_key(s, x) {
            let j = key_pos(s, x);
            assert(lru_order(s)[j] == x);
        }
        if lru_order(s).contains(x) {
            let j = choose|j: int| 0 <= j < lru_order(s).len() && lru_order(s)[j] == x;
            assert(s[j].0 == x);
        }
    }
}

proof fn lemma_filter_without<K>(q: Seq<K>, k: K)
    requires
        forall|j: int| 0 <= j < q.len() ==> q[j] != k,
    ensures
        q.filter(key_other_than(k)) == q,
    decreases q.len(),
{
    if q.len() > 0 {
        lemma_filter_without(q.drop_last(), k);
        assert(q.drop_last().push(q.last()) =~= q);
        q.drop_last().lemma_filter_push(q.last(), key_other_than(k));
    } else {
        assert(q.filter(key_other_than(k)) =~= q);
    }
}

proof fn lemma_filter_drops_one<K>(q: Seq<K>, i: int, k: K)
    requires
        0 <= i < q.len(),
        q[i] == k,
        forall|j: int| 0 <= j < q.len() && j != i ==> q[j] != k,
    ensures
        q.filter(key_other_than(k)) == q.remove(i),
    decreases q.len(),
{
    let init = q.drop_last();
    assert(init.push(q.last()) =~= q);
    init.lemma_filter_push(q.last(), key_other_than(k));
    if i == q.len() - 1 {
        lemma_filter_without(init, k);
        assert(q.remove(i) =~= init);
    } else {
        lemma_filter_drops_one(init, i, k);
        assert(q.remove(i) =~= init.remove(i).push(q.last()));
    }
}

/// Writing to the cache (capacity at least one, within bounds, keys
/// distinct): the value is stored under the key, which becomes the most
/// recent; the order stays a duplicate-free list of exactly the cached
/// keys and the bound holds; the contents gain the entry and, only when
/// the key is new and the cache is full, lose the least recently used key.
pub proof fn law_put_contents<K, V>(s: Seq<(K, V)>, cap: nat, k: K, v: V)
    requires
        cap >= 1,
        distinct_keys(s),
        s.len() <= cap,
    ensures
        ({
            let t = lru_put(s, cap, k, v);
            &&& lru_contents(t).contains_key(k) && lru_contents(t)[k] == v
            &&& t.len() <= cap
            &&& distinct_keys(t)
            &&& forall|x: K| #[trigger] lru_order(t).contains(x) <==> lru_contents(t).contains_key(x)
            &&& lru_order(t)[0] == k
            &&& (has_key(s, k) || s.len() < cap) ==> lru_contents(t) == lru_contents(s).insert(k, v)
            &&& !(has_key(s, k) || s.len() < cap) ==> lru_contents(t) == lru_contents(s).remove(s.last().0).insert(k, v)
        }),
{
    let t = lru_put(s, cap, k, v);
    if has_key(s, k) {
        let i = key_pos(s, k);
        lemma_remove_distinct(s, i);
        lemma_cons_distinct((k, v), s.remove(i));
        lemma_contents_cons((k, v), s.remove(i));
        lemma_contents_remove(s, i);
        assert(lru_contents(s).remove(k).insert(k, v) =~= lru_contents(s).insert(k, v));
    } else if s.len() >= cap && s.len() > 0 {
        lemma_drop_last_distinct(s);
        assert forall|j: int| 0 <= j < s.drop_last().len() implies s.drop_last()[j].0 != k by {
            assert(s.drop_last()[j] == s[j]);
        }
        lemma_cons_distinct((k, v), s.drop_last());
        lemma_contents_cons((k, v), s.drop_last());
        lemma_contents_remove(s, s.len() - 1);
        assert(s.remove(s.len() - 1) =~= s.drop_last());
    } else {
        lemma_cons_distinct((k, v), s);
        lemma_contents_cons((k, v), s);
    }
    lemma_order_holds_keys(t);
    assert(t[0] == (k, v));
}

/// Reading a key that is cached gives its value, keeps the contents, and
/// makes it the most recent: the order becomes the key followed by the
/// other keys in their old order.
pub proof fn law_get_contents<K, V>(s: Seq<(K, V)>, k: K)
    requires
        distinct_keys(s),
        has_key(s, k),
    ensures
        s[key_pos(s, k)].1 == lru_contents(s)[k],
        lru_contents(lru_touch(s, k)) == lru_contents(s),
        lru_order(lru_touch(s, k)) == seq![k] + lru_order(s).filter(key_other_than(k)),
{
    let i = key_pos(s, k);
    lemma_remove_distinct(s, i);
    lemma_cons_distinct(s[i], s.remove(i));
    lemma_contents_cons(s[i], s.remove(i));
    lemma_contents_remove(s, i);
    assert(lru_contents(s).remove(k).insert(k, s[i].1) =~= lru_contents(s));
    let q = lru_order(s);
    assert forall|j: int| 0 <= j < q.len() && j != i implies q[j] != k by {
        if q[j] == k {
            lemma_key_pos_unique(s, k, j);
        }
    }
    lemma_filter_drops_one(q, i, k);
    assert(lru_order(lru_touch(s, k)) =~= seq![k] + q.remove(i));
}

/// How a Tortoise model trades speed for quality.
#[derive(Debug, Clone, Copy, PartialEq, Eq, Structural)]
pub enum TortoisePreset {
    UltraFast,
    Fast,
    Standard,
    HighQuality,
    UltraHighQuality,
}

/// How the engine trades speed for quality.
#[derive(Debug, Clone, Copy, PartialEq, Eq, Structural)]
pub enum QualityMode {
    RealTime,
    Balanced,
    HighQuality,
    UltraHQ,
}

/// What a loaded model reports of itself: memory in bytes, the longest text
/// it takes in characters.
#[derive(Debug, Clone)]
pub struct ModelInfo {
    pub name: String,
    pub version: String,
    pub supported_languages: Vec<String>,
    pub supported_voices: Vec<String>,
    pub memory_requirements: usize,
    pub gpu_requirements: Option<String>,
    pub max_text_length: usize,
}

} // verus!
