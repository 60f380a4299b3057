//! Time-bounded memoization keyed by path.
//!
//! A value is served only while its age is below a fixed time-to-live; an
//! expired entry is treated as a miss but is not proactively evicted.
//! Inserting unconditionally overwrites any prior entry for the same path
//! and timestamps it at insertion time.

use vstd::prelude::*;

verus! {

/// Age bound (in the caller's time units) below which a cached value is
/// still served.
pub const CACHE_TTL: u64 = 30;

/// Whether a value stamped at `stamp` is still fresh at time `now`. A stamp
/// that lies in the future is not trusted.
pub open spec fn spec_valid(stamp: u64, now: u64) -> bool {
    stamp <= now && now - stamp < CACHE_TTL
}

/// What a lookup of `k` at time `now` returns from cache contents `m`:
/// the stored value while fresh, a miss otherwise.
pub open spec fn spec_get<V>(m: Map<Seq<char>, (V, u64)>, k: Seq<char>, now: u64) -> Option<V> {
    if m.contains_key(k) && spec_valid(m[k].1, now) {
        Some(m[k].0)
    } else {
        None
    }
}

struct CacheEntry<V> {
    key: String,
    value: V,
    stamp: u64,
}

/// A lazily expiring cache from path strings to values of type `V`.
pub struct TtlCache<V> {
    entries: Vec<CacheEntry<V>>,
}

spec fn entry_has_key<V>(s: Seq<CacheEntry<V>>, k: Seq<char>) -> bool {
    exists|i: int| 0 <= i < s.len() && s[i].key@ == k
}

spec fn entry_index<V>(s: Seq<CacheEntry<V>>, k: Seq<char>) -> int {
    choose|i: int| 0 <= i < s.len() && s[i].key@ == k
}

spec fn entries_distinct<V>(s: Seq<CacheEntry<V>>) -> bool {
    forall|i: int, j: int| 0 <= i < j < s.len() ==> s[i].key@ != s[j].key@
}

spec fn view_of<V>(s: Seq<CacheEntry<V>>) -> Map<Seq<char>, (V, u64)> {
    Map::new(
        |k: Seq<char>| entry_has_key(s, k),
        |k: Seq<char>| (s[entry_index(s, k)].value, s[entry_index(s, k)].stamp),
    )
}

/// With no duplicate keys, the chosen index of a key is the one position
/// that holds it.
proof fn lemma_entry_index_unique<V>(s: Seq<CacheEntry<V>>, k: Seq<char>, w: int)
    requires
        entries_distinct(s),
        0 <= w < s.len(),
        s[w].key@ == k,
    ensures
        entry_has_key(s, k),
        entry_index(s, k) == w,
{
    assert(entry_has_key(s, k));
    let v = entry_index(s, k);
    assert(0 <= v < s.len() && s[v].key@ == k);
    if v < w {
        assert(s[v].key@ != s[w].key@);
    } else if w < v {
        assert(s[w].key@ != s[v].key@);
    }
}

/// Overwriting the entry that already holds a key inserts into the view.
proof fn lemma_update_entry<V>(s: Seq<CacheEntry<V>>, i: int, e: CacheEntry<V>)
    requires
        entries_distinct(s),
        0 <= i < s.len(),
        s[i].key@ == e.key@,
    ensures
        entries_distinct(s.update(i, e)),
        view_of(s.update(i, e)) =~= view_of(s).insert(e.key@, (e.value, e.stamp)),
{
    let s1 = s.update(i, e);
    assert forall|a: int, b: int| 0 <= a < b < s1.len() implies s1[a].key@ != s1[b].key@ by {
        if a != i && b != i {
            assert(s1[a].key@ == s[a].key@ && s1[b].key@ == s[b].key@);
        }
    }
    lemma_entry_index_unique(s1, e.key@, i);
    assert(view_of(s1)[e.key@] == (e.value, e.stamp));
    assert forall|k: Seq<char>| k != e.key@ implies (entry_has_key(s1, k) <==> entry_has_key(s, k))
        && (entry_has_key(s, k) ==> view_of(s1)[k] == view_of(s)[k]) by {
        if entry_has_key(s, k) {
            let w = entry_index(s, k);
            assert(0 <= w < s.len() && s[w].key@ == k);
            assert(w != i);
            assert(s1[w] == s[w]);
            lemma_entry_index_unique(s1, k, w);
            assert(view_of(s1)[k] == (s1[w].value, s1[w].stamp));
            assert(view_of(s)[k] == (s[w].value, s[w].stamp));
        }
        if entry_has_key(s1, k) {
            let w = entry_index(s1, k);
            assert(0 <= w < s1.len() && s1[w].key@ == k);
            assert(w != i);
            assert(s[w] == s1[w]);
            lemma_entry_index_unique(s, k, w);
        }
    }
}

/// Appending an entry whose key is absent inserts into the view.
proof fn lemma_push_entry<V>(s: Seq<CacheEntry<V>>, e: CacheEntry<V>)
    requires
        entries_distinct(s),
        !entry_has_key(s, e.key@),
    ensures
        entries_distinct(s.push(e)),
        view_of(s.push(e)) =~= view_of(s).insert(e.key@, (e.value, e.stamp)),
{
    let s1 = s.push(e);
    assert forall|a: int, b: int| 0 <= a < b < s1.len() implies s1[a].key@ != s1[b].key@ by {
        if b == s.len() {
            assert(s1[a].key@ == s[a].key@);
            if s1[a].key@ == e.key@ {
                assert(entry_has_key(s, e.key@));
            }
        }
    }
    lemma_entry_index_unique(s1, e.key@, s.len() as int);
    assert(view_of(s1)[e.key@] == (e.value, e.stamp));
    assert forall|k: Seq<char>| k != e.key@ implies (entry_has_key(s1, k) <==> entry_has_key(s, k))
        && (entry_has_key(s, k) ==> view_of(s1)[k] == view_of(s)[k]) by {
        if entry_has_key(s, k) {
            let w = entry_index(s, k);
            assert(0 <= w < s.len() && s[w].key@ == k);
            assert(s1[w] == s[w]);
            lemma_entry_index_unique(s1, k, w);
            assert(view_of(s1)[k] == (s1[w].value, s1[w].stamp));
            assert(view_of(s)[k] == (s[w].value, s[w].stamp));
        }
        if entry_has_key(s1, k) {
            let w = entry_index(s1, k);
            assert(0 <= w < s1.len() && s1[w].key@ == k);
            assert(w != s.len());
            assert(s[w] == s1[w]);
            lemma_entry_index_unique(s, k, w);
        }
    }
}

impl<V> View for TtlCache<V> {
    type V = Map<Seq<char>, (V, u64)>;

    closed spec fn view(&self) -> Map<Seq<char>, (V, u64)> {
        view_of(self.entries@)
    }
}

impl<V> TtlCache<V> {
    pub closed spec fn wf(&self) -> bool {
        entries_distinct(self.entries@)
    }

    /// An empty cache.
    pub fn new() -> (r: Self)
        ensures
            r.wf(),
            r@ =~= Map::<Seq<char>, (V, u64)>::empty(),
    {
        TtlCache { entries: Vec::new() }
    }

    /// Looks `key` up at time `now`: the stored value while its age is below
    /// the time-to-live, a miss otherwise.
    pub fn get<'a>(&'a self, key: &String, now: u64) -> (r: Option<&'a V>)
        requires
            self.wf(),
        ensures
            match r {
                Some(v) => spec_get(self@, key@, now) == Some(*v),
                None => spec_get(self@, key@, now) is None,
            },
    {
        let ghost s = self.entries@;
        let n = self.entries.len();
        for i in 0..n
            invariant
                n == self.entries.len(),
                s == self.entries@,
                entries_distinct(s),
                forall|j: int| 0 <= j < i ==> s[j].key@ != key@,
        {
            if self.entries[i].key == *key {
                proof {
                    lemma_entry_index_unique(s, key@, i as int);
                    assert(self@.contains_key(key@));
                }
                let e = &self.entries[i];
                if e.stamp <= now && now - e.stamp < CACHE_TTL {
                    return Some(&e.value);
                } else {
                    return None;
                }
            }
        }
        proof {
            assert(!entry_has_key(s, key@));
            assert(!self@.contains_key(key@));
        }
        None
    }

    /// Stores `value` for `key`, stamped at `now`, overwriting any prior
    /// entry for that key.
    pub fn put(&mut self, key: &String, value: V, now: u64)
        requires
            old(self).wf(),
        ensures
            final(self).wf(),
            final(self)@ =~= old(self)@.insert(key@, (value, now)),
    {
        let ghost s = self.entries@;
        let n = self.entries.len();
        for i in 0..n
            invariant
                n == self.entries.len(),
                s == self.entries@,
                s == old(self).entries@,
                entries_distinct(s),
                forall|j: int| 0 <= j < i ==> s[j].key@ != key@,
        {
            if self.entries[i].key == *key {
                self.entries[i] = CacheEntry { key: key.clone(), value, stamp: now };
                proof {
                    let s1 = self.entries@;
                    let e = s1[i as int];
                    assert(s1 =~= s.update(i as int, e));
                    assert(e.key@ == key@);
                    assert(e.value == value);
                    assert(e.stamp == now);
                    lemma_update_entry(s, i as int, e);
                    assert(old(self)@ == view_of(s));
                    assert(self@ == view_of(s1));
                    assert(view_of(s1) =~= view_of(s).insert(key@, (value, now)));
                }
                return ;
            }
        }
        self.entries.push(CacheEntry { key: key.clone(), value, stamp: now });
        proof {
            let s1 = self.entries@;
            assert(s1 =~= s.push(s1[s.len() as int]));
            assert(s1[s.len() as int].key@ == key@);
            lemma_push_entry(s, s1[s.len() as int]);
        }
    }
}

/// Law: a store followed by a lookup of the same path within the
/// time-to-live returns the stored value; once the time-to-live has elapsed
/// the lookup is a miss, with no eviction needed.
pub proof fn lemma_put_get<V>(m: Map<Seq<char>, (V, u64)>, k: Seq<char>, v: V, t: u64, now: u64)
    ensures
        t <= now && now - t < CACHE_TTL ==> spec_get(m.insert(k, (v, t)), k, now) == Some(v),
        now >= t + CACHE_TTL ==> spec_get(m.insert(k, (v, t)), k, now) is None,
{
}

} // verus!
