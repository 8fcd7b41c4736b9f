//! A bounded key-value cache with per-entry expiry, shared by every backend
//! to avoid repeated expensive metadata lookups.
//!
//! Entries are kept in insertion order with unique string keys. An entry is
//! valid iff `now - timestamp < ttl`; invalid entries are treated as absent
//! and evicted lazily, either on lookup or by the full-table sweep that runs
//! when an insertion pushes the table past `max_size`. There is no LRU
//! eviction: unexpired entries beyond `max_size` are retained until they age
//! out. The cache never reads a clock; every operation takes `now` in ms.

use vstd::prelude::*;

verus! {

/// Cache tuning: time-to-live in ms and the sweep threshold.
pub struct CacheConfig {
    pub ttl: u64,
    pub max_size: usize,
}

impl Clone for CacheConfig {
    fn clone(&self) -> (r: Self)
        ensures
            r == *self,
    {
        CacheConfig { ttl: self.ttl, max_size: self.max_size }
    }
}

/// One stored entry: a key, its value, and the insertion timestamp in ms.
pub struct CacheEntry<V> {
    pub key: String,
    pub value: V,
    pub timestamp: u64,
}

/// An entry inserted at `timestamp` is still valid at `now`.
pub open spec fn entry_fresh<V>(e: CacheEntry<V>, now: u64, ttl: u64) -> bool {
    now - e.timestamp < ttl
}

/// The bounded TTL cache.
pub struct SimpleCache<V> {
    entries: Vec<CacheEntry<V>>,
    config: CacheConfig,
}

impl<V> SimpleCache<V> {
    /// The stored entries, oldest first.
    pub closed spec fn entries(self) -> Seq<CacheEntry<V>> {
        self.entries@
    }

    pub closed spec fn spec_config(self) -> CacheConfig {
        self.config
    }

    /// Well-formed: keys are unique.
    pub open spec fn wf(self) -> bool {
        forall|i: int, j: int|
            0 <= i < j < self.entries().len() ==> self.entries()[i].key@ != self.entries()[j].key@
    }

    /// Some entry carries key `k`.
    pub open spec fn has_key(self, k: Seq<char>) -> bool {
        exists|i: int| 0 <= i < self.entries().len() && self.entries()[i].key@ == k
    }

    /// The index of the entry carrying key `k` (meaningful when `has_key`).
    pub open spec fn key_index(self, k: Seq<char>) -> int {
        choose|i: int| 0 <= i < self.entries().len() && self.entries()[i].key@ == k
    }

    /// All stored timestamps are at most `now`: the caller's clock has not
    /// run backwards past an insertion.
    pub open spec fn stamps_at_most(self, now: u64) -> bool {
        forall|i: int| 0 <= i < self.entries().len() ==> self.entries()[i].timestamp <= now
    }

    /// The entries that survive a full expiry sweep at `now`.
    pub open spec fn swept(self, now: u64) -> Seq<CacheEntry<V>> {
        self.entries().filter(|e: CacheEntry<V>| entry_fresh(e, now, self.spec_config().ttl))
    }

    /// The entry list after `set`'s insert-or-overwrite step at `now`.
    pub open spec fn inserted_entries(self, key: String, value: V, now: u64) -> Seq<
        CacheEntry<V>,
    > {
        if self.has_key(key@) {
            self.entries().update(self.key_index(key@), CacheEntry { key, value, timestamp: now })
        } else {
            self.entries().push(CacheEntry { key, value, timestamp: now })
        }
    }

    /// The entry list `set` leaves behind: the insert, swept when it pushed
    /// the table past `max_size`.
    pub open spec fn spec_set_entries(self, key: String, value: V, now: u64) -> Seq<
        CacheEntry<V>,
    > {
        let ins = self.inserted_entries(key, value, now);
        if ins.len() > self.spec_config().max_size {
            ins.filter(|e: CacheEntry<V>| entry_fresh(e, now, self.spec_config().ttl))
        } else {
            ins
        }
    }

    /// An empty cache with the given configuration.
    pub fn new(config: CacheConfig) -> (c: Self)
        ensures
            c.entries() =~= Seq::<CacheEntry<V>>::empty(),
            c.spec_config() == config,
            c.wf(),
    {
        SimpleCache { entries: Vec::new(), config }
    }

    /// How many entries are stored, expired ones included.
    pub fn len(&self) -> (n: usize)
        ensures
            n == self.entries().len(),
    {
        self.entries.len()
    }

    fn find_index(&self, key: &String) -> (r: Option<usize>)
        requires
            self.wf(),
        ensures
            match r {
                Some(i) => i < self.entries().len() && self.entries()[i as int].key@ == key@,
                None => !self.has_key(key@),
            },
    {
        let n = self.entries.len();
        let mut i: usize = 0;
        while i < n
            invariant
                n == self.entries().len(),
                i <= n,
                forall|j: int| 0 <= j < i ==> self.entries()[j].key@ != key@,
            decreases n - i,
        {
            if self.entries[i].key == *key {
                return Some(i);
            }
            i += 1;
        }
        None
    }

    /// Look up `key` at time `now`. A valid entry is returned and left in
    /// place; an expired entry is removed and treated as absent; an absent
    /// key returns nothing and changes nothing.
    pub fn get(&mut self, key: &String, now: u64) -> (r: Option<&V>)
        requires
            old(self).wf(),
            old(self).stamps_at_most(now),
        ensures
            final(self).wf(),
            final(self).spec_config() == old(self).spec_config(),
            final(self).stamps_at_most(now),
            !old(self).has_key(key@) ==> r is None && *final(self) == *old(self),
            old(self).has_key(key@) && entry_fresh(
                old(self).entries()[old(self).key_index(key@)],
                now,
                old(self).spec_config().ttl,
            ) ==> {
                &&& *final(self) == *old(self)
                &&& r matches Some(v) && *v == old(self).entries()[old(self).key_index(key@)].value
            },
            old(self).has_key(key@) && !entry_fresh(
                old(self).entries()[old(self).key_index(key@)],
                now,
                old(self).spec_config().ttl,
            ) ==> {
                &&& r is None
                &&& final(self).entries() =~= old(self).entries().remove(
                    old(self).key_index(key@),
                )
            },
    {
        match self.find_index(key) {
            None => None,
            Some(i) => {
                proof {
                    let k = key@;
                    assert(self.has_key(k));
                    let ci = self.key_index(k);
                    assert(0 <= ci < self.entries().len() && self.entries()[ci].key@ == k);
                    assert(ci == i as int);
                }
                if now - self.entries[i].timestamp < self.config.ttl {
                    Some(&self.entries[i].value)
                } else {
                    self.entries.remove(i);
                    None
                }
            },
        }
    }

    /// Insert or overwrite `key` with `value`, stamped `now`. If the table
    /// then holds more than `max_size` entries, a full expiry sweep runs;
    /// within `max_size`, even expired entries are left for lazy removal.
    pub fn set(&mut self, key: String, value: V, now: u64)
        requires
            old(self).wf(),
            old(self).stamps_at_most(now),
        ensures
            final(self).wf(),
            final(self).spec_config() == old(self).spec_config(),
            final(self).stamps_at_most(now),
            final(self).entries() =~= old(self).spec_set_entries(key, value, now),
    {
        let entry = CacheEntry { key, value, timestamp: now };
        match self.find_index(&entry.key) {
            Some(i) => {
                proof {
                    let k = entry.key@;
                    let ci = self.key_index(k);
                    assert(0 <= ci < self.entries().len() && self.entries()[ci].key@ == k);
                    assert(ci == i as int);
                }
                self.entries.set(i, entry);
            },
            None => {
                self.entries.push(entry);
            },
        }
        if self.entries.len() > self.config.max_size {
            self.cleanup(now);
        }
    }

    /// Remove every expired entry, keeping valid ones in order.
    pub fn cleanup(&mut self, now: u64)
        requires
            old(self).wf(),
            old(self).stamps_at_most(now),
        ensures
            final(self).wf(),
            final(self).spec_config() == old(self).spec_config(),
            final(self).stamps_at_most(now),
            final(self).entries() =~= old(self).swept(now),
    {
        let ttl = self.config.ttl;
        let ghost pred = |e: CacheEntry<V>| entry_fresh(e, now, ttl);
        let mut pending: Vec<CacheEntry<V>> = Vec::new();
        core::mem::swap(&mut self.entries, &mut pending);
        let ghost orig = pending@;
        let mut kept: Vec<CacheEntry<V>> = Vec::new();
        let ghost mut done: int = 0;
        proof {
            assert(orig =~= old(self).entries());
            assert(orig.subrange(0, 0) =~= Seq::<CacheEntry<V>>::empty());
            reveal(Seq::filter);
        }
        while pending.len() > 0
            invariant
                self.config.ttl == ttl,
                0 <= done <= orig.len(),
                pending@ =~= orig.subrange(done, orig.len() as int),
                kept@ =~= orig.subrange(0, done).filter(pred),
                pred == (|e: CacheEntry<V>| entry_fresh(e, now, ttl)),
                forall|j: int| 0 <= j < orig.len() ==> orig[j].timestamp <= now,
                forall|a: int, b: int|
                    0 <= a < b < orig.len() ==> orig[a].key@ != orig[b].key@,
                forall|j: int|
                    0 <= j < kept@.len() ==> exists|m: int|
                        0 <= m < done && #[trigger] kept@[j] == orig[m],
                forall|a: int, b: int|
                    0 <= a < b < kept@.len() ==> kept@[a].key@ != kept@[b].key@,
            decreases pending.len(),
        {
            let ghost prefix = orig.subrange(0, done);
            let ghost next_prefix = orig.subrange(0, done + 1);
            proof {
                reveal(Seq::filter);
                assert(next_prefix.drop_last() =~= prefix);
                assert(next_prefix.last() == orig[done]);
                assert(pending@[0] == orig[done]);
            }
            let e = pending.remove(0);
            if now - e.timestamp < ttl {
                kept.push(e);
                proof {
                    assert forall|j: int| 0 <= j < kept@.len() implies exists|m: int|
                        0 <= m < done + 1 && #[trigger] kept@[j] == orig[m] by {
                        if j < kept@.len() - 1 {
                            let m = choose|m: int| 0 <= m < done && kept@.drop_last()[j] == orig[m];
                            assert(kept@[j] == kept@.drop_last()[j]);
                            assert(kept@[j] == orig[m]);
                        } else {
                            assert(kept@[j] == orig[done]);
                        }
                    }
                    assert forall|a: int, b: int|
                        0 <= a < b < kept@.len() implies kept@[a].key@ != kept@[b].key@ by {
                        if b < kept@.len() - 1 {
                            assert(kept@[a] == kept@.drop_last()[a]);
                            assert(kept@[b] == kept@.drop_last()[b]);
                        } else {
                            let m = choose|m: int| 0 <= m < done && kept@.drop_last()[a] == orig[m];
                            assert(kept@[a] == orig[m]);
                            assert(kept@[b] == orig[done]);
                            assert(orig[m].key@ != orig[done].key@);
                        }
                    }
                }
            }
            proof {
                done = done + 1;
                assert(pending@ =~= orig.subrange(done, orig.len() as int));
                assert(kept@ =~= orig.subrange(0, done).filter(pred));
            }
        }
        proof {
            assert(done == orig.len());
            assert(orig.subrange(0, orig.len() as int) =~= orig);
        }
        self.entries = kept;
    }
}

/// Filtering an entry list with unique keys keeps the keys unique, and every
/// surviving entry comes from the original list.
proof fn lemma_filter_keeps_unique_keys<V>(
    s: Seq<CacheEntry<V>>,
    pred: spec_fn(CacheEntry<V>) -> bool,
)
    requires
        forall|a: int, b: int| 0 <= a < b < s.len() ==> s[a].key@ != s[b].key@,
    ensures
        forall|a: int, b: int|
            0 <= a < b < s.filter(pred).len() ==> s.filter(pred)[a].key@ != s.filter(pred)[b].key@,
        forall|j: int| 0 <= j < s.filter(pred).len() ==> s.contains(#[trigger] s.filter(pred)[j]),
    decreases s.len(),
{
    reveal(Seq::filter);
    if s.len() > 0 {
        let sub = s.drop_last();
        lemma_filter_keeps_unique_keys(sub, pred);
        let fsub = sub.filter(pred);
        let out = s.filter(pred);
        assert forall|j: int| 0 <= j < out.len() implies s.contains(#[trigger] out[j]) by {
            if j < fsub.len() {
                assert(out[j] == fsub[j]);
                assert(sub.contains(fsub[j]));
                let i = choose|i: int| 0 <= i < sub.len() && sub[i] == fsub[j];
                assert(s[i] == out[j]);
            } else {
                assert(out[j] == s[s.len() - 1]);
            }
        }
        assert forall|a: int, b: int| 0 <= a < b < out.len() implies out[a].key@ != out[b].key@ by {
            if b < fsub.len() {
                assert(out[a] == fsub[a] && out[b] == fsub[b]);
            } else {
                assert(sub.contains(fsub[a]));
                let i = choose|i: int| 0 <= i < sub.len() && sub[i] == fsub[a];
                assert(out[a] == s[i] && out[b] == s[s.len() - 1]);
            }
        }
    }
}

/// Cache-eviction-sweep law: a sweep removes exactly the expired entries.
/// Every unexpired entry survives — even ones beyond `max_size`, since the
/// policy has no LRU component — and every surviving entry is unexpired and
/// was stored before the sweep.
pub proof fn lemma_sweep_exact<V>(c: SimpleCache<V>, now: u64)
    requires
        c.wf(),
    ensures
        forall|i: int|
            0 <= i < c.entries().len() && entry_fresh(
                #[trigger] c.entries()[i],
                now,
                c.spec_config().ttl,
            ) ==> c.swept(now).contains(c.entries()[i]),
        forall|j: int|
            0 <= j < c.swept(now).len() ==> entry_fresh(
                #[trigger] c.swept(now)[j],
                now,
                c.spec_config().ttl,
            ),
        forall|j: int| 0 <= j < c.swept(now).len() ==> c.entries().contains(#[trigger] c.swept(now)[j]),
{
    let pred = |e: CacheEntry<V>| entry_fresh(e, now, c.spec_config().ttl);
    assert forall|i: int|
        0 <= i < c.entries().len() && entry_fresh(
            #[trigger] c.entries()[i],
            now,
            c.spec_config().ttl,
        ) implies c.swept(now).contains(c.entries()[i]) by {
        c.entries().lemma_filter_contains(pred, i);
    }
    assert forall|j: int| 0 <= j < c.swept(now).len() implies entry_fresh(
        #[trigger] c.swept(now)[j],
        now,
        c.spec_config().ttl,
    ) by {
        c.entries().lemma_filter_pred(pred, j);
    }
    lemma_filter_keeps_unique_keys(c.entries(), pred);
}

/// Cache-expiry law: the entry stored by `set(key, value, t)` survives the
/// insertion (even when it triggers a sweep), is the only entry under that
/// key, and is valid at any instant strictly before `t + ttl` and invalid
/// from `t + ttl` on — so `get` returns the value before expiry and treats
/// the entry as absent after it.
pub proof fn lemma_cache_expiry<V>(
    c: SimpleCache<V>,
    key: String,
    value: V,
    t: u64,
    early: u64,
    late: u64,
)
    requires
        c.wf(),
        c.spec_config().ttl >= 1,
        t <= early,
        early - t < c.spec_config().ttl,
        late - t >= c.spec_config().ttl,
    ensures
        exists|i: int|
            0 <= i < c.spec_set_entries(key, value, t).len() && #[trigger] c.spec_set_entries(
                key,
                value,
                t,
            )[i] == (CacheEntry { key, value, timestamp: t }),
        forall|i: int|
            0 <= i < c.spec_set_entries(key, value, t).len() && (#[trigger] c.spec_set_entries(
                key,
                value,
                t,
            )[i]).key@ == key@ ==> c.spec_set_entries(key, value, t)[i] == (CacheEntry {
                key,
                value,
                timestamp: t,
            }),
        entry_fresh(CacheEntry { key, value, timestamp: t }, early, c.spec_config().ttl),
        !entry_fresh(CacheEntry { key, value, timestamp: t }, late, c.spec_config().ttl),
{
    let new_entry = CacheEntry { key, value, timestamp: t };
    let ins = c.inserted_entries(key, value, t);
    let w: int = if c.has_key(key@) {
        c.key_index(key@)
    } else {
        c.entries().len() as int
    };
    assert(0 <= w < ins.len() && ins[w] == new_entry);
    assert forall|a: int, b: int| 0 <= a < b < ins.len() implies ins[a].key@ != ins[b].key@ by {
        if c.has_key(key@) {
            assert(c.entries()[a].key@ == ins[a].key@ || a == w);
            assert(c.entries()[b].key@ == ins[b].key@ || b == w);
        } else {
            if b == ins.len() - 1 {
                assert(ins[a] == c.entries()[a]);
                assert(!(c.entries()[a].key@ == key@));
            }
        }
    }
    let out = c.spec_set_entries(key, value, t);
    let pred = |e: CacheEntry<V>| entry_fresh(e, t, c.spec_config().ttl);
    assert(pred(new_entry));
    if ins.len() > c.spec_config().max_size {
        ins.lemma_filter_contains(pred, w);
        lemma_filter_keeps_unique_keys(ins, pred);
        let k = choose|k: int| 0 <= k < out.len() && out[k] == new_entry;
        assert(0 <= k < out.len() && out[k] == new_entry);
        assert forall|i: int|
            0 <= i < out.len() && (#[trigger] out[i]).key@ == key@ implies out[i] == new_entry by {
            assert(ins.contains(out[i]));
            let m = choose|m: int| 0 <= m < ins.len() && ins[m] == out[i];
            assert(ins[m].key@ == key@);
            if m != w {
                assert(ins[m].key@ != ins[w].key@);
            }
        }
    } else {
        assert(out[w] == new_entry);
        assert forall|i: int|
            0 <= i < out.len() && (#[trigger] out[i]).key@ == key@ implies out[i] == new_entry by {
            if i != w {
                assert(ins[i].key@ != ins[w].key@);
            }
        }
    }
}

} // verus!
