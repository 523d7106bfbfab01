//! Least-recently-used cache of decoded RAW files, keyed by document identity.
use crate::platform::Platform;
use vstd::prelude::*;
use vstd::string::*;

verus! {

/// Most decoded RAWs a desktop build keeps in memory.
pub const MAX_DESKTOP_RAW_CACHE_FILES: usize = 8;

/// Most decoded RAWs an Android build keeps in memory.
pub const MAX_ANDROID_RAW_CACHE_FILES: usize = 3;

pub open spec fn spec_default_raw_cache_limit(platform: Platform) -> usize {
    match platform {
        Platform::Android => 1,
        Platform::Desktop => 2,
    }
}

pub open spec fn spec_maximum_raw_cache_limit(platform: Platform) -> usize {
    match platform {
        Platform::Android => MAX_ANDROID_RAW_CACHE_FILES,
        Platform::Desktop => MAX_DESKTOP_RAW_CACHE_FILES,
    }
}

/// Decoded RAWs cached by default.
pub fn default_raw_cache_limit(platform: Platform) -> (limit: usize)
    ensures
        limit == spec_default_raw_cache_limit(platform),
{
    match platform {
        Platform::Android => 1,
        Platform::Desktop => 2,
    }
}

/// Largest cache size the settings accept.
pub fn maximum_raw_cache_limit(platform: Platform) -> (limit: usize)
    ensures
        limit == spec_maximum_raw_cache_limit(platform),
{
    match platform {
        Platform::Android => MAX_ANDROID_RAW_CACHE_FILES,
        Platform::Desktop => MAX_DESKTOP_RAW_CACHE_FILES,
    }
}

/// One cached decode.
pub struct CachedRawDecode<V> {
    pub key: String,
    pub raw: V,
}

/// Cached decodes, least recently used first, at most `limit` of them,
/// with distinct keys.
pub struct RawDecodeCache<V> {
    entries: Vec<CachedRawDecode<V>>,
    limit: usize,
}

/// A cache's contents: (key, value) pairs from least to most recently used.
pub type CacheView<V> = Seq<(Seq<char>, V)>;

pub open spec fn has_key<V>(s: CacheView<V>, key: Seq<char>) -> bool {
    exists|i: int| 0 <= i < s.len() && #[trigger] s[i].0 == key
}

pub open spec fn key_index<V>(s: CacheView<V>, key: Seq<char>) -> int {
    choose|i: int| 0 <= i < s.len() && #[trigger] s[i].0 == key
}

pub open spec fn distinct_keys<V>(s: CacheView<V>) -> bool {
    forall|i: int, j: int| 0 <= i < s.len() && 0 <= j < s.len() && i != j ==> #[trigger] s[i].0 != #[trigger] s[j].0
}

/// The most recent `limit` entries.
pub open spec fn keep_newest<V>(s: CacheView<V>, limit: nat) -> CacheView<V> {
    if s.len() > limit {
        s.subrange(s.len() - limit, s.len() as int)
    } else {
        s
    }
}

pub open spec fn without_key<V>(s: CacheView<V>, key: Seq<char>) -> CacheView<V> {
    if has_key(s, key) {
        s.remove(key_index(s, key))
    } else {
        s
    }
}

/// A lookup of `key` marks its entry most recently used.
pub open spec fn after_lookup<V>(s: CacheView<V>, key: Seq<char>) -> CacheView<V> {
    if has_key(s, key) {
        s.remove(key_index(s, key)).push(s[key_index(s, key)])
    } else {
        s
    }
}

/// Caching `value` under `key` replaces an older entry for the key, makes
/// it most recently used and evicts the least recently used entries beyond
/// the limit; a zero limit empties the cache.
pub open spec fn after_insert<V>(s: CacheView<V>, key: Seq<char>, value: V, limit: nat) -> CacheView<V> {
    if limit == 0 {
        Seq::empty()
    } else {
        keep_newest(without_key(s, key).push((key, value)), limit)
    }
}

impl<V> RawDecodeCache<V> {
    pub closed spec fn view(&self) -> CacheView<V> {
        self.entries@.map_values(|entry: CachedRawDecode<V>| (entry.key@, entry.raw))
    }

    pub closed spec fn limit(&self) -> nat {
        self.limit as nat
    }

    /// At most `limit` entries, and no key twice.
    pub open spec fn wf(&self) -> bool {
        &&& self.view().len() <= self.limit()
        &&& distinct_keys(self.view())
    }

    pub fn new(limit: usize) -> (cache: Self)
        ensures
            cache.wf(),
            cache.view() == Seq::<(Seq<char>, V)>::empty(),
            cache.limit() == limit,
    {
        let cache = RawDecodeCache { entries: Vec::new(), limit };
        assert(cache.view() =~= Seq::<(Seq<char>, V)>::empty());
        cache
    }

    pub fn raw_cache_limit(&self) -> (limit: usize)
        ensures
            limit == self.limit(),
    {
        self.limit
    }

    pub fn len(&self) -> (len: usize)
        ensures
            len == self.view().len(),
    {
        self.entries.len()
    }

    pub fn clear(&mut self)
        ensures
            final(self).wf(),
            final(self).view() == Seq::<(Seq<char>, V)>::empty(),
            final(self).limit() == old(self).limit(),
    {
        self.entries.clear();
        assert(self.view() =~= Seq::<(Seq<char>, V)>::empty());
    }

    /// Position of `key`, if cached.
    fn position(&self, key: &String) -> (index: Option<usize>)
        requires
            self.wf(),
        ensures
            match index {
                Some(i) => has_key(self.view(), key@) && i == key_index(self.view(), key@),
                None => !has_key(self.view(), key@),
            },
    {
        let ghost view = self.view();
        let mut i: usize = 0;
        while i < self.entries.len()
            invariant
                self.wf(),
                view == self.view(),
                i <= self.entries.len(),
                view.len() == self.entries.len(),
                forall|j: int| 0 <= j < i ==> #[trigger] view[j].0 != key@,
            decreases self.entries.len() - i,
        {
            if self.entries[i].key == *key {
                assert(view[i as int].0 == key@);
                let ghost k = key_index(view, key@);
                assert(0 <= k < view.len() && view[k].0 == key@);
                assert(k == i);
                return Some(i);
            }
            i += 1;
        }
        assert(!has_key(view, key@)) by {
            if has_key(view, key@) {
                let k = choose|k: int| 0 <= k < view.len() && #[trigger] view[k].0 == key@;
                assert(view[k].0 == key@);
            }
        }
        None
    }

    /// Drops least recently used entries until at most `limit` remain.
    pub fn trim_raw_cache(&mut self)
        requires
            distinct_keys(old(self).view()),
        ensures
            final(self).wf(),
            final(self).view() == keep_newest(old(self).view(), old(self).limit()),
            final(self).limit() == old(self).limit(),
    {
        let ghost original = self.view();
        let ghost dropped: int = 0;
        while self.entries.len() > self.limit
            invariant
                0 <= dropped <= original.len(),
                self.view() == original.subrange(dropped, original.len() as int),
                self.limit() == old(self).limit(),
                self.view().len() > self.limit() ==> dropped < original.len() - self.limit(),
                self.view().len() <= self.limit() ==> dropped == if original.len() > self.limit() {
                    original.len() - self.limit()
                } else {
                    0
                },
                original == old(self).view(),
            decreases self.entries.len(),
        {
            let ghost prev = self.view();
            self.entries.remove(0);
            proof {
                assert(self.view() =~= prev.subrange(1, prev.len() as int));
                dropped = dropped + 1;
                assert(self.view() =~= original.subrange(dropped, original.len() as int));
            }
        }
        assert(self.view() =~= keep_newest(original, self.limit()));
        proof {
            lemma_keep_newest_distinct(original, self.limit());
        }
    }

    /// Looks `key` up; a hit becomes the most recently used entry and is
    /// returned as a clone of the cached value.
    pub fn cached_raw_decode(&mut self, key: &str) -> (found: Option<V>)
        where
            V: Clone,
        requires
            old(self).wf(),
        ensures
            final(self).wf(),
            final(self).limit() == old(self).limit(),
            final(self).view() == after_lookup(old(self).view(), key@),
            match found {
                Some(value) => has_key(old(self).view(), key@) && cloned(
                    old(self).view()[key_index(old(self).view(), key@)].1,
                    value,
                ),
                None => !has_key(old(self).view(), key@),
            },
    {
        let key = String::from_str(key);
        let ghost before = self.view();
        match self.position(&key) {
            None => None,
            Some(index) => {
                let entry = self.entries.remove(index);
                let raw = entry.raw.clone();
                self.entries.push(entry);
                proof {
                    assert(self.view() =~= before.remove(index as int).push(before[index as int]));
                    lemma_move_to_back_distinct(before, index as int);
                }
                Some(raw)
            },
        }
    }

    /// Caches `raw` under `key` as the most recently used entry.
    pub fn cache_raw_decode(&mut self, key: String, raw: V)
        requires
            old(self).wf(),
        ensures
            final(self).wf(),
            final(self).limit() == old(self).limit(),
            final(self).view() == after_insert(old(self).view(), key@, raw, old(self).limit()),
    {
        let ghost before = self.view();
        if self.limit == 0 {
            self.entries.clear();
            assert(self.view() =~= Seq::<(Seq<char>, V)>::empty());
            return;
        }
        let ghost key_view = key@;
        match self.position(&key) {
            Some(index) => {
                self.entries.remove(index);
                assert(self.view() =~= before.remove(index as int));
            },
            None => {},
        }
        let ghost removed = self.view();
        assert(removed == without_key(before, key_view));
        proof {
            lemma_without_key(before, key_view);
        }
        self.entries.push(CachedRawDecode { key, raw });
        assert(self.view() =~= removed.push((key_view, raw)));
        proof {
            lemma_push_fresh_distinct(removed, key_view, raw);
        }
        self.trim_raw_cache();
    }

    /// Changes the size limit, capped at the platform maximum, and evicts
    /// entries beyond it. Reports whether the limit changed.
    pub fn set_raw_cache_limit(&mut self, limit: usize, platform: Platform) -> (changed: bool)
        requires
            old(self).wf(),
        ensures
            final(self).wf(),
            ({
                let capped = if limit < spec_maximum_raw_cache_limit(platform) {
                    limit
                } else {
                    spec_maximum_raw_cache_limit(platform)
                };
                &&& changed == (capped != old(self).limit())
                &&& final(self).limit() == capped
                &&& final(self).view() == keep_newest(old(self).view(), capped as nat)
            }),
    {
        let maximum = maximum_raw_cache_limit(platform);
        let capped = if limit < maximum { limit } else { maximum };
        if self.limit == capped {
            assert(keep_newest(self.view(), capped as nat) == self.view());
            return false;
        }
        self.limit = capped;
        self.trim_raw_cache();
        true
    }
}

proof fn lemma_keep_newest_distinct<V>(s: CacheView<V>, limit: nat)
    requires
        distinct_keys(s),
    ensures
        distinct_keys(keep_newest(s, limit)),
        keep_newest(s, limit).len() <= limit,
{
    if s.len() > limit {
        let t = keep_newest(s, limit);
        let off = s.len() - limit;
        assert forall|i: int, j: int| 0 <= i < t.len() && 0 <= j < t.len() && i != j implies #[trigger] t[i].0 != #[trigger] t[j].0 by {
            assert(t[i] == s[i + off]);
            assert(t[j] == s[j + off]);
        }
    }
}

proof fn lemma_move_to_back_distinct<V>(s: CacheView<V>, index: int)
    requires
        distinct_keys(s),
        0 <= index < s.len(),
    ensures
        distinct_keys(s.remove(index).push(s[index])),
{
    let t = s.remove(index).push(s[index]);
    let src = |k: int| if k == s.len() - 1 { index } else if k < index { k } else { k + 1 };
    assert forall|i: int, j: int| 0 <= i < t.len() && 0 <= j < t.len() && i != j implies #[trigger] t[i].0 != #[trigger] t[j].0 by {
        assert(t[i] == s[src(i)]);
        assert(t[j] == s[src(j)]);
    }
}

proof fn lemma_without_key<V>(s: CacheView<V>, key: Seq<char>)
    requires
        distinct_keys(s),
    ensures
        distinct_keys(without_key(s, key)),
        !has_key(without_key(s, key), key),
        without_key(s, key).len() <= s.len(),
{
    if has_key(s, key) {
        let k = key_index(s, key);
        let t = s.remove(k);
        let src = |m: int| if m < k { m } else { m + 1 };
        assert forall|i: int, j: int| 0 <= i < t.len() && 0 <= j < t.len() && i != j implies #[trigger] t[i].0 != #[trigger] t[j].0 by {
            assert(t[i] == s[src(i)]);
            assert(t[j] == s[src(j)]);
        }
        if has_key(t, key) {
            let m = choose|m: int| 0 <= m < t.len() && #[trigger] t[m].0 == key;
            assert(t[m] == s[src(m)]);
        }
    }
}

proof fn lemma_push_fresh_distinct<V>(s: CacheView<V>, key: Seq<char>, value: V)
    requires
        distinct_keys(s),
        !has_key(s, key),
    ensures
        distinct_keys(s.push((key, value))),
{
    let t = s.push((key, value));
    assert forall|i: int, j: int| 0 <= i < t.len() && 0 <= j < t.len() && i != j implies #[trigger] t[i].0 != #[trigger] t[j].0 by {
        if i == s.len() {
            assert(t[j] == s[j]);
        } else if j == s.len() {
            assert(t[i] == s[i]);
        } else {
            assert(t[i] == s[i]);
            assert(t[j] == s[j]);
        }
    }
}

/// A value cached under `key` (with a non-zero limit) is what the next
/// lookup of `key` finds.
pub proof fn lemma_lookup_after_insert<V>(s: CacheView<V>, key: Seq<char>, value: V, limit: nat)
    requires
        distinct_keys(s),
        limit > 0,
    ensures
        has_key(after_insert(s, key, value, limit), key),
        after_insert(s, key, value, limit)[key_index(after_insert(s, key, value, limit), key)].1
            == value,
{
    lemma_without_key(s, key);
    let r = without_key(s, key);
    lemma_push_fresh_distinct(r, key, value);
    let p = r.push((key, value));
    let t = keep_newest(p, limit);
    lemma_keep_newest_distinct(p, limit);
    let last = t.len() - 1;
    assert(t[last] == (key, value));
    assert(0 <= last < t.len() && t[last].0 == key);
    assert(has_key(t, key));
    let k = key_index(t, key);
    assert(t[k].0 == key);
}

/// After a cache operation the cache never holds more entries than its limit.
pub proof fn lemma_insert_respects_limit<V>(s: CacheView<V>, key: Seq<char>, value: V, limit: nat)
    requires
        distinct_keys(s),
    ensures
        after_insert(s, key, value, limit).len() <= limit,
        distinct_keys(after_insert(s, key, value, limit)),
{
    if limit > 0 {
        lemma_without_key(s, key);
        let r = without_key(s, key);
        lemma_push_fresh_distinct(r, key, value);
        lemma_keep_newest_distinct(r.push((key, value)), limit);
    }
}

/// A lookup hit becomes the most recently used entry, so it is the last
/// to be evicted.
pub proof fn lemma_lookup_marks_most_recent<V>(s: CacheView<V>, key: Seq<char>)
    requires
        has_key(s, key),
    ensures
        after_lookup(s, key).last().0 == key,
        after_lookup(s, key).len() == s.len(),
{
    let k = key_index(s, key);
    assert(s[k].0 == key);
}

} // verus!
