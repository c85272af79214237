//! Bounded in-memory audio cache with LRU eviction.
//!
//! Downloaded payloads are keyed by track id.  The entry list is kept in
//! access order, oldest first, so eviction removes from the front and an
//! access moves an entry to the back.  A separate set of track ids records
//! fetches in flight, for single-flight deduplication between the cache
//! consumer and the prefetcher.

use vstd::prelude::*;

verus! {

/// Cached audio data for one track, owned by the cache once inserted.
#[derive(Debug, Clone)]
pub struct CachedTrack {
    pub track_id: u64,
    pub data: Vec<u8>,
    pub size_bytes: usize,
}

/// A request handed to the prefetcher: which track to download and from
/// where.
#[derive(Debug, Clone)]
pub struct PrefetchRequest {
    pub track_id: u64,
    pub url: String,
}

/// Counts reported for observability; never fails to produce.
#[derive(Debug, Clone, Copy, PartialEq, Eq, Structural)]
pub struct CacheStats {
    pub cached_tracks: usize,
    pub current_size_bytes: usize,
    pub max_size_bytes: usize,
    pub fetching_count: usize,
}

/// Sum of the payload sizes of a run of entries.
pub open spec fn total_size(entries: Seq<CachedTrack>) -> int
    decreases entries.len(),
{
    if entries.len() == 0 {
        0
    } else {
        total_size(entries.drop_last()) + entries.last().size_bytes
    }
}

/// Some entry carries `id`.
pub open spec fn has_track(entries: Seq<CachedTrack>, id: u64) -> bool {
    exists|k: int| 0 <= k < entries.len() && entries[k].track_id == id
}

/// Some element equals `id`.
pub open spec fn has_elem(s: Seq<u64>, id: u64) -> bool {
    exists|k: int| 0 <= k < s.len() && s[k] == id
}

/// What remains after evicting from the front until `n` more bytes fit
/// under `max`, or nothing remains.
pub open spec fn evict_result(entries: Seq<CachedTrack>, max: int, n: int) -> Seq<CachedTrack>
    decreases entries.len(),
{
    if total_size(entries) + n <= max || entries.len() == 0 {
        entries
    } else {
        evict_result(entries.drop_first(), max, n)
    }
}

/// The entries with the first occurrence of `id` removed.
pub open spec fn remove_track(entries: Seq<CachedTrack>, id: u64) -> Seq<CachedTrack>
    decreases entries.len(),
{
    if entries.len() == 0 {
        entries
    } else if entries[0].track_id == id {
        entries.drop_first()
    } else {
        seq![entries[0]] + remove_track(entries.drop_first(), id)
    }
}

/// The shape `insert` leaves behind for a payload that fits: evict until
/// the payload fits (the prior entry for the same id still counted), drop
/// any prior entry for the same id, then append the new entry as most
/// recently used.
pub open spec fn insert_shape(
    old_entries: Seq<CachedTrack>,
    new_entries: Seq<CachedTrack>,
    max: int,
    id: u64,
    data: Seq<u8>,
) -> bool {
    let kept = remove_track(evict_result(old_entries, max, data.len() as int), id);
    &&& new_entries.len() == kept.len() + 1
    &&& new_entries.drop_last() == kept
    &&& new_entries.last().track_id == id
    &&& new_entries.last().data@ == data
    &&& new_entries.last().size_bytes == data.len()
}

pub proof fn lemma_total_size_nonneg(s: Seq<CachedTrack>)
    ensures
        total_size(s) >= 0,
    decreases s.len(),
{
    if s.len() > 0 {
        lemma_total_size_nonneg(s.drop_last());
    }
}

pub proof fn lemma_total_size_drop_first(s: Seq<CachedTrack>)
    requires
        s.len() > 0,
    ensures
        total_size(s) == s[0].size_bytes + total_size(s.drop_first()),
    decreases s.len(),
{
    if s.len() == 1 {
        assert(s.drop_first() =~= Seq::<CachedTrack>::empty());
        assert(s.drop_last() =~= Seq::<CachedTrack>::empty());
        assert(s.last() == s[0]);
    } else {
        lemma_total_size_drop_first(s.drop_last());
        assert(s.drop_first().drop_last() =~= s.drop_last().drop_first());
        assert(s.drop_first().last() == s.last());
    }
}

pub proof fn lemma_total_size_remove(s: Seq<CachedTrack>, k: int)
    requires
        0 <= k < s.len(),
    ensures
        total_size(s.remove(k)) == total_size(s) - s[k].size_bytes,
    decreases s.len(),
{
    if k == s.len() - 1 {
        assert(s.remove(k) =~= s.drop_last());
    } else {
        lemma_total_size_remove(s.drop_last(), k);
        assert(s.remove(k).drop_last() =~= s.drop_last().remove(k));
        assert(s.remove(k).last() == s.last());
    }
}

pub proof fn lemma_total_size_push(s: Seq<CachedTrack>, t: CachedTrack)
    ensures
        total_size(s.push(t)) == total_size(s) + t.size_bytes,
{
    assert(s.push(t).drop_last() =~= s);
    assert(s.push(t).last() == t);
}

proof fn lemma_remove_track_at(s: Seq<CachedTrack>, id: u64, k: int)
    requires
        0 <= k < s.len(),
        s[k].track_id == id,
        forall|j: int| 0 <= j < k ==> s[j].track_id != id,
    ensures
        remove_track(s, id) == s.remove(k),
    decreases k,
{
    if k == 0 {
        assert(s.remove(0) =~= s.drop_first());
    } else {
        lemma_remove_track_at(s.drop_first(), id, k - 1);
        assert(seq![s[0]] + s.drop_first().remove(k - 1) =~= s.remove(k));
    }
}

proof fn lemma_remove_track_absent(s: Seq<CachedTrack>, id: u64)
    requires
        !has_track(s, id),
    ensures
        remove_track(s, id) == s,
    decreases s.len(),
{
    if s.len() > 0 {
        assert(s[0].track_id != id);
        assert(!has_track(s.drop_first(), id)) by {
            assert(forall|k: int| 0 <= k < s.drop_first().len() ==> s.drop_first()[k] == s[k + 1]);
        }
        lemma_remove_track_absent(s.drop_first(), id);
        assert(seq![s[0]] + s.drop_first() =~= s);
    }
}

/// Bounded audio cache with LRU eviction and an in-flight-fetch set.
///
/// `entries` is kept in access order, oldest first; `current_size`
/// mirrors the summed payload sizes; `fetching` holds each in-flight
/// track id once.  Treat the fields as read-only outside the cache's own
/// methods.
pub struct AudioCache {
    pub entries: Vec<CachedTrack>,
    pub max_size_bytes: usize,
    pub current_size: usize,
    pub fetching: Vec<u64>,
}

impl Default for AudioCache {
    /// An empty cache with the default capacity of 500 MiB.
    fn default() -> (r: Self)
        ensures
            r.wf(),
            r.entries@.len() == 0,
            r.max_size_bytes == 500 * 1024 * 1024,
            r.current_size == 0,
            r.fetching@.len() == 0,
    {
        AudioCache::new(500 * 1024 * 1024)
    }
}

impl AudioCache {
    /// The cache invariant: entries are distinct by track id and sized
    /// consistently, the size counter is exact, the summed sizes never
    /// exceed the capacity, and the fetching set holds no duplicates.
    pub open spec fn wf(self) -> bool {
        &&& forall|j: int, k: int|
            0 <= j < k < self.entries@.len() ==> self.entries@[j].track_id
                != self.entries@[k].track_id
        &&& forall|k: int|
            0 <= k < self.entries@.len() ==> (#[trigger] self.entries@[k]).size_bytes
                == self.entries@[k].data@.len()
        &&& self.current_size == total_size(self.entries@)
        &&& self.current_size <= self.max_size_bytes
        &&& forall|j: int, k: int|
            0 <= j < k < self.fetching@.len() ==> self.fetching@[j] != self.fetching@[k]
    }

    /// Create an empty cache with the given capacity in bytes.
    pub fn new(max_size_bytes: usize) -> (r: Self)
        ensures
            r.wf(),
            r.entries@.len() == 0,
            r.max_size_bytes == max_size_bytes,
            r.current_size == 0,
            r.fetching@.len() == 0,
    {
        AudioCache {
            entries: Vec::new(),
            max_size_bytes,
            current_size: 0,
            fetching: Vec::new(),
        }
    }

    fn find_entry(&self, track_id: u64) -> (r: Option<usize>)
        ensures
            r matches Some(k) ==> k < self.entries@.len() && self.entries@[k as int].track_id
                == track_id && (forall|j: int|
                0 <= j < k ==> self.entries@[j].track_id != track_id),
            r is None ==> !has_track(self.entries@, track_id),
    {
        let n = self.entries.len();
        let mut k: usize = 0;
        while k < n
            invariant
                k <= n == self.entries@.len(),
                forall|j: int| 0 <= j < k ==> self.entries@[j].track_id != track_id,
            decreases n - k,
        {
            if self.entries[k].track_id == track_id {
                return Some(k);
            }
            k = k + 1;
        }
        None
    }

    /// A fresh copy of a byte vector.
    fn copy_bytes(v: &Vec<u8>) -> (r: Vec<u8>)
        ensures
            r@ == v@,
    {
        let n = v.len();
        let mut out: Vec<u8> = Vec::new();
        let mut k: usize = 0;
        while k < n
            invariant
                k <= n == v@.len(),
                out@ =~= v@.take(k as int),
            decreases n - k,
        {
            out.push(v[k]);
            k = k + 1;
        }
        proof {
            assert(v@.take(n as int) =~= v@);
        }
        out
    }

    /// Return a copy of the cached entry for `track_id`, if present, and
    /// promote the entry to most recently used; a miss changes nothing.
    pub fn get(&mut self, track_id: u64) -> (r: Option<CachedTrack>)
        requires
            old(self).wf(),
        ensures
            final(self).wf(),
            final(self).max_size_bytes == old(self).max_size_bytes,
            final(self).current_size == old(self).current_size,
            final(self).fetching@ == old(self).fetching@,
            !has_track(old(self).entries@, track_id) ==> r is None && *final(self) == *old(self),
            has_track(old(self).entries@, track_id) ==> (exists|k: int|
                0 <= k < old(self).entries@.len() && old(self).entries@[k].track_id == track_id
                    && final(self).entries@ == old(self).entries@.remove(k).push(
                    old(self).entries@[k],
                )),
            has_track(old(self).entries@, track_id) ==> (r matches Some(t) && t.track_id
                == track_id && has_track(old(self).entries@, track_id) && (exists|k: int|
                0 <= k < old(self).entries@.len() && old(self).entries@[k].track_id == track_id
                    && t.data@ == old(self).entries@[k].data@ && t.size_bytes == old(
                    self,
                ).entries@[k].size_bytes)),
    {
        let k = match self.find_entry(track_id) {
            Some(k) => k,
            None => {
                return None;
            },
        };
        let ghost old_entries = self.entries@;
        let t = self.entries.remove(k);
        let copy = CachedTrack {
            track_id: t.track_id,
            data: Self::copy_bytes(&t.data),
            size_bytes: t.size_bytes,
        };
        self.entries.push(t);
        proof {
            lemma_total_size_remove(old_entries, k as int);
            lemma_total_size_push(old_entries.remove(k as int), old_entries[k as int]);
            let cur = self.entries@;
            assert(cur == old_entries.remove(k as int).push(old_entries[k as int]));
            assert forall|j1: int, j2: int|
                0 <= j1 < j2 < cur.len() implies cur[j1].track_id != cur[j2].track_id by {
                if j2 == cur.len() - 1 {
                    if j1 < k {
                        assert(cur[j1] == old_entries[j1]);
                        assert(old_entries[j1].track_id != old_entries[k as int].track_id);
                    } else {
                        assert(cur[j1] == old_entries[j1 + 1]);
                        assert(old_entries[k as int].track_id != old_entries[j1 + 1].track_id);
                    }
                } else {
                    if j2 < k {
                        assert(cur[j1] == old_entries[j1] && cur[j2] == old_entries[j2]);
                    } else if j1 < k {
                        assert(cur[j1] == old_entries[j1] && cur[j2] == old_entries[j2 + 1]);
                    } else {
                        assert(cur[j1] == old_entries[j1 + 1] && cur[j2] == old_entries[j2 + 1]);
                    }
                }
            }
            assert forall|j: int|
                0 <= j < cur.len() implies (#[trigger] cur[j]).size_bytes
                == cur[j].data@.len() by {
                if j == cur.len() - 1 {
                    assert(cur[j] == old_entries[k as int]);
                } else if j < k {
                    assert(cur[j] == old_entries[j]);
                } else {
                    assert(cur[j] == old_entries[j + 1]);
                }
            }
        }
        Some(copy)
    }

    /// Membership check without promotion.
    pub fn contains(&self, track_id: u64) -> (r: bool)
        ensures
            r == has_track(self.entries@, track_id),
    {
        self.find_entry(track_id).is_some()
    }

    fn find_fetching(&self, track_id: u64) -> (r: Option<usize>)
        ensures
            r matches Some(k) ==> k < self.fetching@.len() && self.fetching@[k as int] == track_id,
            r is None ==> !has_elem(self.fetching@, track_id),
    {
        let n = self.fetching.len();
        let mut k: usize = 0;
        while k < n
            invariant
                k <= n == self.fetching@.len(),
                forall|j: int| 0 <= j < k ==> self.fetching@[j] != track_id,
            decreases n - k,
        {
            if self.fetching[k] == track_id {
                return Some(k);
            }
            k = k + 1;
        }
        None
    }

    /// Is a fetch for `track_id` currently in flight?
    pub fn is_fetching(&self, track_id: u64) -> (r: bool)
        ensures
            r == has_elem(self.fetching@, track_id),
    {
        self.find_fetching(track_id).is_some()
    }

    /// Record a fetch in flight for `track_id`; recording an id twice
    /// changes nothing.
    pub fn mark_fetching(&mut self, track_id: u64)
        requires
            old(self).wf(),
        ensures
            final(self).wf(),
            final(self).entries@ == old(self).entries@,
            final(self).max_size_bytes == old(self).max_size_bytes,
            final(self).current_size == old(self).current_size,
            has_elem(old(self).fetching@, track_id) ==> *final(self) == *old(self),
            !has_elem(old(self).fetching@, track_id)
                ==> final(self).fetching@ == old(self).fetching@.push(track_id),
    {
        match self.find_fetching(track_id) {
            Some(_) => {
            },
            None => {
                self.fetching.push(track_id);
            },
        }
    }

    /// Clear the in-flight record for `track_id`; absent ids change
    /// nothing.
    pub fn unmark_fetching(&mut self, track_id: u64)
        requires
            old(self).wf(),
        ensures
            final(self).wf(),
            final(self).entries@ == old(self).entries@,
            final(self).max_size_bytes == old(self).max_size_bytes,
            final(self).current_size == old(self).current_size,
            !has_elem(old(self).fetching@, track_id) ==> *final(self) == *old(self),
            !has_elem(final(self).fetching@, track_id),
            has_elem(old(self).fetching@, track_id) ==> (exists|k: int|
                0 <= k < old(self).fetching@.len() && old(self).fetching@[k] == track_id
                    && final(self).fetching@ == old(self).fetching@.remove(k)),
    {
        match self.find_fetching(track_id) {
            Some(k) => {
                let ghost old_fetching = self.fetching@;
                self.fetching.remove(k);
                proof {
                    assert forall|j: int|
                        0 <= j < self.fetching@.len() implies self.fetching@[j] != track_id by {
                        if j < k {
                            assert(old_fetching[j] != old_fetching[k as int]);
                        } else {
                            assert(old_fetching[j + 1] != old_fetching[k as int]);
                        }
                    }
                }
            },
            None => {
            },
        }
    }

    /// Atomically check and reserve a fetch: succeeds exactly when the
    /// track is neither cached nor already being fetched, and then records
    /// the fetch; the caller that receives `true` owns the download.
    pub fn reserve_fetch(&mut self, track_id: u64) -> (r: bool)
        requires
            old(self).wf(),
        ensures
            final(self).wf(),
            final(self).entries@ == old(self).entries@,
            final(self).max_size_bytes == old(self).max_size_bytes,
            final(self).current_size == old(self).current_size,
            r == !(has_track(old(self).entries@, track_id) || has_elem(
                old(self).fetching@,
                track_id,
            )),
            r ==> final(self).fetching@ == old(self).fetching@.push(track_id),
            !r ==> *final(self) == *old(self),
    {
        if self.contains(track_id) {
            return false;
        }
        if self.is_fetching(track_id) {
            return false;
        }
        self.fetching.push(track_id);
        true
    }

    /// Evict oldest entries until `new_size` more bytes fit under the
    /// capacity, or the cache is empty.
    pub fn evict_to_fit(&mut self, new_size: usize)
        requires
            old(self).wf(),
        ensures
            final(self).wf(),
            final(self).max_size_bytes == old(self).max_size_bytes,
            final(self).fetching@ == old(self).fetching@,
            final(self).entries@ == evict_result(
                old(self).entries@,
                old(self).max_size_bytes as int,
                new_size as int,
            ),
            total_size(final(self).entries@) + new_size <= final(self).max_size_bytes
                || final(self).entries@.len() == 0,
    {
        let ghost orig = self.entries@;
        let ghost fetch0 = self.fetching@;
        let ghost max0 = self.max_size_bytes;
        while new_size > self.max_size_bytes - self.current_size && self.entries.len() > 0
            invariant
                self.wf(),
                self.max_size_bytes == max0,
                self.fetching@ == fetch0,
                evict_result(orig, max0 as int, new_size as int) == evict_result(
                    self.entries@,
                    max0 as int,
                    new_size as int,
                ),
            decreases self.entries@.len(),
        {
            let ghost before = self.entries@;
            let t = self.entries.remove(0);
            proof {
                lemma_total_size_drop_first(before);
                lemma_total_size_nonneg(before.drop_first());
                assert(self.entries@ =~= before.drop_first());
                assert forall|j1: int, j2: int|
                    0 <= j1 < j2 < self.entries@.len() implies self.entries@[j1].track_id
                    != self.entries@[j2].track_id by {
                    assert(before[j1 + 1].track_id != before[j2 + 1].track_id);
                }
                assert forall|j: int|
                    0 <= j < self.entries@.len() implies (#[trigger] self.entries@[j]).size_bytes
                    == self.entries@[j].data@.len() by {
                    assert(before[j + 1].size_bytes == before[j + 1].data@.len());
                }
            }
            self.current_size = self.current_size - t.size_bytes;
        }
        proof {
            assert(total_size(self.entries@) + new_size <= max0 || self.entries@.len() == 0);
            assert(evict_result(self.entries@, max0 as int, new_size as int) == self.entries@);
        }
    }

    /// Insert a payload, evicting least-recently-used entries to make
    /// room and replacing any prior entry for the same id; a payload
    /// larger than the whole capacity is rejected and changes nothing.
    pub fn insert(&mut self, track_id: u64, data: Vec<u8>)
        requires
            old(self).wf(),
        ensures
            final(self).wf(),
            final(self).max_size_bytes == old(self).max_size_bytes,
            final(self).fetching@ == old(self).fetching@,
            data@.len() > old(self).max_size_bytes ==> *final(self) == *old(self),
            data@.len() <= old(self).max_size_bytes ==> insert_shape(
                old(self).entries@,
                final(self).entries@,
                old(self).max_size_bytes as int,
                track_id,
                data@,
            ),
            data@.len() <= old(self).max_size_bytes ==> has_track(final(self).entries@, track_id),
    {
        let size = data.len();
        if size > self.max_size_bytes {
            return ;
        }
        self.evict_to_fit(size);
        let ghost evicted = self.entries@;
        match self.find_entry(track_id) {
            Some(k) => {
                let ghost before = self.entries@;
                let t = self.entries.remove(k);
                proof {
                    lemma_total_size_remove(before, k as int);
                    lemma_total_size_nonneg(before.remove(k as int));
                    lemma_remove_track_at(before, track_id, k as int);
                    assert forall|j1: int, j2: int|
                        0 <= j1 < j2 < self.entries@.len() implies self.entries@[j1].track_id
                        != self.entries@[j2].track_id by {
                        if j2 < k {
                            assert(before[j1].track_id != before[j2].track_id);
                        } else if j1 < k {
                            assert(before[j1].track_id != before[j2 + 1].track_id);
                        } else {
                            assert(before[j1 + 1].track_id != before[j2 + 1].track_id);
                        }
                    }
                }
                self.current_size = self.current_size - t.size_bytes;
            },
            None => {
                proof {
                    lemma_remove_track_absent(evicted, track_id);
                }
            },
        }
        let ghost kept = self.entries@;
        proof {
            lemma_total_size_push(
                kept,
                CachedTrack { track_id, data: data, size_bytes: size },
            );
        }
        let entry = CachedTrack { track_id, data, size_bytes: size };
        self.entries.push(entry);
        self.current_size = self.current_size + size;
        proof {
            assert(self.entries@.drop_last() =~= kept);
            assert forall|j1: int, j2: int|
                0 <= j1 < j2 < self.entries@.len() implies self.entries@[j1].track_id
                != self.entries@[j2].track_id by {
                if j2 == self.entries@.len() - 1 {
                    assert(!has_track(kept, track_id));
                }
            }
        }
    }

    /// Empty the cache: entries, access order, size counter and fetching
    /// set.
    pub fn clear(&mut self)
        ensures
            final(self).wf(),
            final(self).entries@.len() == 0,
            final(self).current_size == 0,
            final(self).fetching@.len() == 0,
            final(self).max_size_bytes == old(self).max_size_bytes,
    {
        self.entries.clear();
        self.current_size = 0;
        self.fetching.clear();
    }

    /// Counts for observability.
    pub fn stats(&self) -> (r: CacheStats)
        ensures
            r.cached_tracks == self.entries@.len(),
            r.current_size_bytes == self.current_size,
            r.max_size_bytes == self.max_size_bytes,
            r.fetching_count == self.fetching@.len(),
    {
        CacheStats {
            cached_tracks: self.entries.len(),
            current_size_bytes: self.current_size,
            max_size_bytes: self.max_size_bytes,
            fetching_count: self.fetching.len(),
        }
    }
}

/// The capacity bound every well-formed cache obeys: the summed sizes of
/// the cached payloads never exceed the configured maximum.
pub proof fn lemma_cache_size_bounded(c: &AudioCache)
    requires
        c.wf(),
    ensures
        total_size(c.entries@) <= c.max_size_bytes,
{
}

} // verus!
