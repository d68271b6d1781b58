//! The file cache: contents and metadata of files by path, kept for a
//! limited time and up to a limited number, the least recently used going
//! first. Time is counted in milliseconds on the caller's clock.

use crate::index::{has_key, key_index, position_of};
use crate::strings::clone_bytes;
use vstd::prelude::*;

verus! {

/// One entry of a cache.
#[derive(Debug, PartialEq, Eq)]
pub struct CacheEntry<T> {
    pub data: T,
    pub created_at: u64,
    pub last_accessed: u64,
    pub access_count: u64,
}

/// What the cache keeps of a file besides its content.
#[derive(Debug, PartialEq, Eq)]
pub struct FileCacheMetadata {
    pub file_size: u64,
    pub content_hash: String,
    pub mime_type: String,
    pub last_modified_ms: u64,
}

/// A snapshot of a cache.
#[derive(Debug, PartialEq, Eq)]
pub struct CacheStats {
    pub content_entries: usize,
    pub metadata_entries: usize,
    pub total_content_size: usize,
    pub max_entries: usize,
    pub max_content_size: usize,
    pub ttl_seconds: u64,
}

/// Whether an entry made at `created_at` has lived longer than `ttl_ms` at
/// time `now`.
pub open spec fn expired_at(created_at: u64, ttl_ms: u64, now: u64) -> bool {
    now - created_at > ttl_ms
}

impl<T> CacheEntry<T> {
    /// An entry made at time `now`: asked for once, just now.
    pub fn new(data: T, now: u64) -> (r: CacheEntry<T>)
        ensures
            r.data == data,
            r.created_at == now,
            r.last_accessed == now,
            r.access_count == 1,
    {
        CacheEntry { data, created_at: now, last_accessed: now, access_count: 1 }
    }

    /// The entry after an access at time `now`. A counter that is full
    /// stays full.
    pub open spec fn touched(self, now: u64) -> CacheEntry<T> {
        CacheEntry {
            data: self.data,
            created_at: self.created_at,
            last_accessed: now,
            access_count: if self.access_count < u64::MAX {
                (self.access_count + 1) as u64
            } else {
                u64::MAX
            },
        }
    }

    /// Hands the data out at time `now` and counts the access.
    pub fn access(&mut self, now: u64) -> (r: &T)
        ensures
            *r == old(self).data,
            *final(self) == old(self).touched(now),
    {
        self.last_accessed = now;
        if self.access_count < u64::MAX {
            self.access_count = self.access_count + 1;
        }
        &self.data
    }

    /// Whether the entry has lived longer than `ttl_ms` at time `now`.
    pub fn is_expired(&self, ttl_ms: u64, now: u64) -> (r: bool)
        ensures
            r == expired_at(self.created_at, ttl_ms, now),
    {
        now > self.created_at && now - self.created_at > ttl_ms
    }
}

/// The keys and entries that are left when the expired ones are dropped.
pub open spec fn purged<T>(
    keys: Seq<Seq<char>>,
    entries: Seq<CacheEntry<T>>,
    ttl_ms: u64,
    now: u64,
) -> (Seq<Seq<char>>, Seq<CacheEntry<T>>)
    decreases entries.len(),
{
    if entries.len() == 0 || keys.len() == 0 {
        (Seq::empty(), Seq::empty())
    } else {
        let rest = purged(keys.drop_first(), entries.drop_first(), ttl_ms, now);
        if expired_at(entries[0].created_at, ttl_ms, now) {
            rest
        } else {
            (seq![keys[0]] + rest.0, seq![entries[0]] + rest.1)
        }
    }
}

/// The position of the entry that was accessed longest ago: the first of
/// them where there are several.
pub open spec fn lru_index<T>(entries: Seq<CacheEntry<T>>) -> int
    decreases entries.len(),
{
    if entries.len() <= 1 {
        0
    } else {
        let before = lru_index(entries.drop_last());
        if entries.last().last_accessed < entries[before].last_accessed {
            entries.len() - 1
        } else {
            before
        }
    }
}

/// The least recently used entry is one of the entries, and none was
/// accessed longer ago.
pub proof fn lemma_lru_index<T>(entries: Seq<CacheEntry<T>>)
    requires
        entries.len() > 0,
    ensures
        0 <= lru_index(entries) < entries.len(),
        forall|i: int|
            0 <= i < entries.len() ==> entries[lru_index(entries)].last_accessed <= (
            #[trigger] entries[i]).last_accessed,
    decreases entries.len(),
{
    if entries.len() > 1 {
        let head = entries.drop_last();
        lemma_lru_index(head);
        assert forall|i: int| 0 <= i < entries.len() implies entries[lru_index(
            entries,
        )].last_accessed <= (#[trigger] entries[i]).last_accessed by {
            if i < head.len() {
                assert(head[i] == entries[i]);
            }
        }
    }
}

/// The cache after room was made for one more entry: as it is below the
/// limit, else without its least recently used entry.
pub open spec fn with_room<T>(
    keys: Seq<Seq<char>>,
    entries: Seq<CacheEntry<T>>,
    max_entries: usize,
) -> (Seq<Seq<char>>, Seq<CacheEntry<T>>) {
    if entries.len() >= max_entries && entries.len() > 0 {
        (keys.remove(lru_index(entries)), entries.remove(lru_index(entries)))
    } else {
        (keys, entries)
    }
}

/// The cache after `entry` is stored under `key`: in the place of the
/// entry that the key had, or behind all others.
pub open spec fn stored<T>(
    keys: Seq<Seq<char>>,
    entries: Seq<CacheEntry<T>>,
    key: Seq<char>,
    entry: CacheEntry<T>,
) -> (Seq<Seq<char>>, Seq<CacheEntry<T>>) {
    if has_key(keys, key) {
        (keys, entries.update(key_index(keys, key), entry))
    } else {
        (keys.push(key), entries.push(entry))
    }
}

/// The cache after `data` is put under `key` at time `now`: expired
/// entries go, room is made, and the new entry is stored.
pub open spec fn after_put<T>(
    keys: Seq<Seq<char>>,
    entries: Seq<CacheEntry<T>>,
    key: Seq<char>,
    data: T,
    max_entries: usize,
    ttl_ms: u64,
    now: u64,
) -> (Seq<Seq<char>>, Seq<CacheEntry<T>>) {
    let live = purged(keys, entries, ttl_ms, now);
    let room = with_room(live.0, live.1, max_entries);
    stored(
        room.0,
        room.1,
        key,
        CacheEntry { data, created_at: now, last_accessed: now, access_count: 1 },
    )
}

/// The cache after `key` is asked for at time `now`: a live entry is
/// touched, an expired one goes.
pub open spec fn after_get<T>(
    keys: Seq<Seq<char>>,
    entries: Seq<CacheEntry<T>>,
    key: Seq<char>,
    ttl_ms: u64,
    now: u64,
) -> (Seq<Seq<char>>, Seq<CacheEntry<T>>) {
    if !has_key(keys, key) {
        (keys, entries)
    } else if expired_at(entries[key_index(keys, key)].created_at, ttl_ms, now) {
        (keys.remove(key_index(keys, key)), entries.remove(key_index(keys, key)))
    } else {
        (keys, entries.update(key_index(keys, key), entries[key_index(keys, key)].touched(now)))
    }
}

/// What asking for `key` at time `now` finds: the data of a live entry.
pub open spec fn found_by_get<T>(
    keys: Seq<Seq<char>>,
    entries: Seq<CacheEntry<T>>,
    key: Seq<char>,
    ttl_ms: u64,
    now: u64,
) -> Option<T> {
    if has_key(keys, key) && !expired_at(entries[key_index(keys, key)].created_at, ttl_ms, now) {
        Some(entries[key_index(keys, key)].data)
    } else {
        None
    }
}

/// The cache without `key`.
pub open spec fn without<T>(keys: Seq<Seq<char>>, entries: Seq<CacheEntry<T>>, key: Seq<char>) -> (
    Seq<Seq<char>>,
    Seq<CacheEntry<T>>,
) {
    if has_key(keys, key) {
        (keys.remove(key_index(keys, key)), entries.remove(key_index(keys, key)))
    } else {
        (keys, entries)
    }
}

/// A cache of values by path.
#[derive(Debug)]
pub struct Cache<T> {
    keys: Vec<String>,
    entries: Vec<CacheEntry<T>>,
}

impl<T> Cache<T> {
    /// The paths, in the order in which they came.
    pub closed spec fn paths(&self) -> Seq<Seq<char>> {
        self.keys.deep_view()
    }

    /// The entries, one for each path.
    pub closed spec fn items(&self) -> Seq<CacheEntry<T>> {
        self.entries@
    }

    /// One entry for each path.
    pub closed spec fn wf(&self) -> bool {
        self.keys.len() == self.entries.len()
    }

    /// An empty cache.
    pub fn new() -> (r: Cache<T>)
        ensures
            r.wf(),
            r.paths() == Seq::<Seq<char>>::empty(),
            r.items() == Seq::<CacheEntry<T>>::empty(),
    {
        let r = Cache { keys: Vec::new(), entries: Vec::new() };
        assert(r.keys.deep_view() =~= Seq::<Seq<char>>::empty());
        r
    }

    /// The number of entries.
    pub fn len(&self) -> (r: usize)
        requires
            self.wf(),
        ensures
            r == self.items().len(),
    {
        self.entries.len()
    }

    /// The entry at position `at`.
    pub fn entry_at(&self, at: usize) -> (r: &CacheEntry<T>)
        requires
            self.wf(),
            at < self.items().len(),
        ensures
            *r == self.items()[at as int],
    {
        &self.entries[at]
    }

    /// Drops the expired entries.
    pub fn purge(&mut self, ttl_ms: u64, now: u64)
        requires
            old(self).wf(),
        ensures
            final(self).wf(),
            (final(self).paths(), final(self).items()) == purged(
                old(self).paths(),
                old(self).items(),
                ttl_ms,
                now,
            ),
    {
        let ghost keys0 = self.keys.deep_view();
        let ghost entries0 = self.entries@;
        let mut i: usize = 0;
        assert(self.keys.deep_view().subrange(0, 0) + purged(
            self.keys.deep_view().subrange(0, keys0.len() as int),
            self.entries@.subrange(0, entries0.len() as int),
            ttl_ms,
            now,
        ).0 =~= purged(keys0, entries0, ttl_ms, now).0) by {
            assert(keys0.subrange(0, keys0.len() as int) =~= keys0);
            assert(entries0.subrange(0, entries0.len() as int) =~= entries0);
        }
        assert(self.entries@.subrange(0, 0) + purged(
            self.keys.deep_view().subrange(0, keys0.len() as int),
            self.entries@.subrange(0, entries0.len() as int),
            ttl_ms,
            now,
        ).1 =~= purged(keys0, entries0, ttl_ms, now).1) by {
            assert(keys0.subrange(0, keys0.len() as int) =~= keys0);
            assert(entries0.subrange(0, entries0.len() as int) =~= entries0);
        }
        while i < self.entries.len()
            invariant
                i <= self.entries.len(),
                self.keys.len() == self.entries.len(),
                purged(keys0, entries0, ttl_ms, now).0 == self.keys.deep_view().subrange(
                    0,
                    i as int,
                ) + purged(
                    self.keys.deep_view().subrange(i as int, self.keys.len() as int),
                    self.entries@.subrange(i as int, self.entries.len() as int),
                    ttl_ms,
                    now,
                ).0,
                purged(keys0, entries0, ttl_ms, now).1 == self.entries@.subrange(0, i as int)
                    + purged(
                    self.keys.deep_view().subrange(i as int, self.keys.len() as int),
                    self.entries@.subrange(i as int, self.entries.len() as int),
                    ttl_ms,
                    now,
                ).1,
            decreases self.entries.len() - i,
        {
            let ghost ks = self.keys.deep_view();
            let ghost es = self.entries@;
            let ghost n = es.len() as int;
            let ghost tail_k = ks.subrange(i as int, n);
            let ghost tail_e = es.subrange(i as int, n);
            assert(tail_k.drop_first() =~= ks.subrange(i + 1, n));
            assert(tail_e.drop_first() =~= es.subrange(i + 1, n));
            assert(tail_e[0] == es[i as int]);
            assert(tail_k[0] == ks[i as int]);
            if self.entries[i].is_expired(ttl_ms, now) {
                self.keys.remove(i);
                self.entries.remove(i);
                assert(self.keys.deep_view() =~= ks.remove(i as int));
                assert(self.keys.deep_view().subrange(0, i as int) =~= ks.subrange(0, i as int));
                assert(self.entries@.subrange(0, i as int) =~= es.subrange(0, i as int));
                assert(self.keys.deep_view().subrange(i as int, self.keys.len() as int)
                    =~= ks.subrange(i + 1, n));
                assert(self.entries@.subrange(i as int, self.entries.len() as int)
                    =~= es.subrange(i + 1, n));
            } else {
                let ghost rest = purged(ks.subrange(i + 1, n), es.subrange(i + 1, n), ttl_ms, now);
                assert(ks.subrange(0, i + 1) + rest.0 =~= ks.subrange(0, i as int) + (seq![
                    ks[i as int],
                ] + rest.0));
                assert(es.subrange(0, i + 1) + rest.1 =~= es.subrange(0, i as int) + (seq![
                    es[i as int],
                ] + rest.1));
                i += 1;
            }
        }
        assert(self.keys.deep_view().subrange(0, i as int) =~= self.keys.deep_view());
        assert(self.entries@.subrange(0, i as int) =~= self.entries@);
        assert(self.keys.deep_view() + Seq::<Seq<char>>::empty() =~= self.keys.deep_view());
        assert(self.entries@ + Seq::<CacheEntry<T>>::empty() =~= self.entries@);
    }

    /// The position of the least recently used entry.
    pub fn least_recently_used(&self) -> (r: usize)
        requires
            self.wf(),
            self.items().len() > 0,
        ensures
            r == lru_index(self.items()),
            r < self.items().len(),
    {
        let mut best: usize = 0;
        let mut i: usize = 1;
        assert(lru_index(self.entries@.subrange(0, 1)) == 0);
        while i < self.entries.len()
            invariant
                1 <= i <= self.entries.len(),
                best < i,
                best == lru_index(self.entries@.subrange(0, i as int)),
            decreases self.entries.len() - i,
        {
            let ghost now = self.entries@.subrange(0, i + 1);
            assert(now.drop_last() =~= self.entries@.subrange(0, i as int));
            assert(now.last() == self.entries@[i as int]);
            assert(now[best as int] == self.entries@[best as int]);
            if self.entries[i].last_accessed < self.entries[best].last_accessed {
                best = i;
            }
            i += 1;
        }
        assert(self.entries@.subrange(0, self.entries@.len() as int) =~= self.entries@);
        best
    }

    /// Makes room for one more entry: at the limit the least recently used
    /// entry goes.
    pub fn make_room(&mut self, max_entries: usize)
        requires
            old(self).wf(),
        ensures
            final(self).wf(),
            (final(self).paths(), final(self).items()) == with_room(
                old(self).paths(),
                old(self).items(),
                max_entries,
            ),
    {
        if self.entries.len() >= max_entries && self.entries.len() > 0 {
            let at = self.least_recently_used();
            let ghost ks = self.keys.deep_view();
            self.keys.remove(at);
            self.entries.remove(at);
            assert(self.keys.deep_view() =~= ks.remove(at as int));
        }
    }

    /// Puts `data` under `key` at time `now`: expired entries go, room is
    /// made, and the new entry takes the place of the one that the key had
    /// or comes behind all others.
    pub fn put(&mut self, key: String, data: T, max_entries: usize, ttl_ms: u64, now: u64)
        requires
            old(self).wf(),
        ensures
            final(self).wf(),
            (final(self).paths(), final(self).items()) == after_put(
                old(self).paths(),
                old(self).items(),
                key@,
                data,
                max_entries,
                ttl_ms,
                now,
            ),
    {
        self.purge(ttl_ms, now);
        self.make_room(max_entries);
        let ghost ks = self.keys.deep_view();
        let entry = CacheEntry::new(data, now);
        match position_of(&self.keys, key.as_str()) {
            Some(at) => {
                self.entries.set(at, entry);
            },
            None => {
                self.keys.push(key);
                self.entries.push(entry);
                assert(self.keys.deep_view() =~= ks.push(key@));
            },
        }
    }

    /// Asks for `key` at time `now`: the data of a live entry, which is
    /// touched; an expired entry goes.
    pub fn get(&mut self, key: &str, ttl_ms: u64, now: u64) -> (r: Option<&T>)
        requires
            old(self).wf(),
        ensures
            final(self).wf(),
            (final(self).paths(), final(self).items()) == after_get(
                old(self).paths(),
                old(self).items(),
                key@,
                ttl_ms,
                now,
            ),
            match r {
                Some(d) => found_by_get(old(self).paths(), old(self).items(), key@, ttl_ms, now)
                    == Some(*d),
                None => found_by_get(old(self).paths(), old(self).items(), key@, ttl_ms, now)
                    is None,
            },
    {
        let ghost ks = self.keys.deep_view();
        match position_of(&self.keys, key) {
            Some(at) => {
                if self.entries[at].is_expired(ttl_ms, now) {
                    self.keys.remove(at);
                    self.entries.remove(at);
                    assert(self.keys.deep_view() =~= ks.remove(at as int));
                    None
                } else {
                    let ghost before = self.entries@;
                    let mut e = self.entries.remove(at);
                    let _ = e.access(now);
                    self.entries.insert(at, e);
                    assert(self.entries@ =~= before.update(
                        at as int,
                        before[at as int].touched(now),
                    ));
                    Some(&self.entries[at].data)
                }
            },
            None => None,
        }
    }

    /// Drops the entry of `key`.
    pub fn remove(&mut self, key: &str)
        requires
            old(self).wf(),
        ensures
            final(self).wf(),
            (final(self).paths(), final(self).items()) == without(
                old(self).paths(),
                old(self).items(),
                key@,
            ),
    {
        let ghost ks = self.keys.deep_view();
        match position_of(&self.keys, key) {
            Some(at) => {
                self.keys.remove(at);
                self.entries.remove(at);
                assert(self.keys.deep_view() =~= ks.remove(at as int));
            },
            None => {},
        }
    }

    /// Drops every entry.
    pub fn clear(&mut self)
        ensures
            final(self).wf(),
            final(self).paths() == Seq::<Seq<char>>::empty(),
            final(self).items() == Seq::<CacheEntry<T>>::empty(),
    {
        self.keys.clear();
        self.entries.clear();
        assert(self.keys.deep_view() =~= Seq::<Seq<char>>::empty());
    }
}

/// The lengths of the cached contents together.
pub open spec fn content_size(items: Seq<CacheEntry<Vec<u8>>>) -> nat
    decreases items.len(),
{
    if items.len() == 0 {
        0
    } else {
        content_size(items.drop_last()) + items.last().data@.len()
    }
}

/// The file cache: contents and metadata by path.
#[derive(Debug)]
pub struct FileCache {
    content: Cache<Vec<u8>>,
    metadata: Cache<FileCacheMetadata>,
    max_content_size: usize,
    max_entries: usize,
    ttl_seconds: u64,
}

/// The lifetime of an entry in milliseconds: the greatest number where the
/// seconds are too many to count in milliseconds.
pub open spec fn ttl_ms_of(ttl_seconds: u64) -> u64 {
    if ttl_seconds <= u64::MAX / 1000 {
        (ttl_seconds * 1000) as u64
    } else {
        u64::MAX
    }
}

impl FileCache {
    /// The cache of contents.
    pub closed spec fn contents(&self) -> Cache<Vec<u8>> {
        self.content
    }

    /// The cache of metadata.
    pub closed spec fn metadata_cache(&self) -> Cache<FileCacheMetadata> {
        self.metadata
    }

    /// The limits of the cache: the greatest content that is cached, the
    /// greatest number of entries of each kind, and the lifetime in
    /// seconds.
    pub closed spec fn limits(&self) -> (usize, usize, u64) {
        (self.max_content_size, self.max_entries, self.ttl_seconds)
    }

    /// Both caches are well-formed.
    pub closed spec fn wf(&self) -> bool {
        self.content.wf() && self.metadata.wf()
    }

    /// The lifetime of an entry in milliseconds.
    pub open spec fn ttl_ms(&self) -> u64 {
        ttl_ms_of(self.limits().2)
    }

    fn ttl(&self) -> (r: u64)
        ensures
            r == self.ttl_ms(),
    {
        if self.ttl_seconds <= u64::MAX / 1000 {
            self.ttl_seconds * 1000
        } else {
            u64::MAX
        }
    }

    /// An empty cache with the given limits.
    pub fn new(max_content_size: usize, max_entries: usize, ttl_seconds: u64) -> (r: FileCache)
        ensures
            r.wf(),
            r.limits() == (max_content_size, max_entries, ttl_seconds),
            r.contents().paths().len() == 0,
            r.metadata_cache().paths().len() == 0,
    {
        FileCache {
            content: Cache::new(),
            metadata: Cache::new(),
            max_content_size,
            max_entries,
            ttl_seconds,
        }
    }

    /// The cached content of a file, if it is cached and has not expired.
    pub fn get_content(&mut self, file_path: &str, now: u64) -> (r: Option<Vec<u8>>)
        requires
            old(self).wf(),
        ensures
            final(self).wf(),
            final(self).limits() == old(self).limits(),
            final(self).metadata_cache() == old(self).metadata_cache(),
            (final(self).contents().paths(), final(self).contents().items()) == after_get(
                old(self).contents().paths(),
                old(self).contents().items(),
                file_path@,
                old(self).ttl_ms(),
                now,
            ),
            match r {
                Some(d) => {
                    let f = found_by_get(
                        old(self).contents().paths(),
                        old(self).contents().items(),
                        file_path@,
                        old(self).ttl_ms(),
                        now,
                    );
                    f is Some && f->0@ == d@
                },
                None => found_by_get(
                    old(self).contents().paths(),
                    old(self).contents().items(),
                    file_path@,
                    old(self).ttl_ms(),
                    now,
                ) is None,
            },
    {
        let ttl = self.ttl();
        match self.content.get(file_path, ttl, now) {
            Some(d) => Some(clone_bytes(d)),
            None => None,
        }
    }

    /// Caches the content of a file, unless it is greater than the cache
    /// takes.
    pub fn cache_content(&mut self, file_path: String, content: Vec<u8>, now: u64)
        requires
            old(self).wf(),
        ensures
            final(self).wf(),
            final(self).limits() == old(self).limits(),
            final(self).metadata_cache() == old(self).metadata_cache(),
            (final(self).contents().paths(), final(self).contents().items()) == if content@.len()
                > old(self).limits().0 {
                (old(self).contents().paths(), old(self).contents().items())
            } else {
                after_put(
                    old(self).contents().paths(),
                    old(self).contents().items(),
                    file_path@,
                    content,
                    old(self).limits().1,
                    old(self).ttl_ms(),
                    now,
                )
            },
    {
        if content.len() > self.max_content_size {
            return ;
        }
        let ttl = self.ttl();
        self.content.put(file_path, content, self.max_entries, ttl, now);
    }

    /// Whether metadata of a file is cached and has not expired; the entry
    /// is touched, or goes where it has expired.
    pub fn has_metadata(&mut self, file_path: &str, now: u64) -> (r: bool)
        requires
            old(self).wf(),
        ensures
            final(self).wf(),
            final(self).limits() == old(self).limits(),
            final(self).contents() == old(self).contents(),
            (final(self).metadata_cache().paths(), final(self).metadata_cache().items())
                == after_get(
                old(self).metadata_cache().paths(),
                old(self).metadata_cache().items(),
                file_path@,
                old(self).ttl_ms(),
                now,
            ),
            r == found_by_get(
                old(self).metadata_cache().paths(),
                old(self).metadata_cache().items(),
                file_path@,
                old(self).ttl_ms(),
                now,
            ) is Some,
    {
        let ttl = self.ttl();
        self.metadata.get(file_path, ttl, now).is_some()
    }

    /// The cached metadata of a file, if it is cached and has not expired.
    pub fn get_metadata(&mut self, file_path: &str, now: u64) -> (r: Option<FileCacheMetadata>)
        requires
            old(self).wf(),
        ensures
            final(self).wf(),
            final(self).limits() == old(self).limits(),
            final(self).contents() == old(self).contents(),
            (final(self).metadata_cache().paths(), final(self).metadata_cache().items())
                == after_get(
                old(self).metadata_cache().paths(),
                old(self).metadata_cache().items(),
                file_path@,
                old(self).ttl_ms(),
                now,
            ),
            match r {
                Some(m) => {
                    let f = found_by_get(
                        old(self).metadata_cache().paths(),
                        old(self).metadata_cache().items(),
                        file_path@,
                        old(self).ttl_ms(),
                        now,
                    );
                    f is Some && f->0.file_size == m.file_size && f->0.content_hash@
                        == m.content_hash@ && f->0.mime_type@ == m.mime_type@
                        && f->0.last_modified_ms == m.last_modified_ms
                },
                None => found_by_get(
                    old(self).metadata_cache().paths(),
                    old(self).metadata_cache().items(),
                    file_path@,
                    old(self).ttl_ms(),
                    now,
                ) is None,
            },
    {
        let ttl = self.ttl();
        match self.metadata.get(file_path, ttl, now) {
            Some(m) => Some(
                FileCacheMetadata {
                    file_size: m.file_size,
                    content_hash: m.content_hash.clone(),
                    mime_type: m.mime_type.clone(),
                    last_modified_ms: m.last_modified_ms,
                },
            ),
            None => None,
        }
    }

    /// Caches the metadata of a file.
    pub fn cache_metadata(&mut self, file_path: String, metadata: FileCacheMetadata, now: u64)
        requires
            old(self).wf(),
        ensures
            final(self).wf(),
            final(self).limits() == old(self).limits(),
            final(self).contents() == old(self).contents(),
            (final(self).metadata_cache().paths(), final(self).metadata_cache().items())
                == after_put(
                old(self).metadata_cache().paths(),
                old(self).metadata_cache().items(),
                file_path@,
                metadata,
                old(self).limits().1,
                old(self).ttl_ms(),
                now,
            ),
    {
        let ttl = self.ttl();
        self.metadata.put(file_path, metadata, self.max_entries, ttl, now);
    }

    /// Forgets a file: its content and its metadata.
    pub fn invalidate(&mut self, file_path: &str)
        requires
            old(self).wf(),
        ensures
            final(self).wf(),
            final(self).limits() == old(self).limits(),
            (final(self).contents().paths(), final(self).contents().items()) == without(
                old(self).contents().paths(),
                old(self).contents().items(),
                file_path@,
            ),
            (final(self).metadata_cache().paths(), final(self).metadata_cache().items())
                == without(
                old(self).metadata_cache().paths(),
                old(self).metadata_cache().items(),
                file_path@,
            ),
    {
        self.content.remove(file_path);
        self.metadata.remove(file_path);
    }

    /// Forgets everything.
    pub fn clear(&mut self)
        ensures
            final(self).wf(),
            final(self).limits() == old(self).limits(),
            final(self).contents().paths().len() == 0,
            final(self).contents().items().len() == 0,
            final(self).metadata_cache().paths().len() == 0,
            final(self).metadata_cache().items().len() == 0,
    {
        self.content.clear();
        self.metadata.clear();
    }

    /// Drops the expired entries of both kinds.
    pub fn cleanup(&mut self, now: u64)
        requires
            old(self).wf(),
        ensures
            final(self).wf(),
            final(self).limits() == old(self).limits(),
            (final(self).contents().paths(), final(self).contents().items()) == purged(
                old(self).contents().paths(),
                old(self).contents().items(),
                old(self).ttl_ms(),
                now,
            ),
            (final(self).metadata_cache().paths(), final(self).metadata_cache().items())
                == purged(
                old(self).metadata_cache().paths(),
                old(self).metadata_cache().items(),
                old(self).ttl_ms(),
                now,
            ),
    {
        let ttl = self.ttl();
        self.content.purge(ttl, now);
        self.metadata.purge(ttl, now);
    }

    /// A snapshot: how many entries of each kind, how many bytes of content
    /// (the greatest number where they are too many to count), and the
    /// limits.
    pub fn get_stats(&self) -> (r: CacheStats)
        requires
            self.wf(),
        ensures
            r.content_entries == self.contents().items().len(),
            r.metadata_entries == self.metadata_cache().items().len(),
            r.total_content_size == if content_size(self.contents().items()) <= usize::MAX {
                content_size(self.contents().items())
            } else {
                usize::MAX as nat
            },
            r.max_entries == self.limits().1,
            r.max_content_size == self.limits().0,
            r.ttl_seconds == self.limits().2,
    {
        let n = self.content.len();
        let mut total: usize = 0;
        let mut i: usize = 0;
        let ghost items = self.content.items();
        assert(items.subrange(0, 0) =~= Seq::<CacheEntry<Vec<u8>>>::empty());
        while i < n
            invariant
                i <= n,
                n == items.len(),
                self.content.wf(),
                items == self.content.items(),
                total == if content_size(items.subrange(0, i as int)) <= usize::MAX {
                    content_size(items.subrange(0, i as int))
                } else {
                    usize::MAX as nat
                },
            decreases n - i,
        {
            assert(items.subrange(0, i + 1).drop_last() =~= items.subrange(0, i as int));
            assert(items.subrange(0, i + 1).last() == items[i as int]);
            let len = self.content.entry_at(i).data.len();
            total = total.saturating_add(len);
            i += 1;
        }
        assert(items.subrange(0, items.len() as int) =~= items);
        CacheStats {
            content_entries: n,
            metadata_entries: self.metadata.len(),
            total_content_size: total,
            max_entries: self.max_entries,
            max_content_size: self.max_content_size,
            ttl_seconds: self.ttl_seconds,
        }
    }
}

} // verus!
