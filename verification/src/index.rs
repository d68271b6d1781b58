//! The content index: what this node hosts or has heard of, by content hash,
//! and the case-insensitive search over it.

use crate::strings::{lowercase, opt_view, same_text, text_of, to_lower, utf8_text};
use crate::text::{contains, contains_seq, slice_copy};
use vstd::prelude::*;
use vstd::string::*;
use vstd::utf8::*;

verus! {

pub const SLASH: u8 = 47;

/// One entry of the content index.
#[derive(Debug, PartialEq, Eq)]
pub struct IndexedContent {
    pub path: String,
    pub title: String,
    pub author: Option<String>,
    pub tags: Vec<String>,
}

/// What an index entry holds, as plain text.
pub struct ContentView {
    pub path: Seq<char>,
    pub title: Seq<char>,
    pub author: Option<Seq<char>>,
    pub tags: Seq<Seq<char>>,
}

impl View for IndexedContent {
    type V = ContentView;

    open spec fn view(&self) -> ContentView {
        ContentView {
            path: self.path@,
            title: self.title@,
            author: opt_view(self.author),
            tags: self.tags.deep_view(),
        }
    }
}

impl DeepView for IndexedContent {
    type V = ContentView;

    open spec fn deep_view(&self) -> ContentView {
        self@
    }
}

/// Index of the first occurrence of `key` in `keys`, or `keys.len()`.
pub open spec fn key_index(keys: Seq<Seq<char>>, key: Seq<char>) -> int
    decreases keys.len(),
{
    if keys.len() == 0 || keys[0] == key {
        0
    } else {
        1 + key_index(keys.drop_first(), key)
    }
}

/// Whether `key` is one of `keys`.
pub open spec fn has_key(keys: Seq<Seq<char>>, key: Seq<char>) -> bool {
    0 <= key_index(keys, key) < keys.len()
}

/// Whether no text occurs twice in `keys`.
pub open spec fn distinct(keys: Seq<Seq<char>>) -> bool {
    forall|i: int, j: int| 0 <= i < j < keys.len() ==> keys[i] != keys[j]
}

/// `key_index` stays within the sequence, points at `key` when it is inside,
/// and nothing before it is `key`.
pub proof fn lemma_key_index(keys: Seq<Seq<char>>, key: Seq<char>)
    ensures
        0 <= key_index(keys, key) <= keys.len(),
        key_index(keys, key) < keys.len() ==> keys[key_index(keys, key)] == key,
        forall|j: int| 0 <= j < key_index(keys, key) ==> keys[j] != key,
    decreases keys.len(),
{
    if keys.len() == 0 || keys[0] == key {
    } else {
        lemma_key_index(keys.drop_first(), key);
        let k = key_index(keys.drop_first(), key);
        assert forall|j: int| 0 <= j < 1 + k implies keys[j] != key by {
            if j > 0 {
                assert(keys.drop_first()[j - 1] == keys[j]);
            }
        }
    }
}

/// A position holding `key` before which `key` does not stand is its index.
pub proof fn lemma_key_index_is(keys: Seq<Seq<char>>, key: Seq<char>, at: int)
    requires
        0 <= at <= keys.len(),
        at < keys.len() ==> keys[at] == key,
        forall|j: int| 0 <= j < at ==> keys[j] != key,
    ensures
        key_index(keys, key) == at,
{
    lemma_key_index(keys, key);
    let k = key_index(keys, key);
    if k < at {
        assert(keys[k] == key);
    } else if k > at {
        assert(keys[at] == key);
    }
}

/// `keys` with `key` behind it, unless it is one of them already.
pub open spec fn with_key(keys: Seq<Seq<char>>, key: Seq<char>) -> Seq<Seq<char>> {
    if has_key(keys, key) {
        keys
    } else {
        keys.push(key)
    }
}

/// `keys` without `key`.
pub open spec fn without_key(keys: Seq<Seq<char>>, key: Seq<char>) -> Seq<Seq<char>> {
    if has_key(keys, key) {
        keys.remove(key_index(keys, key))
    } else {
        keys
    }
}

/// Adding a text that is not there keeps the texts distinct, and so does
/// taking one out.
pub proof fn lemma_distinct_kept(keys: Seq<Seq<char>>, key: Seq<char>)
    requires
        distinct(keys),
    ensures
        distinct(with_key(keys, key)),
        distinct(without_key(keys, key)),
        !has_key(without_key(keys, key), key),
        has_key(with_key(keys, key), key),
{
    lemma_key_index(keys, key);
    let k = key_index(keys, key);
    if has_key(keys, key) {
        let rest = keys.remove(k);
        assert forall|j: int| 0 <= j < rest.len() implies rest[j] != key by {
            if j < k {
                assert(rest[j] == keys[j]);
            } else {
                assert(rest[j] == keys[j + 1]);
            }
        }
        lemma_key_index_is(rest, key, rest.len() as int);
    } else {
        let more = keys.push(key);
        lemma_key_index_is(more, key, keys.len() as int);
    }
}

/// Adds `key` to a list of distinct texts, unless it is there.
pub fn insert_key(keys: &mut Vec<String>, key: String)
    ensures
        final(keys).deep_view() == with_key(old(keys).deep_view(), key@),
{
    let ghost before = keys.deep_view();
    match position_of(keys, key.as_str()) {
        Some(_) => {},
        None => {
            keys.push(key);
            assert(keys.deep_view() =~= before.push(key@));
        },
    }
}

/// Takes `key` out of a list of texts.
pub fn remove_key(keys: &mut Vec<String>, key: &str)
    ensures
        final(keys).deep_view() == without_key(old(keys).deep_view(), key@),
{
    let ghost before = keys.deep_view();
    match position_of(keys, key) {
        Some(at) => {
            keys.remove(at);
            assert(keys.deep_view() =~= before.remove(at as int));
        },
        None => {},
    }
}

/// The index after `content` is stored under `hash`: in the place of the
/// entry that the hash had, or behind all others where it had none.
pub open spec fn index_put(
    keys: Seq<Seq<char>>,
    entries: Seq<ContentView>,
    hash: Seq<char>,
    content: ContentView,
) -> (Seq<Seq<char>>, Seq<ContentView>) {
    if has_key(keys, hash) {
        (keys, entries.update(key_index(keys, hash), content))
    } else {
        (keys.push(hash), entries.push(content))
    }
}

/// Looks `key` up in `keys`.
pub fn position_of(keys: &Vec<String>, key: &str) -> (r: Option<usize>)
    ensures
        match r {
            Some(at) => at == key_index(keys.deep_view(), key@) && at < keys.len(),
            None => !has_key(keys.deep_view(), key@),
        },
{
    let mut i: usize = 0;
    while i < keys.len()
        invariant
            i <= keys.len(),
            forall|j: int| 0 <= j < i ==> keys.deep_view()[j] != key@,
        decreases keys.len() - i,
    {
        if same_text(keys[i].as_str(), key) {
            proof {
                lemma_key_index_is(keys.deep_view(), key@, i as int);
            }
            return Some(i);
        }
        i += 1;
    }
    proof {
        lemma_key_index_is(keys.deep_view(), key@, i as int);
    }
    None
}

/// What follows the last `b` in `s`: all of `s` where there is none.
pub open spec fn after_last(s: Seq<u8>, b: u8) -> Seq<u8>
    decreases s.len(),
{
    if s.len() == 0 || s.last() == b {
        Seq::empty()
    } else {
        after_last(s.drop_last(), b).push(s.last())
    }
}

/// `s` without the `b` bytes at its end.
pub open spec fn without_trailing(s: Seq<u8>, b: u8) -> Seq<u8>
    decreases s.len(),
{
    if s.len() > 0 && s.last() == b {
        without_trailing(s.drop_last(), b)
    } else {
        s
    }
}

/// The last segment of a `/`-separated path, trailing slashes set aside.
pub open spec fn last_segment(path: Seq<u8>) -> Seq<u8> {
    after_last(without_trailing(path, SLASH), SLASH)
}

/// The last segment of a `/`-separated path, trailing slashes set aside.
pub fn file_name(path: &[u8]) -> (r: Vec<u8>)
    ensures
        r@ == last_segment(path@),
{
    let mut end: usize = path.len();
    assert(path@.subrange(0, path@.len() as int) =~= path@);
    while end > 0 && path[end - 1] == SLASH
        invariant
            end <= path.len(),
            without_trailing(path@, SLASH) == without_trailing(
                path@.subrange(0, end as int),
                SLASH,
            ),
        decreases end,
    {
        assert(path@.subrange(0, end as int).drop_last() =~= path@.subrange(0, end - 1));
        end -= 1;
    }
    let ghost body = path@.subrange(0, end as int);
    assert(without_trailing(path@, SLASH) == body);
    let mut start: usize = end;
    assert(body.subrange(0, end as int) =~= body);
    assert(after_last(body, SLASH) + body.subrange(end as int, end as int) =~= after_last(
        body,
        SLASH,
    ));
    while start > 0 && path[start - 1] != SLASH
        invariant
            start <= end <= path.len(),
            body == path@.subrange(0, end as int),
            after_last(body, SLASH) == after_last(body.subrange(0, start as int), SLASH)
                + body.subrange(start as int, end as int),
        decreases start,
    {
        let ghost head = body.subrange(0, start as int);
        assert(head.drop_last() =~= body.subrange(0, start - 1));
        assert(head.last() == path@[start - 1]);
        assert(after_last(head.drop_last(), SLASH).push(head.last()) + body.subrange(
            start as int,
            end as int,
        ) =~= after_last(head.drop_last(), SLASH) + body.subrange(start - 1, end as int));
        start -= 1;
    }
    assert(after_last(body.subrange(0, start as int), SLASH) =~= Seq::<u8>::empty());
    assert(Seq::<u8>::empty() + body.subrange(start as int, end as int) =~= path@.subrange(
        start as int,
        end as int,
    ));
    slice_copy(path, start, end)
}

/// The name under which an entry is shown: its title, or the file name of
/// its path where it has no title (nothing where that is no text).
pub open spec fn display_name(c: ContentView) -> Seq<char> {
    if c.title.len() > 0 {
        c.title
    } else {
        match text_of(last_segment(encode_utf8(c.path))) {
            Some(name) => name,
            None => Seq::empty(),
        }
    }
}

/// Whether the folded query `ql` occurs in the lower-case form of `text`.
pub open spec fn text_matches(text: Seq<char>, ql: Seq<char>) -> bool {
    contains_seq(encode_utf8(lowercase(text)), encode_utf8(ql))
}

/// Whether one of `tags` matches the folded query.
pub open spec fn any_tag_matches(tags: Seq<Seq<char>>, ql: Seq<char>) -> bool {
    exists|i: int| 0 <= i < tags.len() && text_matches(#[trigger] tags[i], ql)
}

/// Whether an entry matches the folded query by name, author or tag.
pub open spec fn entry_matches(c: ContentView, ql: Seq<char>) -> bool {
    ||| text_matches(display_name(c), ql)
    ||| (c.author is Some && text_matches(c.author->0, ql))
    ||| any_tag_matches(c.tags, ql)
}

/// The pairs of hash and name that a search over the entries gives, in the
/// order of the entries.
pub open spec fn hits(keys: Seq<Seq<char>>, entries: Seq<ContentView>, ql: Seq<char>) -> Seq<
    (Seq<char>, Seq<char>),
>
    decreases keys.len(),
{
    if keys.len() == 0 || entries.len() == 0 {
        Seq::empty()
    } else {
        let before = hits(keys.drop_last(), entries.drop_last(), ql);
        if entry_matches(entries.last(), ql) {
            before.push((keys.last(), display_name(entries.last())))
        } else {
            before
        }
    }
}

impl IndexedContent {
    /// The name under which the entry is shown.
    pub fn name(&self) -> (r: String)
        ensures
            r@ == display_name(self@),
    {
        if self.title.as_str().unicode_len() > 0 {
            self.title.clone()
        } else {
            let segment = file_name(self.path.as_str().as_bytes());
            match utf8_text(segment.as_slice()) {
                Some(name) => name,
                None => String::new(),
            }
        }
    }

    /// Tests the entry against a query that is already in lower case.
    pub fn matches_folded(&self, ql: &str) -> (r: bool)
        ensures
            r == entry_matches(self@, ql@),
    {
        let name = self.name();
        if folded_contains(name.as_str(), ql) {
            return true;
        }
        match &self.author {
            Some(a) => {
                if folded_contains(a.as_str(), ql) {
                    return true;
                }
            },
            None => {},
        }
        let mut i: usize = 0;
        while i < self.tags.len()
            invariant
                i <= self.tags.len(),
                forall|j: int|
                    0 <= j < i ==> !text_matches(#[trigger] self.tags.deep_view()[j], ql@),
            decreases self.tags.len() - i,
        {
            if folded_contains(self.tags[i].as_str(), ql) {
                assert(text_matches(self.tags.deep_view()[i as int], ql@));
                return true;
            }
            i += 1;
        }
        false
    }
}

/// Tests whether the folded query `ql` occurs in the lower-case form of `text`.
pub fn folded_contains(text: &str, ql: &str) -> (r: bool)
    ensures
        r == text_matches(text@, ql@),
{
    let low = to_lower(text);
    contains(low.as_str().as_bytes(), ql.as_bytes())
}

/// The content index: entries by content hash, each hash once, in the order
/// in which the hashes first came.
#[derive(Debug)]
pub struct ContentIndex {
    hashes: Vec<String>,
    items: Vec<IndexedContent>,
}

impl ContentIndex {
    /// The hashes, in order.
    pub closed spec fn keys(&self) -> Seq<Seq<char>> {
        self.hashes.deep_view()
    }

    /// The entries, in the order of their hashes.
    pub closed spec fn entries(&self) -> Seq<ContentView> {
        self.items.deep_view()
    }

    /// One entry for each hash, and no hash twice.
    pub closed spec fn wf(&self) -> bool {
        self.hashes.len() == self.items.len() && distinct(self.hashes.deep_view())
    }

    /// What holds of every well-formed index.
    pub proof fn lemma_wf(&self)
        requires
            self.wf(),
        ensures
            self.keys().len() == self.entries().len(),
            distinct(self.keys()),
    {
    }

    /// An index without entries.
    pub fn new() -> (r: ContentIndex)
        ensures
            r.wf(),
            r.keys() == Seq::<Seq<char>>::empty(),
            r.entries() == Seq::<ContentView>::empty(),
    {
        let r = ContentIndex { hashes: Vec::new(), items: Vec::new() };
        assert(r.hashes.deep_view() =~= Seq::<Seq<char>>::empty());
        assert(r.items.deep_view() =~= Seq::<ContentView>::empty());
        r
    }

    /// Number of entries.
    pub fn len(&self) -> (r: usize)
        requires
            self.wf(),
        ensures
            r == self.keys().len(),
    {
        self.hashes.len()
    }

    /// The hash at position `at`.
    pub fn hash_at(&self, at: usize) -> (r: &String)
        requires
            self.wf(),
            at < self.keys().len(),
        ensures
            r@ == self.keys()[at as int],
    {
        &self.hashes[at]
    }

    /// The entry at position `at`.
    pub fn entry_at(&self, at: usize) -> (r: &IndexedContent)
        requires
            self.wf(),
            at < self.keys().len(),
        ensures
            r@ == self.entries()[at as int],
    {
        &self.items[at]
    }

    /// Looks a hash up.
    pub fn get(&self, hash: &str) -> (r: Option<&IndexedContent>)
        requires
            self.wf(),
        ensures
            match r {
                Some(c) => has_key(self.keys(), hash@) && c@ == self.entries()[key_index(
                    self.keys(),
                    hash@,
                )],
                None => !has_key(self.keys(), hash@),
            },
    {
        match position_of(&self.hashes, hash) {
            Some(at) => Some(&self.items[at]),
            None => None,
        }
    }

    /// Stores `content` under `hash`: in the place of the entry that the hash
    /// had, or behind all others where it had none.
    pub fn insert(&mut self, hash: String, content: IndexedContent)
        requires
            old(self).wf(),
        ensures
            final(self).wf(),
            (final(self).keys(), final(self).entries()) == index_put(
                old(self).keys(),
                old(self).entries(),
                hash@,
                content@,
            ),
    {
        let ghost keys0 = self.hashes.deep_view();
        let ghost items0 = self.items.deep_view();
        match position_of(&self.hashes, hash.as_str()) {
            Some(at) => {
                self.items.set(at, content);
                assert(self.items.deep_view() =~= items0.update(at as int, content@));
            },
            None => {
                proof {
                    lemma_key_index(keys0, hash@);
                }
                self.hashes.push(hash);
                self.items.push(content);
                assert(self.hashes.deep_view() =~= keys0.push(hash@));
                assert(self.items.deep_view() =~= items0.push(content@));
            },
        }
    }

    /// Searches with a query that is already in lower case.
    pub fn search_folded(&self, ql: &str) -> (r: Vec<(String, String)>)
        requires
            self.wf(),
        ensures
            r.deep_view() == hits(self.keys(), self.entries(), ql@),
    {
        let mut out: Vec<(String, String)> = Vec::new();
        let mut i: usize = 0;
        let ghost keys = self.hashes.deep_view();
        let ghost entries = self.items.deep_view();
        assert(out.deep_view() =~= hits(keys.subrange(0, 0), entries.subrange(0, 0), ql@));
        while i < self.hashes.len()
            invariant
                i <= self.hashes.len(),
                self.hashes.len() == self.items.len(),
                keys == self.hashes.deep_view(),
                entries == self.items.deep_view(),
                out.deep_view() == hits(
                    keys.subrange(0, i as int),
                    entries.subrange(0, i as int),
                    ql@,
                ),
            decreases self.hashes.len() - i,
        {
            let ghost before = out.deep_view();
            assert(keys.subrange(0, i + 1).drop_last() =~= keys.subrange(0, i as int));
            assert(entries.subrange(0, i + 1).drop_last() =~= entries.subrange(0, i as int));
            assert(entries.subrange(0, i + 1).last() == self.items[i as int]@);
            assert(keys.subrange(0, i + 1).last() == self.hashes[i as int]@);
            if self.items[i].matches_folded(ql) {
                let hash = self.hashes[i].clone();
                let name = self.items[i].name();
                out.push((hash, name));
                assert(out.deep_view() =~= before.push(
                    (self.hashes[i as int]@, display_name(self.items[i as int]@)),
                ));
            }
            i += 1;
        }
        assert(keys.subrange(0, keys.len() as int) =~= keys);
        assert(entries.subrange(0, entries.len() as int) =~= entries);
        out
    }

    /// Searches the index: every entry whose name, author or one of whose tags
    /// holds the query, letter case set aside.
    pub fn search(&self, query: &str) -> (r: Vec<(String, String)>)
        requires
            self.wf(),
        ensures
            r.deep_view() == hits(self.keys(), self.entries(), lowercase(query@)),
    {
        let ql = to_lower(query);
        self.search_folded(ql.as_str())
    }
}

/// An entry that matches the query is among the hits, under its hash and name.
pub proof fn lemma_match_is_hit(
    keys: Seq<Seq<char>>,
    entries: Seq<ContentView>,
    ql: Seq<char>,
    at: int,
)
    requires
        keys.len() == entries.len(),
        0 <= at < keys.len(),
        entry_matches(entries[at], ql),
    ensures
        hits(keys, entries, ql).contains((keys[at], display_name(entries[at]))),
    decreases keys.len(),
{
    let before = hits(keys.drop_last(), entries.drop_last(), ql);
    if at == keys.len() - 1 {
        let all = before.push((keys.last(), display_name(entries.last())));
        assert(all[all.len() - 1] == (keys[at], display_name(entries[at])));
    } else {
        lemma_match_is_hit(keys.drop_last(), entries.drop_last(), ql, at);
        let pair = (keys[at], display_name(entries[at]));
        let k = choose|k: int| 0 <= k < before.len() && before[k] == pair;
        assert(hits(keys, entries, ql)[k] == pair);
    }
}

/// Every hit names an entry of the index that matches the query.
pub proof fn lemma_hit_is_match(
    keys: Seq<Seq<char>>,
    entries: Seq<ContentView>,
    ql: Seq<char>,
    k: int,
)
    requires
        keys.len() == entries.len(),
        0 <= k < hits(keys, entries, ql).len(),
    ensures
        exists|at: int|
            0 <= at < keys.len() && entry_matches(#[trigger] entries[at], ql) && hits(
                keys,
                entries,
                ql,
            )[k] == (keys[at], display_name(entries[at])),
    decreases keys.len(),
{
    let before = hits(keys.drop_last(), entries.drop_last(), ql);
    if k < before.len() {
        lemma_hit_is_match(keys.drop_last(), entries.drop_last(), ql, k);
        let at = choose|at: int|
            0 <= at < keys.len() - 1 && entry_matches(#[trigger] entries.drop_last()[at], ql)
                && before[k] == (keys.drop_last()[at], display_name(entries.drop_last()[at]));
        assert(entries[at] == entries.drop_last()[at]);
    } else {
        let at = keys.len() - 1;
        assert(entry_matches(entries[at], ql));
    }
}

} // verus!
