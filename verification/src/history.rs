//! The history of searches: the latest first, each query once, a hundred
//! at most.

use crate::strings::same_text;
use crate::tor_manager::{join_path, joined};
use vstd::prelude::*;
use vstd::string::*;

verus! {

/// How many queries the history keeps.
pub const HISTORY_LIMIT: usize = 100;

/// Where the history of a project is kept.
pub fn get_search_history_path(project_path: &str) -> (r: String)
    ensures
        r@ == joined(joined(project_path@, "cache"@), "search_history.json"@),
{
    let dir = join_path(project_path, "cache");
    join_path(dir.as_str(), "search_history.json")
}

/// Where what is known of a search index is kept.
pub fn get_index_info_path(index_path: &str) -> (r: String)
    ensures
        r@ == joined(index_path@, "index_info.json"@),
{
    join_path(index_path, "index_info.json")
}

/// The queries other than `query`, in order.
pub open spec fn others(history: Seq<Seq<char>>, query: Seq<char>) -> Seq<Seq<char>>
    decreases history.len(),
{
    if history.len() == 0 {
        Seq::empty()
    } else if history.last() == query {
        others(history.drop_last(), query)
    } else {
        others(history.drop_last(), query).push(history.last())
    }
}

/// The first `n` of the queries, or all where there are fewer.
pub open spec fn first_n(history: Seq<Seq<char>>, n: nat) -> Seq<Seq<char>> {
    if history.len() <= n {
        history
    } else {
        history.subrange(0, n as int)
    }
}

/// The history after `query` was searched for: the query first, then the
/// others as they were, a hundred in all at most.
pub open spec fn with_search(history: Seq<Seq<char>>, query: Seq<char>) -> Seq<Seq<char>> {
    first_n(seq![query] + others(history, query), HISTORY_LIMIT as nat)
}

/// Enters a search in the history.
pub fn add_search_to_history(history: &Vec<String>, query: String) -> (r: Vec<String>)
    ensures
        r.deep_view() == with_search(history.deep_view(), query@),
{
    let mut out: Vec<String> = Vec::new();
    let ghost all = history.deep_view();
    let ghost q = query@;
    out.push(query);
    assert(out.deep_view() =~= seq![q] + others(all.subrange(0, 0), q));
    let mut i: usize = 0;
    while i < history.len()
        invariant
            i <= history.len(),
            all == history.deep_view(),
            out.len() >= 1,
            out.deep_view() == seq![q] + others(all.subrange(0, i as int), q),
            out[0]@ == q,
        decreases history.len() - i,
    {
        let ghost before = out.deep_view();
        assert(all.subrange(0, i + 1).drop_last() =~= all.subrange(0, i as int));
        assert(all.subrange(0, i + 1).last() == history[i as int]@);
        if !same_text(history[i].as_str(), out[0].as_str()) {
            out.push(history[i].clone());
            assert(out.deep_view() =~= before.push(history[i as int]@));
            assert(before.push(history[i as int]@) =~= seq![q] + others(
                all.subrange(0, i as int),
                q,
            ).push(history[i as int]@));
        }
        i += 1;
    }
    assert(all.subrange(0, all.len() as int) =~= all);
    let ghost full = out.deep_view();
    if out.len() > HISTORY_LIMIT {
        out.truncate(HISTORY_LIMIT);
        assert(out.deep_view() =~= full.subrange(0, HISTORY_LIMIT as int));
    }
    out
}

/// The queries in the other order.
pub open spec fn reversed(history: Seq<Seq<char>>) -> Seq<Seq<char>> {
    Seq::new(history.len(), |i: int| history[history.len() - 1 - i])
}

/// The history as it is shown: in the other order than it is kept, `limit`
/// queries at most.
pub fn get_search_history(history: &Vec<String>, limit: u32) -> (r: Vec<String>)
    ensures
        r.deep_view() == first_n(reversed(history.deep_view()), limit as nat),
{
    let mut out: Vec<String> = Vec::new();
    let n = history.len();
    let mut i: usize = 0;
    while i < n && i < limit as usize
        invariant
            i <= n,
            i <= limit,
            n == history.len(),
            out.len() == i,
            forall|j: int| 0 <= j < i ==> out[j]@ == history[n - 1 - j]@,
        decreases n - i,
    {
        out.push(history[n - 1 - i].clone());
        i += 1;
    }
    assert(out.deep_view() =~= first_n(reversed(history.deep_view()), limit as nat));
    out
}

} // verus!
