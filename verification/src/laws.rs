//! What holds of every run of the overlay's state machine.

use crate::index::{
    display_name, distinct, entry_matches, has_key, hits, index_put, key_index, lemma_distinct_kept,
    lemma_key_index, lemma_key_index_is, lemma_match_is_hit, ContentView,
};
use crate::overlay::{
    fetch_failed,
    next,
    on_chunk_response,
    on_command,
    on_fetch,
    on_get_record,
    on_message,
    on_output_opened,
    on_publish_hash,
    on_put_record,
    on_query_finished,
    on_search,
    on_update_index,
    paired,
    query_index,
    text_error,
    wf_view,
    window_over,
    FetchView,
    OverlayView,
    PendingQuery,
};
use crate::protocol::{ActionView, CommandView, EventView, QueryOutcomeView, ReplyView, Ticket};
use crate::record::RECORD_TTL_SECS;
use crate::strings::lowercase;
use crate::gossip::GossipView;
use vstd::prelude::*;

verus! {

/// How often `t` occurs among tickets of which some may be missing.
pub open spec fn count(tickets: Seq<Option<Ticket>>, t: Ticket) -> nat
    decreases tickets.len(),
{
    if tickets.len() == 0 {
        0
    } else {
        count(tickets.drop_last(), t) + if tickets.last() == Some(t) {
            1nat
        } else {
            0nat
        }
    }
}

/// The ticket that an action replies to, if it is a reply.
pub open spec fn reply_ticket(a: ActionView) -> Option<Ticket> {
    match a {
        ActionView::Reply { to, .. } => Some(to),
        _ => None,
    }
}

/// The tickets that the actions reply to, in order.
pub open spec fn reply_tickets(actions: Seq<ActionView>) -> Seq<Option<Ticket>> {
    Seq::new(actions.len(), |i: int| reply_ticket(actions[i]))
}

/// The tickets of the pending queries.
pub open spec fn query_tickets(pending: Seq<PendingQuery>) -> Seq<Option<Ticket>> {
    Seq::new(pending.len(), |i: int| Some(pending[i].reply))
}

/// The tickets of the callers that wait for a hidden service.
pub open spec fn waiter_tickets(waiters: Seq<Ticket>) -> Seq<Option<Ticket>> {
    Seq::new(waiters.len(), |i: int| Some(waiters[i]))
}

/// How many replies the state owes on ticket `t`: one for each slot,
/// pending query and waiting caller that holds it.
pub open spec fn owed(v: OverlayView, t: Ticket) -> nat {
    (match v.fetch {
        Some(f) => if f.reply == t {
            1nat
        } else {
            0nat
        },
        None => 0nat,
    }) + (match v.search {
        Some(s) => if s.reply == t {
            1nat
        } else {
            0nat
        },
        None => 0nat,
    }) + count(query_tickets(v.pending), t) + count(waiter_tickets(v.waiters), t)
}

/// How many of the actions reply on ticket `t`.
pub open spec fn replied(actions: Seq<ActionView>, t: Ticket) -> nat {
    count(reply_tickets(actions), t)
}

/// How many replies on ticket `t` the event asks for: one where it is a
/// command that expects its reply there.
pub open spec fn asked(event: EventView, t: Ticket) -> nat {
    match event {
        EventView::Command(cmd) => if cmd.ticket() == Some(t) {
            1nat
        } else {
            0nat
        },
        _ => 0nat,
    }
}

proof fn lemma_count_push(s: Seq<Option<Ticket>>, x: Option<Ticket>, t: Ticket)
    ensures
        count(s.push(x), t) == count(s, t) + if x == Some(t) {
            1nat
        } else {
            0nat
        },
{
    assert(s.push(x).drop_last() =~= s);
}

proof fn lemma_count_concat(a: Seq<Option<Ticket>>, b: Seq<Option<Ticket>>, t: Ticket)
    ensures
        count(a + b, t) == count(a, t) + count(b, t),
    decreases b.len(),
{
    if b.len() == 0 {
        assert(a + b =~= a);
    } else {
        assert((a + b).drop_last() =~= a + b.drop_last());
        lemma_count_concat(a, b.drop_last(), t);
    }
}

proof fn lemma_count_remove(s: Seq<Option<Ticket>>, at: int, t: Ticket)
    requires
        0 <= at < s.len(),
    ensures
        count(s, t) == count(s.remove(at), t) + if s[at] == Some(t) {
            1nat
        } else {
            0nat
        },
    decreases s.len(),
{
    if at == s.len() - 1 {
        assert(s.remove(at) =~= s.drop_last());
    } else {
        assert(s.remove(at).drop_last() =~= s.drop_last().remove(at));
        lemma_count_remove(s.drop_last(), at, t);
    }
}

proof fn lemma_count_none(s: Seq<Option<Ticket>>, t: Ticket)
    requires
        forall|i: int| 0 <= i < s.len() ==> s[i] != Some(t),
    ensures
        count(s, t) == 0,
    decreases s.len(),
{
    if s.len() > 0 {
        lemma_count_none(s.drop_last(), t);
    }
}

proof fn lemma_count_one(x: Option<Ticket>, t: Ticket)
    ensures
        count(seq![x], t) == if x == Some(t) {
            1nat
        } else {
            0nat
        },
{
    assert(seq![x].drop_last() =~= Seq::<Option<Ticket>>::empty());
    assert(count(Seq::<Option<Ticket>>::empty(), t) == 0);
    assert(seq![x].last() == x);
}

proof fn lemma_replied_one(a: ActionView, t: Ticket)
    ensures
        replied(seq![a], t) == if reply_ticket(a) == Some(t) {
            1nat
        } else {
            0nat
        },
{
    assert(reply_tickets(seq![a]) =~= seq![reply_ticket(a)]);
    lemma_count_one(reply_ticket(a), t);
}

proof fn lemma_replied_two(a: ActionView, b: ActionView, t: Ticket)
    ensures
        replied(seq![a, b], t) == (if reply_ticket(a) == Some(t) {
            1nat
        } else {
            0nat
        }) + (if reply_ticket(b) == Some(t) {
            1nat
        } else {
            0nat
        }),
{
    assert(reply_tickets(seq![a, b]) =~= seq![reply_ticket(a)].push(reply_ticket(b)));
    lemma_count_push(seq![reply_ticket(a)], reply_ticket(b), t);
    lemma_count_one(reply_ticket(a), t);
}

proof fn lemma_replied_three(a: ActionView, b: ActionView, c: ActionView, t: Ticket)
    ensures
        replied(seq![a, b, c], t) == (if reply_ticket(a) == Some(t) {
            1nat
        } else {
            0nat
        }) + (if reply_ticket(b) == Some(t) {
            1nat
        } else {
            0nat
        }) + (if reply_ticket(c) == Some(t) {
            1nat
        } else {
            0nat
        }),
{
    assert(reply_tickets(seq![a, b, c]) =~= reply_tickets(seq![a, b]).push(reply_ticket(c)));
    lemma_count_push(reply_tickets(seq![a, b]), reply_ticket(c), t);
    lemma_replied_two(a, b, t);
}

proof fn lemma_replied_none(actions: Seq<ActionView>, t: Ticket)
    requires
        forall|i: int| 0 <= i < actions.len() ==> reply_ticket(#[trigger] actions[i]) is None,
    ensures
        replied(actions, t) == 0,
{
    lemma_count_none(reply_tickets(actions), t);
}

proof fn lemma_fetch_failed_replies(f: FetchView, message: Seq<char>, t: Ticket)
    ensures
        replied(fetch_failed(f, message), t) == if f.reply == t {
            1nat
        } else {
            0nat
        },
{
    lemma_replied_two(ActionView::CloseOutput, text_error(f.reply, message), t);
}

proof fn lemma_conserved_command(
    pre: OverlayView,
    cmd: CommandView,
    now: u64,
    id: Seq<char>,
    t: Ticket,
)
    ensures
        owed(on_command(pre, cmd, now, id).0, t) + replied(on_command(pre, cmd, now, id).1, t)
            == owed(pre, t) + asked(EventView::Command(cmd), t),
{
    let post = on_command(pre, cmd, now, id).0;
    let acts = on_command(pre, cmd, now, id).1;
    match cmd {
        CommandView::AddBootstrap { addrs } => {
            lemma_replied_none(acts, t);
        },
        CommandView::PublishHash { hash } => {
            lemma_replied_one(acts[0], t);
        },
        CommandView::UpdateIndex { hash, path, title, author, tags } => {
            lemma_replied_two(acts[0], acts[1], t);
        },
        CommandView::Fetch { hash, out_path, reply } => {
            lemma_replied_one(acts[0], t);
        },
        CommandView::Search { query, reply } => {
            lemma_replied_one(acts[0], t);
        },
        CommandView::GetMetrics { reply } => {
            lemma_replied_one(acts[0], t);
        },
        CommandView::PutRecord { key, value, reply } => {
            lemma_replied_one(acts[0], t);
            if pre.next_op != u64::MAX {
                assert(query_tickets(post.pending) =~= query_tickets(pre.pending).push(
                    Some(reply),
                ));
                lemma_count_push(query_tickets(pre.pending), Some(reply), t);
            }
        },
        CommandView::GetRecord { key, reply } => {
            lemma_replied_one(acts[0], t);
            if pre.next_op != u64::MAX {
                assert(query_tickets(post.pending) =~= query_tickets(pre.pending).push(
                    Some(reply),
                ));
                lemma_count_push(query_tickets(pre.pending), Some(reply), t);
            }
        },
        CommandView::Bootstrap { reply } => {
            lemma_replied_one(acts[0], t);
            if pre.next_op != u64::MAX {
                assert(query_tickets(post.pending) =~= query_tickets(pre.pending).push(
                    Some(reply),
                ));
                lemma_count_push(query_tickets(pre.pending), Some(reply), t);
            }
        },
        CommandView::GetMyOnionAddress { reply } => {
            lemma_replied_one(acts[0], t);
        },
        CommandView::GetNetworkPeers { reply } => {
            lemma_replied_one(acts[0], t);
        },
        CommandView::AddPeerAddress { address, reply } => {
            if crate::address::parsed_address(address) is Ok {
                lemma_replied_three(acts[0], acts[1], acts[2], t);
            } else {
                lemma_replied_one(acts[0], t);
            }
        },
        CommandView::ForceCreateOnionService { reply } => {
            lemma_replied_one(acts[0], t);
            assert(waiter_tickets(post.waiters) =~= waiter_tickets(pre.waiters).push(Some(reply)));
            lemma_count_push(waiter_tickets(pre.waiters), Some(reply), t);
        },
    }
}

/// No reply is lost and none is made up. As long as no caller goes away:
/// on every ticket, what the state owes after a step and what the step
/// replies add up to what the state owed before and what the event asked
/// for. A command on a ticket that nothing is owed on is therefore answered
/// at once or owed one reply, and a ticket leaves the state only by a
/// reply.
pub proof fn lemma_replies_conserved(
    pre: OverlayView,
    event: EventView,
    now: u64,
    id: Seq<char>,
    t: Ticket,
)
    requires
        !(event is CallerGone),
    ensures
        owed(next(pre, event, now, id).0, t) + replied(next(pre, event, now, id).1, t) == owed(
            pre,
            t,
        ) + asked(event, t),
{
    let post = next(pre, event, now, id).0;
    let acts = next(pre, event, now, id).1;
    match event {
        EventView::Command(cmd) => {
            lemma_conserved_command(pre, cmd, now, id, t);
        },
        EventView::ConnectionEstablished { peer } => {
            lemma_replied_none(acts, t);
        },
        EventView::ConnectionClosed { peer } => {
            match pre.fetch {
                Some(f) => {
                    if f.peer == Some(peer) {
                        lemma_fetch_failed_replies(f, "peer disconnected"@, t);
                    } else {
                        lemma_replied_none(acts, t);
                    }
                },
                None => {
                    lemma_replied_none(acts, t);
                },
            }
        },
        EventView::ChunkRequest { channel, payload } => {
            lemma_replied_one(acts[0], t);
        },
        EventView::ChunkResponse { data } => {
            match pre.fetch {
                Some(f) => {
                    if f.peer is Some {
                        if data.len() == 0 {
                            lemma_replied_two(acts[0], acts[1], t);
                        } else if f.offset + data.len() > u64::MAX {
                            lemma_fetch_failed_replies(f, "transfer too large"@, t);
                        } else {
                            lemma_replied_two(acts[0], acts[1], t);
                        }
                    } else {
                        lemma_replied_none(acts, t);
                    }
                },
                None => {
                    lemma_replied_none(acts, t);
                },
            }
        },
        EventView::RequestFailed => {
            match pre.fetch {
                Some(f) => {
                    if f.peer is Some {
                        lemma_fetch_failed_replies(f, "chunk request failed"@, t);
                    } else {
                        lemma_replied_none(acts, t);
                    }
                },
                None => {
                    lemma_replied_none(acts, t);
                },
            }
        },
        EventView::Gossip { topic, data } => {
            lemma_replied_none(acts, t);
        },
        EventView::OutputOpened { ok } => {
            match pre.fetch {
                Some(f) => {
                    if f.peer is Some {
                        lemma_replied_none(acts, t);
                    } else if !ok {
                        lemma_replied_one(acts[0], t);
                    } else if pre.connected.len() == 0 {
                        lemma_fetch_failed_replies(f, "no peers connected"@, t);
                    } else {
                        lemma_replied_one(acts[0], t);
                    }
                },
                None => {
                    lemma_replied_none(acts, t);
                },
            }
        },
        EventView::QueryRejected { op, error } => {
            let at = query_index(pre.pending, op);
            if 0 <= at < pre.pending.len() {
                lemma_replied_one(acts[0], t);
                assert(query_tickets(post.pending) =~= query_tickets(pre.pending).remove(at));
                lemma_count_remove(query_tickets(pre.pending), at, t);
            } else {
                lemma_replied_none(acts, t);
            }
        },
        EventView::QueryFinished { op, outcome } => {
            let at = query_index(pre.pending, op);
            if 0 <= at < pre.pending.len() && crate::overlay::finished_reply(
                pre.pending[at].kind,
                outcome,
            ) is Some {
                lemma_replied_one(acts[0], t);
                assert(query_tickets(post.pending) =~= query_tickets(pre.pending).remove(at));
                lemma_count_remove(query_tickets(pre.pending), at, t);
            } else {
                lemma_replied_none(acts, t);
            }
        },
        EventView::HiddenServiceResult { result } => {
            if pre.waiters.len() == 0 {
                lemma_replied_none(acts, t);
            } else {
                lemma_replied_one(acts[0], t);
                assert(waiter_tickets(post.waiters) =~= waiter_tickets(pre.waiters).remove(0));
                lemma_count_remove(waiter_tickets(pre.waiters), 0, t);
            }
        },
        EventView::CallerGone { reply } => {
        },
        EventView::Tick => {
            let over = window_over(pre, now);
            let first: Seq<ActionView> = if over {
                seq![
                    ActionView::Reply {
                        to: pre.search->0.reply,
                        body: ReplyView::Hits(paired(pre.search->0.hashes, pre.search->0.names)),
                    },
                ]
            } else {
                Seq::empty()
            };
            let second: Seq<ActionView> = if pre.ticks + 1 >= crate::overlay::TICKS_PER_BOOTSTRAP {
                seq![ActionView::Bootstrap { op: None }]
            } else {
                Seq::empty()
            };
            assert(acts == first + second);
            assert(reply_tickets(first + second) =~= reply_tickets(first) + reply_tickets(second));
            lemma_count_concat(reply_tickets(first), reply_tickets(second), t);
            lemma_replied_none(second, t);
            if over {
                lemma_replied_one(first[0], t);
            } else {
                lemma_replied_none(first, t);
            }
        },
        EventView::AnnounceTick => {
            lemma_replied_none(acts, t);
        },
    }
}

/// Every state that the machine reaches from a well-formed state is
/// well-formed.
pub proof fn lemma_step_keeps_wf(pre: OverlayView, event: EventView, now: u64, id: Seq<char>)
    requires
        wf_view(pre),
    ensures
        wf_view(next(pre, event, now, id).0),
{
    let post = next(pre, event, now, id).0;
    match event {
        EventView::Command(cmd) => {
            match cmd {
                CommandView::UpdateIndex { hash, path, title, author, tags } => {
                    lemma_put_keeps_distinct(
                        pre.keys,
                        pre.entries,
                        hash,
                        ContentView { path, title, author, tags },
                    );
                },
                _ => {},
            }
        },
        EventView::ConnectionEstablished { peer } => {
            lemma_distinct_kept(pre.connected, peer);
        },
        EventView::ConnectionClosed { peer } => {
            lemma_distinct_kept(pre.connected, peer);
        },
        EventView::Gossip { topic, data } => {
            let m = crate::gossip::message_of(topic, data);
            match m {
                Some(GossipView::Content { hash, title, author, tags }) => {
                    lemma_put_keeps_distinct(
                        pre.keys,
                        pre.entries,
                        hash,
                        ContentView {
                            path: crate::overlay::discovered_marker() + hash,
                            title,
                            author: Some(author),
                            tags,
                        },
                    );
                },
                _ => {},
            }
        },
        EventView::CallerGone { reply } => {
            lemma_kept_queries(pre.pending, reply, pre.next_op, reply);
        },
        EventView::QueryRejected { op, error } => {
            let at = query_index(pre.pending, op);
            if 0 <= at < pre.pending.len() {
                assert forall|i: int| 0 <= i < post.pending.len() implies (
                #[trigger] post.pending[i]).op < post.next_op by {
                    if i < at {
                        assert(post.pending[i] == pre.pending[i]);
                    } else {
                        assert(post.pending[i] == pre.pending[i + 1]);
                    }
                }
            }
        },
        EventView::QueryFinished { op, outcome } => {
            let at = query_index(pre.pending, op);
            if 0 <= at < pre.pending.len() {
                assert forall|i: int| 0 <= i < post.pending.len() implies (
                #[trigger] post.pending[i]).op < post.next_op by {
                    if post.pending == pre.pending {
                    } else if i < at {
                        assert(post.pending[i] == pre.pending[i]);
                    } else {
                        assert(post.pending[i] == pre.pending[i + 1]);
                    }
                }
            }
        },
        _ => {},
    }
}

/// Storing an entry keeps the hashes distinct and one entry for each hash.
pub proof fn lemma_put_keeps_distinct(
    keys: Seq<Seq<char>>,
    entries: Seq<ContentView>,
    hash: Seq<char>,
    content: ContentView,
)
    requires
        keys.len() == entries.len(),
        distinct(keys),
    ensures
        index_put(keys, entries, hash, content).0.len() == index_put(
            keys,
            entries,
            hash,
            content,
        ).1.len(),
        distinct(index_put(keys, entries, hash, content).0),
        has_key(index_put(keys, entries, hash, content).0, hash),
        index_put(keys, entries, hash, content).1[key_index(
            index_put(keys, entries, hash, content).0,
            hash,
        )] == content,
{
    lemma_key_index(keys, hash);
    lemma_distinct_kept(keys, hash);
    if !has_key(keys, hash) {
        lemma_key_index_is(keys.push(hash), hash, keys.len() as int);
    }
}

/// The set of connected peers changes only when a connection comes up or
/// goes down: no command and no other event touches it.
pub proof fn lemma_peers_follow_connections(
    pre: OverlayView,
    event: EventView,
    now: u64,
    id: Seq<char>,
)
    requires
        !(event is ConnectionEstablished),
        !(event is ConnectionClosed),
    ensures
        next(pre, event, now, id).0.connected == pre.connected,
{
}

/// Of two fetches that come one after the other to a free slot, the first
/// takes the slot and the second is refused with the slot left as it is.
pub proof fn lemma_one_fetch_at_a_time(
    pre: OverlayView,
    first: (Seq<char>, Seq<char>, Ticket),
    second: (Seq<char>, Seq<char>, Ticket),
)
    requires
        pre.fetch is None,
    ensures
        ({
            let one = on_fetch(pre, first.0, first.1, first.2);
            let two = on_fetch(one.0, second.0, second.1, second.2);
            &&& one.0.fetch is Some
            &&& one.0.fetch->0.hash == first.0
            &&& one.0.fetch->0.reply == first.2
            &&& two.0 == one.0
            &&& two.1 == seq![text_error(second.2, "fetch slot busy"@)]
        }),
{
}

/// A fetch that finds the slot busy is refused, whatever holds the slot.
pub proof fn lemma_busy_slot_refuses(
    pre: OverlayView,
    hash: Seq<char>,
    out_path: Seq<char>,
    reply: Ticket,
)
    requires
        pre.fetch is Some,
    ensures
        on_fetch(pre, hash, out_path, reply) == (pre, seq![text_error(reply, "fetch slot busy"@)]),
{
}

/// After `UpdateIndex`, a search whose folded query occurs in the folded
/// name, author or a tag of the entry finds the entry under its hash.
pub proof fn lemma_indexed_is_found(
    pre: OverlayView,
    hash: Seq<char>,
    content: ContentView,
    query: Seq<char>,
)
    requires
        wf_view(pre),
        entry_matches(content, lowercase(query)),
    ensures
        ({
            let post = on_update_index(
                pre,
                hash,
                content.path,
                content.title,
                content.author,
                content.tags,
            ).0;
            hits(post.keys, post.entries, lowercase(query)).contains((hash, display_name(content)))
        }),
{
    let post = on_update_index(
        pre,
        hash,
        content.path,
        content.title,
        content.author,
        content.tags,
    ).0;
    lemma_put_keeps_distinct(pre.keys, pre.entries, hash, content);
    let at = key_index(post.keys, hash);
    lemma_key_index(post.keys, hash);
    lemma_match_is_hit(post.keys, post.entries, lowercase(query), at);
}

/// `PublishHash` leaves the state as it is, however often it comes.
pub proof fn lemma_publish_is_idempotent(pre: OverlayView, hash: Seq<char>)
    ensures
        on_publish_hash(pre, hash).0 == pre,
        on_publish_hash(on_publish_hash(pre, hash).0, hash) == on_publish_hash(pre, hash),
{
}

/// A search with a window of zero is answered at once, with the local hits
/// and nothing else, and takes no slot.
pub proof fn lemma_no_window_is_local(
    pre: OverlayView,
    query: Seq<char>,
    reply: Ticket,
    now: u64,
    id: Seq<char>,
)
    requires
        pre.window_ms == 0,
    ensures
        on_search(pre, query, reply, now, id) == (
            pre,
            seq![
                ActionView::Reply {
                    to: reply,
                    body: ReplyView::Hits(hits(pre.keys, pre.entries, lowercase(query))),
                },
            ],
        ),
{
}

/// A fetch on a node without connected peers fails with `no peers
/// connected` as soon as its output file is open, and frees the slot.
pub proof fn lemma_fetch_needs_a_peer(
    pre: OverlayView,
    hash: Seq<char>,
    out_path: Seq<char>,
    reply: Ticket,
)
    requires
        pre.fetch is None,
        pre.connected.len() == 0,
    ensures
        ({
            let asked = on_fetch(pre, hash, out_path, reply);
            let opened = on_output_opened(asked.0, true);
            &&& asked.1 == seq![ActionView::OpenOutput { path: out_path }]
            &&& opened.0 == pre
            &&& opened.1 == seq![
                ActionView::CloseOutput,
                text_error(reply, "no peers connected"@),
            ]
        }),
{
    let asked = on_fetch(pre, hash, out_path, reply);
    let opened = on_output_opened(asked.0, true);
    assert(opened.0 =~= pre);
}

/// A search response that carries the id of the search in the slot is
/// collected: its hash is among the hits afterwards, and so is its pair of
/// hash and name unless a hit with that hash was there before.
pub proof fn lemma_response_is_collected(
    pre: OverlayView,
    id: Seq<char>,
    hash: Seq<char>,
    name: Seq<char>,
)
    requires
        wf_view(pre),
        pre.search is Some,
        pre.search->0.id == id,
    ensures
        ({
            let post = on_message(pre, Some(GossipView::SearchResponse { id, hash, name })).0;
            &&& post.search is Some
            &&& post.search->0.reply == pre.search->0.reply
            &&& has_key(post.search->0.hashes, hash)
            &&& !has_key(pre.search->0.hashes, hash) ==> paired(
                post.search->0.hashes,
                post.search->0.names,
            ).contains((hash, name))
        }),
{
    let s = pre.search->0;
    let post = on_message(pre, Some(GossipView::SearchResponse { id, hash, name })).0;
    if !has_key(s.hashes, hash) {
        lemma_key_index(s.hashes, hash);
        lemma_key_index_is(s.hashes.push(hash), hash, s.hashes.len() as int);
        let pairs = paired(post.search->0.hashes, post.search->0.names);
        assert(pairs[s.hashes.len() as int] == (hash, name));
    }
}

/// While a search holds the slot, every hit that it has collected stays in
/// its place; and when the search leaves the slot, the reply on its ticket
/// carries all of them, unless its caller has gone away.
pub proof fn lemma_hits_are_delivered(pre: OverlayView, event: EventView, now: u64, id: Seq<char>)
    requires
        wf_view(pre),
        pre.search is Some,
        !(event is CallerGone),
    ensures
        ({
            let post = next(pre, event, now, id).0;
            let acts = next(pre, event, now, id).1;
            let before = paired(pre.search->0.hashes, pre.search->0.names);
            match post.search {
                Some(s) => s.reply == pre.search->0.reply && s.id == pre.search->0.id
                    && before.len() <= paired(s.hashes, s.names).len() && forall|i: int|
                    0 <= i < before.len() ==> paired(s.hashes, s.names)[i] == before[i],
                None => acts.contains(
                    ActionView::Reply {
                        to: pre.search->0.reply,
                        body: ReplyView::Hits(before),
                    },
                ),
            }
        }),
{
    let post = next(pre, event, now, id).0;
    let acts = next(pre, event, now, id).1;
    match event {
        EventView::Tick => {
            if window_over(pre, now) {
                assert(acts[0] == ActionView::Reply {
                    to: pre.search->0.reply,
                    body: ReplyView::Hits(paired(pre.search->0.hashes, pre.search->0.names)),
                });
            }
        },
        _ => {},
    }
}

/// An empty chunk ends the fetch: the slot is free, the output file is
/// closed and the caller gets the output path.
pub proof fn lemma_empty_chunk_ends_fetch(pre: OverlayView)
    requires
        pre.fetch is Some,
        pre.fetch->0.peer is Some,
    ensures
        on_chunk_response(pre, Seq::empty()).0.fetch is None,
        on_chunk_response(pre, Seq::empty()).1 == seq![
            ActionView::CloseOutput,
            ActionView::Reply {
                to: pre.fetch->0.reply,
                body: ReplyView::Text(Ok(pre.fetch->0.out_path)),
            },
        ],
{
}

/// The state after the chunks have come in, one after the other.
pub open spec fn after_chunks(pre: OverlayView, chunks: Seq<Seq<u8>>) -> OverlayView
    decreases chunks.len(),
{
    if chunks.len() == 0 {
        pre
    } else {
        on_chunk_response(after_chunks(pre, chunks.drop_last()), chunks.last()).0
    }
}

/// What has been written to the output file after the chunks have come in.
pub open spec fn written(pre: OverlayView, chunks: Seq<Seq<u8>>) -> Seq<u8>
    decreases chunks.len(),
{
    if chunks.len() == 0 {
        Seq::empty()
    } else {
        written(pre, chunks.drop_last()) + match on_chunk_response(
            after_chunks(pre, chunks.drop_last()),
            chunks.last(),
        ).1.first() {
            ActionView::WriteChunk { data } => data,
            _ => Seq::empty(),
        }
    }
}

/// The chunks written one after the other.
pub open spec fn flat(chunks: Seq<Seq<u8>>) -> Seq<u8>
    decreases chunks.len(),
{
    if chunks.len() == 0 {
        Seq::empty()
    } else {
        flat(chunks.drop_last()) + chunks.last()
    }
}

/// As long as the chunks that come in are not empty, the fetch goes on,
/// what is written is the chunks one after the other, and the offset of
/// the fetch is the length of what is written: the file is as long as the
/// chunks together.
pub proof fn lemma_file_is_sum_of_chunks(pre: OverlayView, chunks: Seq<Seq<u8>>)
    requires
        pre.fetch is Some,
        pre.fetch->0.peer is Some,
        forall|i: int| 0 <= i < chunks.len() ==> (#[trigger] chunks[i]).len() > 0,
        pre.fetch->0.offset + flat(chunks).len() <= u64::MAX,
    ensures
        after_chunks(pre, chunks).fetch is Some,
        after_chunks(pre, chunks).fetch->0.peer == pre.fetch->0.peer,
        after_chunks(pre, chunks).fetch->0.reply == pre.fetch->0.reply,
        after_chunks(pre, chunks).fetch->0.out_path == pre.fetch->0.out_path,
        after_chunks(pre, chunks).fetch->0.hash == pre.fetch->0.hash,
        after_chunks(pre, chunks).fetch->0.offset == pre.fetch->0.offset + flat(chunks).len(),
        written(pre, chunks) == flat(chunks),
    decreases chunks.len(),
{
    if chunks.len() > 0 {
        let head = chunks.drop_last();
        assert forall|i: int| 0 <= i < head.len() implies (#[trigger] head[i]).len() > 0 by {
            assert(head[i] == chunks[i]);
        }
        lemma_file_is_sum_of_chunks(pre, head);
    }
}

/// Every record that a step writes to the hash table names this node as
/// its publisher and lives for 24 hours.
pub proof fn lemma_records_carry_publisher(
    pre: OverlayView,
    event: EventView,
    now: u64,
    id: Seq<char>,
    at: int,
)
    requires
        0 <= at < next(pre, event, now, id).1.len(),
        next(pre, event, now, id).1[at] is PutRecord,
    ensures
        next(pre, event, now, id).1[at]->PutRecord_publisher == pre.local_peer,
        next(pre, event, now, id).1[at]->PutRecord_ttl_secs == RECORD_TTL_SECS,
{
    match event {
        EventView::Command(cmd) => {
            match cmd {
                CommandView::AddPeerAddress { address, reply } => {
                    if crate::address::parsed_address(address) is Ok {
                    }
                },
                _ => {},
            }
        },
        EventView::Gossip { topic, data } => {
            match crate::gossip::message_of(topic, data) {
                Some(GossipView::SearchRequest { id: i, query }) => {},
                _ => {},
            }
        },
        EventView::Tick => {
            let over = window_over(pre, now);
            if over {
            }
        },
        _ => {},
    }
}

/// The caller of `GetRecord` gets the value that the hash table found: a
/// table that keeps what `PutRecord` wrote hands the caller the value that
/// was put.
pub proof fn lemma_get_returns_what_was_found(
    pre: OverlayView,
    key: Seq<char>,
    value: Seq<u8>,
    put_reply: Ticket,
    get_reply: Ticket,
)
    requires
        wf_view(pre),
        pre.next_op + 1 < u64::MAX,
    ensures
        ({
            let put = on_put_record(pre, key, value, put_reply);
            let get = on_get_record(put.0, key, get_reply);
            let done = on_query_finished(
                get.0,
                (pre.next_op + 1) as u64,
                QueryOutcomeView::Get(Ok(value)),
            );
            &&& put.1 == seq![
                ActionView::PutRecord {
                    op: Some(pre.next_op),
                    key,
                    value,
                    publisher: pre.local_peer,
                    ttl_secs: RECORD_TTL_SECS,
                },
            ]
            &&& get.1 == seq![ActionView::GetRecord { op: Some((pre.next_op + 1) as u64), key }]
            &&& done.1 == seq![
                ActionView::Reply { to: get_reply, body: ReplyView::Record(Ok(value)) },
            ]
        }),
{
    let put = on_put_record(pre, key, value, put_reply);
    let get = on_get_record(put.0, key, get_reply);
    let op = (pre.next_op + 1) as u64;
    lemma_query_index_is(get.0.pending, op, get.0.pending.len() - 1);
}

/// A position holding the query `op` before which it does not stand is
/// its index.
pub proof fn lemma_query_index_is(pending: Seq<PendingQuery>, op: u64, at: int)
    requires
        0 <= at < pending.len(),
        pending[at].op == op,
        forall|j: int| 0 <= j < at ==> (#[trigger] pending[j]).op != op,
    ensures
        query_index(pending, op) == at,
    decreases at,
{
    if at > 0 {
        let rest = pending.drop_first();
        assert forall|j: int| 0 <= j < at - 1 implies (#[trigger] rest[j]).op != op by {
            assert(rest[j] == pending[j + 1]);
        }
        assert(pending[0].op != op);
        lemma_query_index_is(rest, op, at - 1);
    }
}

/// A search reaches across the overlay. Where node `b` holds an entry that
/// matches the query of the search that holds the slot of node `a`, `b`
/// answers the request of `a` with a response for that entry, and `a`
/// collects the entry's hash and name from that response. Ids and hashes
/// are taken to hold no separator, and `a` to have no hit with that hash
/// yet.
pub proof fn lemma_remote_hit_is_collected(
    a: OverlayView,
    b: OverlayView,
    query: Seq<char>,
    at: int,
)
    requires
        wf_view(a),
        wf_view(b),
        a.search is Some,
        0 <= at < b.keys.len(),
        entry_matches(b.entries[at], lowercase(query)),
        crate::text::free_of(vstd::utf8::encode_utf8(a.search->0.id), crate::gossip::PIPE),
        crate::text::free_of(vstd::utf8::encode_utf8(b.keys[at]), crate::gossip::PIPE),
        !has_key(a.search->0.hashes, b.keys[at]),
    ensures
        ({
            let id = a.search->0.id;
            let answer = ActionView::Publish {
                topic: crate::gossip::Topic::Content,
                data: crate::gossip::response_line(id, b.keys[at], display_name(b.entries[at])),
            };
            let heard = crate::overlay::on_gossip(
                a,
                crate::gossip::Topic::Content,
                crate::gossip::response_line(id, b.keys[at], display_name(b.entries[at])),
            ).0;
            &&& crate::overlay::on_gossip(
                b,
                crate::gossip::Topic::Content,
                crate::gossip::request_line(id, query),
            ).1.contains(answer)
            &&& heard.search is Some
            &&& paired(heard.search->0.hashes, heard.search->0.names).contains(
                (b.keys[at], display_name(b.entries[at])),
            )
        }),
{
    let id = a.search->0.id;
    let hash = b.keys[at];
    let name = display_name(b.entries[at]);
    crate::gossip::lemma_request_round_trip(id, query);
    crate::gossip::lemma_response_round_trip(id, hash, name);
    let found = hits(b.keys, b.entries, lowercase(query));
    lemma_match_is_hit(b.keys, b.entries, lowercase(query), at);
    let k = choose|k: int| 0 <= k < found.len() && found[k] == (hash, name);
    let answers = crate::overlay::on_gossip(
        b,
        crate::gossip::Topic::Content,
        crate::gossip::request_line(id, query),
    ).1;
    assert(answers[k] == ActionView::Publish {
        topic: crate::gossip::Topic::Content,
        data: crate::gossip::response_line(id, hash, name),
    });
    lemma_response_is_collected(a, id, hash, name);
}

/// The queries that are kept when a caller goes away were pending before,
/// and each other caller waits for as many as before.
pub proof fn lemma_kept_queries(pending: Seq<PendingQuery>, t: Ticket, bound: u64, other: Ticket)
    requires
        forall|i: int| 0 <= i < pending.len() ==> (#[trigger] pending[i]).op < bound,
    ensures
        forall|i: int|
            0 <= i < crate::overlay::queries_without(pending, t).len() ==> (
            #[trigger] crate::overlay::queries_without(pending, t)[i]).op < bound,
        count(query_tickets(crate::overlay::queries_without(pending, t)), other) == if other == t {
            0
        } else {
            count(query_tickets(pending), other)
        },
    decreases pending.len(),
{
    if pending.len() > 0 {
        let head = pending.drop_last();
        assert forall|i: int| 0 <= i < head.len() implies (#[trigger] head[i]).op < bound by {
            assert(head[i] == pending[i]);
        }
        lemma_kept_queries(head, t, bound, other);
        let kept = crate::overlay::queries_without(head, t);
        assert(query_tickets(pending).drop_last() =~= query_tickets(head));
        if pending.last().reply != t {
            assert(query_tickets(kept.push(pending.last())) =~= query_tickets(kept).push(
                Some(pending.last().reply),
            ));
            lemma_count_push(query_tickets(kept), Some(pending.last().reply), other);
        }
    } else {
        assert(query_tickets(Seq::<PendingQuery>::empty()) =~= Seq::<Option<Ticket>>::empty());
    }
}

/// The waiting callers that are kept when a caller goes away are the
/// others, as often as they waited.
pub proof fn lemma_kept_waiters(waiters: Seq<Ticket>, t: Ticket, other: Ticket)
    ensures
        count(waiter_tickets(crate::overlay::waiters_without(waiters, t)), other) == if other
            == t {
            0
        } else {
            count(waiter_tickets(waiters), other)
        },
    decreases waiters.len(),
{
    if waiters.len() > 0 {
        let head = waiters.drop_last();
        lemma_kept_waiters(head, t, other);
        let kept = crate::overlay::waiters_without(head, t);
        assert(waiter_tickets(waiters).drop_last() =~= waiter_tickets(head));
        if waiters.last() != t {
            assert(waiter_tickets(kept.push(waiters.last())) =~= waiter_tickets(kept).push(
                Some(waiters.last()),
            ));
            lemma_count_push(waiter_tickets(kept), Some(waiters.last()), other);
        }
    } else {
        assert(waiter_tickets(Seq::<Ticket>::empty()) =~= Seq::<Option<Ticket>>::empty());
    }
}

/// When a caller goes away nothing is owed on its ticket any more, what is
/// owed to the others stays as it is, and nothing is replied to anyone.
pub proof fn lemma_gone_caller_is_forgotten(pre: OverlayView, gone: Ticket, other: Ticket)
    requires
        wf_view(pre),
        other != gone,
    ensures
        owed(crate::overlay::on_caller_gone(pre, gone).0, gone) == 0,
        owed(crate::overlay::on_caller_gone(pre, gone).0, other) == owed(pre, other),
        replied(crate::overlay::on_caller_gone(pre, gone).1, gone) == 0,
        replied(crate::overlay::on_caller_gone(pre, gone).1, other) == 0,
{
    lemma_kept_queries(pre.pending, gone, pre.next_op, gone);
    lemma_kept_queries(pre.pending, gone, pre.next_op, other);
    lemma_kept_waiters(pre.waiters, gone, gone);
    lemma_kept_waiters(pre.waiters, gone, other);
    let acts = crate::overlay::on_caller_gone(pre, gone).1;
    lemma_replied_none(acts, gone);
    lemma_replied_none(acts, other);
}

/// The chunks that an honest peer serves of `content` from `offset` on,
/// up to the empty one that ends the transfer.
pub open spec fn honest_chunks(content: Seq<u8>, offset: nat) -> Seq<Seq<u8>>
    decreases content.len() - offset,
{
    if offset >= content.len() {
        Seq::empty()
    } else {
        seq![crate::chunk::chunk_at(content, offset)] + honest_chunks(
            content,
            offset + crate::chunk::chunk_at(content, offset).len(),
        )
    }
}

proof fn lemma_flat_front(head: Seq<u8>, rest: Seq<Seq<u8>>)
    ensures
        flat(seq![head] + rest) == head + flat(rest),
    decreases rest.len(),
{
    let all = seq![head] + rest;
    if rest.len() == 0 {
        assert(all =~= seq![head]);
        assert(all.drop_last() =~= Seq::<Seq<u8>>::empty());
        assert(flat(all.drop_last()) =~= Seq::<u8>::empty());
        assert(flat(all) =~= head + flat(rest));
    } else {
        assert(all.drop_last() =~= seq![head] + rest.drop_last());
        lemma_flat_front(head, rest.drop_last());
        assert(all.last() == rest.last());
        assert(flat(all) =~= head + flat(rest));
    }
}

/// The chunks that an honest peer serves are not empty, and one after the
/// other they are the content from the offset on.
pub proof fn lemma_honest_chunks(content: Seq<u8>, offset: nat)
    requires
        offset <= content.len(),
    ensures
        forall|i: int|
            0 <= i < honest_chunks(content, offset).len() ==> (#[trigger] honest_chunks(
                content,
                offset,
            )[i]).len() > 0,
        flat(honest_chunks(content, offset)) == content.subrange(
            offset as int,
            content.len() as int,
        ),
    decreases content.len() - offset,
{
    if offset >= content.len() {
        assert(content.subrange(offset as int, content.len() as int) =~= Seq::<u8>::empty());
    } else {
        let c = crate::chunk::chunk_at(content, offset);
        let rest = honest_chunks(content, offset + c.len());
        lemma_honest_chunks(content, offset + c.len());
        lemma_flat_front(c, rest);
        assert(c + content.subrange((offset + c.len()) as int, content.len() as int)
            =~= content.subrange(offset as int, content.len() as int));
        assert forall|i: int| 0 <= i < honest_chunks(content, offset).len() implies (
        #[trigger] honest_chunks(content, offset)[i]).len() > 0 by {
            if i > 0 {
                assert(honest_chunks(content, offset)[i] == rest[i - 1]);
            }
        }
    }
}

/// A fetch that an honest peer serves ends in success with the content in
/// its output file: after the peer's chunks the file holds the content,
/// byte for byte and so with its hash, the next request asks for the
/// offset at the content's end, and the empty chunk that answers it closes
/// the file and hands the caller the output path.
pub proof fn lemma_honest_fetch_succeeds(pre: OverlayView, content: Seq<u8>)
    requires
        pre.fetch is Some,
        pre.fetch->0.peer is Some,
        pre.fetch->0.offset == 0,
        content.len() <= u64::MAX,
    ensures
        ({
            let chunks = honest_chunks(content, 0);
            let fed = after_chunks(pre, chunks);
            let last = on_chunk_response(fed, crate::chunk::chunk_at(content, content.len()));
            &&& written(pre, chunks) == content
            &&& crate::chunk::content_hash(written(pre, chunks)) == crate::chunk::content_hash(
                content,
            )
            &&& fed.fetch is Some
            &&& fed.fetch->0.offset == content.len()
            &&& last.0.fetch is None
            &&& last.1 == seq![
                ActionView::CloseOutput,
                ActionView::Reply {
                    to: pre.fetch->0.reply,
                    body: ReplyView::Text(Ok(fed.fetch->0.out_path)),
                },
            ]
        }),
{
    let chunks = honest_chunks(content, 0);
    lemma_honest_chunks(content, 0);
    assert(content.subrange(0, content.len() as int) =~= content);
    lemma_file_is_sum_of_chunks(pre, chunks);
    let fed = after_chunks(pre, chunks);
    lemma_empty_chunk_ends_fetch(fed);
    assert(crate::chunk::chunk_at(content, content.len()) =~= Seq::<u8>::empty());
}

/// Whether the entry at a position is hosted by the node itself: its path
/// does not carry the marker of entries that were only heard of.
pub open spec fn hosted_at(v: OverlayView, at: int) -> bool {
    !crate::text::has_prefix(
        vstd::utf8::encode_utf8(v.entries[at].path),
        vstd::utf8::encode_utf8(crate::overlay::discovered_marker()),
    )
}

/// Gossip never touches what the node hosts: whatever comes in, every
/// entry that the node hosts stays in its place, under its hash and as it
/// is.
pub proof fn lemma_gossip_keeps_hosted_content(
    pre: OverlayView,
    topic: crate::gossip::Topic,
    data: Seq<u8>,
    at: int,
)
    requires
        wf_view(pre),
        0 <= at < pre.keys.len(),
        hosted_at(pre, at),
    ensures
        ({
            let post = crate::overlay::on_gossip(pre, topic, data).0;
            &&& at < post.keys.len()
            &&& post.keys[at] == pre.keys[at]
            &&& post.entries[at] == pre.entries[at]
        }),
{
    match crate::gossip::message_of(topic, data) {
        Some(GossipView::Content { hash, title, author, tags }) => {
            lemma_key_index(pre.keys, hash);
            if has_key(pre.keys, hash) && key_index(pre.keys, hash) == at {
                assert(crate::overlay::hosts(pre, hash));
            }
        },
        _ => {},
    }
}

} // verus!
