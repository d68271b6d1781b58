//! The overlay runtime as a state machine: it owns the content index, the
//! set of connected peers, the fetch slot, the search slot and the pending
//! queries, and answers every event with its next state and the actions
//! that the event loop is to carry out.

use crate::address::parsed_address;
use crate::chunk::{decoded_request, request_bytes, CHUNK_SIZE};
use crate::gossip::{content_line, request_line, response_line, GossipView, Topic};
use crate::index::{
    distinct, has_key, hits, index_put, key_index, with_key, without_key, ContentView,
};
use crate::protocol::{
    ActionView, CommandView, EventView, MetricView, QueryOutcomeView, ReplyView, Ticket,
};
use crate::record::{
    content_key_text, content_payload, discovery_key_text, manual_key_text, peer_key_text,
    RECORD_TTL_SECS,
};
use crate::strings::{lowercase, opt_view};
use crate::text::has_prefix;
use vstd::prelude::*;
use vstd::utf8::*;

verus! {

/// How many ticks of 50 ms pass between two refreshes of the routing table.
pub const TICKS_PER_BOOTSTRAP: u64 = 20;

/// How long a search collects answers unless told otherwise, in
/// milliseconds.
pub const SEARCH_WINDOW_MS: u64 = 200;

/// Counters of one transfer.
#[derive(Debug, Clone, Copy, PartialEq, Eq, Structural)]
pub struct TransferStats {
    pub downloaded: u64,
    pub size: u64,
    pub last_tick_bytes: u64,
    pub last_rate_bps: u64,
}

/// The kind of a query of the hash table.
#[derive(Debug, Clone, Copy, PartialEq, Eq, Structural)]
pub enum QueryKind {
    Put,
    Get,
    Bootstrap,
}

/// A query of the hash table whose end a caller waits for.
#[derive(Debug, Clone, Copy, PartialEq, Eq, Structural)]
pub struct PendingQuery {
    pub op: u64,
    pub kind: QueryKind,
    pub reply: Ticket,
}

/// The download that holds the fetch slot.
#[derive(Debug, PartialEq, Eq)]
pub struct PendingFetch {
    /// The peer that serves the chunks: none while the output file is
    /// being opened.
    pub peer: Option<String>,
    pub hash: String,
    pub offset: u64,
    pub out_path: String,
    pub reply: Ticket,
}

/// The search that holds the search slot. Hashes and names stand side by
/// side: one pair for each hit.
#[derive(Debug, PartialEq, Eq)]
pub struct PendingSearch {
    pub id: String,
    pub started_ms: u64,
    pub reply: Ticket,
    pub hashes: Vec<String>,
    pub names: Vec<String>,
}

/// The fetch slot as plain values.
#[verifier::ext_equal]
pub struct FetchView {
    pub peer: Option<Seq<char>>,
    pub hash: Seq<char>,
    pub offset: u64,
    pub out_path: Seq<char>,
    pub reply: Ticket,
}

/// The search slot as plain values.
#[verifier::ext_equal]
pub struct SearchView {
    pub id: Seq<char>,
    pub started_ms: u64,
    pub reply: Ticket,
    pub hashes: Seq<Seq<char>>,
    pub names: Seq<Seq<char>>,
}

impl View for PendingFetch {
    type V = FetchView;

    open spec fn view(&self) -> FetchView {
        FetchView {
            peer: opt_view(self.peer),
            hash: self.hash@,
            offset: self.offset,
            out_path: self.out_path@,
            reply: self.reply,
        }
    }
}

impl View for PendingSearch {
    type V = SearchView;

    open spec fn view(&self) -> SearchView {
        SearchView {
            id: self.id@,
            started_ms: self.started_ms,
            reply: self.reply,
            hashes: self.hashes.deep_view(),
            names: self.names.deep_view(),
        }
    }
}

/// The state of the overlay as plain values.
#[verifier::ext_equal]
pub struct OverlayView {
    /// The node's own peer id.
    pub local_peer: Seq<char>,
    /// The loopback port that the hidden service forwards to.
    pub listen_port: u16,
    /// The address under which the node announces itself: empty while it
    /// has none.
    pub announce: Seq<char>,
    /// How long a search collects answers, in milliseconds.
    pub window_ms: u64,
    /// The hashes of the content index.
    pub keys: Seq<Seq<char>>,
    /// The entries of the content index, one for each hash.
    pub entries: Seq<ContentView>,
    /// The connected peers.
    pub connected: Seq<Seq<char>>,
    /// The hashes for which transfer counters are kept.
    pub stat_keys: Seq<Seq<char>>,
    /// The transfer counters, one for each of those hashes.
    pub stats: Seq<TransferStats>,
    /// The fetch slot.
    pub fetch: Option<FetchView>,
    /// The search slot.
    pub search: Option<SearchView>,
    /// The queries that callers wait for.
    pub pending: Seq<PendingQuery>,
    /// The callers that wait for a hidden service, oldest first.
    pub waiters: Seq<Ticket>,
    /// The number of the next watched query.
    pub next_op: u64,
    /// Ticks since the routing table was last refreshed.
    pub ticks: u64,
}

/// What an event leads to: the next state and the actions to carry out.
pub type Outcome = (OverlayView, Seq<ActionView>);

/// The view of the fetch slot.
pub open spec fn fetch_view(f: Option<PendingFetch>) -> Option<FetchView> {
    match f {
        Some(x) => Some(x@),
        None => None,
    }
}

/// The view of the search slot.
pub open spec fn search_view(s: Option<PendingSearch>) -> Option<SearchView> {
    match s {
        Some(x) => Some(x@),
        None => None,
    }
}

/// What holds of every state that the machine reaches.
pub open spec fn wf_view(v: OverlayView) -> bool {
    &&& v.keys.len() == v.entries.len()
    &&& distinct(v.keys)
    &&& distinct(v.connected)
    &&& v.stat_keys.len() == v.stats.len()
    &&& v.ticks < TICKS_PER_BOOTSTRAP
    &&& match v.search {
        Some(s) => s.hashes.len() == s.names.len(),
        None => true,
    }
    &&& forall|i: int| 0 <= i < v.pending.len() ==> (#[trigger] v.pending[i]).op < v.next_op
}

/// A reply with an error message in place of a text.
pub open spec fn text_error(to: Ticket, message: Seq<char>) -> ActionView {
    ActionView::Reply { to, body: ReplyView::Text(Err(message)) }
}

/// The first halves of pairs.
pub open spec fn firsts(pairs: Seq<(Seq<char>, Seq<char>)>) -> Seq<Seq<char>> {
    Seq::new(pairs.len(), |i: int| pairs[i].0)
}

/// The second halves of pairs.
pub open spec fn seconds(pairs: Seq<(Seq<char>, Seq<char>)>) -> Seq<Seq<char>> {
    Seq::new(pairs.len(), |i: int| pairs[i].1)
}

/// Hashes and names side by side, as pairs.
pub open spec fn paired(hashes: Seq<Seq<char>>, names: Seq<Seq<char>>) -> Seq<
    (Seq<char>, Seq<char>),
> {
    Seq::new(hashes.len(), |i: int| (hashes[i], names[i]))
}

/// The counters kept for a hash: all zero where none are kept.
pub open spec fn progress_of(
    stat_keys: Seq<Seq<char>>,
    stats: Seq<TransferStats>,
    hash: Seq<char>,
) -> TransferStats {
    if has_key(stat_keys, hash) {
        stats[key_index(stat_keys, hash)]
    } else {
        TransferStats { downloaded: 0, size: 0, last_tick_bytes: 0, last_rate_bps: 0 }
    }
}

/// The counters after `downloaded` bytes of `hash` are recorded.
pub open spec fn stats_put(
    stat_keys: Seq<Seq<char>>,
    stats: Seq<TransferStats>,
    hash: Seq<char>,
    downloaded: u64,
) -> (Seq<Seq<char>>, Seq<TransferStats>) {
    if has_key(stat_keys, hash) {
        (
            stat_keys,
            stats.update(
                key_index(stat_keys, hash),
                TransferStats { downloaded, ..stats[key_index(stat_keys, hash)] },
            ),
        )
    } else {
        (
            stat_keys.push(hash),
            stats.push(
                TransferStats { downloaded, size: 0, last_tick_bytes: 0, last_rate_bps: 0 },
            ),
        )
    }
}

/// The rows of a metrics snapshot: one for each entry of the content index.
pub open spec fn metric_rows(v: OverlayView) -> Seq<MetricView> {
    Seq::new(
        v.keys.len(),
        |i: int|
            MetricView {
                hash: v.keys[i],
                downloaded: progress_of(v.stat_keys, v.stats, v.keys[i]).downloaded,
                size: progress_of(v.stat_keys, v.stats, v.keys[i]).size,
                rate_bps: progress_of(v.stat_keys, v.stats, v.keys[i]).last_rate_bps,
                status: "ok"@,
            },
    )
}

/// Index of the first query with number `op`, or `pending.len()`.
pub open spec fn query_index(pending: Seq<PendingQuery>, op: u64) -> int
    decreases pending.len(),
{
    if pending.len() == 0 || pending[0].op == op {
        0
    } else {
        1 + query_index(pending.drop_first(), op)
    }
}

/// `AddBootstrap`: every address is dialed.
pub open spec fn on_add_bootstrap(pre: OverlayView, addrs: Seq<Seq<char>>) -> Outcome {
    (pre, Seq::new(addrs.len(), |i: int| ActionView::Dial { address: addrs[i] }))
}

/// `PublishHash`: the hash is broadcast; the state stays as it is.
pub open spec fn on_publish_hash(pre: OverlayView, hash: Seq<char>) -> Outcome {
    (pre, seq![ActionView::Publish { topic: Topic::Content, data: encode_utf8(hash) }])
}

/// `UpdateIndex`: the entry is stored, announced on the content topic and
/// written to the hash table.
pub open spec fn on_update_index(
    pre: OverlayView,
    hash: Seq<char>,
    path: Seq<char>,
    title: Seq<char>,
    author: Option<Seq<char>>,
    tags: Seq<Seq<char>>,
) -> Outcome {
    let put = index_put(pre.keys, pre.entries, hash, ContentView { path, title, author, tags });
    (
        OverlayView { keys: put.0, entries: put.1, ..pre },
        seq![
            ActionView::Publish {
                topic: Topic::Content,
                data: content_line(hash, title, author, tags),
            },
            ActionView::PutRecord {
                op: None,
                key: content_key_text(hash),
                value: content_payload(hash, path, title, author, tags, pre.local_peer),
                publisher: pre.local_peer,
                ttl_secs: RECORD_TTL_SECS,
            },
        ],
    )
}

/// `Fetch`: a busy slot refuses; a free one takes the download and has the
/// output file opened.
pub open spec fn on_fetch(
    pre: OverlayView,
    hash: Seq<char>,
    out_path: Seq<char>,
    reply: Ticket,
) -> Outcome {
    if pre.fetch is Some {
        (pre, seq![text_error(reply, "fetch slot busy"@)])
    } else {
        (
            OverlayView {
                fetch: Some(FetchView { peer: None, hash, offset: 0, out_path, reply }),
                ..pre
            },
            seq![ActionView::OpenOutput { path: out_path }],
        )
    }
}

/// `Search`: the local hits are found at once. Where the window is zero or
/// the slot is busy they are the reply; else the slot takes the search and
/// the request is broadcast.
pub open spec fn on_search(
    pre: OverlayView,
    query: Seq<char>,
    reply: Ticket,
    now: u64,
    id: Seq<char>,
) -> Outcome {
    let local = hits(pre.keys, pre.entries, lowercase(query));
    if pre.window_ms == 0 || pre.search is Some {
        (pre, seq![ActionView::Reply { to: reply, body: ReplyView::Hits(local) }])
    } else {
        (
            OverlayView {
                search: Some(
                    SearchView {
                        id,
                        started_ms: now,
                        reply,
                        hashes: firsts(local),
                        names: seconds(local),
                    },
                ),
                ..pre
            },
            seq![ActionView::Publish { topic: Topic::Content, data: request_line(id, query) }],
        )
    }
}

/// `GetMetrics`: a snapshot is the reply.
pub open spec fn on_get_metrics(pre: OverlayView, reply: Ticket) -> Outcome {
    (pre, seq![ActionView::Reply { to: reply, body: ReplyView::Metrics(metric_rows(pre)) }])
}

/// The state after a query of the given kind is watched for `reply`.
pub open spec fn with_query(pre: OverlayView, kind: QueryKind, reply: Ticket) -> OverlayView {
    OverlayView {
        pending: pre.pending.push(PendingQuery { op: pre.next_op, kind, reply }),
        next_op: (pre.next_op + 1) as u64,
        ..pre
    }
}

/// `PutRecord`: the record is written under the caller's key, with this
/// node as publisher and the lifetime of all records.
pub open spec fn on_put_record(
    pre: OverlayView,
    key: Seq<char>,
    value: Seq<u8>,
    reply: Ticket,
) -> Outcome {
    if pre.next_op == u64::MAX {
        (
            pre,
            seq![
                ActionView::Reply { to: reply, body: ReplyView::Done(Err("too many queries"@)) },
            ],
        )
    } else {
        (
            with_query(pre, QueryKind::Put, reply),
            seq![
                ActionView::PutRecord {
                    op: Some(pre.next_op),
                    key,
                    value,
                    publisher: pre.local_peer,
                    ttl_secs: RECORD_TTL_SECS,
                },
            ],
        )
    }
}

/// `GetRecord`: the record is looked up.
pub open spec fn on_get_record(pre: OverlayView, key: Seq<char>, reply: Ticket) -> Outcome {
    if pre.next_op == u64::MAX {
        (
            pre,
            seq![
                ActionView::Reply { to: reply, body: ReplyView::Record(Err("too many queries"@)) },
            ],
        )
    } else {
        (
            with_query(pre, QueryKind::Get, reply),
            seq![ActionView::GetRecord { op: Some(pre.next_op), key }],
        )
    }
}

/// `Bootstrap`: the routing table is refreshed.
pub open spec fn on_bootstrap(pre: OverlayView, reply: Ticket) -> Outcome {
    if pre.next_op == u64::MAX {
        (
            pre,
            seq![
                ActionView::Reply { to: reply, body: ReplyView::Done(Err("too many queries"@)) },
            ],
        )
    } else {
        (
            with_query(pre, QueryKind::Bootstrap, reply),
            seq![ActionView::Bootstrap { op: Some(pre.next_op) }],
        )
    }
}

/// `GetMyOnionAddress`: the announce address, or an error while there is
/// none.
pub open spec fn on_get_address(pre: OverlayView, reply: Ticket) -> Outcome {
    if pre.announce.len() > 0 {
        (pre, seq![ActionView::Reply { to: reply, body: ReplyView::Text(Ok(pre.announce)) }])
    } else {
        (
            pre,
            seq![
                text_error(
                    reply,
                    "No onion address available - Tor hidden service not created"@,
                ),
            ],
        )
    }
}

/// `GetNetworkPeers`: one line for each connected peer.
pub open spec fn on_get_peers(pre: OverlayView, reply: Ticket) -> Outcome {
    (
        pre,
        seq![
            ActionView::Reply {
                to: reply,
                body: ReplyView::Peers(
                    Seq::new(pre.connected.len(), |i: int| "Peer ID: "@ + pre.connected[i]),
                ),
            },
        ],
    )
}

/// `AddPeerAddress`: a text that is an address is dialed and written to the
/// hash table; any other text is refused with the parser's complaint.
pub open spec fn on_add_peer(pre: OverlayView, address: Seq<char>, reply: Ticket) -> Outcome {
    match parsed_address(address) {
        Ok(_) => (
            pre,
            seq![
                ActionView::Dial { address },
                ActionView::PutRecord {
                    op: None,
                    key: manual_key_text(address),
                    value: encode_utf8(address),
                    publisher: pre.local_peer,
                    ttl_secs: RECORD_TTL_SECS,
                },
                ActionView::Reply {
                    to: reply,
                    body: ReplyView::Text(Ok("Successfully added peer address: "@ + address)),
                },
            ],
        ),
        Err(e) => (pre, seq![text_error(reply, "Invalid multiaddr format: "@ + e)]),
    }
}

/// `ForceCreateOnionService`: a hidden service for the listen port is asked
/// for, and the caller waits in line.
pub open spec fn on_force_onion(pre: OverlayView, reply: Ticket) -> Outcome {
    (
        OverlayView { waiters: pre.waiters.push(reply), ..pre },
        seq![ActionView::CreateHiddenService { port: pre.listen_port }],
    )
}

/// What a command leads to.
pub open spec fn on_command(pre: OverlayView, cmd: CommandView, now: u64, id: Seq<char>) -> (r:
    Outcome) {
    match cmd {
        CommandView::AddBootstrap { addrs } => on_add_bootstrap(pre, addrs),
        CommandView::PublishHash { hash } => on_publish_hash(pre, hash),
        CommandView::UpdateIndex { hash, path, title, author, tags } => on_update_index(
            pre,
            hash,
            path,
            title,
            author,
            tags,
        ),
        CommandView::Fetch { hash, out_path, reply } => on_fetch(pre, hash, out_path, reply),
        CommandView::Search { query, reply } => on_search(pre, query, reply, now, id),
        CommandView::GetMetrics { reply } => on_get_metrics(pre, reply),
        CommandView::PutRecord { key, value, reply } => on_put_record(pre, key, value, reply),
        CommandView::GetRecord { key, reply } => on_get_record(pre, key, reply),
        CommandView::Bootstrap { reply } => on_bootstrap(pre, reply),
        CommandView::GetMyOnionAddress { reply } => on_get_address(pre, reply),
        CommandView::GetNetworkPeers { reply } => on_get_peers(pre, reply),
        CommandView::AddPeerAddress { address, reply } => on_add_peer(pre, address, reply),
        CommandView::ForceCreateOnionService { reply } => on_force_onion(pre, reply),
    }
}

/// A connection came up: the peer joins the connected set.
pub open spec fn on_connected(pre: OverlayView, peer: Seq<char>) -> Outcome {
    (OverlayView { connected: with_key(pre.connected, peer), ..pre }, Seq::empty())
}

/// What ends a fetch in failure: the output file is closed and the caller
/// is told why.
pub open spec fn fetch_failed(f: FetchView, message: Seq<char>) -> Seq<ActionView> {
    seq![ActionView::CloseOutput, text_error(f.reply, message)]
}

/// A connection went down: the peer leaves the connected set, and a fetch
/// that it was serving fails.
pub open spec fn on_disconnected(pre: OverlayView, peer: Seq<char>) -> Outcome {
    let connected = without_key(pre.connected, peer);
    match pre.fetch {
        Some(f) => if f.peer == Some(peer) {
            (
                OverlayView { connected, fetch: None, ..pre },
                fetch_failed(f, "peer disconnected"@),
            )
        } else {
            (OverlayView { connected, ..pre }, Seq::empty())
        },
        None => (OverlayView { connected, ..pre }, Seq::empty()),
    }
}

/// A chunk request came in: content that the index knows is served from
/// its file, one chunk at most; anything else gets the empty answer.
pub open spec fn on_chunk_request(pre: OverlayView, channel: u64, payload: Seq<u8>) -> Outcome {
    match decoded_request(payload) {
        Some((hash, offset)) => if has_key(pre.keys, hash) {
            (
                pre,
                seq![
                    ActionView::ServeChunk {
                        channel,
                        path: pre.entries[key_index(pre.keys, hash)].path,
                        offset,
                        max_len: CHUNK_SIZE,
                    },
                ],
            )
        } else {
            (pre, seq![ActionView::SendResponse { channel, data: Seq::empty() }])
        },
        None => (pre, seq![ActionView::SendResponse { channel, data: Seq::empty() }]),
    }
}

/// The output file was opened, or could not be. A fetch that waits for it
/// fails without a file and without a connected peer; else it asks the
/// first connected peer for the chunk at offset zero.
pub open spec fn on_output_opened(pre: OverlayView, ok: bool) -> Outcome {
    match pre.fetch {
        Some(f) => if f.peer is Some {
            (pre, Seq::empty())
        } else if !ok {
            (
                OverlayView { fetch: None, ..pre },
                seq![text_error(f.reply, "failed to open output file"@)],
            )
        } else if pre.connected.len() == 0 {
            (OverlayView { fetch: None, ..pre }, fetch_failed(f, "no peers connected"@))
        } else {
            let put = stats_put(pre.stat_keys, pre.stats, f.hash, 0);
            (
                OverlayView {
                    fetch: Some(FetchView { peer: Some(pre.connected[0]), ..f }),
                    stat_keys: put.0,
                    stats: put.1,
                    ..pre
                },
                seq![
                    ActionView::SendRequest {
                        peer: pre.connected[0],
                        payload: request_bytes(f.hash, 0),
                    },
                ],
            )
        },
        None => (pre, Seq::empty()),
    }
}

/// The answer to the chunk request of the fetch came in. An empty chunk
/// ends the fetch in success. Any other chunk is written, counted, and
/// followed by the request for the next one.
pub open spec fn on_chunk_response(pre: OverlayView, data: Seq<u8>) -> Outcome {
    match pre.fetch {
        Some(f) => match f.peer {
            Some(peer) => if data.len() == 0 {
                (
                    OverlayView { fetch: None, ..pre },
                    seq![
                        ActionView::CloseOutput,
                        ActionView::Reply { to: f.reply, body: ReplyView::Text(Ok(f.out_path)) },
                    ],
                )
            } else if f.offset + data.len() > u64::MAX {
                (OverlayView { fetch: None, ..pre }, fetch_failed(f, "transfer too large"@))
            } else {
                let offset = (f.offset + data.len()) as u64;
                let put = stats_put(pre.stat_keys, pre.stats, f.hash, offset);
                (
                    OverlayView {
                        fetch: Some(FetchView { offset, ..f }),
                        stat_keys: put.0,
                        stats: put.1,
                        ..pre
                    },
                    seq![
                        ActionView::WriteChunk { data },
                        ActionView::SendRequest {
                            peer,
                            payload: request_bytes(f.hash, offset),
                        },
                    ],
                )
            },
            None => (pre, Seq::empty()),
        },
        None => (pre, Seq::empty()),
    }
}

/// The chunk request of the fetch failed: so does the fetch.
pub open spec fn on_request_failed(pre: OverlayView) -> Outcome {
    match pre.fetch {
        Some(f) => if f.peer is Some {
            (OverlayView { fetch: None, ..pre }, fetch_failed(f, "chunk request failed"@))
        } else {
            (pre, Seq::empty())
        },
        None => (pre, Seq::empty()),
    }
}

/// What marks the path of an entry that was heard of, not hosted.
pub open spec fn discovered_marker() -> Seq<char> {
    "discovered:"@
}

/// Whether the index hosts `hash` itself.
pub open spec fn hosts(pre: OverlayView, hash: Seq<char>) -> bool {
    has_key(pre.keys, hash) && !has_prefix(
        encode_utf8(pre.entries[key_index(pre.keys, hash)].path),
        encode_utf8(discovered_marker()),
    )
}

/// The answers to a search request: one response for each hit.
pub open spec fn answers(id: Seq<char>, found: Seq<(Seq<char>, Seq<char>)>) -> Seq<ActionView> {
    Seq::new(
        found.len(),
        |i: int|
            ActionView::Publish {
                topic: Topic::Content,
                data: response_line(id, found[i].0, found[i].1),
            },
    )
}

/// What a gossip message leads to. Announced content is entered in the
/// index under a marked path, unless the node hosts the hash itself. An
/// announced address is dialed. A search request is answered with the
/// local hits. A search response that carries the id of the search in the
/// slot adds its hit, unless a hit with that hash is there.
pub open spec fn on_message(pre: OverlayView, message: Option<GossipView>) -> Outcome {
    match message {
        None => (pre, Seq::empty()),
        Some(GossipView::Content { hash, title, author, tags }) => if hosts(pre, hash) {
            (pre, Seq::empty())
        } else {
            let put = index_put(
                pre.keys,
                pre.entries,
                hash,
                ContentView { path: discovered_marker() + hash, title, author: Some(author), tags },
            );
            (OverlayView { keys: put.0, entries: put.1, ..pre }, Seq::empty())
        },
        Some(GossipView::PeerAnnounce { address }) => (pre, seq![ActionView::Dial { address }]),
        Some(GossipView::SearchRequest { id, query }) => (
            pre,
            answers(id, hits(pre.keys, pre.entries, lowercase(query))),
        ),
        Some(GossipView::SearchResponse { id, hash, name }) => match pre.search {
            Some(s) => if s.id == id && !has_key(s.hashes, hash) {
                (
                    OverlayView {
                        search: Some(
                            SearchView {
                                hashes: s.hashes.push(hash),
                                names: s.names.push(name),
                                ..s
                            },
                        ),
                        ..pre
                    },
                    Seq::empty(),
                )
            } else {
                (pre, Seq::empty())
            },
            None => (pre, Seq::empty()),
        },
    }
}

/// What a gossip payload leads to.
pub open spec fn on_gossip(pre: OverlayView, topic: Topic, data: Seq<u8>) -> Outcome {
    on_message(pre, crate::gossip::message_of(topic, data))
}

/// The reply that tells a caller that its query could not be started.
pub open spec fn rejected_reply(kind: QueryKind, error: Seq<char>) -> ReplyView {
    match kind {
        QueryKind::Put => ReplyView::Done(Err("Failed to initiate put record: "@ + error)),
        QueryKind::Get => ReplyView::Record(Err("Failed to initiate get record: "@ + error)),
        QueryKind::Bootstrap => ReplyView::Done(Err("Failed to initiate bootstrap: "@ + error)),
    }
}

/// A watched query could not be started: its caller is told.
pub open spec fn on_query_rejected(pre: OverlayView, op: u64, error: Seq<char>) -> Outcome {
    let at = query_index(pre.pending, op);
    if 0 <= at < pre.pending.len() {
        (
            OverlayView { pending: pre.pending.remove(at), ..pre },
            seq![
                ActionView::Reply {
                    to: pre.pending[at].reply,
                    body: rejected_reply(pre.pending[at].kind, error),
                },
            ],
        )
    } else {
        (pre, Seq::empty())
    }
}

/// The reply that the end of a query owes its caller: none where the
/// outcome is of another kind than the query.
pub open spec fn finished_reply(kind: QueryKind, outcome: QueryOutcomeView) -> Option<ReplyView> {
    match (kind, outcome) {
        (QueryKind::Put, QueryOutcomeView::Put(Ok(_))) => Some(ReplyView::Done(Ok(()))),
        (QueryKind::Put, QueryOutcomeView::Put(Err(e))) => Some(
            ReplyView::Done(Err("Failed to store record: "@ + e)),
        ),
        (QueryKind::Get, QueryOutcomeView::Get(Ok(value))) => Some(ReplyView::Record(Ok(value))),
        (QueryKind::Get, QueryOutcomeView::Get(Err(e))) => Some(
            ReplyView::Record(Err("Failed to retrieve record: "@ + e)),
        ),
        (QueryKind::Bootstrap, QueryOutcomeView::Bootstrap(Ok(_))) => Some(
            ReplyView::Done(Ok(())),
        ),
        (QueryKind::Bootstrap, QueryOutcomeView::Bootstrap(Err(e))) => Some(
            ReplyView::Done(Err("Bootstrap failed: "@ + e)),
        ),
        _ => None,
    }
}

/// A watched query ended: its caller gets the result.
pub open spec fn on_query_finished(
    pre: OverlayView,
    op: u64,
    outcome: QueryOutcomeView,
) -> Outcome {
    let at = query_index(pre.pending, op);
    if 0 <= at < pre.pending.len() {
        match finished_reply(pre.pending[at].kind, outcome) {
            Some(body) => (
                OverlayView { pending: pre.pending.remove(at), ..pre },
                seq![ActionView::Reply { to: pre.pending[at].reply, body }],
            ),
            None => (pre, Seq::empty()),
        }
    } else {
        (pre, Seq::empty())
    }
}

/// The hidden service that was asked for exists, or could not be made: the
/// caller that waited longest is told.
pub open spec fn on_hidden_service(
    pre: OverlayView,
    result: Result<Seq<char>, Seq<char>>,
) -> Outcome {
    if pre.waiters.len() == 0 {
        (pre, Seq::empty())
    } else {
        (
            OverlayView { waiters: pre.waiters.drop_first(), ..pre },
            seq![
                ActionView::Reply {
                    to: pre.waiters[0],
                    body: ReplyView::Text(
                        match result {
                            Ok(addr) => Ok("Onion service created: "@ + addr),
                            Err(e) => Err("Failed to create onion service: "@ + e),
                        },
                    ),
                },
            ],
        )
    }
}

/// The pending queries without those that `t` waits for.
pub open spec fn queries_without(pending: Seq<PendingQuery>, t: Ticket) -> Seq<PendingQuery>
    decreases pending.len(),
{
    if pending.len() == 0 {
        Seq::empty()
    } else if pending.last().reply == t {
        queries_without(pending.drop_last(), t)
    } else {
        queries_without(pending.drop_last(), t).push(pending.last())
    }
}

/// The waiting callers without `t`.
pub open spec fn waiters_without(waiters: Seq<Ticket>, t: Ticket) -> Seq<Ticket>
    decreases waiters.len(),
{
    if waiters.len() == 0 {
        Seq::empty()
    } else if waiters.last() == t {
        waiters_without(waiters.drop_last(), t)
    } else {
        waiters_without(waiters.drop_last(), t).push(waiters.last())
    }
}

/// Whether the fetch in the slot replies to `t`.
pub open spec fn fetch_of(pre: OverlayView, t: Ticket) -> bool {
    pre.fetch is Some && pre.fetch->0.reply == t
}

/// Whether the search in the slot replies to `t`.
pub open spec fn search_of(pre: OverlayView, t: Ticket) -> bool {
    pre.search is Some && pre.search->0.reply == t
}

/// A caller has gone away: whatever waits to reply to it is dropped, and
/// the output file of its fetch is closed. Nothing is replied.
pub open spec fn on_caller_gone(pre: OverlayView, t: Ticket) -> Outcome {
    (
        OverlayView {
            fetch: if fetch_of(pre, t) {
                None
            } else {
                pre.fetch
            },
            search: if search_of(pre, t) {
                None
            } else {
                pre.search
            },
            pending: queries_without(pre.pending, t),
            waiters: waiters_without(pre.waiters, t),
            ..pre
        },
        if fetch_of(pre, t) {
            seq![ActionView::CloseOutput]
        } else {
            Seq::empty()
        },
    )
}

/// Whether the search in the slot has collected for the whole window.
pub open spec fn window_over(pre: OverlayView, now: u64) -> bool {
    match pre.search {
        Some(s) => now >= s.started_ms && now - s.started_ms >= pre.window_ms,
        None => false,
    }
}

/// 50 ms have passed. A search whose window is over replies with what it
/// has collected. Every twentieth tick refreshes the routing table.
pub open spec fn on_tick(pre: OverlayView, now: u64) -> Outcome {
    let refresh = pre.ticks + 1 >= TICKS_PER_BOOTSTRAP;
    let over = window_over(pre, now);
    (
        OverlayView {
            ticks: if refresh {
                0
            } else {
                (pre.ticks + 1) as u64
            },
            search: if over {
                None
            } else {
                pre.search
            },
            ..pre
        },
        (if over {
            seq![
                ActionView::Reply {
                    to: pre.search->0.reply,
                    body: ReplyView::Hits(paired(pre.search->0.hashes, pre.search->0.names)),
                },
            ]
        } else {
            Seq::empty()
        }) + (if refresh {
            seq![ActionView::Bootstrap { op: None }]
        } else {
            Seq::empty()
        }),
    )
}

/// One second has passed. A node with an announce address publishes it on
/// the peers topic, writes it to the hash table under its presence key and
/// looks the discovery slot up.
pub open spec fn on_announce_tick(pre: OverlayView) -> Outcome {
    if pre.announce.len() == 0 {
        (pre, Seq::empty())
    } else {
        (
            pre,
            seq![
                ActionView::Publish { topic: Topic::Peers, data: encode_utf8(pre.announce) },
                ActionView::PutRecord {
                    op: None,
                    key: peer_key_text(pre.local_peer),
                    value: encode_utf8(pre.announce),
                    publisher: pre.local_peer,
                    ttl_secs: RECORD_TTL_SECS,
                },
                ActionView::GetRecord { op: None, key: discovery_key_text() },
            ],
        )
    }
}

/// The transition function of the overlay: what `event`, arriving at time
/// `now`, leads to from `pre`. `id` is the fresh id that a search takes.
pub open spec fn next(pre: OverlayView, event: EventView, now: u64, id: Seq<char>) -> Outcome {
    match event {
        EventView::Command(cmd) => on_command(pre, cmd, now, id),
        EventView::ConnectionEstablished { peer } => on_connected(pre, peer),
        EventView::ConnectionClosed { peer } => on_disconnected(pre, peer),
        EventView::ChunkRequest { channel, payload } => on_chunk_request(pre, channel, payload),
        EventView::ChunkResponse { data } => on_chunk_response(pre, data),
        EventView::RequestFailed => on_request_failed(pre),
        EventView::Gossip { topic, data } => on_gossip(pre, topic, data),
        EventView::OutputOpened { ok } => on_output_opened(pre, ok),
        EventView::QueryRejected { op, error } => on_query_rejected(pre, op, error),
        EventView::QueryFinished { op, outcome } => on_query_finished(pre, op, outcome),
        EventView::HiddenServiceResult { result } => on_hidden_service(pre, result),
        EventView::CallerGone { reply } => on_caller_gone(pre, reply),
        EventView::Tick => on_tick(pre, now),
        EventView::AnnounceTick => on_announce_tick(pre),
    }
}

} // verus!
