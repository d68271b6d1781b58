//! The overlay runtime: the state that the event loop owns, and the step
//! that answers an event with the actions to carry out.

use crate::address::{
    announce_address, announce_text, bootstrap_text, fallback_address, first_peer, is_address,
    parse_address, parse_bootstrap_list, parsed_address, peer_of, seed_address, seeds_of, SeedPeer,
    COMMA,
};
use crate::chunk::{build_chunk_request, parse_chunk_request, CHUNK_SIZE};
use crate::gossip::{
    content_announcement, parse_gossip, search_request, search_response, GossipMessage, Topic,
};
use crate::index::{
    distinct,
    has_key,
    insert_key,
    key_index,
    lemma_distinct_kept,
    position_of,
    remove_key,
    ContentIndex,
    IndexedContent,
};
use crate::overlay::{
    answers, fetch_view, firsts, metric_rows, next, on_add_bootstrap, on_add_peer,
    on_announce_tick, on_bootstrap, on_chunk_request, on_chunk_response, on_command, on_connected,
    on_disconnected, on_fetch, on_force_onion, on_get_address, on_get_metrics, on_get_peers,
    on_get_record, on_gossip, on_hidden_service, on_message, on_output_opened, on_publish_hash,
    on_put_record, on_query_finished, on_query_rejected, on_request_failed, on_search, on_tick,
    on_update_index, paired, progress_of, query_index, search_view, seconds, stats_put, wf_view,
    OverlayView, PendingFetch, PendingQuery, PendingSearch, QueryKind, TransferStats,
    SEARCH_WINDOW_MS, TICKS_PER_BOOTSTRAP,
};
use crate::protocol::{
    Action,
    ActionView,
    Command,
    Event,
    MetricRow,
    QueryOutcome,
    ReplyBody,
    Ticket,
};
use crate::record::{
    content_key, content_record, discovery_key, manual_key, peer_key, RECORD_TTL_SECS,
};
use crate::strings::{clone_texts, concat, opt_view, random_uuid, utf8_bytes};
use crate::text::{split_all, starts_with};
use vstd::prelude::*;
use vstd::string::*;
use vstd::utf8::*;

verus! {

/// Where a runtime stands in its life. A runtime that has started listens;
/// it is connected from its first peer on; what comes before the start and
/// after the end of the event loop is the event loop's to tell.
#[derive(Debug, Clone, Copy, PartialEq, Eq, Structural)]
pub enum Lifecycle {
    Init,
    Listening,
    Connected,
    Closing,
    Terminated,
}

/// The state of the overlay runtime.
#[derive(Debug)]
pub struct Overlay {
    local_peer: String,
    listen_port: u16,
    announce: String,
    window_ms: u64,
    index: ContentIndex,
    connected: Vec<String>,
    stat_keys: Vec<String>,
    stats: Vec<TransferStats>,
    fetch: Option<PendingFetch>,
    search: Option<PendingSearch>,
    pending: Vec<PendingQuery>,
    waiters: Vec<Ticket>,
    next_op: u64,
    ticks: u64,
}

impl View for Overlay {
    type V = OverlayView;

    closed spec fn view(&self) -> OverlayView {
        OverlayView {
            local_peer: self.local_peer@,
            listen_port: self.listen_port,
            announce: self.announce@,
            window_ms: self.window_ms,
            keys: self.index.keys(),
            entries: self.index.entries(),
            connected: self.connected.deep_view(),
            stat_keys: self.stat_keys.deep_view(),
            stats: self.stats@,
            fetch: fetch_view(self.fetch),
            search: search_view(self.search),
            pending: self.pending@,
            waiters: self.waiters@,
            next_op: self.next_op,
            ticks: self.ticks,
        }
    }
}

fn one(a: Action) -> (r: Vec<Action>)
    ensures
        r.deep_view() == seq![a@],
{
    let mut out: Vec<Action> = Vec::new();
    out.push(a);
    assert(out.deep_view() =~= seq![a@]);
    out
}

fn two(a: Action, b: Action) -> (r: Vec<Action>)
    ensures
        r.deep_view() == seq![a@, b@],
{
    let mut out: Vec<Action> = Vec::new();
    out.push(a);
    out.push(b);
    assert(out.deep_view() =~= seq![a@, b@]);
    out
}

fn three(a: Action, b: Action, c: Action) -> (r: Vec<Action>)
    ensures
        r.deep_view() == seq![a@, b@, c@],
{
    let mut out: Vec<Action> = Vec::new();
    out.push(a);
    out.push(b);
    out.push(c);
    assert(out.deep_view() =~= seq![a@, b@, c@]);
    out
}

fn none() -> (r: Vec<Action>)
    ensures
        r.deep_view() == Seq::<ActionView>::empty(),
{
    let out: Vec<Action> = Vec::new();
    assert(out.deep_view() =~= Seq::<ActionView>::empty());
    out
}

fn text_error(to: Ticket, message: &str) -> (r: Action)
    ensures
        r@ == crate::overlay::text_error(to, message@),
{
    Action::Reply { to, body: ReplyBody::Text(Err(String::from_str(message))) }
}

fn fetch_failed(f: &PendingFetch, message: &str) -> (r: Vec<Action>)
    ensures
        r.deep_view() == crate::overlay::fetch_failed(f@, message@),
{
    two(Action::CloseOutput, text_error(f.reply, message))
}

fn find_query(pending: &Vec<PendingQuery>, op: u64) -> (r: Option<usize>)
    ensures
        match r {
            Some(at) => at == query_index(pending@, op) && at < pending.len(),
            None => !(0 <= query_index(pending@, op) < pending.len()),
        },
{
    let mut i: usize = 0;
    assert(pending@.subrange(0, pending@.len() as int) =~= pending@);
    while i < pending.len()
        invariant
            i <= pending.len(),
            query_index(pending@, op) == i + query_index(
                pending@.subrange(i as int, pending@.len() as int),
                op,
            ),
        decreases pending.len() - i,
    {
        if pending[i].op == op {
            return Some(i);
        }
        assert(pending@.subrange(i as int, pending@.len() as int).drop_first() =~= pending@.subrange(
            i + 1,
            pending@.len() as int,
        ));
        i += 1;
    }
    None
}

impl Overlay {
    /// What holds of the state between two steps.
    pub closed spec fn wf(&self) -> bool {
        &&& self.index.wf()
        &&& distinct(self.connected.deep_view())
        &&& self.stat_keys.len() == self.stats.len()
        &&& self.ticks < TICKS_PER_BOOTSTRAP
        &&& match self.search {
            Some(s) => s.hashes.len() == s.names.len(),
            None => true,
        }
        &&& forall|i: int|
            0 <= i < self.pending@.len() ==> (#[trigger] self.pending@[i]).op < self.next_op
    }

    /// A well-formed state has a well-formed view.
    pub proof fn lemma_wf_view(&self)
        requires
            self.wf(),
        ensures
            wf_view(self@),
    {
        self.index.lemma_wf();
    }

    /// The state of a node that has just begun to listen.
    pub fn new(local_peer: String, listen_port: u16, announce: String, window_ms: u64) -> (r:
        Overlay)
        ensures
            r.wf(),
            r@ == (OverlayView {
                local_peer: local_peer@,
                listen_port,
                announce: announce@,
                window_ms,
                keys: Seq::empty(),
                entries: Seq::empty(),
                connected: Seq::empty(),
                stat_keys: Seq::empty(),
                stats: Seq::empty(),
                fetch: None,
                search: None,
                pending: Seq::empty(),
                waiters: Seq::empty(),
                next_op: 0,
                ticks: 0,
            }),
    {
        let r = Overlay {
            local_peer,
            listen_port,
            announce,
            window_ms,
            index: ContentIndex::new(),
            connected: Vec::new(),
            stat_keys: Vec::new(),
            stats: Vec::new(),
            fetch: None,
            search: None,
            pending: Vec::new(),
            waiters: Vec::new(),
            next_op: 0,
            ticks: 0,
        };
        assert(r.connected.deep_view() =~= Seq::<Seq<char>>::empty());
        assert(r.stat_keys.deep_view() =~= Seq::<Seq<char>>::empty());
        assert(r@ =~= (OverlayView {
            local_peer: local_peer@,
            listen_port,
            announce: announce@,
            window_ms,
            keys: Seq::empty(),
            entries: Seq::empty(),
            connected: Seq::empty(),
            stat_keys: Seq::empty(),
            stats: Seq::empty(),
            fetch: None,
            search: None,
            pending: Seq::empty(),
            waiters: Seq::empty(),
            next_op: 0,
            ticks: 0,
        }));
        r
    }

    /// Where the runtime stands while its event loop runs: connected with
    /// a peer, else listening.
    pub fn lifecycle(&self) -> (r: Lifecycle)
        ensures
            r == if self@.connected.len() > 0 {
                Lifecycle::Connected
            } else {
                Lifecycle::Listening
            },
    {
        if self.connected.len() > 0 {
            Lifecycle::Connected
        } else {
            Lifecycle::Listening
        }
    }

    /// The connected peers.
    pub fn connected_peers(&self) -> (r: Vec<String>)
        ensures
            r.deep_view() == self@.connected,
    {
        clone_texts(&self.connected)
    }

    /// Whether a download holds the fetch slot.
    pub fn fetch_active(&self) -> (r: bool)
        ensures
            r == (self@.fetch is Some),
    {
        self.fetch.is_some()
    }

    /// Whether a search holds the search slot.
    pub fn search_active(&self) -> (r: bool)
        ensures
            r == (self@.search is Some),
    {
        self.search.is_some()
    }

    /// The number of entries in the content index.
    pub fn indexed(&self) -> (r: usize)
        requires
            self.wf(),
        ensures
            r == self@.keys.len(),
    {
        self.index.len()
    }

    /// The address under which the node announces itself.
    pub fn announce_address(&self) -> (r: &String)
        ensures
            r@ == self@.announce,
    {
        &self.announce
    }

    fn record_progress(&mut self, hash: &str, downloaded: u64)
        requires
            old(self).wf(),
        ensures
            final(self).wf(),
            final(self)@ == (OverlayView {
                stat_keys: stats_put(old(self)@.stat_keys, old(self)@.stats, hash@, downloaded).0,
                stats: stats_put(old(self)@.stat_keys, old(self)@.stats, hash@, downloaded).1,
                ..old(self)@
            }),
    {
        let ghost keys0 = self.stat_keys.deep_view();
        match position_of(&self.stat_keys, hash) {
            Some(at) => {
                let s = self.stats[at];
                self.stats.set(at, TransferStats { downloaded, ..s });
            },
            None => {
                self.stat_keys.push(String::from_str(hash));
                self.stats.push(
                    TransferStats { downloaded, size: 0, last_tick_bytes: 0, last_rate_bps: 0 },
                );
                assert(self.stat_keys.deep_view() =~= keys0.push(hash@));
            },
        }
        assert(self@ =~= (OverlayView {
            stat_keys: stats_put(old(self)@.stat_keys, old(self)@.stats, hash@, downloaded).0,
            stats: stats_put(old(self)@.stat_keys, old(self)@.stats, hash@, downloaded).1,
            ..old(self)@
        }));
    }

    fn progress(&self, hash: &str) -> (r: TransferStats)
        requires
            self.wf(),
        ensures
            r == progress_of(self@.stat_keys, self@.stats, hash@),
    {
        match position_of(&self.stat_keys, hash) {
            Some(at) => self.stats[at],
            None => TransferStats { downloaded: 0, size: 0, last_tick_bytes: 0, last_rate_bps: 0 },
        }
    }

    /// `AddBootstrap`: every address is dialed.
    pub fn add_bootstrap(&mut self, addrs: Vec<String>) -> (r: Vec<Action>)
        requires
            old(self).wf(),
        ensures
            final(self).wf(),
            (final(self)@, r.deep_view()) == on_add_bootstrap(old(self)@, addrs.deep_view()),
    {
        let mut out: Vec<Action> = Vec::new();
        let mut i: usize = 0;
        while i < addrs.len()
            invariant
                i <= addrs.len(),
                out.len() == i,
                forall|j: int|
                    0 <= j < i ==> out[j]@ == (ActionView::Dial { address: addrs[j]@ }),
            decreases addrs.len() - i,
        {
            out.push(Action::Dial { address: addrs[i].clone() });
            i += 1;
        }
        assert(out.deep_view() =~= on_add_bootstrap(old(self)@, addrs.deep_view()).1);
        out
    }

    /// `PublishHash`: the hash is broadcast on the content topic.
    pub fn publish_hash(&mut self, hash: String) -> (r: Vec<Action>)
        requires
            old(self).wf(),
        ensures
            final(self).wf(),
            (final(self)@, r.deep_view()) == on_publish_hash(old(self)@, hash@),
    {
        one(Action::Publish { topic: Topic::Content, data: utf8_bytes(hash.as_str()) })
    }

    /// `UpdateIndex`: the entry is stored, announced on the content topic
    /// and written to the hash table.
    pub fn update_index(
        &mut self,
        hash: String,
        path: String,
        title: String,
        author: Option<String>,
        tags: Vec<String>,
    ) -> (r: Vec<Action>)
        requires
            old(self).wf(),
        ensures
            final(self).wf(),
            (final(self)@, r.deep_view()) == on_update_index(
                old(self)@,
                hash@,
                path@,
                title@,
                opt_view(author),
                tags.deep_view(),
            ),
    {
        let line = content_announcement(hash.as_str(), title.as_str(), &author, &tags);
        let payload = content_record(
            hash.as_str(),
            path.as_str(),
            title.as_str(),
            &author,
            &tags,
            self.local_peer.as_str(),
        );
        let key = content_key(hash.as_str());
        let publisher = self.local_peer.clone();
        let ghost expected = on_update_index(
            old(self)@,
            hash@,
            path@,
            title@,
            opt_view(author),
            tags.deep_view(),
        );
        self.index.insert(hash, IndexedContent { path, title, author, tags });
        assert(self@ =~= expected.0);
        two(
            Action::Publish { topic: Topic::Content, data: line },
            Action::PutRecord {
                op: None,
                key,
                value: payload,
                publisher,
                ttl_secs: RECORD_TTL_SECS,
            },
        )
    }

    /// `Fetch`: a busy slot refuses; a free one takes the download and has
    /// the output file opened.
    pub fn fetch(&mut self, hash: String, out_path: String, reply: Ticket) -> (r: Vec<Action>)
        requires
            old(self).wf(),
        ensures
            final(self).wf(),
            (final(self)@, r.deep_view()) == on_fetch(old(self)@, hash@, out_path@, reply),
    {
        if self.fetch.is_some() {
            one(text_error(reply, "fetch slot busy"))
        } else {
            let action = Action::OpenOutput { path: out_path.clone() };
            self.fetch = Some(PendingFetch { peer: None, hash, offset: 0, out_path, reply });
            assert(self@ =~= on_fetch(old(self)@, hash@, out_path@, reply).0);
            one(action)
        }
    }

    /// `Search` with the id that the search takes.
    pub fn begin_search(&mut self, query: String, reply: Ticket, now: u64, id: String) -> (r: Vec<
        Action,
    >)
        requires
            old(self).wf(),
        ensures
            final(self).wf(),
            (final(self)@, r.deep_view()) == on_search(old(self)@, query@, reply, now, id@),
    {
        let local = self.index.search(query.as_str());
        if self.window_ms == 0 || self.search.is_some() {
            one(Action::Reply { to: reply, body: ReplyBody::Hits(local) })
        } else {
            let line = search_request(id.as_str(), query.as_str());
            let mut hashes: Vec<String> = Vec::new();
            let mut names: Vec<String> = Vec::new();
            let mut i: usize = 0;
            while i < local.len()
                invariant
                    i <= local.len(),
                    hashes.len() == i,
                    names.len() == i,
                    forall|j: int| 0 <= j < i ==> hashes[j]@ == local[j].0@,
                    forall|j: int| 0 <= j < i ==> names[j]@ == local[j].1@,
                decreases local.len() - i,
            {
                hashes.push(local[i].0.clone());
                names.push(local[i].1.clone());
                i += 1;
            }
            assert(hashes.deep_view() =~= firsts(local.deep_view()));
            assert(names.deep_view() =~= seconds(local.deep_view()));
            self.search = Some(PendingSearch { id, started_ms: now, reply, hashes, names });
            assert(self@ =~= on_search(old(self)@, query@, reply, now, id@).0);
            one(Action::Publish { topic: Topic::Content, data: line })
        }
    }

    /// `Search`: the search takes a fresh random id.
    pub fn search(&mut self, query: String, reply: Ticket, now: u64) -> (r: Vec<Action>)
        requires
            old(self).wf(),
        ensures
            final(self).wf(),
            exists|id: Seq<char>|
                (final(self)@, r.deep_view()) == #[trigger] on_search(
                    old(self)@,
                    query@,
                    reply,
                    now,
                    id,
                ),
    {
        let id = random_uuid();
        let ghost idv = id@;
        let r = self.begin_search(query, reply, now, id);
        assert((self@, r.deep_view()) == on_search(old(self)@, query@, reply, now, idv));
        r
    }

    /// `GetMetrics`: a snapshot is the reply.
    pub fn get_metrics(&mut self, reply: Ticket) -> (r: Vec<Action>)
        requires
            old(self).wf(),
        ensures
            final(self).wf(),
            (final(self)@, r.deep_view()) == on_get_metrics(old(self)@, reply),
    {
        let mut rows: Vec<MetricRow> = Vec::new();
        let mut i: usize = 0;
        let n = self.index.len();
        let ghost expected = metric_rows(self@);
        while i < n
            invariant
                i <= n,
                n == self@.keys.len(),
                self.wf(),
                expected == metric_rows(self@),
                rows.len() == i,
                forall|j: int| 0 <= j < i ==> rows[j]@ == expected[j],
            decreases n - i,
        {
            let hash = self.index.hash_at(i).clone();
            let stat = self.progress(hash.as_str());
            rows.push(
                MetricRow {
                    hash,
                    downloaded: stat.downloaded,
                    size: stat.size,
                    rate_bps: stat.last_rate_bps,
                    status: String::from_str("ok"),
                },
            );
            i += 1;
        }
        assert(rows.deep_view() =~= expected);
        one(Action::Reply { to: reply, body: ReplyBody::Metrics(rows) })
    }

    fn watch(&mut self, kind: QueryKind, reply: Ticket) -> (op: u64)
        requires
            old(self).wf(),
            old(self)@.next_op < u64::MAX,
        ensures
            final(self).wf(),
            op == old(self)@.next_op,
            final(self)@ == crate::overlay::with_query(old(self)@, kind, reply),
    {
        let op = self.next_op;
        self.pending.push(PendingQuery { op, kind, reply });
        self.next_op = op + 1;
        assert(self@ =~= crate::overlay::with_query(old(self)@, kind, reply));
        op
    }

    /// `PutRecord`: the record is written under the caller's key, with
    /// this node as publisher and the lifetime of all records.
    pub fn put_record(&mut self, key: String, value: Vec<u8>, reply: Ticket) -> (r: Vec<Action>)
        requires
            old(self).wf(),
        ensures
            final(self).wf(),
            (final(self)@, r.deep_view()) == on_put_record(old(self)@, key@, value@, reply),
    {
        if self.next_op == u64::MAX {
            one(
                Action::Reply {
                    to: reply,
                    body: ReplyBody::Done(Err(String::from_str("too many queries"))),
                },
            )
        } else {
            let op = self.watch(QueryKind::Put, reply);
            one(
                Action::PutRecord {
                    op: Some(op),
                    key,
                    value,
                    publisher: self.local_peer.clone(),
                    ttl_secs: RECORD_TTL_SECS,
                },
            )
        }
    }

    /// `GetRecord`: the record is looked up.
    pub fn get_record(&mut self, key: String, reply: Ticket) -> (r: Vec<Action>)
        requires
            old(self).wf(),
        ensures
            final(self).wf(),
            (final(self)@, r.deep_view()) == on_get_record(old(self)@, key@, reply),
    {
        if self.next_op == u64::MAX {
            one(
                Action::Reply {
                    to: reply,
                    body: ReplyBody::Record(Err(String::from_str("too many queries"))),
                },
            )
        } else {
            let op = self.watch(QueryKind::Get, reply);
            one(Action::GetRecord { op: Some(op), key })
        }
    }

    /// `Bootstrap`: the routing table is refreshed.
    pub fn bootstrap(&mut self, reply: Ticket) -> (r: Vec<Action>)
        requires
            old(self).wf(),
        ensures
            final(self).wf(),
            (final(self)@, r.deep_view()) == on_bootstrap(old(self)@, reply),
    {
        if self.next_op == u64::MAX {
            one(
                Action::Reply {
                    to: reply,
                    body: ReplyBody::Done(Err(String::from_str("too many queries"))),
                },
            )
        } else {
            let op = self.watch(QueryKind::Bootstrap, reply);
            one(Action::Bootstrap { op: Some(op) })
        }
    }

    /// `GetMyOnionAddress`: the announce address, or an error while there
    /// is none.
    pub fn get_my_onion_address(&mut self, reply: Ticket) -> (r: Vec<Action>)
        requires
            old(self).wf(),
        ensures
            final(self).wf(),
            (final(self)@, r.deep_view()) == on_get_address(old(self)@, reply),
    {
        if self.announce.as_str().unicode_len() > 0 {
            one(Action::Reply { to: reply, body: ReplyBody::Text(Ok(self.announce.clone())) })
        } else {
            one(
                text_error(reply, "No onion address available - Tor hidden service not created"),
            )
        }
    }

    /// `GetNetworkPeers`: one line for each connected peer.
    pub fn get_network_peers(&mut self, reply: Ticket) -> (r: Vec<Action>)
        requires
            old(self).wf(),
        ensures
            final(self).wf(),
            (final(self)@, r.deep_view()) == on_get_peers(old(self)@, reply),
    {
        let mut lines: Vec<String> = Vec::new();
        let mut i: usize = 0;
        while i < self.connected.len()
            invariant
                i <= self.connected.len(),
                lines.len() == i,
                forall|j: int| 0 <= j < i ==> lines[j]@ == "Peer ID: "@ + self.connected[j]@,
            decreases self.connected.len() - i,
        {
            lines.push(concat("Peer ID: ", self.connected[i].as_str()));
            i += 1;
        }
        assert(lines.deep_view() =~= Seq::new(
            self@.connected.len(),
            |i: int| "Peer ID: "@ + self@.connected[i],
        ));
        one(Action::Reply { to: reply, body: ReplyBody::Peers(lines) })
    }

    /// `AddPeerAddress` with the parser's verdict on the address: an address
    /// that it takes is dialed and written to the hash table; one that it
    /// refuses is refused with its complaint.
    pub fn add_checked_peer(&mut self, address: String, verdict: Result<(), String>, reply: Ticket)
        -> (r: Vec<Action>)
        requires
            old(self).wf(),
        ensures
            final(self).wf(),
            final(self)@ == old(self)@,
            r.deep_view() == match verdict {
                Ok(_) => seq![
                    ActionView::Dial { address: address@ },
                    ActionView::PutRecord {
                        op: None,
                        key: crate::record::manual_key_text(address@),
                        value: encode_utf8(address@),
                        publisher: old(self)@.local_peer,
                        ttl_secs: RECORD_TTL_SECS,
                    },
                    ActionView::Reply {
                        to: reply,
                        body: crate::protocol::ReplyView::Text(
                            Ok("Successfully added peer address: "@ + address@),
                        ),
                    },
                ],
                Err(e) => seq![
                    crate::overlay::text_error(reply, "Invalid multiaddr format: "@ + e@),
                ],
            },
    {
        match verdict {
            Ok(_) => {
                let key = manual_key(address.as_str());
                let value = utf8_bytes(address.as_str());
                let message = concat("Successfully added peer address: ", address.as_str());
                three(
                    Action::Dial { address },
                    Action::PutRecord {
                        op: None,
                        key,
                        value,
                        publisher: self.local_peer.clone(),
                        ttl_secs: RECORD_TTL_SECS,
                    },
                    Action::Reply { to: reply, body: ReplyBody::Text(Ok(message)) },
                )
            },
            Err(e) => {
                let message = concat("Invalid multiaddr format: ", e.as_str());
                one(Action::Reply { to: reply, body: ReplyBody::Text(Err(message)) })
            },
        }
    }

    /// `AddPeerAddress`: a text that is an address is dialed and written
    /// to the hash table; any other text is refused.
    pub fn add_peer_address(&mut self, address: String, reply: Ticket) -> (r: Vec<Action>)
        requires
            old(self).wf(),
        ensures
            final(self).wf(),
            (final(self)@, r.deep_view()) == on_add_peer(old(self)@, address@, reply),
    {
        let verdict = match parse_address(address.as_str()) {
            Ok(_) => Ok(()),
            Err(e) => Err(e),
        };
        self.add_checked_peer(address, verdict, reply)
    }

    /// `ForceCreateOnionService`: a hidden service for the listen port is
    /// asked for, and the caller waits in line.
    pub fn force_create_onion_service(&mut self, reply: Ticket) -> (r: Vec<Action>)
        requires
            old(self).wf(),
        ensures
            final(self).wf(),
            (final(self)@, r.deep_view()) == on_force_onion(old(self)@, reply),
    {
        self.waiters.push(reply);
        assert(self@ =~= on_force_onion(old(self)@, reply).0);
        one(Action::CreateHiddenService { port: self.listen_port })
    }

    /// Handles a command.
    pub fn command(&mut self, cmd: Command, now: u64) -> (r: Vec<Action>)
        requires
            old(self).wf(),
        ensures
            final(self).wf(),
            exists|id: Seq<char>|
                (final(self)@, r.deep_view()) == #[trigger] on_command(old(self)@, cmd@, now, id),
    {
        let ghost any = Seq::<char>::empty();
        match cmd {
            Command::AddBootstrap { addrs } => {
                let r = self.add_bootstrap(addrs);
                assert((self@, r.deep_view()) == on_command(old(self)@, cmd@, now, any));
                r
            },
            Command::PublishHash { hash } => {
                let r = self.publish_hash(hash);
                assert((self@, r.deep_view()) == on_command(old(self)@, cmd@, now, any));
                r
            },
            Command::UpdateIndex { hash, path, title, author, tags } => {
                let r = self.update_index(hash, path, title, author, tags);
                assert((self@, r.deep_view()) == on_command(old(self)@, cmd@, now, any));
                r
            },
            Command::Fetch { hash, out_path, reply } => {
                let r = self.fetch(hash, out_path, reply);
                assert((self@, r.deep_view()) == on_command(old(self)@, cmd@, now, any));
                r
            },
            Command::Search { query, reply } => {
                let r = self.search(query, reply, now);
                let ghost id = choose|id: Seq<char>|
                    (self@, r.deep_view()) == #[trigger] on_search(
                        old(self)@,
                        query@,
                        reply,
                        now,
                        id,
                    );
                assert((self@, r.deep_view()) == on_command(old(self)@, cmd@, now, id));
                r
            },
            Command::GetMetrics { reply } => {
                let r = self.get_metrics(reply);
                assert((self@, r.deep_view()) == on_command(old(self)@, cmd@, now, any));
                r
            },
            Command::PutRecord { key, value, reply } => {
                let r = self.put_record(key, value, reply);
                assert((self@, r.deep_view()) == on_command(old(self)@, cmd@, now, any));
                r
            },
            Command::GetRecord { key, reply } => {
                let r = self.get_record(key, reply);
                assert((self@, r.deep_view()) == on_command(old(self)@, cmd@, now, any));
                r
            },
            Command::Bootstrap { reply } => {
                let r = self.bootstrap(reply);
                assert((self@, r.deep_view()) == on_command(old(self)@, cmd@, now, any));
                r
            },
            Command::GetMyOnionAddress { reply } => {
                let r = self.get_my_onion_address(reply);
                assert((self@, r.deep_view()) == on_command(old(self)@, cmd@, now, any));
                r
            },
            Command::GetNetworkPeers { reply } => {
                let r = self.get_network_peers(reply);
                assert((self@, r.deep_view()) == on_command(old(self)@, cmd@, now, any));
                r
            },
            Command::AddPeerAddress { address, reply } => {
                let r = self.add_peer_address(address, reply);
                assert((self@, r.deep_view()) == on_command(old(self)@, cmd@, now, any));
                r
            },
            Command::ForceCreateOnionService { reply } => {
                let r = self.force_create_onion_service(reply);
                assert((self@, r.deep_view()) == on_command(old(self)@, cmd@, now, any));
                r
            },
        }
    }

    /// A connection came up: the peer joins the connected set.
    pub fn connection_established(&mut self, peer: String) -> (r: Vec<Action>)
        requires
            old(self).wf(),
        ensures
            final(self).wf(),
            (final(self)@, r.deep_view()) == on_connected(old(self)@, peer@),
    {
        proof {
            lemma_distinct_kept(self.connected.deep_view(), peer@);
        }
        insert_key(&mut self.connected, peer);
        assert(self@ =~= on_connected(old(self)@, peer@).0);
        none()
    }

    /// A connection went down: the peer leaves the connected set, and a
    /// fetch that it was serving fails.
    pub fn connection_closed(&mut self, peer: String) -> (r: Vec<Action>)
        requires
            old(self).wf(),
        ensures
            final(self).wf(),
            (final(self)@, r.deep_view()) == on_disconnected(old(self)@, peer@),
    {
        proof {
            lemma_distinct_kept(self.connected.deep_view(), peer@);
        }
        remove_key(&mut self.connected, peer.as_str());
        let ghost expected = on_disconnected(old(self)@, peer@);
        match self.fetch.take() {
            Some(f) => {
                let serving = match &f.peer {
                    Some(p) => crate::strings::same_text(p.as_str(), peer.as_str()),
                    None => false,
                };
                if serving {
                    let r = fetch_failed(&f, "peer disconnected");
                    assert(self@ =~= expected.0);
                    r
                } else {
                    self.fetch = Some(f);
                    assert(self@ =~= expected.0);
                    none()
                }
            },
            None => {
                assert(self@ =~= expected.0);
                none()
            },
        }
    }

    /// Answers a chunk request that has been decoded already.
    pub fn serve(&mut self, channel: u64, request: Option<(String, u64)>) -> (r: Vec<Action>)
        requires
            old(self).wf(),
        ensures
            final(self).wf(),
            final(self)@ == old(self)@,
            r.deep_view() == match crate::chunk::request_view(request) {
                Some((hash, offset)) => if has_key(old(self)@.keys, hash) {
                    seq![
                        ActionView::ServeChunk {
                            channel,
                            path: old(self)@.entries[key_index(old(self)@.keys, hash)].path,
                            offset,
                            max_len: CHUNK_SIZE,
                        },
                    ]
                } else {
                    seq![ActionView::SendResponse { channel, data: Seq::empty() }]
                },
                None => seq![ActionView::SendResponse { channel, data: Seq::empty() }],
            },
    {
        match request {
            Some((hash, offset)) => match self.index.get(hash.as_str()) {
                Some(c) => one(
                    Action::ServeChunk {
                        channel,
                        path: c.path.clone(),
                        offset,
                        max_len: CHUNK_SIZE,
                    },
                ),
                None => one(Action::SendResponse { channel, data: Vec::new() }),
            },
            None => one(Action::SendResponse { channel, data: Vec::new() }),
        }
    }

    /// A chunk request came in.
    pub fn chunk_request(&mut self, channel: u64, payload: Vec<u8>) -> (r: Vec<Action>)
        requires
            old(self).wf(),
        ensures
            final(self).wf(),
            (final(self)@, r.deep_view()) == on_chunk_request(old(self)@, channel, payload@),
    {
        let request = parse_chunk_request(payload.as_slice());
        self.serve(channel, request)
    }

    /// The output file of the fetch was opened, or could not be.
    pub fn output_opened(&mut self, ok: bool) -> (r: Vec<Action>)
        requires
            old(self).wf(),
        ensures
            final(self).wf(),
            (final(self)@, r.deep_view()) == on_output_opened(old(self)@, ok),
    {
        let ghost expected = on_output_opened(old(self)@, ok);
        match self.fetch.take() {
            Some(f) => {
                if f.peer.is_some() {
                    self.fetch = Some(f);
                    assert(self@ =~= expected.0);
                    none()
                } else if !ok {
                    assert(self@ =~= expected.0);
                    one(text_error(f.reply, "failed to open output file"))
                } else if self.connected.len() == 0 {
                    assert(self@ =~= expected.0);
                    fetch_failed(&f, "no peers connected")
                } else {
                    let peer = self.connected[0].clone();
                    let payload = build_chunk_request(f.hash.as_str(), 0);
                    let action = Action::SendRequest { peer: peer.clone(), payload };
                    let hash = f.hash.clone();
                    self.fetch = Some(PendingFetch { peer: Some(peer), ..f });
                    self.record_progress(hash.as_str(), 0);
                    assert(self@ =~= expected.0);
                    one(action)
                }
            },
            None => {
                assert(self@ =~= expected.0);
                none()
            },
        }
    }

    /// The answer to the chunk request of the fetch came in.
    pub fn chunk_response(&mut self, data: Vec<u8>) -> (r: Vec<Action>)
        requires
            old(self).wf(),
        ensures
            final(self).wf(),
            (final(self)@, r.deep_view()) == on_chunk_response(old(self)@, data@),
    {
        let ghost expected = on_chunk_response(old(self)@, data@);
        match self.fetch.take() {
            Some(f) => {
                let peer = match &f.peer {
                    Some(p) => p.clone(),
                    None => {
                        self.fetch = Some(f);
                        assert(self@ =~= expected.0);
                        return none();
                    },
                };
                if data.len() == 0 {
                    assert(self@ =~= expected.0);
                    two(
                        Action::CloseOutput,
                        Action::Reply { to: f.reply, body: ReplyBody::Text(Ok(f.out_path)) },
                    )
                } else if data.len() as u64 > u64::MAX - f.offset {
                    assert(self@ =~= expected.0);
                    fetch_failed(&f, "transfer too large")
                } else {
                    let offset: u64 = f.offset + data.len() as u64;
                    let payload = build_chunk_request(f.hash.as_str(), offset);
                    let hash = f.hash.clone();
                    self.fetch = Some(PendingFetch { offset, ..f });
                    self.record_progress(hash.as_str(), offset);
                    assert(self@ =~= expected.0);
                    two(Action::WriteChunk { data }, Action::SendRequest { peer, payload })
                }
            },
            None => {
                assert(self@ =~= expected.0);
                none()
            },
        }
    }

    /// The chunk request of the fetch failed: so does the fetch.
    pub fn request_failed(&mut self) -> (r: Vec<Action>)
        requires
            old(self).wf(),
        ensures
            final(self).wf(),
            (final(self)@, r.deep_view()) == on_request_failed(old(self)@),
    {
        let ghost expected = on_request_failed(old(self)@);
        match self.fetch.take() {
            Some(f) => {
                if f.peer.is_some() {
                    assert(self@ =~= expected.0);
                    fetch_failed(&f, "chunk request failed")
                } else {
                    self.fetch = Some(f);
                    assert(self@ =~= expected.0);
                    none()
                }
            },
            None => {
                assert(self@ =~= expected.0);
                none()
            },
        }
    }

    fn hosts(&self, hash: &str) -> (r: bool)
        requires
            self.wf(),
        ensures
            r == crate::overlay::hosts(self@, hash@),
    {
        match self.index.get(hash) {
            Some(c) => !starts_with(c.path.as_str().as_bytes(), "discovered:".as_bytes()),
            None => false,
        }
    }

    /// Handles a gossip message that has been read already.
    pub fn message(&mut self, message: Option<GossipMessage>) -> (r: Vec<Action>)
        requires
            old(self).wf(),
        ensures
            final(self).wf(),
            (final(self)@, r.deep_view()) == on_message(
                old(self)@,
                crate::gossip::message_view(message),
            ),
    {
        let ghost expected = on_message(old(self)@, crate::gossip::message_view(message));
        match message {
            None => none(),
            Some(GossipMessage::Content { hash, title, author, tags }) => {
                if !self.hosts(hash.as_str()) {
                    let path = concat("discovered:", hash.as_str());
                    self.index.insert(
                        hash,
                        IndexedContent { path, title, author: Some(author), tags },
                    );
                    assert(self@ =~= expected.0);
                }
                none()
            },
            Some(GossipMessage::PeerAnnounce { address }) => one(Action::Dial { address }),
            Some(GossipMessage::SearchRequest { id, query }) => {
                let found = self.index.search(query.as_str());
                let mut out: Vec<Action> = Vec::new();
                let mut i: usize = 0;
                let ghost want = answers(id@, found.deep_view());
                while i < found.len()
                    invariant
                        i <= found.len(),
                        out.len() == i,
                        want == answers(id@, found.deep_view()),
                        forall|j: int| 0 <= j < i ==> out[j]@ == want[j],
                    decreases found.len() - i,
                {
                    let data = search_response(
                        id.as_str(),
                        found[i].0.as_str(),
                        found[i].1.as_str(),
                    );
                    out.push(Action::Publish { topic: Topic::Content, data });
                    i += 1;
                }
                assert(out.deep_view() =~= want);
                out
            },
            Some(GossipMessage::SearchResponse { id, hash, name }) => {
                match self.search.take() {
                    Some(mut s) => {
                        if crate::strings::same_text(s.id.as_str(), id.as_str()) && position_of(
                            &s.hashes,
                            hash.as_str(),
                        ).is_none() {
                            let ghost h0 = s.hashes.deep_view();
                            let ghost n0 = s.names.deep_view();
                            s.hashes.push(hash);
                            s.names.push(name);
                            assert(s.hashes.deep_view() =~= h0.push(hash@));
                            assert(s.names.deep_view() =~= n0.push(name@));
                        }
                        self.search = Some(s);
                        assert(self@ =~= expected.0);
                    },
                    None => {
                        assert(self@ =~= expected.0);
                    },
                }
                none()
            },
        }
    }

    /// A gossip message came in on a topic.
    pub fn gossip(&mut self, topic: Topic, data: Vec<u8>) -> (r: Vec<Action>)
        requires
            old(self).wf(),
        ensures
            final(self).wf(),
            (final(self)@, r.deep_view()) == on_gossip(old(self)@, topic, data@),
    {
        let message = parse_gossip(topic, data.as_slice());
        self.message(message)
    }

    /// A watched query could not be started: its caller is told.
    pub fn query_rejected(&mut self, op: u64, error: String) -> (r: Vec<Action>)
        requires
            old(self).wf(),
        ensures
            final(self).wf(),
            (final(self)@, r.deep_view()) == on_query_rejected(old(self)@, op, error@),
    {
        match find_query(&self.pending, op) {
            Some(at) => {
                let q = self.pending.remove(at);
                assert(self@ =~= on_query_rejected(old(self)@, op, error@).0);
                let body = match q.kind {
                    QueryKind::Put => ReplyBody::Done(
                        Err(concat("Failed to initiate put record: ", error.as_str())),
                    ),
                    QueryKind::Get => ReplyBody::Record(
                        Err(concat("Failed to initiate get record: ", error.as_str())),
                    ),
                    QueryKind::Bootstrap => ReplyBody::Done(
                        Err(concat("Failed to initiate bootstrap: ", error.as_str())),
                    ),
                };
                one(Action::Reply { to: q.reply, body })
            },
            None => none(),
        }
    }

    /// A watched query ended: its caller gets the result.
    pub fn query_finished(&mut self, op: u64, outcome: QueryOutcome) -> (r: Vec<Action>)
        requires
            old(self).wf(),
        ensures
            final(self).wf(),
            (final(self)@, r.deep_view()) == on_query_finished(old(self)@, op, outcome@),
    {
        match find_query(&self.pending, op) {
            Some(at) => {
                let q = self.pending[at];
                let body = match (q.kind, outcome) {
                    (QueryKind::Put, QueryOutcome::Put(Ok(_))) => Some(ReplyBody::Done(Ok(()))),
                    (QueryKind::Put, QueryOutcome::Put(Err(e))) => Some(
                        ReplyBody::Done(Err(concat("Failed to store record: ", e.as_str()))),
                    ),
                    (QueryKind::Get, QueryOutcome::Get(Ok(value))) => Some(
                        ReplyBody::Record(Ok(value)),
                    ),
                    (QueryKind::Get, QueryOutcome::Get(Err(e))) => Some(
                        ReplyBody::Record(Err(concat("Failed to retrieve record: ", e.as_str()))),
                    ),
                    (QueryKind::Bootstrap, QueryOutcome::Bootstrap(Ok(_))) => Some(
                        ReplyBody::Done(Ok(())),
                    ),
                    (QueryKind::Bootstrap, QueryOutcome::Bootstrap(Err(e))) => Some(
                        ReplyBody::Done(Err(concat("Bootstrap failed: ", e.as_str()))),
                    ),
                    _ => None,
                };
                match body {
                    Some(b) => {
                        self.pending.remove(at);
                        assert(self@ =~= on_query_finished(old(self)@, op, outcome@).0);
                        one(Action::Reply { to: q.reply, body: b })
                    },
                    None => none(),
                }
            },
            None => none(),
        }
    }

    /// The hidden service that was asked for exists, or could not be made.
    pub fn hidden_service_result(&mut self, result: Result<String, String>) -> (r: Vec<Action>)
        requires
            old(self).wf(),
        ensures
            final(self).wf(),
            (final(self)@, r.deep_view()) == on_hidden_service(
                old(self)@,
                crate::protocol::text_result_view(result),
            ),
    {
        if self.waiters.len() == 0 {
            none()
        } else {
            let to = self.waiters.remove(0);
            assert(self.waiters@ =~= old(self).waiters@.drop_first());
            assert(self@ =~= on_hidden_service(
                old(self)@,
                crate::protocol::text_result_view(result),
            ).0);
            let body = match result {
                Ok(addr) => Ok(concat("Onion service created: ", addr.as_str())),
                Err(e) => Err(concat("Failed to create onion service: ", e.as_str())),
            };
            one(Action::Reply { to, body: ReplyBody::Text(body) })
        }
    }

    /// A caller has gone away: whatever waits to reply to it is dropped.
    pub fn caller_gone(&mut self, reply: Ticket) -> (r: Vec<Action>)
        requires
            old(self).wf(),
        ensures
            final(self).wf(),
            (final(self)@, r.deep_view()) == crate::overlay::on_caller_gone(old(self)@, reply),
    {
        let ghost expected = crate::overlay::on_caller_gone(old(self)@, reply);
        let mut out: Vec<Action> = Vec::new();
        match self.fetch.take() {
            Some(f) => {
                if f.reply == reply {
                    out.push(Action::CloseOutput);
                } else {
                    self.fetch = Some(f);
                }
            },
            None => {},
        }
        match self.search.take() {
            Some(s) => {
                if s.reply != reply {
                    self.search = Some(s);
                }
            },
            None => {},
        }
        let mut kept: Vec<PendingQuery> = Vec::new();
        let mut i: usize = 0;
        let ghost all = self.pending@;
        assert(all.subrange(0, 0) =~= Seq::<PendingQuery>::empty());
        while i < self.pending.len()
            invariant
                i <= self.pending.len(),
                all == self.pending@,
                kept@ == crate::overlay::queries_without(all.subrange(0, i as int), reply),
                forall|j: int| 0 <= j < kept@.len() ==> (#[trigger] kept@[j]).op < self.next_op,
                forall|j: int| 0 <= j < all.len() ==> (#[trigger] all[j]).op < self.next_op,
            decreases self.pending.len() - i,
        {
            assert(all.subrange(0, i + 1).drop_last() =~= all.subrange(0, i as int));
            assert(all.subrange(0, i + 1).last() == all[i as int]);
            if self.pending[i].reply != reply {
                kept.push(self.pending[i]);
            }
            i += 1;
        }
        assert(all.subrange(0, all.len() as int) =~= all);
        self.pending = kept;
        let mut waiting: Vec<Ticket> = Vec::new();
        let mut k: usize = 0;
        let ghost line = self.waiters@;
        assert(line.subrange(0, 0) =~= Seq::<Ticket>::empty());
        while k < self.waiters.len()
            invariant
                k <= self.waiters.len(),
                line == self.waiters@,
                waiting@ == crate::overlay::waiters_without(line.subrange(0, k as int), reply),
            decreases self.waiters.len() - k,
        {
            assert(line.subrange(0, k + 1).drop_last() =~= line.subrange(0, k as int));
            assert(line.subrange(0, k + 1).last() == line[k as int]);
            if self.waiters[k] != reply {
                waiting.push(self.waiters[k]);
            }
            k += 1;
        }
        assert(line.subrange(0, line.len() as int) =~= line);
        self.waiters = waiting;
        assert(self@ =~= expected.0);
        assert(out.deep_view() =~= expected.1);
        out
    }

    /// 50 ms have passed.
    pub fn tick(&mut self, now: u64) -> (r: Vec<Action>)
        requires
            old(self).wf(),
        ensures
            final(self).wf(),
            (final(self)@, r.deep_view()) == on_tick(old(self)@, now),
    {
        let ghost expected = on_tick(old(self)@, now);
        let mut out: Vec<Action> = Vec::new();
        let window = self.window_ms;
        match self.search.take() {
            Some(s) => {
                if now >= s.started_ms && now - s.started_ms >= window {
                    let mut found: Vec<(String, String)> = Vec::new();
                    let mut i: usize = 0;
                    while i < s.hashes.len()
                        invariant
                            i <= s.hashes.len(),
                            s.hashes.len() == s.names.len(),
                            found.len() == i,
                            forall|j: int|
                                0 <= j < i ==> found[j].0@ == s.hashes[j]@ && found[j].1@
                                    == s.names[j]@,
                        decreases s.hashes.len() - i,
                    {
                        found.push((s.hashes[i].clone(), s.names[i].clone()));
                        i += 1;
                    }
                    assert(found.deep_view() =~= paired(s@.hashes, s@.names));
                    out.push(Action::Reply { to: s.reply, body: ReplyBody::Hits(found) });
                } else {
                    self.search = Some(s);
                }
            },
            None => {},
        }
        if self.ticks + 1 >= TICKS_PER_BOOTSTRAP {
            self.ticks = 0;
            out.push(Action::Bootstrap { op: None });
        } else {
            self.ticks = self.ticks + 1;
        }
        assert(self@ =~= expected.0);
        assert(out.deep_view() =~= expected.1);
        out
    }

    /// One second has passed.
    pub fn announce_tick(&mut self) -> (r: Vec<Action>)
        requires
            old(self).wf(),
        ensures
            final(self).wf(),
            (final(self)@, r.deep_view()) == on_announce_tick(old(self)@),
    {
        if self.announce.as_str().unicode_len() == 0 {
            none()
        } else {
            three(
                Action::Publish { topic: Topic::Peers, data: utf8_bytes(self.announce.as_str()) },
                Action::PutRecord {
                    op: None,
                    key: peer_key(self.local_peer.as_str()),
                    value: utf8_bytes(self.announce.as_str()),
                    publisher: self.local_peer.clone(),
                    ttl_secs: RECORD_TTL_SECS,
                },
                Action::GetRecord { op: None, key: discovery_key() },
            )
        }
    }

    /// Answers an event that arrives at time `now_ms` (milliseconds on a
    /// clock that does not run backwards): the state moves on and the
    /// actions to carry out come back, in order.
    pub fn step(&mut self, event: Event, now_ms: u64) -> (r: Vec<Action>)
        requires
            old(self).wf(),
        ensures
            final(self).wf(),
            exists|id: Seq<char>|
                (final(self)@, r.deep_view()) == #[trigger] next(old(self)@, event@, now_ms, id),
    {
        let ghost any = Seq::<char>::empty();
        match event {
            Event::Command(cmd) => {
                let r = self.command(cmd, now_ms);
                let ghost id = choose|id: Seq<char>|
                    (self@, r.deep_view()) == #[trigger] on_command(old(self)@, cmd@, now_ms, id);
                assert((self@, r.deep_view()) == next(old(self)@, event@, now_ms, id));
                r
            },
            Event::ConnectionEstablished { peer } => {
                let r = self.connection_established(peer);
                assert((self@, r.deep_view()) == next(old(self)@, event@, now_ms, any));
                r
            },
            Event::ConnectionClosed { peer } => {
                let r = self.connection_closed(peer);
                assert((self@, r.deep_view()) == next(old(self)@, event@, now_ms, any));
                r
            },
            Event::ChunkRequest { channel, payload } => {
                let r = self.chunk_request(channel, payload);
                assert((self@, r.deep_view()) == next(old(self)@, event@, now_ms, any));
                r
            },
            Event::ChunkResponse { data } => {
                let r = self.chunk_response(data);
                assert((self@, r.deep_view()) == next(old(self)@, event@, now_ms, any));
                r
            },
            Event::RequestFailed => {
                let r = self.request_failed();
                assert((self@, r.deep_view()) == next(old(self)@, event@, now_ms, any));
                r
            },
            Event::Gossip { topic, data } => {
                let r = self.gossip(topic, data);
                assert((self@, r.deep_view()) == next(old(self)@, event@, now_ms, any));
                r
            },
            Event::OutputOpened { ok } => {
                let r = self.output_opened(ok);
                assert((self@, r.deep_view()) == next(old(self)@, event@, now_ms, any));
                r
            },
            Event::QueryRejected { op, error } => {
                let r = self.query_rejected(op, error);
                assert((self@, r.deep_view()) == next(old(self)@, event@, now_ms, any));
                r
            },
            Event::QueryFinished { op, outcome } => {
                let r = self.query_finished(op, outcome);
                assert((self@, r.deep_view()) == next(old(self)@, event@, now_ms, any));
                r
            },
            Event::HiddenServiceResult { result } => {
                let r = self.hidden_service_result(result);
                assert((self@, r.deep_view()) == next(old(self)@, event@, now_ms, any));
                r
            },
            Event::CallerGone { reply } => {
                let r = self.caller_gone(reply);
                assert((self@, r.deep_view()) == next(old(self)@, event@, now_ms, any));
                r
            },
            Event::Tick => {
                let r = self.tick(now_ms);
                assert((self@, r.deep_view()) == next(old(self)@, event@, now_ms, any));
                r
            },
            Event::AnnounceTick => {
                let r = self.announce_tick();
                assert((self@, r.deep_view()) == next(old(self)@, event@, now_ms, any));
                r
            },
        }
    }
}

/// Why the runtime cannot start.
#[derive(Debug, PartialEq, Eq)]
pub enum StartError {
    /// No SOCKS egress was given.
    NoSocks,
    /// The hidden service could not be created; the text says why.
    HiddenService(String),
}

/// The view of a start error.
pub enum StartErrorView {
    NoSocks,
    HiddenService(Seq<char>),
}

impl View for StartError {
    type V = StartErrorView;

    open spec fn view(&self) -> StartErrorView {
        match self {
            StartError::NoSocks => StartErrorView::NoSocks,
            StartError::HiddenService(e) => StartErrorView::HiddenService(e@),
        }
    }
}

impl StartError {
    /// The message under which the error is reported.
    pub fn message(&self) -> (r: String)
        ensures
            r@ == match self@ {
                StartErrorView::NoSocks => "SOCKS proxy is required for P2P runtime"@,
                StartErrorView::HiddenService(e) => "Tor hidden service creation failed: "@ + e,
            },
    {
        match self {
            StartError::NoSocks => String::from_str("SOCKS proxy is required for P2P runtime"),
            StartError::HiddenService(e) => concat(
                "Tor hidden service creation failed: ",
                e.as_str(),
            ),
        }
    }
}

/// A runtime that has started: the node's peer id, the state for the event
/// loop, and what the loop is to do first.
#[derive(Debug)]
pub struct RuntimeHandle {
    pub peer_id: String,
    pub overlay: Overlay,
    pub startup: Vec<Action>,
}

/// The address that is dialed for a seed peer.
pub open spec fn seed_address_text(seed: (Seq<char>, u16)) -> Seq<char> {
    if is_address(bootstrap_text(seed.0, seed.1)) {
        bootstrap_text(seed.0, seed.1)
    } else {
        fallback_address()
    }
}

/// What is done for one seed peer: its address is dialed, and the hash
/// table learns the address where it names a peer.
pub open spec fn seed_actions(seed: (Seq<char>, u16)) -> Seq<ActionView> {
    let address = seed_address_text(seed);
    match parsed_address(address) {
        Ok(parts) => match first_peer(parts) {
            Some(peer) => seq![
                ActionView::Dial { address },
                ActionView::AddKadAddress { peer, address },
            ],
            None => seq![ActionView::Dial { address }],
        },
        Err(_) => seq![ActionView::Dial { address }],
    }
}

/// What is done for the seed peers, in order.
pub open spec fn dial_all(seeds: Seq<(Seq<char>, u16)>) -> Seq<ActionView>
    decreases seeds.len(),
{
    if seeds.len() == 0 {
        Seq::empty()
    } else {
        dial_all(seeds.drop_last()) + seed_actions(seeds.last())
    }
}

/// The seed peers that an operator's list names: none without a list.
pub open spec fn seeds_named(list: Option<Seq<char>>) -> Seq<(Seq<char>, u16)> {
    match list {
        Some(l) => seeds_of(split_all(encode_utf8(l), COMMA)),
        None => Seq::empty(),
    }
}

/// What a runtime does first: it dials the seed peers and refreshes the
/// routing table.
pub open spec fn startup_actions(list: Option<Seq<char>>) -> Seq<ActionView> {
    dial_all(seeds_named(list)) + seq![ActionView::Bootstrap { op: None }]
}

/// The state in which a runtime starts.
pub open spec fn initial_view(peer: Seq<char>, listen_port: u16, onion: Seq<char>) -> OverlayView {
    OverlayView {
        local_peer: peer,
        listen_port,
        announce: if onion.len() == 0 {
            Seq::empty()
        } else {
            announce_text(onion, listen_port, peer)
        },
        window_ms: SEARCH_WINDOW_MS,
        keys: Seq::empty(),
        entries: Seq::empty(),
        connected: Seq::empty(),
        stat_keys: Seq::empty(),
        stats: Seq::empty(),
        fetch: None,
        search: None,
        pending: Seq::empty(),
        waiters: Seq::empty(),
        next_op: 0,
        ticks: 0,
    }
}

/// What is done for a seed peer whose address and peer id (if its address
/// names one) are known: the address is dialed, and the hash table learns
/// it where it names a peer.
pub fn dial_seed(address: String, peer: Option<String>) -> (r: Vec<Action>)
    ensures
        r.deep_view() == match peer {
            Some(p) => seq![
                ActionView::Dial { address: address@ },
                ActionView::AddKadAddress { peer: p@, address: address@ },
            ],
            None => seq![ActionView::Dial { address: address@ }],
        },
{
    match peer {
        Some(p) => two(
            Action::Dial { address: address.clone() },
            Action::AddKadAddress { peer: p, address },
        ),
        None => one(Action::Dial { address }),
    }
}

fn seed_dial(seed: &SeedPeer) -> (r: Vec<Action>)
    ensures
        r.deep_view() == seed_actions(seed@),
{
    let address = seed_address(seed.host.as_str(), seed.port);
    let peer = match parse_address(address.as_str()) {
        Ok(parts) => peer_of(&parts),
        Err(_) => None,
    };
    dial_seed(address, peer)
}

/// Starts the overlay runtime once the node has its identity, its local
/// listener and the answer of the anonymity manager. Without a SOCKS
/// egress and without a hidden service there is no runtime. `seeds` is the
/// operator's list of seed peers, if one is set.
pub fn start_runtime(
    socks: Option<String>,
    peer_id: String,
    listen_port: u16,
    onion: Result<String, String>,
    seeds: Option<String>,
) -> (r: Result<RuntimeHandle, StartError>)
    ensures
        match r {
            Ok(h) => socks is Some && onion is Ok && h.peer_id@ == peer_id@ && h.overlay.wf()
                && h.overlay@ == initial_view(peer_id@, listen_port, onion->Ok_0@)
                && h.startup.deep_view() == startup_actions(opt_view(seeds)),
            Err(e) => if socks is None {
                e@ == StartErrorView::NoSocks
            } else {
                onion is Err && e@ == StartErrorView::HiddenService(onion->Err_0@)
            },
        },
{
    if socks.is_none() {
        return Err(StartError::NoSocks);
    }
    let onion_host = match onion {
        Ok(host) => host,
        Err(e) => {
            return Err(StartError::HiddenService(e));
        },
    };
    let announce = announce_address(onion_host.as_str(), listen_port, peer_id.as_str());
    let overlay = Overlay::new(peer_id.clone(), listen_port, announce, SEARCH_WINDOW_MS);
    let list = match &seeds {
        Some(l) => parse_bootstrap_list(l.as_str()),
        None => Vec::new(),
    };
    assert(list.deep_view() =~= seeds_named(opt_view(seeds)));
    let mut startup: Vec<Action> = Vec::new();
    let mut i: usize = 0;
    let ghost all = list.deep_view();
    assert(startup.deep_view() =~= dial_all(all.subrange(0, 0)));
    while i < list.len()
        invariant
            i <= list.len(),
            all == list.deep_view(),
            startup.deep_view() == dial_all(all.subrange(0, i as int)),
        decreases list.len() - i,
    {
        let ghost before = startup.deep_view();
        assert(all.subrange(0, i + 1).drop_last() =~= all.subrange(0, i as int));
        assert(all.subrange(0, i + 1).last() == list[i as int]@);
        let mut step = seed_dial(&list[i]);
        let ghost added = step.deep_view();
        startup.append(&mut step);
        assert(startup.deep_view() =~= before + added);
        i += 1;
    }
    assert(all.subrange(0, all.len() as int) =~= all);
    let ghost dialed = startup.deep_view();
    startup.push(Action::Bootstrap { op: None });
    assert(startup.deep_view() =~= dialed + seq![ActionView::Bootstrap { op: None }]);
    Ok(RuntimeHandle { peer_id, overlay, startup })
}

} // verus!
