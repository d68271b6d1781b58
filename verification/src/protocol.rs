//! What goes into the overlay's state machine and what comes out of it:
//! commands, events, actions and replies.
//!
//! The event loop keeps the reply channels; the state machine knows each
//! only by its ticket.

use crate::gossip::Topic;
use crate::strings::opt_view;
use vstd::prelude::*;

verus! {

/// The handle of a reply channel that the event loop keeps.
pub type Ticket = u64;

/// A command of a caller.
#[derive(Debug, PartialEq, Eq)]
pub enum Command {
    AddBootstrap { addrs: Vec<String> },
    PublishHash { hash: String },
    UpdateIndex {
        hash: String,
        path: String,
        title: String,
        author: Option<String>,
        tags: Vec<String>,
    },
    Fetch { hash: String, out_path: String, reply: Ticket },
    Search { query: String, reply: Ticket },
    GetMetrics { reply: Ticket },
    PutRecord { key: String, value: Vec<u8>, reply: Ticket },
    GetRecord { key: String, reply: Ticket },
    Bootstrap { reply: Ticket },
    GetMyOnionAddress { reply: Ticket },
    GetNetworkPeers { reply: Ticket },
    AddPeerAddress { address: String, reply: Ticket },
    ForceCreateOnionService { reply: Ticket },
}

/// A command as plain values.
pub enum CommandView {
    AddBootstrap { addrs: Seq<Seq<char>> },
    PublishHash { hash: Seq<char> },
    UpdateIndex {
        hash: Seq<char>,
        path: Seq<char>,
        title: Seq<char>,
        author: Option<Seq<char>>,
        tags: Seq<Seq<char>>,
    },
    Fetch { hash: Seq<char>, out_path: Seq<char>, reply: Ticket },
    Search { query: Seq<char>, reply: Ticket },
    GetMetrics { reply: Ticket },
    PutRecord { key: Seq<char>, value: Seq<u8>, reply: Ticket },
    GetRecord { key: Seq<char>, reply: Ticket },
    Bootstrap { reply: Ticket },
    GetMyOnionAddress { reply: Ticket },
    GetNetworkPeers { reply: Ticket },
    AddPeerAddress { address: Seq<char>, reply: Ticket },
    ForceCreateOnionService { reply: Ticket },
}

impl View for Command {
    type V = CommandView;

    open spec fn view(&self) -> CommandView {
        match self {
            Command::AddBootstrap { addrs } => CommandView::AddBootstrap {
                addrs: addrs.deep_view(),
            },
            Command::PublishHash { hash } => CommandView::PublishHash { hash: hash@ },
            Command::UpdateIndex { hash, path, title, author, tags } => CommandView::UpdateIndex {
                hash: hash@,
                path: path@,
                title: title@,
                author: opt_view(*author),
                tags: tags.deep_view(),
            },
            Command::Fetch { hash, out_path, reply } => CommandView::Fetch {
                hash: hash@,
                out_path: out_path@,
                reply: *reply,
            },
            Command::Search { query, reply } => CommandView::Search {
                query: query@,
                reply: *reply,
            },
            Command::GetMetrics { reply } => CommandView::GetMetrics { reply: *reply },
            Command::PutRecord { key, value, reply } => CommandView::PutRecord {
                key: key@,
                value: value@,
                reply: *reply,
            },
            Command::GetRecord { key, reply } => CommandView::GetRecord {
                key: key@,
                reply: *reply,
            },
            Command::Bootstrap { reply } => CommandView::Bootstrap { reply: *reply },
            Command::GetMyOnionAddress { reply } => CommandView::GetMyOnionAddress {
                reply: *reply,
            },
            Command::GetNetworkPeers { reply } => CommandView::GetNetworkPeers { reply: *reply },
            Command::AddPeerAddress { address, reply } => CommandView::AddPeerAddress {
                address: address@,
                reply: *reply,
            },
            Command::ForceCreateOnionService { reply } => CommandView::ForceCreateOnionService {
                reply: *reply,
            },
        }
    }
}

impl DeepView for Command {
    type V = CommandView;

    open spec fn deep_view(&self) -> CommandView {
        self@
    }
}

impl CommandView {
    /// The ticket on which the command expects its reply, if it expects one.
    pub open spec fn ticket(self) -> Option<Ticket> {
        match self {
            CommandView::AddBootstrap { .. } => None,
            CommandView::PublishHash { .. } => None,
            CommandView::UpdateIndex { .. } => None,
            CommandView::Fetch { reply, .. } => Some(reply),
            CommandView::Search { reply, .. } => Some(reply),
            CommandView::GetMetrics { reply } => Some(reply),
            CommandView::PutRecord { reply, .. } => Some(reply),
            CommandView::GetRecord { reply, .. } => Some(reply),
            CommandView::Bootstrap { reply } => Some(reply),
            CommandView::GetMyOnionAddress { reply } => Some(reply),
            CommandView::GetNetworkPeers { reply } => Some(reply),
            CommandView::AddPeerAddress { reply, .. } => Some(reply),
            CommandView::ForceCreateOnionService { reply } => Some(reply),
        }
    }
}

/// One row of a metrics snapshot.
#[derive(Debug, PartialEq, Eq)]
pub struct MetricRow {
    pub hash: String,
    pub downloaded: u64,
    pub size: u64,
    pub rate_bps: u64,
    pub status: String,
}

/// A metrics row as plain values.
pub struct MetricView {
    pub hash: Seq<char>,
    pub downloaded: u64,
    pub size: u64,
    pub rate_bps: u64,
    pub status: Seq<char>,
}

impl View for MetricRow {
    type V = MetricView;

    open spec fn view(&self) -> MetricView {
        MetricView {
            hash: self.hash@,
            downloaded: self.downloaded,
            size: self.size,
            rate_bps: self.rate_bps,
            status: self.status@,
        }
    }
}

impl DeepView for MetricRow {
    type V = MetricView;

    open spec fn deep_view(&self) -> MetricView {
        self@
    }
}

/// What is sent on a reply channel.
#[derive(Debug, PartialEq, Eq)]
pub enum ReplyBody {
    /// To `Fetch`, `GetMyOnionAddress`, `AddPeerAddress` and
    /// `ForceCreateOnionService`: a text, or an error message.
    Text(Result<String, String>),
    /// To `PutRecord` and `Bootstrap`.
    Done(Result<(), String>),
    /// To `GetRecord`: the value of the record.
    Record(Result<Vec<u8>, String>),
    /// To `Search`: pairs of hash and name.
    Hits(Vec<(String, String)>),
    /// To `GetMetrics`.
    Metrics(Vec<MetricRow>),
    /// To `GetNetworkPeers`.
    Peers(Vec<String>),
}

/// A reply as plain values.
pub enum ReplyView {
    Text(Result<Seq<char>, Seq<char>>),
    Done(Result<(), Seq<char>>),
    Record(Result<Seq<u8>, Seq<char>>),
    Hits(Seq<(Seq<char>, Seq<char>)>),
    Metrics(Seq<MetricView>),
    Peers(Seq<Seq<char>>),
}

/// The view of a text or an error message.
pub open spec fn text_result_view(r: Result<String, String>) -> Result<Seq<char>, Seq<char>> {
    match r {
        Ok(t) => Ok(t@),
        Err(e) => Err(e@),
    }
}

/// The view of a success or an error message.
pub open spec fn done_view(r: Result<(), String>) -> Result<(), Seq<char>> {
    match r {
        Ok(_) => Ok(()),
        Err(e) => Err(e@),
    }
}

/// The view of a record value or an error message.
pub open spec fn record_view(r: Result<Vec<u8>, String>) -> Result<Seq<u8>, Seq<char>> {
    match r {
        Ok(v) => Ok(v@),
        Err(e) => Err(e@),
    }
}

impl View for ReplyBody {
    type V = ReplyView;

    open spec fn view(&self) -> ReplyView {
        match self {
            ReplyBody::Text(r) => ReplyView::Text(text_result_view(*r)),
            ReplyBody::Done(r) => ReplyView::Done(done_view(*r)),
            ReplyBody::Record(r) => ReplyView::Record(record_view(*r)),
            ReplyBody::Hits(h) => ReplyView::Hits(h.deep_view()),
            ReplyBody::Metrics(m) => ReplyView::Metrics(m.deep_view()),
            ReplyBody::Peers(p) => ReplyView::Peers(p.deep_view()),
        }
    }
}

/// What the event loop is asked to do.
#[derive(Debug, PartialEq, Eq)]
pub enum Action {
    /// Dial a logical address.
    Dial { address: String },
    /// Tell the hash table where a peer can be reached.
    AddKadAddress { peer: String, address: String },
    /// Broadcast on a gossip topic; failures are dropped.
    Publish { topic: Topic, data: Vec<u8> },
    /// Send a chunk request to a peer.
    SendRequest { peer: String, payload: Vec<u8> },
    /// Answer a chunk request with these bytes.
    SendResponse { channel: u64, data: Vec<u8> },
    /// Answer a chunk request from a file: up to `max_len` bytes from
    /// `offset`, or nothing where the file cannot be read there.
    ServeChunk { channel: u64, path: String, offset: u64, max_len: u64 },
    /// Open the output file of the fetch for truncating write, and report
    /// with `OutputOpened`.
    OpenOutput { path: String },
    /// Append to the output file of the fetch.
    WriteChunk { data: Vec<u8> },
    /// Close the output file of the fetch.
    CloseOutput,
    /// Write a record with quorum one. A query with a number (`op`) is
    /// reported with `QueryRejected` or `QueryFinished`.
    PutRecord { op: Option<u64>, key: String, value: Vec<u8>, publisher: String, ttl_secs: u64 },
    /// Look a record up.
    GetRecord { op: Option<u64>, key: String },
    /// Refresh the routing table.
    Bootstrap { op: Option<u64> },
    /// Create a hidden service for a loopback port, and report with
    /// `HiddenServiceResult`.
    CreateHiddenService { port: u16 },
    /// Send on a reply channel.
    Reply { to: Ticket, body: ReplyBody },
}

/// An action as plain values.
pub enum ActionView {
    Dial { address: Seq<char> },
    AddKadAddress { peer: Seq<char>, address: Seq<char> },
    Publish { topic: Topic, data: Seq<u8> },
    SendRequest { peer: Seq<char>, payload: Seq<u8> },
    SendResponse { channel: u64, data: Seq<u8> },
    ServeChunk { channel: u64, path: Seq<char>, offset: u64, max_len: u64 },
    OpenOutput { path: Seq<char> },
    WriteChunk { data: Seq<u8> },
    CloseOutput,
    PutRecord {
        op: Option<u64>,
        key: Seq<char>,
        value: Seq<u8>,
        publisher: Seq<char>,
        ttl_secs: u64,
    },
    GetRecord { op: Option<u64>, key: Seq<char> },
    Bootstrap { op: Option<u64> },
    CreateHiddenService { port: u16 },
    Reply { to: Ticket, body: ReplyView },
}

impl View for Action {
    type V = ActionView;

    open spec fn view(&self) -> ActionView {
        match self {
            Action::Dial { address } => ActionView::Dial { address: address@ },
            Action::AddKadAddress { peer, address } => ActionView::AddKadAddress {
                peer: peer@,
                address: address@,
            },
            Action::Publish { topic, data } => ActionView::Publish { topic: *topic, data: data@ },
            Action::SendRequest { peer, payload } => ActionView::SendRequest {
                peer: peer@,
                payload: payload@,
            },
            Action::SendResponse { channel, data } => ActionView::SendResponse {
                channel: *channel,
                data: data@,
            },
            Action::ServeChunk { channel, path, offset, max_len } => ActionView::ServeChunk {
                channel: *channel,
                path: path@,
                offset: *offset,
                max_len: *max_len,
            },
            Action::OpenOutput { path } => ActionView::OpenOutput { path: path@ },
            Action::WriteChunk { data } => ActionView::WriteChunk { data: data@ },
            Action::CloseOutput => ActionView::CloseOutput,
            Action::PutRecord { op, key, value, publisher, ttl_secs } => ActionView::PutRecord {
                op: *op,
                key: key@,
                value: value@,
                publisher: publisher@,
                ttl_secs: *ttl_secs,
            },
            Action::GetRecord { op, key } => ActionView::GetRecord { op: *op, key: key@ },
            Action::Bootstrap { op } => ActionView::Bootstrap { op: *op },
            Action::CreateHiddenService { port } => ActionView::CreateHiddenService {
                port: *port,
            },
            Action::Reply { to, body } => ActionView::Reply { to: *to, body: body@ },
        }
    }
}

impl DeepView for Action {
    type V = ActionView;

    open spec fn deep_view(&self) -> ActionView {
        self@
    }
}

/// How a query of the hash table ended.
#[derive(Debug, PartialEq, Eq)]
pub enum QueryOutcome {
    Put(Result<(), String>),
    Get(Result<Vec<u8>, String>),
    Bootstrap(Result<(), String>),
    /// A result of any other kind.
    Other,
}

/// The end of a query as plain values.
pub enum QueryOutcomeView {
    Put(Result<(), Seq<char>>),
    Get(Result<Seq<u8>, Seq<char>>),
    Bootstrap(Result<(), Seq<char>>),
    Other,
}

impl View for QueryOutcome {
    type V = QueryOutcomeView;

    open spec fn view(&self) -> QueryOutcomeView {
        match self {
            QueryOutcome::Put(r) => QueryOutcomeView::Put(done_view(*r)),
            QueryOutcome::Get(r) => QueryOutcomeView::Get(record_view(*r)),
            QueryOutcome::Bootstrap(r) => QueryOutcomeView::Bootstrap(done_view(*r)),
            QueryOutcome::Other => QueryOutcomeView::Other,
        }
    }
}

/// What the event loop reports to the state machine.
#[derive(Debug, PartialEq, Eq)]
pub enum Event {
    /// A command from the inbound queue.
    Command(Command),
    /// A connection to a peer is up.
    ConnectionEstablished { peer: String },
    /// A connection to a peer is down.
    ConnectionClosed { peer: String },
    /// A chunk request came in on a response channel.
    ChunkRequest { channel: u64, payload: Vec<u8> },
    /// The answer to the chunk request of the fetch came in.
    ChunkResponse { data: Vec<u8> },
    /// The chunk request of the fetch failed.
    RequestFailed,
    /// A gossip message came in on a topic.
    Gossip { topic: Topic, data: Vec<u8> },
    /// The output file of the fetch was opened, or could not be.
    OutputOpened { ok: bool },
    /// A watched query could not be started.
    QueryRejected { op: u64, error: String },
    /// A watched query ended.
    QueryFinished { op: u64, outcome: QueryOutcome },
    /// The hidden service that was asked for exists, or could not be made.
    HiddenServiceResult { result: Result<String, String> },
    /// The caller that holds a ticket has gone away: nothing can be sent on
    /// its reply channel any more.
    CallerGone { reply: Ticket },
    /// 50 ms have passed.
    Tick,
    /// One second has passed.
    AnnounceTick,
}

/// An event as plain values.
pub enum EventView {
    Command(CommandView),
    ConnectionEstablished { peer: Seq<char> },
    ConnectionClosed { peer: Seq<char> },
    ChunkRequest { channel: u64, payload: Seq<u8> },
    ChunkResponse { data: Seq<u8> },
    RequestFailed,
    Gossip { topic: Topic, data: Seq<u8> },
    OutputOpened { ok: bool },
    QueryRejected { op: u64, error: Seq<char> },
    QueryFinished { op: u64, outcome: QueryOutcomeView },
    HiddenServiceResult { result: Result<Seq<char>, Seq<char>> },
    CallerGone { reply: Ticket },
    Tick,
    AnnounceTick,
}

impl View for Event {
    type V = EventView;

    open spec fn view(&self) -> EventView {
        match self {
            Event::Command(c) => EventView::Command(c@),
            Event::ConnectionEstablished { peer } => EventView::ConnectionEstablished {
                peer: peer@,
            },
            Event::ConnectionClosed { peer } => EventView::ConnectionClosed { peer: peer@ },
            Event::ChunkRequest { channel, payload } => EventView::ChunkRequest {
                channel: *channel,
                payload: payload@,
            },
            Event::ChunkResponse { data } => EventView::ChunkResponse { data: data@ },
            Event::RequestFailed => EventView::RequestFailed,
            Event::Gossip { topic, data } => EventView::Gossip { topic: *topic, data: data@ },
            Event::OutputOpened { ok } => EventView::OutputOpened { ok: *ok },
            Event::QueryRejected { op, error } => EventView::QueryRejected {
                op: *op,
                error: error@,
            },
            Event::QueryFinished { op, outcome } => EventView::QueryFinished {
                op: *op,
                outcome: outcome@,
            },
            Event::HiddenServiceResult { result } => EventView::HiddenServiceResult {
                result: text_result_view(*result),
            },
            Event::CallerGone { reply } => EventView::CallerGone { reply: *reply },
            Event::Tick => EventView::Tick,
            Event::AnnounceTick => EventView::AnnounceTick,
        }
    }
}

} // verus!
