//! The commands that a host application calls: what each works out before
//! it talks to the overlay runtime, and what it makes of the answer.

use crate::chunk::{calculate_hash, content_hash};
use crate::index::{file_name, has_key, key_index, last_segment, position_of, SLASH};
use crate::address::{bootstrap_text, is_address, onion_bootstrap_addr};
use crate::protocol::{Command, CommandView};
use crate::text::{extend, slice_copy};
use crate::type_detection::{extension_of_name, DOT};
use crate::strings::{clone_opt_text, concat, opt_view, random_uuid, same_text, text_of, utf8_text};
use crate::text::{join, join_fields, lines, lines_of, rows};
use crate::tor_manager::{StartConfig, Status};
use vstd::prelude::*;
use vstd::string::*;
use vstd::utf8::*;

verus! {

/// What is known of published content besides its path.
#[derive(Debug, PartialEq, Eq)]
pub struct ContentMeta {
    pub title: Option<String>,
    pub author: Option<String>,
    pub tags: Vec<String>,
}

/// A record of the hash table.
#[derive(Debug, PartialEq, Eq)]
pub struct KademliaRecord {
    pub key: String,
    pub value: Vec<u8>,
}

/// How a refresh of the routing table ended.
#[derive(Debug, PartialEq, Eq)]
pub struct BootstrapResult {
    pub success: bool,
    pub message: String,
}

/// How a node is to be set up.
#[derive(Debug, PartialEq, Eq)]
pub struct NetworkConfig {
    pub tor_support: Option<bool>,
    pub socks_proxy: Option<String>,
}

/// A node that was set up.
#[derive(Debug, PartialEq, Eq)]
pub struct P2PNode {
    pub id: String,
    pub config: NodeConfigEcho,
}

/// The configuration that a node runs with.
#[derive(Debug, PartialEq, Eq)]
pub struct NodeConfigEcho {
    pub enable_cultural_filtering: bool,
    pub enable_content_blocking: bool,
    pub tor_support: bool,
    pub socks_proxy: Option<String>,
}

/// The state of the network as the host application shows it.
#[derive(Debug, PartialEq, Eq)]
pub struct NetworkStatus {
    pub status: String,
    pub connected_peers: usize,
    pub connection_quality: String,
}

/// A peer as the host application shows it.
#[derive(Debug, PartialEq, Eq)]
pub struct PeerInfo {
    pub id: String,
    pub name: Option<String>,
    pub connected: bool,
}

/// What a search may include.
#[derive(Debug, PartialEq, Eq)]
pub struct SearchOptions {
    pub include_anonymous: Option<bool>,
    pub include_cultural_context: Option<bool>,
    pub resist_censorship: Option<bool>,
    pub support_alternative_narratives: Option<bool>,
    pub max_results: Option<usize>,
}

/// A search of the network.
#[derive(Debug, PartialEq, Eq)]
pub struct SearchRequest {
    pub query: String,
    pub options: SearchOptions,
}

/// One result of a search.
#[derive(Debug, PartialEq, Eq)]
pub struct SearchResult {
    pub id: String,
    pub title: String,
    pub description: String,
}

/// How peers are to be discovered.
#[derive(Debug, PartialEq, Eq)]
pub struct PeerDiscoveryOptions {
    pub include_tor_peers: Option<bool>,
    pub include_hidden_services: Option<bool>,
}

/// How the anonymity daemon is to be started, as the host application says
/// it.
#[derive(Debug, PartialEq, Eq)]
pub struct TorConfig {
    pub bridge_support: Option<bool>,
    pub socks_addr: Option<String>,
    pub bridges: Option<Vec<String>>,
}

/// The state of the anonymity daemon as the host application shows it.
#[derive(Debug, PartialEq, Eq)]
pub struct TorStatus {
    pub bootstrapped: bool,
    pub circuit_established: bool,
    pub bridges_enabled: bool,
    pub socks: Option<String>,
    pub supports_control: bool,
}

/// How many results a search gives unless told otherwise.
pub const DEFAULT_MAX_RESULTS: usize = 25;

/// The node as the commands know it.
#[derive(Debug, PartialEq, Eq)]
pub struct Runtime {
    pub node_id: String,
    pub socks_proxy: Option<String>,
    pub online: bool,
    /// The hashes of the published content, each once.
    pub hashes: Vec<String>,
    /// The path of each published content.
    pub paths: Vec<String>,
    /// What is known of each published content.
    pub metas: Vec<ContentMeta>,
}

impl Runtime {
    /// One path and one description for each hash.
    pub open spec fn wf(&self) -> bool {
        self.hashes.len() == self.paths.len() && self.hashes.len() == self.metas.len()
    }
}

/// The start configuration that a `TorConfig` asks for: bridges are
/// supported unless it says otherwise.
pub fn start_config(config: Option<TorConfig>) -> (r: StartConfig)
    ensures
        r.bridge_support == match config {
            Some(c) => match c.bridge_support {
                Some(b) => b,
                None => true,
            },
            None => true,
        },
        opt_view(r.socks_override) == match config {
            Some(c) => opt_view(c.socks_addr),
            None => None,
        },
        match config {
            Some(c) => match c.bridges {
                Some(b) => r.bridges is Some && r.bridges->0.deep_view() == b.deep_view(),
                None => r.bridges is None,
            },
            None => r.bridges is None,
        },
{
    match config {
        Some(c) => StartConfig {
            bridge_support: match c.bridge_support {
                Some(b) => b,
                None => true,
            },
            socks_override: c.socks_addr,
            bridges: c.bridges,
        },
        None => StartConfig { bridge_support: true, socks_override: None, bridges: None },
    }
}

/// The status of the daemon as the host application shows it.
pub fn tor_status(status: Status) -> (r: TorStatus)
    ensures
        r.bootstrapped == status.bootstrapped,
        r.circuit_established == status.circuit_established,
        r.bridges_enabled == status.bridges_enabled,
        opt_view(r.socks) == opt_view(status.socks),
        r.supports_control == status.supports_control,
{
    TorStatus {
        bootstrapped: status.bootstrapped,
        circuit_established: status.circuit_established,
        bridges_enabled: status.bridges_enabled,
        socks: status.socks,
        supports_control: status.supports_control,
    }
}

/// The status that is shown where the daemon could not be started.
pub fn tor_status_failed() -> (r: TorStatus)
    ensures
        !r.bootstrapped && !r.circuit_established && !r.bridges_enabled && r.socks is None
            && !r.supports_control,
{
    TorStatus {
        bootstrapped: false,
        circuit_established: false,
        bridges_enabled: false,
        socks: None,
        supports_control: false,
    }
}

/// Sets a node up under the id `node-<unique>`: it is known to the
/// commands, not yet online, and runs over Tor unless told otherwise.
pub fn init_node(rt: &mut Option<Runtime>, config: NetworkConfig, unique: &str) -> (r: P2PNode)
    ensures
        r.id@ == "node-"@ + unique@,
        !r.config.enable_cultural_filtering,
        !r.config.enable_content_blocking,
        r.config.tor_support == match config.tor_support {
            Some(t) => t,
            None => true,
        },
        opt_view(r.config.socks_proxy) == opt_view(config.socks_proxy),
        (*final(rt)) is Some,
        (*final(rt))->0.wf(),
        (*final(rt))->0.node_id@ == r.id@,
        opt_view((*final(rt))->0.socks_proxy) == opt_view(config.socks_proxy),
        !(*final(rt))->0.online,
        (*final(rt))->0.hashes@.len() == 0,
{
    let node_id = concat("node-", unique);
    *rt = Some(
        Runtime {
            node_id: node_id.clone(),
            socks_proxy: clone_opt_text(&config.socks_proxy),
            online: false,
            hashes: Vec::new(),
            paths: Vec::new(),
            metas: Vec::new(),
        },
    );
    P2PNode {
        id: node_id,
        config: NodeConfigEcho {
            enable_cultural_filtering: false,
            enable_content_blocking: false,
            tor_support: match config.tor_support {
                Some(t) => t,
                None => true,
            },
            socks_proxy: config.socks_proxy,
        },
    }
}

/// Sets a node up under a fresh random id.
pub fn init_p2p_node(rt: &mut Option<Runtime>, config: NetworkConfig) -> (r: P2PNode)
    ensures
        exists|unique: Seq<char>| r.id@ == "node-"@ + unique,
        r.config.tor_support == match config.tor_support {
            Some(t) => t,
            None => true,
        },
        opt_view(r.config.socks_proxy) == opt_view(config.socks_proxy),
        (*final(rt)) is Some,
        (*final(rt))->0.wf(),
        (*final(rt))->0.node_id@ == r.id@,
        !(*final(rt))->0.online,
        (*final(rt))->0.hashes@.len() == 0,
{
    let unique = random_uuid();
    let r = init_node(rt, config, unique.as_str());
    assert(r.id@ == "node-"@ + unique@);
    r
}

/// Marks the node as online, where it is the node that is named.
pub fn start_p2p_node(rt: &mut Option<Runtime>, node_id: &str) -> (r: bool)
    ensures
        r == ((*old(rt)) is Some && (*old(rt))->0.node_id@ == node_id@),
        (*old(rt)) is None ==> (*final(rt)) is None,
        (*old(rt)) is Some ==> ({
            let before = (*old(rt))->0;
            let after = (*final(rt))->0;
            &&& (*final(rt)) is Some
            &&& after.online == (before.online || r)
            &&& after.node_id@ == before.node_id@
            &&& after.hashes == before.hashes
            &&& after.paths == before.paths
            &&& after.metas == before.metas
        }),
{
    match rt.take() {
        Some(mut node) => {
            let same = same_text(node.node_id.as_str(), node_id);
            if same {
                node.online = true;
            }
            *rt = Some(node);
            same
        },
        None => false,
    }
}

/// The state of the network: `offline` without a node, `starting` until it
/// is online, then `online` with as many peers as content is published.
pub fn get_p2p_node_status(rt: &Option<Runtime>) -> (r: NetworkStatus)
    ensures
        r.status@ == match rt {
            Some(n) => if n.online {
                "online"@
            } else {
                "starting"@
            },
            None => "offline"@,
        },
        r.connected_peers == match rt {
            Some(n) => if n.online {
                n.hashes@.len()
            } else {
                0
            },
            None => 0,
        },
        r.connection_quality@ == match rt {
            Some(n) => if n.online {
                "good"@
            } else {
                "n/a"@
            },
            None => "n/a"@,
        },
{
    match rt {
        Some(n) => {
            if n.online {
                NetworkStatus {
                    status: String::from_str("online"),
                    connected_peers: n.hashes.len(),
                    connection_quality: String::from_str("good"),
                }
            } else {
                NetworkStatus {
                    status: String::from_str("starting"),
                    connected_peers: 0,
                    connection_quality: String::from_str("n/a"),
                }
            }
        },
        None => NetworkStatus {
            status: String::from_str("offline"),
            connected_peers: 0,
            connection_quality: String::from_str("n/a"),
        },
    }
}

/// Sets the SOCKS egress of the node where one is given. Tells whether
/// there is a node.
pub fn enable_tor_routing(rt: &mut Option<Runtime>, socks_proxy: Option<String>) -> (r: bool)
    ensures
        r == ((*old(rt)) is Some),
        (*old(rt)) is None ==> (*final(rt)) is None,
        (*old(rt)) is Some ==> ({
            let before = (*old(rt))->0;
            let after = (*final(rt))->0;
            &&& (*final(rt)) is Some
            &&& opt_view(after.socks_proxy) == if socks_proxy is Some {
                opt_view(socks_proxy)
            } else {
                opt_view(before.socks_proxy)
            }
            &&& after.online == before.online
            &&& after.node_id@ == before.node_id@
        }),
{
    match rt.take() {
        Some(mut node) => {
            if socks_proxy.is_some() {
                node.socks_proxy = socks_proxy;
            }
            *rt = Some(node);
            true
        },
        None => false,
    }
}

/// What a result says of content that the node published itself: its
/// author and its tags.
pub open spec fn description_of(author: Option<Seq<char>>, tags: Seq<Seq<char>>) -> Seq<char> {
    (match author {
        Some(a) => "author: "@ + a + " "@,
        None => Seq::empty(),
    }) + (if tags.len() > 0 {
        "tags: "@ + tag_text(tags) + " "@
    } else {
        Seq::empty()
    })
}

/// Tags with commas between them.
pub open spec fn tag_text(tags: Seq<Seq<char>>) -> Seq<char>
    decreases tags.len(),
{
    if tags.len() == 0 {
        Seq::empty()
    } else if tags.len() == 1 {
        tags[0]
    } else {
        tag_text(tags.drop_last()) + ","@ + tags.last()
    }
}

fn tags_joined(tags: &Vec<String>) -> (r: String)
    ensures
        r@ == tag_text(tags.deep_view()),
{
    let mut out = String::new();
    let mut i: usize = 0;
    let ghost all = tags.deep_view();
    assert(all.subrange(0, 0) =~= Seq::<Seq<char>>::empty());
    while i < tags.len()
        invariant
            i <= tags.len(),
            all == tags.deep_view(),
            out@ == tag_text(all.subrange(0, i as int)),
        decreases tags.len() - i,
    {
        let ghost before = out@;
        assert(all.subrange(0, i + 1).drop_last() =~= all.subrange(0, i as int));
        assert(all.subrange(0, i + 1).last() == tags[i as int]@);
        if i > 0 {
            out.append(",");
        }
        out.append(tags[i].as_str());
        assert(out@ =~= tag_text(all.subrange(0, i + 1))) by {
            if i == 0 {
                assert(before =~= Seq::<char>::empty());
                assert(all.subrange(0, 1)[0] == tags[0]@);
            }
        }
        i += 1;
    }
    assert(all.subrange(0, all.len() as int) =~= all);
    out
}

/// The description of a result: what the node knows of the content, or
/// `P2P network item` where it knows nothing.
pub open spec fn result_description(known: Option<(Option<Seq<char>>, Seq<Seq<char>>)>) -> Seq<
    char,
> {
    match known {
        Some((author, tags)) => if description_of(author, tags).len() == 0 {
            "P2P network item"@
        } else {
            description_of(author, tags)
        },
        None => "P2P network item"@,
    }
}

/// What the node knows of the content `hash`.
pub open spec fn known_of(rt: Option<Runtime>, hash: Seq<char>) -> Option<
    (Option<Seq<char>>, Seq<Seq<char>>),
> {
    match rt {
        Some(n) => if has_key(n.hashes.deep_view(), hash) {
            Some(
                (
                    opt_view(n.metas@[key_index(n.hashes.deep_view(), hash)].author),
                    n.metas@[key_index(n.hashes.deep_view(), hash)].tags.deep_view(),
                ),
            )
        } else {
            None
        },
        None => None,
    }
}

fn describe(rt: &Option<Runtime>, hash: &str) -> (r: String)
    requires
        match rt {
            Some(n) => n.wf(),
            None => true,
        },
    ensures
        r@ == result_description(known_of(*rt, hash@)),
{
    let mut d = String::new();
    match rt {
        Some(n) => match position_of(&n.hashes, hash) {
            Some(at) => {
                let m = &n.metas[at];
                match &m.author {
                    Some(a) => {
                        d.append("author: ");
                        d.append(a.as_str());
                        d.append(" ");
                    },
                    None => {},
                }
                if m.tags.len() > 0 {
                    let t = tags_joined(&m.tags);
                    d.append("tags: ");
                    d.append(t.as_str());
                    d.append(" ");
                }
                assert(d@ =~= description_of(opt_view(m.author), m.tags.deep_view()));
            },
            None => {},
        },
        None => {},
    }
    if d.as_str().unicode_len() == 0 {
        String::from_str("P2P network item")
    } else {
        d
    }
}

/// The results that a search shows: the first `max_results` pairs (25
/// unless told otherwise), each with its hash as id, its name as title and
/// a description.
pub fn search_results(rt: &Option<Runtime>, pairs: &Vec<(String, String)>, max_results: Option<
    usize,
>) -> (r: Vec<SearchResult>)
    requires
        match rt {
            Some(n) => n.wf(),
            None => true,
        },
    ensures
        r@.len() == if pairs@.len() <= (match max_results {
            Some(m) => m,
            None => DEFAULT_MAX_RESULTS,
        }) {
            pairs@.len()
        } else {
            (match max_results {
                Some(m) => m,
                None => DEFAULT_MAX_RESULTS,
            }) as nat
        },
        forall|i: int|
            0 <= i < r@.len() ==> (#[trigger] r@[i]).id@ == pairs@[i].0@ && r@[i].title@
                == pairs@[i].1@ && r@[i].description@ == result_description(
                known_of(*rt, pairs@[i].0@),
            ),
{
    let max = match max_results {
        Some(m) => m,
        None => DEFAULT_MAX_RESULTS,
    };
    let mut out: Vec<SearchResult> = Vec::new();
    let mut i: usize = 0;
    while i < pairs.len() && i < max
        invariant
            i <= pairs.len(),
            i <= max,
            out@.len() == i,
            match rt {
                Some(n) => n.wf(),
                None => true,
            },
            forall|j: int|
                0 <= j < i ==> (#[trigger] out@[j]).id@ == pairs@[j].0@ && out@[j].title@
                    == pairs@[j].1@ && out@[j].description@ == result_description(
                    known_of(*rt, pairs@[j].0@),
                ),
        decreases pairs.len() - i,
    {
        let description = describe(rt, pairs[i].0.as_str());
        out.push(
            SearchResult { id: pairs[i].0.clone(), title: pairs[i].1.clone(), description },
        );
        i += 1;
    }
    out
}

/// How the talk with the overlay runtime went.
#[derive(Debug, PartialEq, Eq)]
pub enum Exchange<T> {
    /// The runtime was never started.
    NotStarted,
    /// The command could not be handed over.
    SendFailed,
    /// The runtime went away without a reply.
    Dropped,
    /// The runtime replied.
    Replied(T),
}

/// The answer to `put_kad_record`.
pub fn put_record_answer(key: &str, exchange: Exchange<Result<(), String>>) -> (r: Result<
    String,
    String,
>)
    ensures
        crate::protocol::text_result_view(r) == match exchange {
            Exchange::NotStarted => Err::<Seq<char>, Seq<char>>("P2P runtime not initialized"@),
            Exchange::SendFailed => Err("Failed to send command to P2P runtime"@),
            Exchange::Dropped => Err("Communication error with P2P runtime"@),
            Exchange::Replied(Ok(_)) => Ok("Successfully stored record with key: "@ + key@),
            Exchange::Replied(Err(e)) => Err("Failed to store record: "@ + e@),
        },
{
    match exchange {
        Exchange::NotStarted => Err(String::from_str("P2P runtime not initialized")),
        Exchange::SendFailed => Err(String::from_str("Failed to send command to P2P runtime")),
        Exchange::Dropped => Err(String::from_str("Communication error with P2P runtime")),
        Exchange::Replied(Ok(_)) => Ok(concat("Successfully stored record with key: ", key)),
        Exchange::Replied(Err(e)) => Err(concat("Failed to store record: ", e.as_str())),
    }
}

/// The answer to `get_kad_record`.
pub fn get_record_answer(exchange: Exchange<Result<Vec<u8>, String>>) -> (r: Result<
    Vec<u8>,
    String,
>)
    ensures
        crate::protocol::record_view(r) == match exchange {
            Exchange::NotStarted => Err::<Seq<u8>, Seq<char>>("P2P runtime not initialized"@),
            Exchange::SendFailed => Err("Failed to send command to P2P runtime"@),
            Exchange::Dropped => Err("Communication error with P2P runtime"@),
            Exchange::Replied(Ok(v)) => Ok(v@),
            Exchange::Replied(Err(e)) => Err("Failed to retrieve record: "@ + e@),
        },
{
    match exchange {
        Exchange::NotStarted => Err(String::from_str("P2P runtime not initialized")),
        Exchange::SendFailed => Err(String::from_str("Failed to send command to P2P runtime")),
        Exchange::Dropped => Err(String::from_str("Communication error with P2P runtime")),
        Exchange::Replied(Ok(v)) => Ok(v),
        Exchange::Replied(Err(e)) => Err(concat("Failed to retrieve record: ", e.as_str())),
    }
}

/// The answer to `bootstrap_kad`: a refresh that failed is an answer, a
/// runtime that cannot be reached is an error.
pub fn bootstrap_answer(exchange: Exchange<Result<(), String>>) -> (r: Result<
    BootstrapResult,
    String,
>)
    ensures
        match exchange {
            Exchange::NotStarted => r is Err && r->Err_0@ == "P2P runtime not initialized"@,
            Exchange::SendFailed => r is Err && r->Err_0@
                == "Failed to send command to P2P runtime"@,
            Exchange::Dropped => r is Err && r->Err_0@ == "Communication error with P2P runtime"@,
            Exchange::Replied(Ok(_)) => r is Ok && r->Ok_0.success && r->Ok_0.message@
                == "Kademlia bootstrap completed successfully"@,
            Exchange::Replied(Err(e)) => r is Ok && !r->Ok_0.success && r->Ok_0.message@
                == "Bootstrap failed: "@ + e@,
        },
{
    match exchange {
        Exchange::NotStarted => Err(String::from_str("P2P runtime not initialized")),
        Exchange::SendFailed => Err(String::from_str("Failed to send command to P2P runtime")),
        Exchange::Dropped => Err(String::from_str("Communication error with P2P runtime")),
        Exchange::Replied(Ok(_)) => Ok(
            BootstrapResult {
                success: true,
                message: String::from_str("Kademlia bootstrap completed successfully"),
            },
        ),
        Exchange::Replied(Err(e)) => Ok(
            BootstrapResult { success: false, message: concat("Bootstrap failed: ", e.as_str()) },
        ),
    }
}

/// The peers that a record of the discovery slot names: one for each line
/// that is text, in order; none where the record is no text.
pub open spec fn peers_named(data: Seq<u8>) -> Seq<Seq<char>> {
    if valid_utf8(data) {
        Seq::new(lines_of(data).len(), |i: int| crate::gossip::lossy_text(lines_of(data)[i]))
    } else {
        Seq::empty()
    }
}

/// Reads the peers that a record of the discovery slot names.
pub fn discovered_peers(data: &[u8]) -> (r: Vec<String>)
    ensures
        r.deep_view() == peers_named(data@),
{
    let mut out: Vec<String> = Vec::new();
    if utf8_text(data).is_none() {
        assert(out.deep_view() =~= Seq::<Seq<char>>::empty());
        return out;
    }
    let ls = lines(data);
    let mut i: usize = 0;
    while i < ls.len()
        invariant
            i <= ls.len(),
            rows(ls@) == lines_of(data@),
            out.len() == i,
            forall|j: int|
                0 <= j < i ==> out.deep_view()[j] == crate::gossip::lossy_text(lines_of(data@)[j]),
        decreases ls.len() - i,
    {
        assert(rows(ls@)[i as int] == ls[i as int]@);
        let line = match utf8_text(ls[i].as_slice()) {
            Some(t) => t,
            None => String::new(),
        };
        let ghost before = out.deep_view();
        out.push(line);
        assert forall|j: int| 0 <= j < i + 1 implies out.deep_view()[j]
            == crate::gossip::lossy_text(lines_of(data@)[j]) by {
            if j < i {
                assert(out.deep_view()[j] == before[j]);
            }
        }
        i += 1;
    }
    assert(out.deep_view() =~= peers_named(data@));
    out
}

/// The name of a file without its extension: what stands before the last
/// dot of its name, or the whole name where it has no dot or begins with
/// its only dot.
pub open spec fn stem_of(name: Seq<u8>) -> Seq<u8> {
    match crate::type_detection::extension_of_name(name) {
        Some(ext) => name.subrange(0, name.len() - ext.len() - 1),
        None => name,
    }
}

/// The path without its last segment and the slashes before it.
pub open spec fn parent_of(path: Seq<u8>) -> Seq<u8> {
    let body = crate::index::without_trailing(path, SLASH);
    crate::index::without_trailing(
        body.subrange(0, body.len() - last_segment(path).len()),
        SLASH,
    )
}

/// The title under which a file is published: the stem of its name, empty
/// where that is no text.
pub open spec fn title_of(path: Seq<char>) -> Seq<char> {
    crate::gossip::lossy_text(stem_of(last_segment(encode_utf8(path))))
}

/// The text of bytes that are text, else the empty text.
pub fn lossy(bytes: &[u8]) -> (r: String)
    ensures
        r@ == crate::gossip::lossy_text(bytes@),
{
    match utf8_text(bytes) {
        Some(t) => t,
        None => String::new(),
    }
}

/// The name of a file without its extension.
pub fn file_stem(name: &[u8]) -> (r: Vec<u8>)
    ensures
        r@ == stem_of(name@),
{
    let mut start: usize = name.len();
    assert(name@.subrange(0, name@.len() as int) =~= name@);
    assert(crate::index::after_last(name@, DOT) + name@.subrange(
        name@.len() as int,
        name@.len() as int,
    ) =~= crate::index::after_last(name@, DOT));
    while start > 0 && name[start - 1] != DOT
        invariant
            start <= name.len(),
            crate::index::after_last(name@, DOT) == crate::index::after_last(
                name@.subrange(0, start as int),
                DOT,
            ) + name@.subrange(start as int, name@.len() as int),
        decreases start,
    {
        let ghost head = name@.subrange(0, start as int);
        assert(head.drop_last() =~= name@.subrange(0, start - 1));
        assert(head.last() == name@[start - 1]);
        assert(crate::index::after_last(head.drop_last(), DOT).push(head.last())
            + name@.subrange(start as int, name@.len() as int) =~= crate::index::after_last(
            head.drop_last(),
            DOT,
        ) + name@.subrange(start - 1, name@.len() as int));
        start -= 1;
    }
    assert(crate::index::after_last(name@.subrange(0, start as int), DOT) =~= Seq::<u8>::empty());
    assert(Seq::<u8>::empty() + name@.subrange(start as int, name@.len() as int)
        =~= name@.subrange(start as int, name@.len() as int));
    let dots = name.len() == 2 && name[0] == DOT && name[1] == DOT;
    assert(dots == (name@ == seq![DOT, DOT])) by {
        if dots {
            assert(name@ =~= seq![DOT, DOT]);
        }
    }
    if start <= 1 || dots {
        let r = slice_copy(name, 0, name.len());
        assert(r@ =~= name@);
        r
    } else {
        slice_copy(name, 0, start - 1)
    }
}

/// The path without its last segment and the slashes before it.
pub fn parent_path(path: &[u8]) -> (r: Vec<u8>)
    ensures
        r@ == parent_of(path@),
{
    let mut end: usize = path.len();
    assert(path@.subrange(0, path@.len() as int) =~= path@);
    while end > 0 && path[end - 1] == SLASH
        invariant
            end <= path.len(),
            crate::index::without_trailing(path@, SLASH) == crate::index::without_trailing(
                path@.subrange(0, end as int),
                SLASH,
            ),
        decreases end,
    {
        assert(path@.subrange(0, end as int).drop_last() =~= path@.subrange(0, end - 1));
        end -= 1;
    }
    let ghost body = path@.subrange(0, end as int);
    let name = file_name(path);
    proof {
        lemma_segment_fits(body);
        assert(name@ == crate::index::after_last(body, SLASH));
    }
    let mut stop: usize = end - name.len();
    let ghost cut = body.subrange(0, stop as int);
    assert(cut =~= path@.subrange(0, stop as int));
    assert(cut.subrange(0, stop as int) =~= cut);
    while stop > 0 && path[stop - 1] == SLASH
        invariant
            stop <= path.len(),
            crate::index::without_trailing(cut, SLASH) == crate::index::without_trailing(
                path@.subrange(0, stop as int),
                SLASH,
            ),
        decreases stop,
    {
        assert(path@.subrange(0, stop as int).drop_last() =~= path@.subrange(0, stop - 1));
        stop -= 1;
    }
    slice_copy(path, 0, stop)
}

/// What follows the last slash is no longer than the whole.
pub proof fn lemma_segment_fits(s: Seq<u8>)
    ensures
        crate::index::after_last(s, SLASH).len() <= s.len(),
    decreases s.len(),
{
    if s.len() > 0 && s.last() != SLASH {
        lemma_segment_fits(s.drop_last());
    }
}

/// The author under which a file is published: the name of the directory
/// that it lies in, none where it lies in none or the name is no text.
pub open spec fn author_of(path: Seq<char>) -> Option<Seq<char>> {
    match text_of(last_segment(parent_of(encode_utf8(path)))) {
        Some(a) => if a.len() > 0 {
            Some(a)
        } else {
            None
        },
        None => None,
    }
}

/// The commands that publish a file: its entry for the index and the
/// broadcast of its hash.
pub open spec fn publish_commands(path: Seq<char>, hash: Seq<char>) -> Seq<CommandView> {
    seq![
        CommandView::UpdateIndex {
            hash,
            path,
            title: title_of(path),
            author: author_of(path),
            tags: Seq::empty(),
        },
        CommandView::PublishHash { hash },
    ]
}

/// The title under which a file is published.
pub fn path_title(path: &str) -> (r: String)
    ensures
        r@ == title_of(path@),
{
    let name = file_name(path.as_bytes());
    let stem = file_stem(name.as_slice());
    lossy(stem.as_slice())
}

/// The author under which a file is published.
pub fn path_author(path: &str) -> (r: Option<String>)
    ensures
        opt_view(r) == author_of(path@),
{
    let parent = parent_path(path.as_bytes());
    let parent_name = file_name(parent.as_slice());
    match utf8_text(parent_name.as_slice()) {
        Some(a) => {
            if a.as_str().unicode_len() > 0 {
                Some(a)
            } else {
                None
            }
        },
        None => None,
    }
}

/// Works out what publishing the file at `path` with the given content
/// takes: the content hash and the commands for the overlay runtime.
pub fn publish_plan(path: &str, content: &[u8]) -> (r: (String, Vec<Command>))
    ensures
        r.0@ == content_hash(content@),
        r.1.deep_view() == publish_commands(path@, content_hash(content@)),
{
    let hash = calculate_hash(content);
    let title = path_title(path);
    let author = path_author(path);
    let mut commands: Vec<Command> = Vec::new();
    let tags: Vec<String> = Vec::new();
    assert(tags.deep_view() =~= Seq::<Seq<char>>::empty());
    commands.push(
        Command::UpdateIndex {
            hash: hash.clone(),
            path: String::from_str(path),
            title,
            author,
            tags,
        },
    );
    commands.push(Command::PublishHash { hash: hash.clone() });
    assert(commands.deep_view() =~= publish_commands(path@, content_hash(content@)));
    (hash, commands)
}

/// What the node remembers of a file that it publishes: its title where
/// it has one, its author, and no tags.
pub open spec fn remembers(meta: ContentMeta, path: Seq<char>) -> bool {
    &&& opt_view(meta.title) == if title_of(path).len() > 0 {
        Some(title_of(path))
    } else {
        None
    }
    &&& opt_view(meta.author) == author_of(path)
    &&& meta.tags@.len() == 0
}

/// Publishes a file: the node remembers it under its content hash, and
/// where the overlay runtime runs the commands for it come back with the
/// hash. Without a runtime the answer is an error.
pub fn publish_content(rt: &mut Option<Runtime>, started: bool, path: &str, content: &[u8]) -> (r:
    Result<(String, Vec<Command>), String>)
    requires
        match *old(rt) {
            Some(n) => n.wf(),
            None => true,
        },
    ensures
        match *final(rt) {
            Some(n) => n.wf(),
            None => true,
        },
        (*old(rt)) is None ==> (*final(rt)) is None,
        (*old(rt)) is Some ==> ({
            let before = (*old(rt))->0;
            let after = (*final(rt))->0;
            let at = key_index(after.hashes.deep_view(), content_hash(content@));
            &&& (*final(rt)) is Some
            &&& after.hashes.deep_view() == crate::index::with_key(
                before.hashes.deep_view(),
                content_hash(content@),
            )
            &&& has_key(after.hashes.deep_view(), content_hash(content@))
            &&& after.paths@[at]@ == path@
            &&& remembers(after.metas@[at], path@)
            &&& forall|i: int|
                0 <= i < before.hashes@.len() && i != at ==> after.paths@[i] == before.paths@[i]
                    && after.metas@[i] == before.metas@[i]
            &&& after.online == before.online
            &&& after.node_id@ == before.node_id@
            &&& opt_view(after.socks_proxy) == opt_view(before.socks_proxy)
        }),
        match r {
            Ok((hash, commands)) => started && hash@ == content_hash(content@)
                && commands.deep_view() == publish_commands(path@, content_hash(content@)),
            Err(e) => !started && e@ == "p2p runtime not started"@,
        },
{
    let (hash, commands) = publish_plan(path, content);
    match rt.take() {
        Some(mut node) => {
            let title = path_title(path);
            let meta = ContentMeta {
                title: if title.as_str().unicode_len() > 0 {
                    Some(title)
                } else {
                    None
                },
                author: path_author(path),
                tags: Vec::new(),
            };
            proof {
                crate::index::lemma_key_index(node.hashes.deep_view(), hash@);
            }
            match position_of(&node.hashes, hash.as_str()) {
                Some(at) => {
                    node.paths.set(at, String::from_str(path));
                    node.metas.set(at, meta);
                },
                None => {
                    let ghost before = node.hashes.deep_view();
                    node.hashes.push(hash.clone());
                    node.paths.push(String::from_str(path));
                    node.metas.push(meta);
                    assert(node.hashes.deep_view() =~= before.push(hash@));
                    proof {
                        crate::index::lemma_key_index_is(
                            node.hashes.deep_view(),
                            hash@,
                            before.len() as int,
                        );
                    }
                },
            }
            *rt = Some(node);
        },
        None => {},
    }
    if started {
        Ok((hash, commands))
    } else {
        Err(String::from_str("p2p runtime not started"))
    }
}

/// The answer to `fetch_content`. `channel_error` is what the channel says
/// where it fails.
pub fn fetch_answer(exchange: Exchange<Result<String, String>>, channel_error: &str) -> (r: Result<
    String,
    String,
>)
    ensures
        crate::protocol::text_result_view(r) == match exchange {
            Exchange::NotStarted => Err::<Seq<char>, Seq<char>>("p2p runtime not started"@),
            Exchange::SendFailed => Err(channel_error@),
            Exchange::Dropped => Err(channel_error@),
            Exchange::Replied(Ok(path)) => Ok(path@),
            Exchange::Replied(Err(e)) => Err(e@),
        },
{
    match exchange {
        Exchange::NotStarted => Err(String::from_str("p2p runtime not started")),
        Exchange::SendFailed => Err(String::from_str(channel_error)),
        Exchange::Dropped => Err(String::from_str(channel_error)),
        Exchange::Replied(r) => r,
    }
}

/// The port on which seed peers are dialed.
pub const BOOTSTRAP_PORT: u16 = 443;

/// The addresses of the onion hosts that are addresses, in order.
pub open spec fn bootstrap_addresses(onions: Seq<Seq<char>>) -> Seq<Seq<char>>
    decreases onions.len(),
{
    if onions.len() == 0 {
        Seq::empty()
    } else if is_address(bootstrap_text(onions.last(), BOOTSTRAP_PORT)) {
        bootstrap_addresses(onions.drop_last()).push(
            bootstrap_text(onions.last(), BOOTSTRAP_PORT),
        )
    } else {
        bootstrap_addresses(onions.drop_last())
    }
}

/// The command that dials the given onion hosts on port 443, each under
/// its seed address; hosts whose address the overlay does not take are
/// left out. Without a runtime there is no command.
pub fn connect_bootstrap(started: bool, onion_addrs: &Vec<String>) -> (r: Option<Command>)
    ensures
        match r {
            Some(c) => started && c@ == (CommandView::AddBootstrap {
                addrs: bootstrap_addresses(onion_addrs.deep_view()),
            }),
            None => !started,
        },
{
    if !started {
        return None;
    }
    let mut addrs: Vec<String> = Vec::new();
    let mut i: usize = 0;
    let ghost all = onion_addrs.deep_view();
    assert(all.subrange(0, 0) =~= Seq::<Seq<char>>::empty());
    assert(addrs.deep_view() =~= bootstrap_addresses(all.subrange(0, 0)));
    while i < onion_addrs.len()
        invariant
            i <= onion_addrs.len(),
            all == onion_addrs.deep_view(),
            addrs.deep_view() == bootstrap_addresses(all.subrange(0, i as int)),
        decreases onion_addrs.len() - i,
    {
        let ghost before = addrs.deep_view();
        assert(all.subrange(0, i + 1).drop_last() =~= all.subrange(0, i as int));
        assert(all.subrange(0, i + 1).last() == onion_addrs[i as int]@);
        match onion_bootstrap_addr(onion_addrs[i].as_str(), BOOTSTRAP_PORT) {
            Some(a) => {
                let ghost v = a@;
                addrs.push(a);
                assert(addrs.deep_view() =~= before.push(v));
            },
            None => {},
        }
        i += 1;
    }
    assert(all.subrange(0, all.len() as int) =~= all);
    Some(Command::AddBootstrap { addrs })
}

/// The peers that are shown as connected: one onion peer while the node is
/// online.
pub fn get_connected_peers(rt: &Option<Runtime>) -> (r: Vec<PeerInfo>)
    ensures
        r@.len() == if rt is Some && rt->0.online {
            1nat
        } else {
            0nat
        },
        r@.len() == 1 ==> r@[0].id@ == "peer-onion-1"@ && r@[0].name is Some && r@[0].name->0@
            == "Onion Peer"@ && r@[0].connected,
{
    let mut out: Vec<PeerInfo> = Vec::new();
    match rt {
        Some(n) => {
            if n.online {
                out.push(
                    PeerInfo {
                        id: String::from_str("peer-onion-1"),
                        name: Some(String::from_str("Onion Peer")),
                        connected: true,
                    },
                );
            }
        },
        None => {},
    }
    out
}

/// The key under which a node announces its presence at a point in time:
/// `peer:announcement:<seconds>`.
pub fn announcement_key(timestamp_secs: u64) -> (r: String)
    ensures
        r@ == "peer:announcement:"@ + crate::strings::decimal_chars(timestamp_secs as nat),
{
    let digits = crate::strings::decimal_string(timestamp_secs);
    concat("peer:announcement:", digits.as_str())
}

/// The answer to `announce_peer_presence`, from the answer to the write of
/// its record.
pub fn announce_answer(key: &str, stored: Result<String, String>) -> (r: Result<String, String>)
    ensures
        crate::protocol::text_result_view(r) == match stored {
            Ok(_) => Ok::<Seq<char>, Seq<char>>("Announced peer presence with key: "@ + key@),
            Err(e) => Err(e@),
        },
{
    match stored {
        Ok(_) => Ok(concat("Announced peer presence with key: ", key)),
        Err(e) => Err(e),
    }
}

/// The last `count` of the lines, with line feeds between them.
pub open spec fn tail_of(all: Seq<Seq<u8>>, count: nat) -> Seq<u8> {
    if all.len() > count {
        join(all.subrange(all.len() - count, all.len() as int), crate::text::LF)
    } else {
        join(all, crate::text::LF)
    }
}

/// What is shown of the daemon's log: its last `count` lines, or a notice
/// while the log is empty.
pub fn log_tail(content: &[u8], count: usize) -> (r: Vec<u8>)
    ensures
        r@ == if content@.len() == 0 {
            encode_utf8("Loading tor log..."@)
        } else {
            tail_of(lines_of(content@), count as nat)
        },
{
    if content.len() == 0 {
        let mut out: Vec<u8> = Vec::new();
        extend(&mut out, "Loading tor log...".as_bytes());
        return out;
    }
    let mut all = lines(content);
    if all.len() > count {
        let skip = all.len() - count;
        let ghost before = rows(all@);
        let mut kept: Vec<Vec<u8>> = Vec::new();
        let mut i: usize = skip;
        while i < all.len()
            invariant
                skip <= i <= all.len(),
                before == rows(all@),
                kept.len() == i - skip,
                forall|j: int| 0 <= j < kept.len() ==> kept[j]@ == all[skip + j]@,
            decreases all.len() - i,
        {
            kept.push(slice_copy(all[i].as_slice(), 0, all[i].len()));
            assert(all[i as int]@.subrange(0, all[i as int]@.len() as int) =~= all[i as int]@);
            i += 1;
        }
        assert(rows(kept@) =~= before.subrange(before.len() - count, before.len() as int));
        join_fields(&kept, crate::text::LF)
    } else {
        join_fields(&all, crate::text::LF)
    }
}

} // verus!
