use allibrary::chunk::{build_chunk_request, calculate_hash, read_chunk, CHUNK_SIZE};
use allibrary::gossip::{search_request, search_response, Topic};
use allibrary::protocol::{Action, Command, Event, MetricRow, QueryOutcome, ReplyBody};
use allibrary::runtime::{dial_seed, start_runtime, Lifecycle, Overlay, StartError};
use std::collections::HashMap;

/// One node of a simulated overlay: its state machine, its files, its part
/// of the hash table and what it has been told to do.
struct Node {
    id: String,
    overlay: Overlay,
    files: HashMap<String, Vec<u8>>,
    output: Option<(String, Vec<u8>)>,
    records: HashMap<String, Vec<u8>>,
    replies: Vec<(u64, ReplyBody)>,
    dialed: Vec<String>,
    published: Vec<(Topic, Vec<u8>)>,
    sent_chunks: Vec<usize>,
    hidden_service: Result<String, String>,
    now: u64,
}

/// What travels between nodes.
enum Packet {
    Request { from: usize, to: String, payload: Vec<u8> },
    Response { to: usize, data: Vec<u8> },
    Gossip { from: usize, topic: Topic, data: Vec<u8> },
}

struct Net {
    nodes: Vec<Node>,
    wire: Vec<Packet>,
}

fn node(id: &str, onion: &str) -> Node {
    let handle = start_runtime(
        Some("127.0.0.1:9050".to_string()),
        id.to_string(),
        4001,
        Ok(onion.to_string()),
        Some(String::new()),
    )
    .expect("runtime starts");
    Node {
        id: id.to_string(),
        overlay: handle.overlay,
        files: HashMap::new(),
        output: None,
        records: HashMap::new(),
        replies: Vec::new(),
        dialed: Vec::new(),
        published: Vec::new(),
        sent_chunks: Vec::new(),
        hidden_service: Ok("fresh.onion".to_string()),
        now: 0,
    }
}

impl Net {
    fn new(nodes: Vec<Node>) -> Net {
        Net { nodes, wire: Vec::new() }
    }

    fn connect(&mut self, a: usize, b: usize) {
        let ida = self.nodes[a].id.clone();
        let idb = self.nodes[b].id.clone();
        self.feed(a, Event::ConnectionEstablished { peer: idb });
        self.feed(b, Event::ConnectionEstablished { peer: ida });
    }

    fn command(&mut self, at: usize, cmd: Command) {
        self.feed(at, Event::Command(cmd));
        self.deliver();
    }

    /// Hands an event to a node and carries out what it asks for.
    fn feed(&mut self, at: usize, event: Event) {
        let mut queue = vec![event];
        while !queue.is_empty() {
            let event = queue.remove(0);
            let now = self.nodes[at].now;
            let actions = self.nodes[at].overlay.step(event, now);
            for action in actions {
                let n = &mut self.nodes[at];
                match action {
                    Action::Dial { address } => n.dialed.push(address),
                    Action::AddKadAddress { .. } => {}
                    Action::Publish { topic, data } => {
                        n.published.push((topic, data.clone()));
                        self.wire.push(Packet::Gossip { from: at, topic, data });
                    }
                    Action::SendRequest { peer, payload } => {
                        self.wire.push(Packet::Request { from: at, to: peer, payload });
                    }
                    Action::SendResponse { channel, data } => {
                        n.sent_chunks.push(data.len());
                        self.wire.push(Packet::Response { to: channel as usize, data });
                    }
                    Action::ServeChunk { channel, path, offset, max_len } => {
                        assert_eq!(max_len, CHUNK_SIZE);
                        let data = match n.files.get(&path) {
                            Some(content) => read_chunk(content, offset),
                            None => Vec::new(),
                        };
                        n.sent_chunks.push(data.len());
                        self.wire.push(Packet::Response { to: channel as usize, data });
                    }
                    Action::OpenOutput { path } => {
                        n.output = Some((path, Vec::new()));
                        queue.push(Event::OutputOpened { ok: true });
                    }
                    Action::WriteChunk { data } => {
                        n.output.as_mut().expect("output is open").1.extend_from_slice(&data);
                    }
                    Action::CloseOutput => {
                        let (path, content) = n.output.take().expect("output is open");
                        n.files.insert(path, content);
                    }
                    Action::PutRecord { op, key, value, publisher, ttl_secs } => {
                        assert_eq!(publisher, n.id);
                        assert_eq!(ttl_secs, 86400);
                        n.records.insert(key, value);
                        if let Some(op) = op {
                            queue.push(Event::QueryFinished {
                                op,
                                outcome: QueryOutcome::Put(Ok(())),
                            });
                        }
                    }
                    Action::GetRecord { op, key } => {
                        if let Some(op) = op {
                            let found = match n.records.get(&key) {
                                Some(v) => Ok(v.clone()),
                                None => Err("NotFound".to_string()),
                            };
                            queue.push(Event::QueryFinished {
                                op,
                                outcome: QueryOutcome::Get(found),
                            });
                        }
                    }
                    Action::Bootstrap { op } => {
                        if let Some(op) = op {
                            queue.push(Event::QueryFinished {
                                op,
                                outcome: QueryOutcome::Bootstrap(Ok(())),
                            });
                        }
                    }
                    Action::CreateHiddenService { port } => {
                        assert_eq!(port, 4001);
                        let result = n.hidden_service.clone();
                        queue.push(Event::HiddenServiceResult { result });
                    }
                    Action::Reply { to, body } => n.replies.push((to, body)),
                }
            }
        }
    }

    /// Carries every packet to where it goes, until the wire is quiet.
    fn deliver(&mut self) {
        while !self.wire.is_empty() {
            match self.wire.remove(0) {
                Packet::Request { from, to, payload } => {
                    let target = self.nodes.iter().position(|n| n.id == to);
                    match target {
                        Some(t) => {
                            self.feed(t, Event::ChunkRequest { channel: from as u64, payload })
                        }
                        None => self.feed(from, Event::RequestFailed),
                    }
                }
                Packet::Response { to, data } => self.feed(to, Event::ChunkResponse { data }),
                Packet::Gossip { from, topic, data } => {
                    for t in 0..self.nodes.len() {
                        if t != from {
                            self.feed(t, Event::Gossip { topic, data: data.clone() });
                        }
                    }
                }
            }
        }
    }

    fn tick(&mut self, at: usize, now: u64) {
        self.nodes[at].now = now;
        self.feed(at, Event::Tick);
        self.deliver();
    }

    fn reply(&self, at: usize, ticket: u64) -> Vec<&ReplyBody> {
        self.nodes[at].replies.iter().filter(|(t, _)| *t == ticket).map(|(_, b)| b).collect()
    }
}

fn update_index(hash: &str, path: &str, title: &str) -> Command {
    Command::UpdateIndex {
        hash: hash.to_string(),
        path: path.to_string(),
        title: title.to_string(),
        author: None,
        tags: vec![],
    }
}

fn fetch(hash: &str, out: &str, reply: u64) -> Command {
    Command::Fetch { hash: hash.to_string(), out_path: out.to_string(), reply }
}

fn hits(body: &ReplyBody) -> Vec<(String, String)> {
    match body {
        ReplyBody::Hits(h) => h.clone(),
        other => panic!("not a search reply: {:?}", other),
    }
}

#[test]
fn single_peer_publish_then_fetch_same_process() {
    let mut net = Net::new(vec![node("self", "self.onion")]);
    net.nodes[0].files.insert("/tmp/hello.txt".to_string(), b"hello".to_vec());
    net.command(0, update_index("d41d", "/tmp/hello.txt", "hello"));
    net.feed(0, Event::ConnectionEstablished { peer: "self".to_string() });
    net.command(0, fetch("d41d", "/tmp/out", 7));
    assert_eq!(net.reply(0, 7), vec![&ReplyBody::Text(Ok("/tmp/out".to_string()))]);
    assert_eq!(net.nodes[0].files.get("/tmp/out"), Some(&b"hello".to_vec()));
    assert!(!net.nodes[0].overlay.fetch_active());
}

#[test]
fn search_finds_local_and_remote() {
    let mut net = Net::new(vec![node("A", "a.onion"), node("B", "b.onion")]);
    net.connect(0, 1);
    net.feed(0, Event::Command(update_index("h1", "/lib/alpha-codex.pdf", "Alpha Codex")));
    net.feed(1, Event::Command(update_index("h2", "/lib/alpha-notes.pdf", "Alpha Notes")));
    net.wire.clear();
    net.command(0, Command::Search { query: "Alpha".to_string(), reply: 1 });
    assert!(net.reply(0, 1).is_empty());
    assert!(net.nodes[0].overlay.search_active());
    net.tick(0, 150);
    assert!(net.reply(0, 1).is_empty());
    net.tick(0, 200);
    let replies = net.reply(0, 1);
    assert_eq!(replies.len(), 1);
    let found = hits(replies[0]);
    assert_eq!(found.len(), 2);
    assert!(found.contains(&("h1".to_string(), "Alpha Codex".to_string())));
    assert!(found.contains(&("h2".to_string(), "Alpha Notes".to_string())));
    assert!(!net.nodes[0].overlay.search_active());
}

#[test]
fn dht_put_then_get_returns_the_value() {
    let mut net = Net::new(vec![node("A", "a.onion")]);
    let value = b"{\"hash\":\"xyz\"}".to_vec();
    net.command(
        0,
        Command::PutRecord { key: "content:xyz".to_string(), value: value.clone(), reply: 1 },
    );
    assert_eq!(net.reply(0, 1), vec![&ReplyBody::Done(Ok(()))]);
    net.command(0, Command::GetRecord { key: "content:xyz".to_string(), reply: 2 });
    assert_eq!(net.reply(0, 2), vec![&ReplyBody::Record(Ok(value))]);
}

#[test]
fn published_content_is_recorded_under_its_key() {
    let mut net = Net::new(vec![node("A", "a.onion")]);
    net.command(0, update_index("abc", "/lib/a.pdf", "A"));
    net.command(0, Command::GetRecord { key: "content:abc".to_string(), reply: 3 });
    let replies = net.reply(0, 3);
    assert_eq!(replies.len(), 1);
    match replies[0] {
        ReplyBody::Record(Ok(bytes)) => {
            assert_eq!(
                String::from_utf8(bytes.clone()).unwrap(),
                "{\"author\":null,\"hash\":\"abc\",\"path\":\"/lib/a.pdf\",\"peer_id\":\"A\",\"tags\":[],\"title\":\"A\"}"
            );
        }
        other => panic!("unexpected reply {:?}", other),
    }
}

#[test]
fn fetch_with_no_peers() {
    let mut net = Net::new(vec![node("A", "a.onion")]);
    net.command(0, fetch("abc", "/tmp/z", 9));
    assert_eq!(net.reply(0, 9), vec![&ReplyBody::Text(Err("no peers connected".to_string()))]);
    assert_eq!(net.nodes[0].files.get("/tmp/z"), Some(&Vec::new()));
    assert!(net.nodes[0].dialed.is_empty());
    assert!(!net.nodes[0].overlay.fetch_active());
}

#[test]
fn hidden_service_failure_is_fatal_to_start() {
    let r = start_runtime(
        Some("127.0.0.1:9050".to_string()),
        "A".to_string(),
        4001,
        Err("550 refused".to_string()),
        None,
    );
    match r {
        Err(e) => {
            assert_eq!(e, StartError::HiddenService("550 refused".to_string()));
            assert_eq!(e.message(), "Tor hidden service creation failed: 550 refused");
        }
        Ok(_) => panic!("a runtime started without a hidden service"),
    }
}

#[test]
fn start_needs_a_socks_egress() {
    let r = start_runtime(None, "A".to_string(), 4001, Ok("a.onion".to_string()), None);
    match r {
        Err(e) => {
            assert_eq!(e, StartError::NoSocks);
            assert_eq!(e.message(), "SOCKS proxy is required for P2P runtime");
        }
        Ok(_) => panic!("a runtime started without an egress"),
    }
}

#[test]
fn start_dials_the_seed_peers_and_bootstraps() {
    let h = start_runtime(
        Some("127.0.0.1:9050".to_string()),
        "A".to_string(),
        4001,
        Ok("a.onion".to_string()),
        Some(" one.onion:443 , ,bad, two.onion:80:x ,three.onion:notaport".to_string()),
    )
    .expect("runtime starts");
    assert_eq!(h.peer_id, "A");
    assert_eq!(
        h.startup,
        vec![
            Action::Dial { address: "/dnsaddr/one.onion/tcp/443/ws".to_string() },
            Action::Dial { address: "/dnsaddr/two.onion/tcp/80/ws".to_string() },
            Action::Bootstrap { op: None },
        ]
    );
    assert_eq!(h.overlay.announce_address(), "/dnsaddr/a.onion/tcp/4001/ws/p2p/A");
}

#[test]
fn seed_with_a_peer_id_is_made_known_to_the_hash_table() {
    assert_eq!(
        dial_seed("/dnsaddr/a.onion/tcp/1/ws".to_string(), None),
        vec![Action::Dial { address: "/dnsaddr/a.onion/tcp/1/ws".to_string() }]
    );
    assert_eq!(
        dial_seed("/dnsaddr/a.onion/tcp/1/ws/p2p/X".to_string(), Some("X".to_string())),
        vec![
            Action::Dial { address: "/dnsaddr/a.onion/tcp/1/ws/p2p/X".to_string() },
            Action::AddKadAddress {
                peer: "X".to_string(),
                address: "/dnsaddr/a.onion/tcp/1/ws/p2p/X".to_string()
            },
        ]
    );
    let peer = "12D3KooWD3eckifWpRn9wQpMG9R9hX3sD158z7EqHWmweQAJU5SA";
    let h = start_runtime(
        Some("127.0.0.1:9050".to_string()),
        "A".to_string(),
        4001,
        Ok("a.onion".to_string()),
        Some(format!("b.onion/p2p/{}/dns/b.onion:443", peer)),
    )
    .expect("runtime starts");
    let address = format!("/dnsaddr/b.onion/p2p/{}/dns/b.onion/tcp/443/ws", peer);
    assert_eq!(
        h.startup,
        vec![
            Action::Dial { address: address.clone() },
            Action::AddKadAddress { peer: peer.to_string(), address },
            Action::Bootstrap { op: None },
        ]
    );
}

#[test]
fn chunked_transfer_of_a_200000_byte_file() {
    let mut net = Net::new(vec![node("A", "a.onion"), node("B", "b.onion")]);
    let content: Vec<u8> = (0..200_000u32).map(|i| (i % 251) as u8).collect();
    net.nodes[1].files.insert("/lib/big.bin".to_string(), content.clone());
    net.feed(1, Event::Command(update_index("big", "/lib/big.bin", "Big")));
    net.wire.clear();
    net.connect(0, 1);
    net.command(0, fetch("big", "/tmp/big.out", 5));
    assert_eq!(net.nodes[1].sent_chunks, vec![65536, 65536, 65536, 3392, 0]);
    assert_eq!(net.reply(0, 5), vec![&ReplyBody::Text(Ok("/tmp/big.out".to_string()))]);
    let got = net.nodes[0].files.get("/tmp/big.out").expect("output exists");
    assert_eq!(got.len(), 200_000);
    assert_eq!(got, &content);
    assert_eq!(calculate_hash(got), calculate_hash(&content));
}

#[test]
fn file_of_exactly_one_chunk_ends_on_first_empty_response() {
    let mut net = Net::new(vec![node("A", "a.onion"), node("B", "b.onion")]);
    let content = vec![7u8; 65536];
    net.nodes[1].files.insert("/lib/one.bin".to_string(), content.clone());
    net.feed(1, Event::Command(update_index("one", "/lib/one.bin", "One")));
    net.wire.clear();
    net.connect(0, 1);
    net.command(0, fetch("one", "/tmp/one.out", 5));
    assert_eq!(net.nodes[1].sent_chunks, vec![65536, 0]);
    assert_eq!(net.nodes[0].files.get("/tmp/one.out"), Some(&content));
}

#[test]
fn unknown_hash_is_served_the_empty_chunk() {
    let mut net = Net::new(vec![node("A", "a.onion"), node("B", "b.onion")]);
    net.connect(0, 1);
    net.command(0, fetch("nothing", "/tmp/none", 5));
    assert_eq!(net.nodes[1].sent_chunks, vec![0]);
    assert_eq!(net.reply(0, 5), vec![&ReplyBody::Text(Ok("/tmp/none".to_string()))]);
    assert_eq!(net.nodes[0].files.get("/tmp/none"), Some(&Vec::new()));
}

#[test]
fn unreadable_request_is_served_the_empty_chunk() {
    let mut n = node("A", "a.onion");
    let actions = n.overlay.step(Event::ChunkRequest { channel: 3, payload: vec![1, 2, 3] }, 0);
    assert_eq!(actions, vec![Action::SendResponse { channel: 3, data: vec![] }]);
}

#[test]
fn second_fetch_is_refused_while_the_slot_is_busy() {
    let mut n = node("A", "a.onion");
    let first = n.overlay.step(Event::Command(fetch("h1", "/tmp/1", 1)), 0);
    assert_eq!(first, vec![Action::OpenOutput { path: "/tmp/1".to_string() }]);
    let second = n.overlay.step(Event::Command(fetch("h2", "/tmp/2", 2)), 0);
    assert_eq!(
        second,
        vec![Action::Reply { to: 2, body: ReplyBody::Text(Err("fetch slot busy".to_string())) }]
    );
    assert!(n.overlay.fetch_active());
}

#[test]
fn fetch_fails_when_the_output_cannot_be_opened() {
    let mut n = node("A", "a.onion");
    n.overlay.step(Event::ConnectionEstablished { peer: "B".to_string() }, 0);
    n.overlay.step(Event::Command(fetch("h1", "/nowhere/1", 1)), 0);
    let actions = n.overlay.step(Event::OutputOpened { ok: false }, 0);
    assert_eq!(
        actions,
        vec![Action::Reply {
            to: 1,
            body: ReplyBody::Text(Err("failed to open output file".to_string()))
        }]
    );
    assert!(!n.overlay.fetch_active());
}

#[test]
fn fetch_fails_when_its_peer_disconnects() {
    let mut n = node("A", "a.onion");
    n.overlay.step(Event::ConnectionEstablished { peer: "B".to_string() }, 0);
    n.overlay.step(Event::Command(fetch("h1", "/tmp/1", 1)), 0);
    let asked = n.overlay.step(Event::OutputOpened { ok: true }, 0);
    assert_eq!(
        asked,
        vec![Action::SendRequest { peer: "B".to_string(), payload: build_chunk_request("h1", 0) }]
    );
    let actions = n.overlay.step(Event::ConnectionClosed { peer: "B".to_string() }, 0);
    assert_eq!(
        actions,
        vec![
            Action::CloseOutput,
            Action::Reply { to: 1, body: ReplyBody::Text(Err("peer disconnected".to_string())) },
        ]
    );
    assert!(n.overlay.connected_peers().is_empty());
}

#[test]
fn fetch_fails_when_its_request_fails() {
    let mut n = node("A", "a.onion");
    n.overlay.step(Event::ConnectionEstablished { peer: "B".to_string() }, 0);
    n.overlay.step(Event::Command(fetch("h1", "/tmp/1", 1)), 0);
    n.overlay.step(Event::OutputOpened { ok: true }, 0);
    let actions = n.overlay.step(Event::RequestFailed, 0);
    assert_eq!(
        actions,
        vec![
            Action::CloseOutput,
            Action::Reply {
                to: 1,
                body: ReplyBody::Text(Err("chunk request failed".to_string()))
            },
        ]
    );
}

#[test]
fn chunk_advances_the_offset_by_its_length() {
    let mut n = node("A", "a.onion");
    n.overlay.step(Event::ConnectionEstablished { peer: "B".to_string() }, 0);
    n.overlay.step(Event::Command(fetch("h1", "/tmp/1", 1)), 0);
    n.overlay.step(Event::OutputOpened { ok: true }, 0);
    let a = n.overlay.step(Event::ChunkResponse { data: vec![1, 2, 3] }, 0);
    assert_eq!(
        a,
        vec![
            Action::WriteChunk { data: vec![1, 2, 3] },
            Action::SendRequest { peer: "B".to_string(), payload: build_chunk_request("h1", 3) },
        ]
    );
    let b = n.overlay.step(Event::ChunkResponse { data: vec![4, 5] }, 0);
    assert_eq!(
        b,
        vec![
            Action::WriteChunk { data: vec![4, 5] },
            Action::SendRequest { peer: "B".to_string(), payload: build_chunk_request("h1", 5) },
        ]
    );
}

#[test]
fn stray_chunk_is_ignored() {
    let mut n = node("A", "a.onion");
    assert_eq!(n.overlay.step(Event::ChunkResponse { data: vec![1] }, 0), vec![]);
    assert_eq!(n.overlay.step(Event::OutputOpened { ok: true }, 0), vec![]);
    assert_eq!(n.overlay.step(Event::RequestFailed, 0), vec![]);
}

#[test]
fn connected_set_follows_connection_events_only() {
    let mut n = node("A", "a.onion");
    assert_eq!(n.overlay.lifecycle(), Lifecycle::Listening);
    n.overlay.step(Event::ConnectionEstablished { peer: "B".to_string() }, 0);
    assert_eq!(n.overlay.lifecycle(), Lifecycle::Connected);
    n.overlay.step(Event::ConnectionEstablished { peer: "C".to_string() }, 0);
    n.overlay.step(Event::ConnectionEstablished { peer: "B".to_string() }, 0);
    assert_eq!(n.overlay.connected_peers(), vec!["B".to_string(), "C".to_string()]);
    n.overlay.step(Event::Command(Command::AddBootstrap { addrs: vec!["/ip4/1.2.3.4/tcp/1".to_string()] }), 0);
    n.overlay.step(Event::Command(Command::PublishHash { hash: "h".to_string() }), 0);
    n.overlay.step(Event::Gossip { topic: Topic::Peers, data: b"/ip4/1.2.3.4/tcp/1".to_vec() }, 0);
    n.overlay.step(Event::Tick, 50);
    n.overlay.step(Event::AnnounceTick, 50);
    assert_eq!(n.overlay.connected_peers(), vec!["B".to_string(), "C".to_string()]);
    n.overlay.step(Event::ConnectionClosed { peer: "B".to_string() }, 0);
    assert_eq!(n.overlay.connected_peers(), vec!["C".to_string()]);
    n.overlay.step(Event::ConnectionClosed { peer: "Z".to_string() }, 0);
    assert_eq!(n.overlay.connected_peers(), vec!["C".to_string()]);
}

#[test]
fn network_peers_are_listed_with_their_ids() {
    let mut n = node("A", "a.onion");
    n.overlay.step(Event::ConnectionEstablished { peer: "B".to_string() }, 0);
    let a = n.overlay.step(Event::Command(Command::GetNetworkPeers { reply: 4 }), 0);
    assert_eq!(
        a,
        vec![Action::Reply { to: 4, body: ReplyBody::Peers(vec!["Peer ID: B".to_string()]) }]
    );
}

#[test]
fn update_index_then_search_finds_the_entry() {
    let mut n = Overlay::new("A".to_string(), 4001, String::new(), 0);
    n.step(
        Event::Command(Command::UpdateIndex {
            hash: "h".to_string(),
            path: "/lib/file.pdf".to_string(),
            title: "The Book of Sand".to_string(),
            author: Some("Jorge Luis Borges".to_string()),
            tags: vec!["Fiction".to_string(), "argentina".to_string()],
        }),
        0,
    );
    for query in ["book", "SAND", "borges", "fict", "ARGENTINA"] {
        let a = n.step(Event::Command(Command::Search { query: query.to_string(), reply: 1 }), 0);
        assert_eq!(
            a,
            vec![Action::Reply {
                to: 1,
                body: ReplyBody::Hits(vec![("h".to_string(), "The Book of Sand".to_string())])
            }],
            "query {}",
            query
        );
    }
    let a = n.step(Event::Command(Command::Search { query: "absent".to_string(), reply: 1 }), 0);
    assert_eq!(a, vec![Action::Reply { to: 1, body: ReplyBody::Hits(vec![]) }]);
}

#[test]
fn untitled_entry_is_found_by_its_file_name() {
    let mut n = Overlay::new("A".to_string(), 4001, String::new(), 0);
    n.step(Event::Command(update_index("h", "/lib/shelf/Report.PDF", "")), 0);
    let a = n.step(Event::Command(Command::Search { query: "report".to_string(), reply: 1 }), 0);
    assert_eq!(
        a,
        vec![Action::Reply {
            to: 1,
            body: ReplyBody::Hits(vec![("h".to_string(), "Report.PDF".to_string())])
        }]
    );
}

#[test]
fn search_window_of_zero_replies_with_local_matches_only() {
    let mut n = Overlay::new("A".to_string(), 4001, String::new(), 0);
    n.step(Event::Command(update_index("h1", "/lib/a.pdf", "Alpha")), 0);
    let a = n.step(Event::Command(Command::Search { query: "alpha".to_string(), reply: 1 }), 0);
    assert_eq!(
        a,
        vec![Action::Reply {
            to: 1,
            body: ReplyBody::Hits(vec![("h1".to_string(), "Alpha".to_string())])
        }]
    );
    assert!(!n.search_active());
}

#[test]
fn second_search_is_answered_locally_while_the_slot_is_busy() {
    let mut n = node("A", "a.onion");
    n.overlay.step(Event::Command(update_index("h1", "/lib/a.pdf", "Alpha")), 0);
    let first =
        n.overlay.step(Event::Command(Command::Search { query: "alpha".to_string(), reply: 1 }), 0);
    assert_eq!(first.len(), 1);
    assert!(matches!(&first[0], Action::Publish { topic: Topic::Content, .. }));
    let second =
        n.overlay.step(Event::Command(Command::Search { query: "alpha".to_string(), reply: 2 }), 0);
    assert_eq!(
        second,
        vec![Action::Reply {
            to: 2,
            body: ReplyBody::Hits(vec![("h1".to_string(), "Alpha".to_string())])
        }]
    );
}

/// The id that a search broadcast under.
fn search_id(action: &Action) -> String {
    match action {
        Action::Publish { topic: Topic::Content, data } => {
            let text = String::from_utf8(data.clone()).unwrap();
            let mut parts = text.splitn(3, '|');
            assert_eq!(parts.next(), Some("S"));
            parts.next().unwrap().to_string()
        }
        other => panic!("not a search request: {:?}", other),
    }
}

#[test]
fn responses_with_the_search_id_are_collected_and_merged_by_hash() {
    let mut n = node("A", "a.onion");
    let first =
        n.overlay.step(Event::Command(Command::Search { query: "x".to_string(), reply: 1 }), 0);
    let id = search_id(&first[0]);
    assert_eq!(first[0], Action::Publish { topic: Topic::Content, data: search_request(&id, "x") });
    n.overlay.step(Event::Gossip { topic: Topic::Content, data: search_response(&id, "h1", "One") }, 10);
    n.overlay.step(Event::Gossip { topic: Topic::Content, data: search_response("other-id", "h2", "Two") }, 20);
    n.overlay.step(Event::Gossip { topic: Topic::Content, data: search_response(&id, "h3", "Three|with|pipes") }, 30);
    n.overlay.step(Event::Gossip { topic: Topic::Content, data: search_response(&id, "h1", "One again") }, 40);
    n.overlay.step(Event::Gossip { topic: Topic::Content, data: b"R|broken".to_vec() }, 50);
    assert_eq!(n.overlay.step(Event::Tick, 199), vec![]);
    let done = n.overlay.step(Event::Tick, 200);
    assert_eq!(
        done,
        vec![Action::Reply {
            to: 1,
            body: ReplyBody::Hits(vec![
                ("h1".to_string(), "One".to_string()),
                ("h3".to_string(), "Three|with|pipes".to_string()),
            ])
        }]
    );
    // what comes after the window closes is dropped
    assert_eq!(n.overlay.step(Event::Gossip { topic: Topic::Content, data: search_response(&id, "h4", "Late") }, 210), vec![]);
    assert_eq!(n.overlay.step(Event::Tick, 260), vec![]);
}

#[test]
fn search_ids_are_fresh() {
    let mut n = node("A", "a.onion");
    let a = n.overlay.step(Event::Command(Command::Search { query: "x".to_string(), reply: 1 }), 0);
    n.overlay.step(Event::Tick, 500);
    let b = n.overlay.step(Event::Command(Command::Search { query: "x".to_string(), reply: 2 }), 500);
    let (ia, ib) = (search_id(&a[0]), search_id(&b[0]));
    assert_ne!(ia, ib);
    assert_eq!(ia.len(), 36);
    assert!(!ia.contains('|'));
}

#[test]
fn search_request_is_answered_with_one_response_per_hit() {
    let mut n = node("B", "b.onion");
    n.overlay.step(Event::Command(update_index("h1", "/lib/a.pdf", "Alpha Notes")), 0);
    n.overlay.step(Event::Command(update_index("h2", "/lib/b.pdf", "Beta")), 0);
    n.overlay.step(Event::Command(update_index("h3", "/lib/c.pdf", "alphabet")), 0);
    let a = n.overlay.step(Event::Gossip { topic: Topic::Content, data: search_request("id-1", "ALPHA") }, 0);
    assert_eq!(
        a,
        vec![
            Action::Publish {
                topic: Topic::Content,
                data: b"R|id-1|h1|Alpha Notes".to_vec()
            },
            Action::Publish { topic: Topic::Content, data: b"R|id-1|h3|alphabet".to_vec() },
        ]
    );
}

#[test]
fn publish_hash_is_idempotent() {
    let mut n = node("A", "a.onion");
    n.overlay.step(Event::Command(update_index("h1", "/lib/a.pdf", "Alpha")), 0);
    let before = n.overlay.indexed();
    let a = n.overlay.step(Event::Command(Command::PublishHash { hash: "h1".to_string() }), 0);
    let b = n.overlay.step(Event::Command(Command::PublishHash { hash: "h1".to_string() }), 0);
    assert_eq!(a, vec![Action::Publish { topic: Topic::Content, data: b"h1".to_vec() }]);
    assert_eq!(a, b);
    assert_eq!(n.overlay.indexed(), before);
}

#[test]
fn update_index_announces_and_records() {
    let mut n = node("A", "a.onion");
    let a = n.overlay.step(
        Event::Command(Command::UpdateIndex {
            hash: "h1".to_string(),
            path: "/lib/a.pdf".to_string(),
            title: "Alpha".to_string(),
            author: Some("Ann".to_string()),
            tags: vec!["x".to_string(), "y".to_string()],
        }),
        0,
    );
    assert_eq!(a.len(), 2);
    assert_eq!(
        a[0],
        Action::Publish { topic: Topic::Content, data: b"CONTENT|h1|Alpha|Ann|x,y".to_vec() }
    );
    match &a[1] {
        Action::PutRecord { op, key, value, publisher, ttl_secs } => {
            assert_eq!(*op, None);
            assert_eq!(key, "content:h1");
            assert_eq!(publisher, "A");
            assert_eq!(*ttl_secs, 86400);
            assert_eq!(
                String::from_utf8(value.clone()).unwrap(),
                "{\"author\":\"Ann\",\"hash\":\"h1\",\"path\":\"/lib/a.pdf\",\"peer_id\":\"A\",\"tags\":[\"x\",\"y\"],\"title\":\"Alpha\"}"
            );
        }
        other => panic!("unexpected action {:?}", other),
    }
    // a second update replaces the entry
    n.overlay.step(Event::Command(update_index("h1", "/lib/a2.pdf", "Alpha 2")), 0);
    assert_eq!(n.overlay.indexed(), 1);
}

#[test]
fn announced_content_is_indexed_but_never_replaces_hosted_content() {
    let mut n = Overlay::new("A".to_string(), 4001, String::new(), 0);
    n.step(Event::Command(update_index("h1", "/lib/a.pdf", "Mine")), 0);
    n.step(Event::Gossip { topic: Topic::Content, data: b"CONTENT|h1|Theirs|Bob|t".to_vec() }, 0);
    n.step(Event::Gossip { topic: Topic::Content, data: b"CONTENT|h2|Remote Book|Bob| a , b ".to_vec() }, 0);
    n.step(Event::Gossip { topic: Topic::Content, data: b"CONTENT|h2|too|few".to_vec() }, 0);
    assert_eq!(n.indexed(), 2);
    let a = n.step(Event::Command(Command::Search { query: "".to_string(), reply: 1 }), 0);
    assert_eq!(
        a,
        vec![Action::Reply {
            to: 1,
            body: ReplyBody::Hits(vec![
                ("h1".to_string(), "Mine".to_string()),
                ("h2".to_string(), "Remote Book".to_string()),
            ])
        }]
    );
    // a discovered entry is served the empty chunk by the event loop, as
    // its path names no file; a later announcement replaces it
    let served = n.step(
        Event::ChunkRequest { channel: 1, payload: build_chunk_request("h2", 0) },
        0,
    );
    assert_eq!(
        served,
        vec![Action::ServeChunk {
            channel: 1,
            path: "discovered:h2".to_string(),
            offset: 0,
            max_len: 65536
        }]
    );
    n.step(Event::Gossip { topic: Topic::Content, data: b"CONTENT|h2|Renamed|Bob|".to_vec() }, 0);
    let b = n.step(Event::Command(Command::Search { query: "renamed".to_string(), reply: 2 }), 0);
    assert_eq!(
        b,
        vec![Action::Reply {
            to: 2,
            body: ReplyBody::Hits(vec![("h2".to_string(), "Renamed".to_string())])
        }]
    );
}

#[test]
fn announced_address_is_dialed() {
    let mut n = node("A", "a.onion");
    let addr = b"/dnsaddr/b.onion/tcp/4001/ws".to_vec();
    let a = n.overlay.step(Event::Gossip { topic: Topic::Peers, data: addr.clone() }, 0);
    assert_eq!(a, vec![Action::Dial { address: "/dnsaddr/b.onion/tcp/4001/ws".to_string() }]);
    // an address on the content topic is no announcement
    assert_eq!(n.overlay.step(Event::Gossip { topic: Topic::Content, data: addr }, 0), vec![]);
    assert_eq!(
        n.overlay.step(Event::Gossip { topic: Topic::Peers, data: b"not an address".to_vec() }, 0),
        vec![]
    );
    assert_eq!(
        n.overlay.step(Event::Gossip { topic: Topic::Peers, data: vec![0xff, 0xfe] }, 0),
        vec![]
    );
}

#[test]
fn gone_caller_frees_what_waited_for_it() {
    let mut n = node("A", "a.onion");
    n.overlay.step(Event::ConnectionEstablished { peer: "B".to_string() }, 0);
    n.overlay.step(Event::Command(fetch("h", "/tmp/h", 1)), 0);
    n.overlay.step(Event::OutputOpened { ok: true }, 0);
    n.overlay.step(Event::Command(Command::Search { query: "q".to_string(), reply: 2 }), 0);
    n.overlay.step(Event::Command(Command::Bootstrap { reply: 3 }), 0);
    n.overlay.step(Event::Command(Command::ForceCreateOnionService { reply: 4 }), 0);
    n.overlay.step(Event::Command(Command::ForceCreateOnionService { reply: 5 }), 0);

    assert_eq!(n.overlay.step(Event::CallerGone { reply: 9 }, 0), vec![]);
    assert_eq!(n.overlay.step(Event::CallerGone { reply: 1 }, 0), vec![Action::CloseOutput]);
    assert!(!n.overlay.fetch_active());
    assert_eq!(n.overlay.step(Event::ChunkResponse { data: vec![1] }, 0), vec![]);
    assert_eq!(n.overlay.step(Event::CallerGone { reply: 2 }, 0), vec![]);
    assert!(!n.overlay.search_active());
    assert_eq!(n.overlay.step(Event::Tick, 1000), vec![]);
    assert_eq!(n.overlay.step(Event::CallerGone { reply: 3 }, 0), vec![]);
    assert_eq!(
        n.overlay.step(Event::QueryFinished { op: 0, outcome: QueryOutcome::Bootstrap(Ok(())) }, 0),
        vec![]
    );
    assert_eq!(n.overlay.step(Event::CallerGone { reply: 4 }, 0), vec![]);
    assert_eq!(
        n.overlay.step(Event::HiddenServiceResult { result: Ok("x.onion".to_string()) }, 0),
        vec![Action::Reply {
            to: 5,
            body: ReplyBody::Text(Ok("Onion service created: x.onion".to_string()))
        }]
    );
    // the slot is free again
    assert_eq!(
        n.overlay.step(Event::Command(fetch("h", "/tmp/h", 6)), 0),
        vec![Action::OpenOutput { path: "/tmp/h".to_string() }]
    );
}

#[test]
fn announce_tick_publishes_and_records_presence() {
    let mut n = node("A", "a.onion");
    let a = n.overlay.step(Event::AnnounceTick, 1000);
    let addr = "/dnsaddr/a.onion/tcp/4001/ws/p2p/A";
    assert_eq!(
        a,
        vec![
            Action::Publish { topic: Topic::Peers, data: addr.as_bytes().to_vec() },
            Action::PutRecord {
                op: None,
                key: "peer:A".to_string(),
                value: addr.as_bytes().to_vec(),
                publisher: "A".to_string(),
                ttl_secs: 86400,
            },
            Action::GetRecord { op: None, key: "discovery".to_string() },
        ]
    );
    let mut silent = Overlay::new("A".to_string(), 4001, String::new(), 200);
    assert_eq!(silent.step(Event::AnnounceTick, 1000), vec![]);
}

#[test]
fn every_twentieth_tick_refreshes_the_routing_table() {
    let mut n = node("A", "a.onion");
    for i in 1..=40u64 {
        let a = n.overlay.step(Event::Tick, i * 50);
        if i % 20 == 0 {
            assert_eq!(a, vec![Action::Bootstrap { op: None }], "tick {}", i);
        } else {
            assert_eq!(a, vec![], "tick {}", i);
        }
    }
}

#[test]
fn onion_address_is_reported_or_missing() {
    let mut n = node("A", "a.onion");
    assert_eq!(
        n.overlay.step(Event::Command(Command::GetMyOnionAddress { reply: 1 }), 0),
        vec![Action::Reply {
            to: 1,
            body: ReplyBody::Text(Ok("/dnsaddr/a.onion/tcp/4001/ws/p2p/A".to_string()))
        }]
    );
    let mut none = Overlay::new("A".to_string(), 4001, String::new(), 200);
    assert_eq!(
        none.step(Event::Command(Command::GetMyOnionAddress { reply: 1 }), 0),
        vec![Action::Reply {
            to: 1,
            body: ReplyBody::Text(Err(
                "No onion address available - Tor hidden service not created".to_string()
            ))
        }]
    );
}

#[test]
fn add_peer_address_dials_and_records_or_refuses() {
    let mut n = node("A", "a.onion");
    let addr = "/dnsaddr/b.onion/tcp/4001/ws";
    let a = n.overlay.step(
        Event::Command(Command::AddPeerAddress { address: addr.to_string(), reply: 1 }),
        0,
    );
    assert_eq!(
        a,
        vec![
            Action::Dial { address: addr.to_string() },
            Action::PutRecord {
                op: None,
                key: format!("manual:{}", addr),
                value: addr.as_bytes().to_vec(),
                publisher: "A".to_string(),
                ttl_secs: 86400,
            },
            Action::Reply {
                to: 1,
                body: ReplyBody::Text(Ok(format!("Successfully added peer address: {}", addr)))
            },
        ]
    );
    let b = n.overlay.step(
        Event::Command(Command::AddPeerAddress { address: "nonsense".to_string(), reply: 2 }),
        0,
    );
    assert_eq!(
        b,
        vec![Action::Reply {
            to: 2,
            body: ReplyBody::Text(Err("Invalid multiaddr format: InvalidMultiaddr".to_string()))
        }]
    );
}

#[test]
fn checked_peer_address_goes_by_the_verdict() {
    let mut n = Overlay::new("A".to_string(), 4001, String::new(), 200);
    assert_eq!(
        n.add_checked_peer("anything".to_string(), Err("Nope".to_string()), 1),
        vec![Action::Reply {
            to: 1,
            body: ReplyBody::Text(Err("Invalid multiaddr format: Nope".to_string()))
        }]
    );
    let a = n.add_checked_peer("anything".to_string(), Ok(()), 2);
    assert_eq!(a.len(), 3);
    assert_eq!(a[0], Action::Dial { address: "anything".to_string() });
    assert_eq!(
        a[2],
        Action::Reply {
            to: 2,
            body: ReplyBody::Text(Ok("Successfully added peer address: anything".to_string()))
        }
    );
}

#[test]
fn forced_onion_service_answers_the_callers_in_turn() {
    let mut n = node("A", "a.onion");
    let a = n.overlay.step(Event::Command(Command::ForceCreateOnionService { reply: 1 }), 0);
    let b = n.overlay.step(Event::Command(Command::ForceCreateOnionService { reply: 2 }), 0);
    assert_eq!(a, vec![Action::CreateHiddenService { port: 4001 }]);
    assert_eq!(b, vec![Action::CreateHiddenService { port: 4001 }]);
    assert_eq!(
        n.overlay.step(Event::HiddenServiceResult { result: Ok("x.onion".to_string()) }, 0),
        vec![Action::Reply {
            to: 1,
            body: ReplyBody::Text(Ok("Onion service created: x.onion".to_string()))
        }]
    );
    assert_eq!(
        n.overlay.step(Event::HiddenServiceResult { result: Err("refused".to_string()) }, 0),
        vec![Action::Reply {
            to: 2,
            body: ReplyBody::Text(Err("Failed to create onion service: refused".to_string()))
        }]
    );
    assert_eq!(
        n.overlay.step(Event::HiddenServiceResult { result: Ok("y.onion".to_string()) }, 0),
        vec![]
    );
}

#[test]
fn queries_reply_once_with_their_outcome() {
    let mut n = node("A", "a.onion");
    let put = n.overlay.step(
        Event::Command(Command::PutRecord { key: "k".to_string(), value: vec![1], reply: 1 }),
        0,
    );
    assert_eq!(
        put,
        vec![Action::PutRecord {
            op: Some(0),
            key: "k".to_string(),
            value: vec![1],
            publisher: "A".to_string(),
            ttl_secs: 86400
        }]
    );
    let get = n.overlay.step(Event::Command(Command::GetRecord { key: "k".to_string(), reply: 2 }), 0);
    assert_eq!(get, vec![Action::GetRecord { op: Some(1), key: "k".to_string() }]);
    let boot = n.overlay.step(Event::Command(Command::Bootstrap { reply: 3 }), 0);
    assert_eq!(boot, vec![Action::Bootstrap { op: Some(2) }]);

    // an outcome of another kind leaves the query pending
    assert_eq!(
        n.overlay.step(Event::QueryFinished { op: 0, outcome: QueryOutcome::Get(Ok(vec![])) }, 0),
        vec![]
    );
    assert_eq!(
        n.overlay.step(Event::QueryFinished { op: 0, outcome: QueryOutcome::Other }, 0),
        vec![]
    );
    assert_eq!(
        n.overlay.step(
            Event::QueryFinished { op: 0, outcome: QueryOutcome::Put(Err("QuorumFailed".to_string())) },
            0
        ),
        vec![Action::Reply {
            to: 1,
            body: ReplyBody::Done(Err("Failed to store record: QuorumFailed".to_string()))
        }]
    );
    // the query is gone: a second outcome replies nothing
    assert_eq!(
        n.overlay.step(Event::QueryFinished { op: 0, outcome: QueryOutcome::Put(Ok(())) }, 0),
        vec![]
    );
    assert_eq!(
        n.overlay.step(
            Event::QueryFinished { op: 1, outcome: QueryOutcome::Get(Err("NotFound".to_string())) },
            0
        ),
        vec![Action::Reply {
            to: 2,
            body: ReplyBody::Record(Err("Failed to retrieve record: NotFound".to_string()))
        }]
    );
    assert_eq!(
        n.overlay.step(
            Event::QueryFinished {
                op: 2,
                outcome: QueryOutcome::Bootstrap(Err("Timeout".to_string()))
            },
            0
        ),
        vec![Action::Reply {
            to: 3,
            body: ReplyBody::Done(Err("Bootstrap failed: Timeout".to_string()))
        }]
    );
    assert_eq!(
        n.overlay.step(Event::QueryFinished { op: 9, outcome: QueryOutcome::Put(Ok(())) }, 0),
        vec![]
    );
}

#[test]
fn rejected_queries_tell_their_callers() {
    let mut n = node("A", "a.onion");
    n.overlay.step(
        Event::Command(Command::PutRecord { key: "k".to_string(), value: vec![1], reply: 1 }),
        0,
    );
    n.overlay.step(Event::Command(Command::Bootstrap { reply: 2 }), 0);
    n.overlay.step(Event::Command(Command::GetRecord { key: "k".to_string(), reply: 3 }), 0);
    assert_eq!(
        n.overlay.step(Event::QueryRejected { op: 0, error: "MaxRecords".to_string() }, 0),
        vec![Action::Reply {
            to: 1,
            body: ReplyBody::Done(Err("Failed to initiate put record: MaxRecords".to_string()))
        }]
    );
    assert_eq!(
        n.overlay.step(Event::QueryRejected { op: 1, error: "NoKnownPeers".to_string() }, 0),
        vec![Action::Reply {
            to: 2,
            body: ReplyBody::Done(Err("Failed to initiate bootstrap: NoKnownPeers".to_string()))
        }]
    );
    assert_eq!(
        n.overlay.step(Event::QueryRejected { op: 2, error: "x".to_string() }, 0),
        vec![Action::Reply {
            to: 3,
            body: ReplyBody::Record(Err("Failed to initiate get record: x".to_string()))
        }]
    );
    assert_eq!(n.overlay.step(Event::QueryRejected { op: 2, error: "x".to_string() }, 0), vec![]);
}

#[test]
fn metrics_list_every_entry_with_its_progress() {
    let mut net = Net::new(vec![node("A", "a.onion"), node("B", "b.onion")]);
    net.nodes[1].files.insert("/lib/f.bin".to_string(), vec![1u8; 1000]);
    net.feed(1, Event::Command(update_index("f", "/lib/f.bin", "F")));
    net.deliver();
    net.connect(0, 1);
    net.feed(0, Event::Command(update_index("mine", "/lib/m.bin", "M")));
    net.wire.clear();
    net.command(0, fetch("f", "/tmp/f", 1));
    net.command(0, Command::GetMetrics { reply: 2 });
    let replies = net.reply(0, 2);
    assert_eq!(
        replies,
        vec![&ReplyBody::Metrics(vec![
            MetricRow {
                hash: "f".to_string(),
                downloaded: 1000,
                size: 0,
                rate_bps: 0,
                status: "ok".to_string()
            },
            MetricRow {
                hash: "mine".to_string(),
                downloaded: 0,
                size: 0,
                rate_bps: 0,
                status: "ok".to_string()
            },
        ])]
    );
}

#[test]
fn every_command_with_a_ticket_gets_exactly_one_reply() {
    let mut net = Net::new(vec![node("A", "a.onion"), node("B", "b.onion")]);
    net.connect(0, 1);
    net.nodes[1].files.insert("/lib/f.bin".to_string(), vec![1u8; 70_000]);
    net.feed(1, Event::Command(update_index("f", "/lib/f.bin", "F")));
    net.deliver();
    let commands = vec![
        fetch("f", "/tmp/f", 1),
        fetch("g", "/tmp/g", 2),
        Command::Search { query: "f".to_string(), reply: 3 },
        Command::Search { query: "g".to_string(), reply: 4 },
        Command::GetMetrics { reply: 5 },
        Command::PutRecord { key: "k".to_string(), value: vec![1], reply: 6 },
        Command::GetRecord { key: "k".to_string(), reply: 7 },
        Command::GetRecord { key: "missing".to_string(), reply: 8 },
        Command::Bootstrap { reply: 9 },
        Command::GetMyOnionAddress { reply: 10 },
        Command::GetNetworkPeers { reply: 11 },
        Command::AddPeerAddress { address: "/ip4/1.2.3.4/tcp/5".to_string(), reply: 12 },
        Command::AddPeerAddress { address: "bad".to_string(), reply: 13 },
        Command::ForceCreateOnionService { reply: 14 },
    ];
    for c in commands {
        net.feed(0, Event::Command(c));
    }
    net.deliver();
    net.tick(0, 1000);
    for ticket in 1..=14u64 {
        assert_eq!(net.reply(0, ticket).len(), 1, "ticket {}", ticket);
    }
    assert_eq!(net.nodes[0].replies.len(), 14);
}
