use allibrary::collections::{
    cache_stats_response, created_collection, listed_collection, requested_document,
    system_status, update_collection, CacheStatsResponse, CreateCollectionRequest,
    CreateDocumentRequest, DocumentResponse, UpdateCollectionRequest,
};
use allibrary::cache::CacheStats;
use allibrary::facade::{
    announce_answer, announcement_key, bootstrap_answer, connect_bootstrap, discovered_peers,
    enable_tor_routing, fetch_answer, file_stem, get_connected_peers, get_p2p_node_status,
    get_record_answer, init_node, init_p2p_node, log_tail, parent_path, publish_content,
    publish_plan, put_record_answer, search_results, start_config, start_p2p_node, tor_status,
    tor_status_failed, BootstrapResult, Exchange, NetworkConfig, PeerInfo, Runtime, SearchResult,
    TorConfig,
};
use allibrary::logging::{
    log_database_operation, log_debug, log_file_operation, log_info, log_operation_start,
    log_operation_success, log_security_event, log_warning, LogField, LogLevel, LogRecord,
    LoggingConfig,
};
use allibrary::models::{
    pending_migrations, Author, AuthorRole, Collection, Document, FileType, MalwareScanStatus,
    Migration, ProcessingStatus, Tag,
};
use allibrary::protocol::Command;
use allibrary::security::{
    analyze_connection_type, calculate_security_score, classify_connection, generate_warnings,
    is_private_address, is_suspicious_provider, SecurityInfo,
};
use allibrary::settings::get_default_settings;
use allibrary::tor_manager::Status;

fn s(x: &str) -> String {
    x.to_string()
}

#[test]
fn tor_config_defaults_to_bridge_support() {
    let c = start_config(None);
    assert!(c.bridge_support);
    assert_eq!((c.socks_override, c.bridges), (None, None));
    let c = start_config(Some(TorConfig {
        bridge_support: Some(false),
        socks_addr: Some(s("1.2.3.4:5")),
        bridges: Some(vec![s("b")]),
    }));
    assert!(!c.bridge_support);
    assert_eq!((c.socks_override, c.bridges), (Some(s("1.2.3.4:5")), Some(vec![s("b")])));
    assert!(start_config(Some(TorConfig { bridge_support: None, socks_addr: None, bridges: None }))
        .bridge_support);
}

#[test]
fn tor_status_mirrors_the_manager() {
    let t = tor_status(Status {
        bootstrapped: true,
        circuit_established: false,
        bridges_enabled: true,
        socks: Some(s("127.0.0.1:9050")),
        supports_control: true,
    });
    assert_eq!(
        (t.bootstrapped, t.circuit_established, t.bridges_enabled, t.socks, t.supports_control),
        (true, false, true, Some(s("127.0.0.1:9050")), true)
    );
    let f = tor_status_failed();
    assert_eq!(
        (f.bootstrapped, f.circuit_established, f.bridges_enabled, f.socks, f.supports_control),
        (false, false, false, None, false)
    );
}

#[test]
fn node_lifecycle() {
    let mut rt = None;
    assert_eq!(get_p2p_node_status(&rt).status, "offline");
    assert!(!start_p2p_node(&mut rt, "node-x"));
    assert!(!enable_tor_routing(&mut rt, Some(s("p"))));
    let node = init_node(
        &mut rt,
        NetworkConfig { tor_support: None, socks_proxy: Some(s("127.0.0.1:9050")) },
        "x",
    );
    assert_eq!(node.id, "node-x");
    assert!(node.config.tor_support);
    assert!(!node.config.enable_cultural_filtering && !node.config.enable_content_blocking);
    assert_eq!(node.config.socks_proxy, Some(s("127.0.0.1:9050")));
    let st = get_p2p_node_status(&rt);
    assert_eq!((st.status.as_str(), st.connected_peers, st.connection_quality.as_str()), ("starting", 0, "n/a"));
    assert_eq!(get_connected_peers(&rt), vec![]);
    assert!(!start_p2p_node(&mut rt, "node-y"));
    assert!(start_p2p_node(&mut rt, "node-x"));
    let st = get_p2p_node_status(&rt);
    assert_eq!((st.status.as_str(), st.connected_peers, st.connection_quality.as_str()), ("online", 0, "good"));
    assert_eq!(
        get_connected_peers(&rt),
        vec![PeerInfo { id: s("peer-onion-1"), name: Some(s("Onion Peer")), connected: true }]
    );
    assert!(enable_tor_routing(&mut rt, None));
    assert_eq!(rt.as_ref().unwrap().socks_proxy, Some(s("127.0.0.1:9050")));
    assert!(enable_tor_routing(&mut rt, Some(s("other:1"))));
    assert_eq!(rt.as_ref().unwrap().socks_proxy, Some(s("other:1")));
}

#[test]
fn fresh_nodes_get_fresh_ids() {
    let mut a = None;
    let mut b = None;
    let na = init_p2p_node(&mut a, NetworkConfig { tor_support: Some(false), socks_proxy: None });
    let nb = init_p2p_node(&mut b, NetworkConfig { tor_support: Some(false), socks_proxy: None });
    assert!(na.id.starts_with("node-"));
    assert_eq!(na.id.len(), 5 + 36);
    assert_ne!(na.id, nb.id);
    assert!(!na.config.tor_support);
    assert_eq!(a.unwrap().node_id, na.id);
}

#[test]
fn publishing_works_out_hash_title_and_author() {
    let (hash, commands) = publish_plan("/lib/Borges/The Aleph.v2.pdf", b"hello");
    assert_eq!(hash, "2cf24dba5fb0a30e26e83b2ac5b9e29e1b161e5c1fa7425e73043362938b9824");
    assert_eq!(
        commands,
        vec![
            Command::UpdateIndex {
                hash: hash.clone(),
                path: s("/lib/Borges/The Aleph.v2.pdf"),
                title: s("The Aleph.v2"),
                author: Some(s("Borges")),
                tags: vec![],
            },
            Command::PublishHash { hash: hash.clone() },
        ]
    );
    let (_, commands) = publish_plan("plain", b"");
    assert_eq!(
        commands[0],
        Command::UpdateIndex {
            hash: s("e3b0c44298fc1c149afbf4c8996fb92427ae41e4649b934ca495991b7852b855"),
            path: s("plain"),
            title: s("plain"),
            author: None,
            tags: vec![],
        }
    );
}

#[test]
fn stems_and_parents() {
    assert_eq!(file_stem(b"a.tar.gz"), b"a.tar".to_vec());
    assert_eq!(file_stem(b".hidden"), b".hidden".to_vec());
    assert_eq!(file_stem(b"noext"), b"noext".to_vec());
    assert_eq!(file_stem(b"trailing."), b"trailing".to_vec());
    assert_eq!(file_stem(b".."), b"..".to_vec());
    assert_eq!(file_stem(b""), b"".to_vec());
    assert_eq!(parent_path(b"/a/b/c.txt"), b"/a/b".to_vec());
    assert_eq!(parent_path(b"/a/b//c.txt//"), b"/a/b".to_vec());
    assert_eq!(parent_path(b"c.txt"), b"".to_vec());
    assert_eq!(parent_path(b"/c.txt"), b"".to_vec());
}

#[test]
fn publishing_needs_a_running_runtime() {
    let mut rt = None;
    init_node(&mut rt, NetworkConfig { tor_support: None, socks_proxy: None }, "x");
    assert_eq!(
        publish_content(&mut rt, false, "/lib/a.pdf", b"hello"),
        Err(s("p2p runtime not started"))
    );
    // the node remembers the file all the same
    assert_eq!(rt.as_ref().unwrap().paths, vec![s("/lib/a.pdf")]);
    let (hash, commands) = publish_content(&mut rt, true, "/lib/b.pdf", b"hello").unwrap();
    assert_eq!(commands.len(), 2);
    assert_eq!(rt.as_ref().unwrap().hashes, vec![hash]);
    assert_eq!(rt.as_ref().unwrap().paths, vec![s("/lib/b.pdf")]);
    let mut none = None;
    assert!(publish_content(&mut none, true, "/lib/b.pdf", b"hello").is_ok());
    assert_eq!(none, None);
}

#[test]
fn search_results_are_described_and_limited() {
    let mut rt = None;
    init_node(&mut rt, NetworkConfig { tor_support: None, socks_proxy: None }, "x");
    let (h, _) = publish_content(&mut rt, true, "/lib/Borges/Aleph.pdf", b"1").unwrap();
    let (h2, _) = publish_content(&mut rt, true, "/Ficciones.pdf", b"2").unwrap();
    rt.as_mut().unwrap().metas[0].tags = vec![s("a"), s("b")];
    let pairs = vec![(h.clone(), s("Aleph")), (s("remote"), s("Far")), (h2.clone(), s("Ficciones"))];
    assert_eq!(
        search_results(&rt, &pairs, None),
        vec![
            SearchResult { id: h.clone(), title: s("Aleph"), description: s("author: Borges tags: a,b ") },
            SearchResult { id: s("remote"), title: s("Far"), description: s("P2P network item") },
            SearchResult { id: h2, title: s("Ficciones"), description: s("P2P network item") },
        ]
    );
    assert_eq!(search_results(&rt, &pairs, Some(1)).len(), 1);
    assert_eq!(search_results(&rt, &pairs, Some(0)).len(), 0);
    assert_eq!(search_results(&None, &pairs, Some(5))[0].description, "P2P network item");
    let many: Vec<(String, String)> = (0..40).map(|i| (format!("h{}", i), s("n"))).collect();
    assert_eq!(search_results(&rt, &many, None).len(), 25);
}

#[test]
fn answers_of_the_record_commands() {
    assert_eq!(put_record_answer("k", Exchange::NotStarted), Err(s("P2P runtime not initialized")));
    assert_eq!(
        put_record_answer("k", Exchange::SendFailed),
        Err(s("Failed to send command to P2P runtime"))
    );
    assert_eq!(
        put_record_answer("k", Exchange::Dropped),
        Err(s("Communication error with P2P runtime"))
    );
    assert_eq!(
        put_record_answer("k", Exchange::Replied(Ok(()))),
        Ok(s("Successfully stored record with key: k"))
    );
    assert_eq!(
        put_record_answer("k", Exchange::Replied(Err(s("boom")))),
        Err(s("Failed to store record: boom"))
    );
    assert_eq!(get_record_answer(Exchange::Replied(Ok(vec![1, 2]))), Ok(vec![1, 2]));
    assert_eq!(
        get_record_answer(Exchange::Replied(Err(s("boom")))),
        Err(s("Failed to retrieve record: boom"))
    );
    assert_eq!(get_record_answer(Exchange::NotStarted), Err(s("P2P runtime not initialized")));
    assert_eq!(
        bootstrap_answer(Exchange::Replied(Ok(()))),
        Ok(BootstrapResult { success: true, message: s("Kademlia bootstrap completed successfully") })
    );
    assert_eq!(
        bootstrap_answer(Exchange::Replied(Err(s("t")))),
        Ok(BootstrapResult { success: false, message: s("Bootstrap failed: t") })
    );
    assert_eq!(bootstrap_answer(Exchange::Dropped), Err(s("Communication error with P2P runtime")));
    assert_eq!(fetch_answer(Exchange::NotStarted, "closed"), Err(s("p2p runtime not started")));
    assert_eq!(fetch_answer(Exchange::SendFailed, "channel closed"), Err(s("channel closed")));
    assert_eq!(fetch_answer(Exchange::Dropped, "channel closed"), Err(s("channel closed")));
    assert_eq!(fetch_answer(Exchange::Replied(Ok(s("/out"))), "x"), Ok(s("/out")));
    assert_eq!(
        fetch_answer(Exchange::Replied(Err(s("no peers connected"))), "x"),
        Err(s("no peers connected"))
    );
    assert_eq!(announcement_key(1700000000), "peer:announcement:1700000000");
    assert_eq!(
        announce_answer("peer:announcement:5", Ok(s("stored"))),
        Ok(s("Announced peer presence with key: peer:announcement:5"))
    );
    assert_eq!(announce_answer("k", Err(s("e"))), Err(s("e")));
}

#[test]
fn bootstrap_command_dials_on_port_443() {
    assert_eq!(connect_bootstrap(false, &vec![s("a.onion")]), None);
    assert_eq!(
        connect_bootstrap(true, &vec![s("a.onion"), s("bad/nosuchprotocol/x"), s("b.onion")]),
        Some(Command::AddBootstrap {
            addrs: vec![s("/dnsaddr/a.onion/tcp/443/ws"), s("/dnsaddr/b.onion/tcp/443/ws")]
        })
    );
}

#[test]
fn discovered_peers_are_the_lines_of_the_record() {
    assert_eq!(discovered_peers(b"/ip4/1.2.3.4/tcp/1\n/ip4/5.6.7.8/tcp/2\r\n"), vec![
        s("/ip4/1.2.3.4/tcp/1"),
        s("/ip4/5.6.7.8/tcp/2")
    ]);
    assert_eq!(discovered_peers(b""), Vec::<String>::new());
    assert_eq!(discovered_peers(&[0xff, b'\n']), Vec::<String>::new());
}

#[test]
fn log_tail_shows_the_last_lines() {
    assert_eq!(log_tail(b"", 5), b"Loading tor log...".to_vec());
    assert_eq!(log_tail(b"a\nb\r\nc\n", 2), b"b\nc".to_vec());
    assert_eq!(log_tail(b"a\nb\nc", 5), b"a\nb\nc".to_vec());
    assert_eq!(log_tail(b"a\nb\nc", 0), b"".to_vec());
}

#[test]
fn collections_take_the_usual_values_for_what_is_left_out() {
    let r = created_collection(
        CreateCollectionRequest {
            name: s("Mine"),
            description: Some(s("d")),
            type_: None,
            visibility: Some(s("public")),
            document_ids: None,
            cultural_metadata: None,
            tags: Some(vec![s("t")]),
            categories: None,
        },
        s("id-1"),
        s("2024-01-01T00:00:00Z"),
    );
    assert_eq!(
        (r.id.as_str(), r.name.as_str(), r.type_.as_str(), r.visibility.as_str(), r.document_count),
        ("id-1", "Mine", "personal", "public", 0)
    );
    assert_eq!((r.tags, r.categories), (vec![s("t")], vec![]));
    assert_eq!(r.created_at, r.updated_at);
    let r = update_collection(
        s("id-2"),
        UpdateCollectionRequest {
            name: None,
            description: None,
            type_: Some(s("shared")),
            visibility: None,
            cultural_metadata: None,
            tags: None,
            categories: Some(vec![s("c")]),
        },
        s("now"),
    );
    assert_eq!(
        (r.name.as_str(), r.type_.as_str(), r.visibility.as_str(), r.created_at.as_str()),
        ("Updated Collection", "shared", "private", "now")
    );
    let r = listed_collection(s("i"), s("n"), None, s("c"), s("u"));
    assert_eq!((r.type_.as_str(), r.visibility.as_str(), r.updated_at.as_str()), ("personal", "private", "u"));
}

#[test]
fn system_status_counts_documents_only_with_a_database() {
    let stats = CacheStats {
        content_entries: 1,
        metadata_entries: 2,
        total_content_size: 3,
        max_entries: 4,
        max_content_size: 5,
        ttl_seconds: 6,
    };
    let expected = CacheStatsResponse {
        content_entries: 1,
        metadata_entries: 2,
        total_content_size: 3,
        max_entries: 4,
    };
    assert_eq!(cache_stats_response(&stats), expected);
    let st = system_status(true, Some(&stats), s("1.0.0"), 12);
    assert_eq!((st.total_documents, st.file_cache_initialized, st.cache_stats), (12, true, Some(expected)));
    let st = system_status(false, None, s("1.0.0"), 12);
    assert_eq!((st.total_documents, st.file_cache_initialized, st.cache_stats), (0, false, None));
}

#[test]
fn default_settings_live_under_the_home_directory() {
    let d = get_default_settings("/home/ann");
    assert_eq!(d.project.project_folder_path, "/home/ann/AlLibrary");
    assert_eq!(d.project.search_index_path, "/home/ann/AlLibrary/search_index");
    assert_eq!(d.folder_structure.documents_folder, "/home/ann/AlLibrary/documents");
    assert_eq!(d.folder_structure.backup_folder, "/home/ann/AlLibrary/backups");
    assert_eq!(d.folder_structure.community_content_folder, "/home/ann/AlLibrary/community_content");
    assert_eq!((d.project.search_results_limit, d.project.search_history_limit), (100, 50));
    assert_eq!((d.project.index_update_interval, d.project.search_timeout), (30, 5000));
    assert_eq!((d.search.max_search_results, d.search.search_debounce_ms), (100, 300));
    assert_eq!((d.theme.as_str(), d.language.as_str()), ("auto", "en"));
    assert_eq!(d.cultural.educational_level, "beginner");
    assert!(!d.search.case_sensitive && !d.accessibility.high_contrast);
}

#[test]
fn model_words() {
    assert_eq!(FileType::PDF.to_string(), "PDF");
    assert_eq!(FileType::EPUB.to_string(), "EPUB");
    assert_eq!(ProcessingStatus::Pending.to_string(), "pending");
    assert_eq!(ProcessingStatus::Processing.to_string(), "processing");
    assert_eq!(ProcessingStatus::Verified.to_string(), "verified");
    assert_eq!(ProcessingStatus::Error.to_string(), "error");
    assert_eq!(MalwareScanStatus::Pending.to_string(), "pending");
    assert_eq!(MalwareScanStatus::Clean.to_string(), "clean");
    assert_eq!(MalwareScanStatus::Suspicious.to_string(), "suspicious");
    assert_eq!(MalwareScanStatus::Blocked.to_string(), "blocked");
    assert_eq!(AuthorRole::Author.to_string(), "author");
    assert_eq!(AuthorRole::Editor.to_string(), "editor");
    assert_eq!(AuthorRole::Translator.to_string(), "translator");
    assert_eq!(AuthorRole::Compiler.to_string(), "compiler");
    assert_eq!(AuthorRole::Contributor.to_string(), "contributor");
}

fn field(name: &str, value: &str) -> LogField {
    LogField { name: s(name), value: s(value) }
}

#[test]
fn log_records() {
    let c = LoggingConfig::default();
    assert_eq!((c.level.as_str(), c.log_file, c.console_output), ("info", None, true));
    assert_eq!(
        log_warning("disk low", Some("storage")),
        LogRecord { level: LogLevel::Warn, message: s("[storage] disk low"), fields: vec![] }
    );
    assert_eq!(
        log_info("started", None),
        LogRecord { level: LogLevel::Info, message: s("started"), fields: vec![] }
    );
    assert_eq!(log_debug("x", Some("")).message, "[] x");
    assert_eq!(log_debug("x", None).level, LogLevel::Debug);
    assert_eq!(
        log_operation_start("import", Some("a.pdf")),
        LogRecord {
            level: LogLevel::Info,
            message: s("Operation started"),
            fields: vec![field("operation", "import"), field("details", "a.pdf")],
        }
    );
    assert_eq!(log_operation_start("import", None).fields, vec![field("operation", "import")]);
    assert_eq!(
        log_operation_success("import", 1234, None),
        LogRecord {
            level: LogLevel::Info,
            message: s("Operation completed successfully"),
            fields: vec![field("operation", "import"), field("duration_ms", "1234")],
        }
    );
    assert_eq!(log_operation_success("i", 0, Some("d")).fields.len(), 3);
    assert_eq!(
        log_database_operation("insert", "documents", Some("42")),
        LogRecord {
            level: LogLevel::Info,
            message: s("Database operation"),
            fields: vec![
                field("operation", "insert"),
                field("table", "documents"),
                field("record_id", "42")
            ],
        }
    );
    assert_eq!(log_database_operation("insert", "documents", None).fields.len(), 2);
    assert_eq!(
        log_file_operation("read", "/a", Some(10)).fields,
        vec![field("operation", "read"), field("file_path", "/a"), field("file_size", "10")]
    );
    assert_eq!(log_file_operation("read", "/a", None).fields.len(), 2);
    assert_eq!(log_security_event("login", "d", "critical").level, LogLevel::Error);
    assert_eq!(log_security_event("login", "d", "warning").level, LogLevel::Warn);
    assert_eq!(log_security_event("login", "d", "CRITICAL").level, LogLevel::Info);
    assert_eq!(
        log_security_event("login", "d", "info"),
        LogRecord {
            level: LogLevel::Info,
            message: s("Security event"),
            fields: vec![field("event_type", "login"), field("details", "d"), field("severity", "info")],
        }
    );
}

fn info(vpn: bool, proxy: bool, tor: bool, latency: Option<u64>, ssl: bool) -> SecurityInfo {
    let mut i = SecurityInfo::default();
    i.is_vpn = vpn;
    i.is_proxy = proxy;
    i.is_tor = tor;
    i.latency_ms = latency;
    i.ssl_available = ssl;
    i
}

#[test]
fn security_score() {
    let d = SecurityInfo::default();
    assert_eq!((d.security_score, d.connection_type.as_str()), (50, "Unknown"));
    assert_eq!(calculate_security_score(&info(false, false, false, None, true)), 100);
    assert_eq!(calculate_security_score(&info(true, false, false, None, true)), 80);
    assert_eq!(calculate_security_score(&info(false, true, false, None, true)), 85);
    assert_eq!(calculate_security_score(&info(false, false, true, None, true)), 70);
    assert_eq!(calculate_security_score(&info(false, false, false, Some(200), true)), 100);
    assert_eq!(calculate_security_score(&info(false, false, false, Some(201), true)), 95);
    assert_eq!(calculate_security_score(&info(false, false, false, Some(500), true)), 95);
    assert_eq!(calculate_security_score(&info(false, false, false, Some(501), true)), 90);
    assert_eq!(calculate_security_score(&info(false, false, false, None, false)), 85);
    assert_eq!(calculate_security_score(&info(true, true, true, Some(9999), false)), 10);
}

#[test]
fn security_warnings() {
    let mut i = info(true, true, false, Some(501), false);
    i.security_score = 49;
    i.warnings.push(s("earlier"));
    generate_warnings(&mut i);
    assert_eq!(
        i.warnings,
        vec![
            s("earlier"),
            s("VPN detected: May affect cultural heritage repository access policies"),
            s("Proxy connection: Institutional network policies may apply"),
            s("High network latency: May impact cultural data synchronization"),
            s("SSL/TLS unavailable: Secure cultural heritage data transfer at risk"),
            s("Network security concerns detected: Review connection for heritage preservation"),
        ]
    );
    let mut i = info(false, false, true, Some(500), true);
    i.security_score = 50;
    generate_warnings(&mut i);
    assert_eq!(i.warnings, Vec::<String>::new());
}

#[test]
fn connection_kinds() {
    assert!(is_suspicious_provider("acme hosting gmbh"));
    assert!(is_suspicious_provider("amazonaws"));
    assert!(!is_suspicious_provider("deutsche telekom"));
    assert!(!is_suspicious_provider("VPN"));
    assert!(is_private_address("10.0.0.1"));
    assert!(is_private_address("172.16.0.1"));
    assert!(is_private_address("192.168.1.1"));
    assert!(!is_private_address("192.169.1.1"));
    assert!(!is_private_address("8.8.8.8"));

    let mut i = SecurityInfo::default();
    i.public_ip = Some(s("8.8.8.8"));
    analyze_connection_type(&mut i, &Some(s("Fast VPN Ltd")));
    assert_eq!((i.is_vpn, i.is_proxy, i.connection_type.as_str()), (true, false, "VPN/Proxy Detected"));

    let mut i = SecurityInfo::default();
    i.public_ip = Some(s("8.8.8.8"));
    analyze_connection_type(&mut i, &Some(s("Telekom")));
    assert_eq!((i.is_vpn, i.is_proxy, i.connection_type.as_str()), (false, false, "Direct Connection"));

    let mut i = SecurityInfo::default();
    i.public_ip = Some(s("10.1.1.1"));
    analyze_connection_type(&mut i, &Some(s("Cloud Nine")));
    assert_eq!((i.is_vpn, i.is_proxy, i.connection_type.as_str()), (true, true, "Private Network"));

    let mut i = SecurityInfo::default();
    analyze_connection_type(&mut i, &None);
    assert_eq!((i.is_vpn, i.is_proxy, i.connection_type.as_str()), (false, false, "Unknown"));

    let mut i = SecurityInfo::default();
    classify_connection(&mut i, Some("VPN"));
    assert_eq!(i.connection_type, "Direct Connection");
}

#[test]
fn runtime_is_well_formed_after_a_fetch_of_somebody_elses_node() {
    let rt = Runtime {
        node_id: s("n"),
        socks_proxy: None,
        online: true,
        hashes: vec![s("h")],
        paths: vec![s("/p")],
        metas: vec![allibrary::facade::ContentMeta { title: None, author: None, tags: vec![] }],
    };
    assert_eq!(get_p2p_node_status(&Some(rt)).connected_peers, 1);
}

#[test]
fn new_records_start_with_nothing_but_what_is_given() {
    let d = Document::new(s("id"), s("T"), s("h"), FileType::EPUB, 10, 1700);
    assert_eq!((d.id.as_str(), d.title.as_str(), d.content_hash.as_str()), ("id", "T", "h"));
    assert_eq!((d.file_type.as_str(), d.file_size, d.created_at, d.updated_at), ("EPUB", 10, 1700, 1700));
    assert_eq!((d.processing_status.as_str(), d.malware_scan_status.as_str()), ("pending", "pending"));
    assert!(d.is_shared && !d.javascript_stripped);
    assert_eq!((d.peer_availability_count, d.download_priority, d.local_path), (0, 0, None));
    let a = Author::new(s("a1"), s("Ann"), 5);
    assert_eq!((a.id.as_str(), a.name.as_str(), a.created_at, a.birth_date), ("a1", "Ann", 5, None));
    assert_eq!(
        Collection::new(s("c1"), s("Mine"), 7),
        Collection { id: s("c1"), name: s("Mine"), description: None, created_at: 7, updated_at: 7 }
    );
    assert_eq!(
        Tag::new(s("t1"), s("old"), 9),
        Tag { id: s("t1"), name: s("old"), description: None, created_at: 9 }
    );

    let one = vec![Migration { version: s("001_initial_schema"), description: s(""), sql: s("") }];
    assert_eq!(pending_migrations(&one, &vec![]), vec![0]);
    assert_eq!(pending_migrations(&one, &vec![s("001_initial_schema")]), Vec::<usize>::new());
    assert_eq!(pending_migrations(&vec![], &vec![s("001")]), Vec::<usize>::new());
    let more = vec![
        Migration { version: s("001"), description: s(""), sql: s("") },
        Migration { version: s("002"), description: s(""), sql: s("") },
        Migration { version: s("003"), description: s(""), sql: s("") },
    ];
    assert_eq!(pending_migrations(&more, &vec![s("002"), s("000")]), vec![0, 2]);
}

#[test]
fn requested_documents_start_unshared() {
    let d = requested_document(
        CreateDocumentRequest {
            title: s("T"),
            description: Some(s("d")),
            content_hash: s("h"),
            file_type: s("PDF"),
            file_size: 9,
        },
        1700,
    );
    assert_eq!((d.id.as_str(), d.title.as_str(), d.file_type.as_str()), ("", "T", "PDF"));
    assert_eq!((d.is_shared, d.created_at, d.updated_at, d.file_size), (false, 1700, 1700, 9));
    assert_eq!((d.processing_status.as_str(), d.malware_scan_status.as_str()), ("pending", "pending"));
    let r = DocumentResponse::from(d, s("2024-01-01 00:00:00"), s("2024-01-02 00:00:00"));
    assert_eq!(
        r,
        DocumentResponse {
            id: s(""),
            title: s("T"),
            description: Some(s("d")),
            content_hash: s("h"),
            file_type: s("PDF"),
            file_size: 9,
            created_at: s("2024-01-01 00:00:00"),
            updated_at: s("2024-01-02 00:00:00"),
            is_shared: false,
            processing_status: s("pending"),
        }
    );
}
