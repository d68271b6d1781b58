use allibrary::tor_manager::{
    add_onion_command, authenticate_command, begin_control, bootstrap_progress, bootstrap_query,
    bootstrap_state, bridge_commands, bridges_in_use, bridges_query, choose_tor_binary,
    command_line, create_hidden_service, default_tor_path, enable_bridges, external_start_status,
    find_word, hidden_service_request, join_path, keep_probing, keep_waiting, list_hidden,
    loopback_address,
    newnym_command, override_port, parse_service_id, phase, reply_ok, response_complete,
    rotate_circuit, spawned, start, started_status, status, stop, torrc, ControlError, Phase,
    StartConfig, StartPlan, Status, TorRuntime,
};

fn s(x: &str) -> String {
    x.to_string()
}

fn config(bridge_support: bool, socks: Option<&str>, bridges: Option<Vec<&str>>) -> StartConfig {
    StartConfig {
        bridge_support,
        socks_override: socks.map(s),
        bridges: bridges.map(|b| b.into_iter().map(s).collect()),
    }
}

fn own_daemon() -> Option<TorRuntime> {
    let mut rt = None;
    spawned(&mut rt, "/data/tor-data", 9051, 9050);
    rt
}

#[test]
fn start_prefers_the_given_egress() {
    let mut rt = None;
    let plan = start(&mut rt, &config(true, Some("10.0.0.5:9999"), None), "/data", true);
    assert_eq!(plan, StartPlan::UseOverride { socks: s("10.0.0.5:9999"), port: 9999 });
    assert_eq!(
        rt,
        Some(TorRuntime {
            data_dir: s("/data"),
            torrc_path: s(""),
            control_port: 0,
            socks_port: 9999,
            spawned: false,
            hidden_services: vec![],
        })
    );
    assert_eq!(
        external_start_status(&plan),
        Some(Status {
            bootstrapped: true,
            circuit_established: true,
            bridges_enabled: false,
            socks: Some(s("10.0.0.5:9999")),
            supports_control: false,
        })
    );
}

#[test]
fn start_falls_back_to_the_external_client_then_to_spawning() {
    let mut rt = None;
    let plan = start(&mut rt, &config(true, None, None), "/data", true);
    assert_eq!(plan, StartPlan::UseBrowser);
    assert_eq!(rt.as_ref().unwrap().socks_port, 9150);
    assert_eq!(
        external_start_status(&plan),
        Some(Status {
            bootstrapped: true,
            circuit_established: true,
            bridges_enabled: false,
            socks: Some(s("127.0.0.1:9150")),
            supports_control: false,
        })
    );

    let mut rt = None;
    let plan = start(&mut rt, &config(true, None, None), "/data", false);
    assert_eq!(plan, StartPlan::Spawn);
    assert_eq!(rt, None);
    assert_eq!(external_start_status(&plan), None);
}

#[test]
fn start_is_idempotent() {
    let mut rt = own_daemon();
    let before = own_daemon();
    let plan = start(&mut rt, &config(true, Some("1.2.3.4:5"), None), "/other", true);
    assert_eq!(plan, StartPlan::AlreadyStarted);
    assert_eq!(rt, before);
    assert_eq!(external_start_status(&plan), None);
}

#[test]
fn egress_port_is_read_behind_the_last_colon() {
    assert_eq!(override_port("127.0.0.1:9050"), 9050);
    assert_eq!(override_port("[::1]:9051"), 9051);
    assert_eq!(override_port("9052"), 9052);
    assert_eq!(override_port("host"), 9150);
    assert_eq!(override_port("host:"), 9150);
    assert_eq!(override_port("host:70000"), 9150);
    assert_eq!(override_port(""), 9150);
}

#[test]
fn runtime_configuration_is_written_line_by_line() {
    let text = torrc("/data/tor data", 9051, 9050, &config(false, None, None));
    assert_eq!(
        String::from_utf8(text).unwrap(),
        "DataDirectory \"/data/tor data\"\nControlPort 9051\nCookieAuthentication 1\nSocksPort 9050\nLog notice file \"/data/tor data/tor.log\"\n"
    );
    let text = torrc(
        "/d",
        1,
        2,
        &config(true, None, Some(vec!["obfs4 1.2.3.4:5 ABC", "   ", "  obfs4 6.7.8.9:1 DEF \t"])),
    );
    assert_eq!(
        String::from_utf8(text).unwrap(),
        "DataDirectory \"/d\"\nControlPort 1\nCookieAuthentication 1\nSocksPort 2\nUseBridges 1\nBridge obfs4 1.2.3.4:5 ABC\nBridge obfs4 6.7.8.9:1 DEF\nLog notice file \"/d/tor.log\"\n"
    );
    let text = torrc("/d", 1, 2, &config(true, None, None));
    assert_eq!(
        String::from_utf8(text).unwrap(),
        "DataDirectory \"/d\"\nControlPort 1\nCookieAuthentication 1\nSocksPort 2\nUseBridges 1\nLog notice file \"/d/tor.log\"\n"
    );
    // bridges are written only in bridge mode
    let text = torrc("/d", 1, 2, &config(false, None, Some(vec!["obfs4 1.2.3.4:5 ABC"])));
    assert!(!String::from_utf8(text).unwrap().contains("Bridge"));
}

#[test]
fn paths_are_joined_with_one_slash() {
    assert_eq!(join_path("/data", "torrc"), "/data/torrc");
    assert_eq!(join_path("/data/", "torrc"), "/data/torrc");
    assert_eq!(join_path("", "torrc"), "torrc");
    assert_eq!(loopback_address(9050), "127.0.0.1:9050");
}

#[test]
fn spawned_daemon_is_recorded() {
    assert_eq!(
        own_daemon(),
        Some(TorRuntime {
            data_dir: s("/data/tor-data"),
            torrc_path: s("/data/tor-data/torrc"),
            control_port: 9051,
            socks_port: 9050,
            spawned: true,
            hidden_services: vec![],
        })
    );
}

#[test]
fn cookie_is_waited_for_up_to_thirty_seconds() {
    assert!(keep_waiting(0, false));
    assert!(keep_waiting(29_999, false));
    assert!(!keep_waiting(30_000, false));
    assert!(!keep_waiting(0, true));
    assert!(keep_probing(0, 0));
    assert!(keep_probing(29_999, 99));
    assert!(!keep_probing(29_999, 100));
    assert!(!keep_probing(30_000, 5));
}

#[test]
fn tor_binary_is_chosen_in_order() {
    assert_eq!(choose_tor_binary(Some(s("/opt/tor")), true, s("/bundled/tor"), true), "/opt/tor");
    assert_eq!(
        choose_tor_binary(Some(s("/opt/tor")), false, s("/bundled/tor"), true),
        "/bundled/tor"
    );
    assert_eq!(choose_tor_binary(None, true, s("/bundled/tor"), true), "/bundled/tor");
    assert_eq!(choose_tor_binary(None, false, s("/bundled/tor"), false), "tor");
    assert_eq!(default_tor_path(), "tor");
}

#[test]
fn control_commands() {
    assert_eq!(authenticate_command(&[0x00, 0xab, 0xff]), b"AUTHENTICATE 00abff".to_vec());
    assert_eq!(authenticate_command(&[]), b"AUTHENTICATE ".to_vec());
    assert_eq!(
        add_onion_command(4001),
        b"ADD_ONION NEW:ED25519-V3 Port=4001,127.0.0.1:4001".to_vec()
    );
    assert_eq!(newnym_command(), b"SIGNAL NEWNYM".to_vec());
    assert_eq!(bootstrap_query(), b"GETINFO status/bootstrap-phase".to_vec());
    assert_eq!(bridges_query(), b"GETCONF UseBridges".to_vec());
    assert_eq!(command_line(b"SIGNAL NEWNYM"), b"SIGNAL NEWNYM\r\n".to_vec());
    assert_eq!(
        bridge_commands(&vec![s("obfs4 1.2.3.4:5"), s("meek 0.0.2.0:1")]),
        vec![
            b"RESETCONF Bridge".to_vec(),
            b"SETCONF UseBridges=1".to_vec(),
            b"SETCONF Bridge=obfs4 1.2.3.4:5".to_vec(),
            b"SETCONF Bridge=meek 0.0.2.0:1".to_vec(),
        ]
    );
    assert_eq!(
        bridge_commands(&vec![]),
        vec![b"RESETCONF Bridge".to_vec(), b"SETCONF UseBridges=1".to_vec()]
    );
}

#[test]
fn answers_are_complete_at_their_end() {
    assert!(response_complete(b"250 OK\r\n"));
    assert!(response_complete(b"250-ServiceID=abc\r\n250 OK"));
    assert!(response_complete(b"250-x=1\r\n250-OK\r\nmore"));
    assert!(response_complete(b"515 Bad authentication\r\n"));
    assert!(response_complete(b"junk 250 OK junk"));
    assert!(!response_complete(b"250-ServiceID=abc"));
    assert!(!response_complete(b""));
    assert!(reply_ok(b"250 OK\r\n"));
    assert!(!reply_ok(b"515 Bad authentication\r\n"));
}

#[test]
fn service_id_is_read_from_the_answer() {
    assert_eq!(
        parse_service_id(b"250-ServiceID=abcdefghij234567\r\n250-PrivateKey=ED25519-V3:xyz\r\n250 OK\r\n"),
        Some(s("abcdefghij234567.onion"))
    );
    assert_eq!(parse_service_id(b"250-ServiceID=abc.onion \r\n250 OK\r\n"), Some(s("abc.onion")));
    assert_eq!(
        parse_service_id(b"250-ServiceID=first\r\n250-ServiceID=second\r\n"),
        Some(s("first.onion"))
    );
    assert_eq!(parse_service_id(b"250-ServiceID=\r\n"), Some(s(".onion")));
    assert_eq!(parse_service_id(b"512 Bad arguments to ADD_ONION\r\n"), None);
    assert_eq!(parse_service_id(b" 250-ServiceID=abc\r\n"), None);
    assert_eq!(parse_service_id(b""), None);
}

#[test]
fn hidden_service_is_created_in_three_steps() {
    let mut rt = own_daemon();
    assert_eq!(begin_control(&rt, 100, &[0xde, 0xad]), Ok(b"AUTHENTICATE dead".to_vec()));
    assert_eq!(
        hidden_service_request(b"250 OK\r\n", 4001),
        Ok(b"ADD_ONION NEW:ED25519-V3 Port=4001,127.0.0.1:4001".to_vec())
    );
    assert_eq!(
        create_hidden_service(&mut rt, b"250-ServiceID=abc\r\n250 OK\r\n"),
        Ok(s("abc.onion"))
    );
    assert_eq!(
        create_hidden_service(&mut rt, b"250-ServiceID=def.onion\r\n250 OK\r\n"),
        Ok(s("def.onion"))
    );
    assert_eq!(list_hidden(&rt), vec![s("abc.onion"), s("def.onion")]);
}

#[test]
fn hidden_service_errors() {
    assert_eq!(begin_control(&None, 100, &[1]), Err(ControlError::NotStarted));
    assert_eq!(begin_control(&own_daemon(), 99, &[1]), Err(ControlError::NotReady));
    assert_eq!(
        hidden_service_request(b"515 Bad authentication\r\n", 4001),
        Err(ControlError::AuthFailed(b"515 Bad authentication\r\n".to_vec()))
    );
    let mut rt = own_daemon();
    assert_eq!(
        create_hidden_service(&mut rt, b"512 refused\r\n"),
        Err(ControlError::MissingServiceId(b"512 refused\r\n".to_vec()))
    );
    assert_eq!(list_hidden(&rt), Vec::<String>::new());
    let mut none = None;
    assert_eq!(
        create_hidden_service(&mut none, b"250-ServiceID=abc\r\n"),
        Err(ControlError::NotStarted)
    );
    assert_eq!(none, None);
    assert_eq!(list_hidden(&None), Vec::<String>::new());

    assert_eq!(ControlError::NotStarted.message(), b"tor not started".to_vec());
    assert_eq!(ControlError::NotReady.message(), b"tor has no circuit yet".to_vec());
    assert_eq!(
        ControlError::AuthFailed(b"515".to_vec()).message(),
        b"AUTHENTICATE failed: 515".to_vec()
    );
    assert_eq!(
        ControlError::MissingServiceId(b"512".to_vec()).message(),
        b"missing ServiceID in response: 512".to_vec()
    );
}

#[test]
fn external_egress_is_ready_at_once() {
    let mut rt = None;
    start(&mut rt, &config(true, Some("1.2.3.4:9050"), None), "/d", false);
    assert_eq!(phase(&rt, 0, false), Phase::Ready);
    assert_eq!(begin_control(&rt, 0, &[]), Ok(b"AUTHENTICATE ".to_vec()));
}

#[test]
fn phases_follow_the_progress() {
    assert_eq!(phase(&None, 100, false), Phase::NotStarted);
    assert_eq!(phase(&None, 100, true), Phase::Stopped);
    let rt = own_daemon();
    assert_eq!(phase(&rt, 0, false), Phase::Starting);
    assert_eq!(phase(&rt, 4, false), Phase::Starting);
    assert_eq!(phase(&rt, 5, false), Phase::Bootstrapping);
    assert_eq!(phase(&rt, 99, false), Phase::Bootstrapping);
    assert_eq!(phase(&rt, 100, false), Phase::Ready);
    assert_eq!(phase(&rt, 100, true), Phase::Ready);
    assert_eq!(bootstrap_state(4), (false, false));
    assert_eq!(bootstrap_state(5), (true, false));
    assert_eq!(bootstrap_state(100), (true, true));
}

#[test]
fn progress_is_read_from_the_answer() {
    assert_eq!(
        bootstrap_progress(
            b"250-status/bootstrap-phase=NOTICE BOOTSTRAP PROGRESS=85 TAG=ap_handshake SUMMARY=\"Handshaking\"\r\n250 OK\r\n"
        ),
        85
    );
    assert_eq!(bootstrap_progress(b"250-x PROGRESS=100 TAG=done\r\n"), 100);
    assert_eq!(bootstrap_progress(b"250 OK\r\n"), 0);
    assert_eq!(bootstrap_progress(b""), 0);
    assert_eq!(bootstrap_progress(b"PROGRESS=abc\r\nPROGRESS=7\r\n"), 0);
    assert_eq!(bootstrap_progress(b"no\r\n\tPROGRESS=7\r\n"), 7);
    assert_eq!(bootstrap_progress(b"xPROGRESS=7 PROGRESS=9=3"), 9);
    assert_eq!(bootstrap_progress(b"PROGRESS=4294967295"), 4294967295);
    assert_eq!(bootstrap_progress(b"PROGRESS=4294967296"), 0);
    assert_eq!(bootstrap_progress(b"PROGRESS="), 0);
    assert_eq!(find_word(b"  a  PROGRESS=5\tb", b"PROGRESS="), Some(b"PROGRESS=5".to_vec()));
    assert_eq!(find_word(b"a b", b"PROGRESS="), None);
    assert_eq!(find_word(b"a b", b""), Some(b"a".to_vec()));
}

#[test]
fn bridges_are_read_from_the_answer() {
    assert!(bridges_in_use(b"250 UseBridges=1\r\n"));
    assert!(bridges_in_use(b"250 UseBridges=auto\r\n"));
    assert!(!bridges_in_use(b"250 UseBridges=0\r\n"));
    assert!(!bridges_in_use(b""));
}

#[test]
fn status_of_each_kind_of_runtime() {
    assert_eq!(
        status(&None, None, None),
        Status {
            bootstrapped: false,
            circuit_established: false,
            bridges_enabled: false,
            socks: None,
            supports_control: false,
        }
    );
    let mut ext = None;
    start(&mut ext, &config(true, Some("1.2.3.4:9999"), None), "/d", false);
    assert_eq!(
        status(&ext, Some(b"PROGRESS=0"), None),
        Status {
            bootstrapped: true,
            circuit_established: true,
            bridges_enabled: false,
            socks: Some(s("127.0.0.1:9999")),
            supports_control: false,
        }
    );
    let own = own_daemon();
    assert_eq!(
        status(&own, Some(b"250-x PROGRESS=50\r\n"), Some(b"250 UseBridges=1\r\n")),
        Status {
            bootstrapped: true,
            circuit_established: false,
            bridges_enabled: true,
            socks: Some(s("127.0.0.1:9050")),
            supports_control: true,
        }
    );
    assert_eq!(
        status(&own, Some(b"250-x PROGRESS=100\r\n"), None),
        Status {
            bootstrapped: true,
            circuit_established: true,
            bridges_enabled: false,
            socks: Some(s("127.0.0.1:9050")),
            supports_control: true,
        }
    );
    assert_eq!(
        status(&own, None, Some(b"250 UseBridges=1\r\n")),
        Status {
            bootstrapped: false,
            circuit_established: false,
            bridges_enabled: false,
            socks: Some(s("127.0.0.1:9050")),
            supports_control: true,
        }
    );
}

#[test]
fn status_after_the_start_of_a_daemon() {
    let c = config(true, None, None);
    assert_eq!(
        started_status(&c, 9050, None, None),
        Status {
            bootstrapped: false,
            circuit_established: false,
            bridges_enabled: true,
            socks: Some(s("127.0.0.1:9050")),
            supports_control: true,
        }
    );
    assert_eq!(
        started_status(&c, 9050, Some(b"PROGRESS=100"), Some(b"UseBridges=0")),
        Status {
            bootstrapped: true,
            circuit_established: true,
            bridges_enabled: false,
            socks: Some(s("127.0.0.1:9050")),
            supports_control: true,
        }
    );
    assert_eq!(
        started_status(&c, 9050, Some(b"PROGRESS=3"), Some(b"UseBridges=0")).bridges_enabled,
        true
    );
    assert_eq!(started_status(&c, 9050, Some(b"PROGRESS=10"), None).bridges_enabled, true);
}

#[test]
fn circuit_rotation_and_bridges_report_the_daemon_s_answer() {
    assert!(rotate_circuit(Some(b"250 OK\r\n")));
    assert!(!rotate_circuit(Some(b"552 Unrecognized signal\r\n")));
    assert!(!rotate_circuit(None));
    let ok = Some(b"250 OK\r\n".to_vec());
    let bad = Some(b"552 bad\r\n".to_vec());
    // the answers to the reset and to the switch to bridge mode do not count
    assert!(enable_bridges(true, &vec![bad.clone(), None, ok.clone(), ok.clone()]));
    assert!(enable_bridges(true, &vec![ok.clone(), ok.clone()]));
    assert!(enable_bridges(true, &vec![]));
    assert!(!enable_bridges(true, &vec![ok.clone(), ok.clone(), ok.clone(), bad]));
    assert!(!enable_bridges(true, &vec![ok.clone(), ok.clone(), None]));
    assert!(!enable_bridges(false, &vec![ok.clone(), ok.clone(), ok]));
}

#[test]
fn stop_drops_the_runtime() {
    let mut rt = own_daemon();
    assert!(stop(&mut rt));
    assert_eq!(rt, None);
    assert!(!stop(&mut rt));
    assert_eq!(phase(&rt, 100, true), Phase::Stopped);
}
