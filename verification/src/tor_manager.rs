//! Supervision of the anonymity daemon: how it is started, what its
//! runtime configuration says, what is sent on its control channel and what
//! the answers mean.
//!
//! The daemon's process, its files and its sockets belong to the caller;
//! this module decides and parses.

use crate::index::after_last;
use crate::strings::{
    clone_texts,
    concat,
    decimal_chars,
    decimal_string,
    opt_view,
    text_of,
    utf8_text,
};
use crate::text::{
    after_first, before_first, contains, contains_seq, decimal, decimal_value, ends_with, extend,
    format_decimal, found, has_prefix, has_suffix, hex, index_of, is_space, is_space_byte,
    lemma_first_index, lines, lines_of, parse_decimal, rows, skip_leading, slice_copy, starts_with,
    to_hex, trim, trimmed,
};
use vstd::prelude::*;
use vstd::string::*;
use vstd::utf8::*;

verus! {

/// The SOCKS port of a well-known external client on the loopback.
pub const BROWSER_SOCKS_PORT: u16 = 9150;

/// How long the start waits for the authentication cookie and for the
/// daemon's bootstrap, in milliseconds.
pub const COOKIE_DEADLINE_MS: u64 = 30000;

/// The progress from which the daemon counts as bootstrapped.
pub const BOOTSTRAPPED_AT: u32 = 5;

/// The progress at which a circuit is established.
pub const READY_AT: u32 = 100;

/// How the caller wants the daemon started.
#[derive(Debug, PartialEq, Eq)]
pub struct StartConfig {
    pub bridge_support: bool,
    pub socks_override: Option<String>,
    pub bridges: Option<Vec<String>>,
}

/// What is known of the daemon.
#[derive(Debug, PartialEq, Eq)]
pub struct Status {
    pub bootstrapped: bool,
    pub circuit_established: bool,
    pub bridges_enabled: bool,
    pub socks: Option<String>,
    pub supports_control: bool,
}

/// A status as plain values.
pub struct StatusView {
    pub bootstrapped: bool,
    pub circuit_established: bool,
    pub bridges_enabled: bool,
    pub socks: Option<Seq<char>>,
    pub supports_control: bool,
}

impl View for Status {
    type V = StatusView;

    open spec fn view(&self) -> StatusView {
        StatusView {
            bootstrapped: self.bootstrapped,
            circuit_established: self.circuit_established,
            bridges_enabled: self.bridges_enabled,
            socks: opt_view(self.socks),
            supports_control: self.supports_control,
        }
    }
}

/// The anonymity layer in use: an external SOCKS egress (control port
/// zero) or a daemon of our own.
#[derive(Debug, PartialEq, Eq)]
pub struct TorRuntime {
    pub data_dir: String,
    pub torrc_path: String,
    pub control_port: u16,
    pub socks_port: u16,
    /// Whether a daemon process was spawned for this runtime.
    pub spawned: bool,
    pub hidden_services: Vec<String>,
}

/// Where the manager stands.
#[derive(Debug, PartialEq, Eq, Clone, Copy, Structural)]
pub enum Phase {
    NotStarted,
    Starting,
    Bootstrapping,
    Ready,
    Stopped,
}

/// The phase that a bootstrap progress stands for, once the daemon runs.
pub open spec fn phase_at(progress: u32) -> Phase {
    if progress >= READY_AT {
        Phase::Ready
    } else if progress >= BOOTSTRAPPED_AT {
        Phase::Bootstrapping
    } else {
        Phase::Starting
    }
}

/// The phase of the manager: without a runtime it has not started, or has
/// stopped if it ran before (`stopped`); on an external egress it is ready
/// at once; else it stands where the progress that the daemon reports
/// puts it.
pub fn phase(rt: &Option<TorRuntime>, progress: u32, stopped: bool) -> (r: Phase)
    ensures
        r == match rt {
            None => if stopped {
                Phase::Stopped
            } else {
                Phase::NotStarted
            },
            Some(t) => if t.control_port == 0 {
                Phase::Ready
            } else {
                phase_at(progress)
            },
        },
{
    match rt {
        None => {
            if stopped {
                Phase::Stopped
            } else {
                Phase::NotStarted
            }
        },
        Some(t) => {
            if t.control_port == 0 {
                Phase::Ready
            } else if progress >= READY_AT {
                Phase::Ready
            } else if progress >= BOOTSTRAPPED_AT {
                Phase::Bootstrapping
            } else {
                Phase::Starting
            }
        },
    }
}

/// The name of the daemon's executable where nothing else is known.
pub fn default_tor_path() -> (r: String)
    ensures
        r@ == "tor"@,
{
    String::from_str("tor")
}

/// The executable to spawn: the operator's where it exists, else the
/// bundled one where it exists, else the default name.
pub fn choose_tor_binary(
    operator: Option<String>,
    operator_exists: bool,
    bundled: String,
    bundled_exists: bool,
) -> (r: String)
    ensures
        r@ == if operator is Some && operator_exists {
            operator->0@
        } else if bundled_exists {
            bundled@
        } else {
            "tor"@
        },
{
    match operator {
        Some(p) => {
            if operator_exists {
                return p;
            }
        },
        None => {},
    }
    if bundled_exists {
        bundled
    } else {
        default_tor_path()
    }
}

/// `dir` and `name` as one path.
pub open spec fn joined(dir: Seq<char>, name: Seq<char>) -> Seq<char> {
    if dir.len() == 0 {
        name
    } else if dir.last() == '/' {
        dir + name
    } else {
        dir + "/"@ + name
    }
}

/// Writes `dir` and `name` as one path.
pub fn join_path(dir: &str, name: &str) -> (r: String)
    ensures
        r@ == joined(dir@, name@),
{
    let n = dir.unicode_len();
    if n == 0 {
        String::from_str(name)
    } else if dir.get_char(n - 1) == '/' {
        concat(dir, name)
    } else {
        let mut out = concat(dir, "/");
        out.append(name);
        out
    }
}

/// The port that an egress given as `host:port` listens on: what follows
/// the last colon where that is a port number, else the well-known one.
pub open spec fn egress_port(addr: Seq<u8>) -> u16 {
    match decimal_value(after_last(addr, crate::address::COLON)) {
        Some(p) => if p <= 65535 {
            p as u16
        } else {
            BROWSER_SOCKS_PORT
        },
        None => BROWSER_SOCKS_PORT,
    }
}

/// Reads the port of an egress given as `host:port`.
pub fn override_port(addr: &str) -> (r: u16)
    ensures
        r == egress_port(encode_utf8(addr@)),
{
    let bytes = addr.as_bytes();
    let mut start: usize = bytes.len();
    assert(bytes@.subrange(0, bytes@.len() as int) =~= bytes@);
    assert(after_last(bytes@, crate::address::COLON) + bytes@.subrange(
        bytes@.len() as int,
        bytes@.len() as int,
    ) =~= after_last(bytes@, crate::address::COLON));
    while start > 0 && bytes[start - 1] != crate::address::COLON
        invariant
            start <= bytes.len(),
            after_last(bytes@, crate::address::COLON) == after_last(
                bytes@.subrange(0, start as int),
                crate::address::COLON,
            ) + bytes@.subrange(start as int, bytes@.len() as int),
        decreases start,
    {
        let ghost head = bytes@.subrange(0, start as int);
        assert(head.drop_last() =~= bytes@.subrange(0, start - 1));
        assert(head.last() == bytes@[start - 1]);
        assert(after_last(head.drop_last(), crate::address::COLON).push(head.last())
            + bytes@.subrange(start as int, bytes@.len() as int) =~= after_last(
            head.drop_last(),
            crate::address::COLON,
        ) + bytes@.subrange(start - 1, bytes@.len() as int));
        start -= 1;
    }
    assert(after_last(bytes@.subrange(0, start as int), crate::address::COLON) =~= Seq::<
        u8,
    >::empty());
    assert(Seq::<u8>::empty() + bytes@.subrange(start as int, bytes@.len() as int)
        =~= bytes@.subrange(start as int, bytes@.len() as int));
    let tail = slice_copy(bytes, start, bytes.len());
    match parse_decimal(tail.as_slice(), 65535) {
        Some(p) => p as u16,
        None => BROWSER_SOCKS_PORT,
    }
}

/// The address of a SOCKS egress on the loopback.
pub open spec fn loopback(port: u16) -> Seq<char> {
    "127.0.0.1:"@ + decimal_chars(port as nat)
}

/// Writes the address of a SOCKS egress on the loopback.
pub fn loopback_address(port: u16) -> (r: String)
    ensures
        r@ == loopback(port),
{
    let digits = decimal_string(port as u64);
    concat("127.0.0.1:", digits.as_str())
}

/// How the anonymity layer is to be provided.
#[derive(Debug, PartialEq, Eq)]
pub enum StartPlan {
    /// A runtime exists: nothing is started, its status is the answer.
    AlreadyStarted,
    /// The egress that the caller gave is used as it is.
    UseOverride { socks: String, port: u16 },
    /// The external client on the loopback is used.
    UseBrowser,
    /// A daemon of our own is spawned.
    Spawn,
}

/// A start plan as plain values.
pub enum StartPlanView {
    AlreadyStarted,
    UseOverride { socks: Seq<char>, port: u16 },
    UseBrowser,
    Spawn,
}

impl View for StartPlan {
    type V = StartPlanView;

    open spec fn view(&self) -> StartPlanView {
        match self {
            StartPlan::AlreadyStarted => StartPlanView::AlreadyStarted,
            StartPlan::UseOverride { socks, port } => StartPlanView::UseOverride {
                socks: socks@,
                port: *port,
            },
            StartPlan::UseBrowser => StartPlanView::UseBrowser,
            StartPlan::Spawn => StartPlanView::Spawn,
        }
    }
}

/// The status of a runtime on an external egress.
pub open spec fn external_status(socks: Seq<char>) -> StatusView {
    StatusView {
        bootstrapped: true,
        circuit_established: true,
        bridges_enabled: false,
        socks: Some(socks),
        supports_control: false,
    }
}

/// The status while nothing is started.
pub open spec fn idle_status() -> StatusView {
    StatusView {
        bootstrapped: false,
        circuit_established: false,
        bridges_enabled: false,
        socks: None,
        supports_control: false,
    }
}

/// A runtime on an external egress.
pub open spec fn is_external(t: TorRuntime, data_dir: Seq<char>, port: u16) -> bool {
    &&& t.data_dir@ == data_dir
    &&& t.torrc_path@.len() == 0
    &&& t.control_port == 0
    &&& t.socks_port == port
    &&& !t.spawned
    &&& t.hidden_services@.len() == 0
}

/// Starts the anonymity layer, as far as that takes no daemon: an existing
/// runtime stays; an egress that the caller gives is taken; else the
/// external client on the loopback is taken where it answers
/// (`browser_reachable`). Where none of these holds a daemon is to be
/// spawned, and the runtime stays empty until `spawned` is told its ports.
pub fn start(
    rt: &mut Option<TorRuntime>,
    config: &StartConfig,
    data_dir: &str,
    browser_reachable: bool,
) -> (r: StartPlan)
    ensures
        r@ == if (*old(rt)) is Some {
            StartPlanView::AlreadyStarted
        } else if config.socks_override is Some {
            StartPlanView::UseOverride {
                socks: config.socks_override->0@,
                port: egress_port(encode_utf8(config.socks_override->0@)),
            }
        } else if browser_reachable {
            StartPlanView::UseBrowser
        } else {
            StartPlanView::Spawn
        },
        match r {
            StartPlan::AlreadyStarted => *final(rt) == *old(rt),
            StartPlan::UseOverride { socks, port } => (*final(rt)) is Some && is_external(
                (*final(rt))->0,
                data_dir@,
                port,
            ),
            StartPlan::UseBrowser => (*final(rt)) is Some && is_external(
                (*final(rt))->0,
                data_dir@,
                BROWSER_SOCKS_PORT,
            ),
            StartPlan::Spawn => (*final(rt)) is None,
        },
{
    if rt.is_some() {
        return StartPlan::AlreadyStarted;
    }
    match &config.socks_override {
        Some(s) => {
            let port = override_port(s.as_str());
            *rt = Some(
                TorRuntime {
                    data_dir: String::from_str(data_dir),
                    torrc_path: String::new(),
                    control_port: 0,
                    socks_port: port,
                    spawned: false,
                    hidden_services: Vec::new(),
                },
            );
            StartPlan::UseOverride { socks: s.clone(), port }
        },
        None => {
            if browser_reachable {
                *rt = Some(
                    TorRuntime {
                        data_dir: String::from_str(data_dir),
                        torrc_path: String::new(),
                        control_port: 0,
                        socks_port: BROWSER_SOCKS_PORT,
                        spawned: false,
                        hidden_services: Vec::new(),
                    },
                );
                StartPlan::UseBrowser
            } else {
                StartPlan::Spawn
            }
        },
    }
}

/// The status that a start without a daemon reports.
pub fn external_start_status(plan: &StartPlan) -> (r: Option<Status>)
    ensures
        match plan@ {
            StartPlanView::UseOverride { socks, port } => r is Some && r->0@ == external_status(
                socks,
            ),
            StartPlanView::UseBrowser => r is Some && r->0@ == external_status(
                loopback(BROWSER_SOCKS_PORT),
            ),
            _ => r is None,
        },
{
    match plan {
        StartPlan::UseOverride { socks, port } => Some(
            Status {
                bootstrapped: true,
                circuit_established: true,
                bridges_enabled: false,
                socks: Some(socks.clone()),
                supports_control: false,
            },
        ),
        StartPlan::UseBrowser => Some(
            Status {
                bootstrapped: true,
                circuit_established: true,
                bridges_enabled: false,
                socks: Some(loopback_address(BROWSER_SOCKS_PORT)),
                supports_control: false,
            },
        ),
        _ => None,
    }
}

/// The lines of the daemon's runtime configuration.
pub open spec fn torrc_text(
    data_dir: Seq<char>,
    control_port: u16,
    socks_port: u16,
    bridge_support: bool,
    bridges: Seq<Seq<char>>,
) -> Seq<u8> {
    encode_utf8("DataDirectory \""@) + encode_utf8(data_dir) + encode_utf8("\"\n"@) + encode_utf8(
        "ControlPort "@,
    ) + decimal(control_port as nat) + seq![crate::text::LF] + encode_utf8(
        "CookieAuthentication 1\n"@,
    ) + encode_utf8("SocksPort "@) + decimal(socks_port as nat) + seq![crate::text::LF] + (
    if bridge_support {
        encode_utf8("UseBridges 1\n"@) + bridge_lines(bridges)
    } else {
        Seq::empty()
    }) + encode_utf8("Log notice file \""@) + encode_utf8(joined(data_dir, "tor.log"@))
        + encode_utf8("\"\n"@)
}

/// One `Bridge` line for each bridge that is not blank, trimmed.
pub open spec fn bridge_lines(bridges: Seq<Seq<char>>) -> Seq<u8>
    decreases bridges.len(),
{
    if bridges.len() == 0 {
        Seq::empty()
    } else {
        bridge_lines(bridges.drop_last()) + bridge_line(bridges.last())
    }
}

/// The `Bridge` line of one bridge: nothing for a blank one.
pub open spec fn bridge_line(bridge: Seq<char>) -> Seq<u8> {
    if trimmed(encode_utf8(bridge)).len() == 0 {
        Seq::empty()
    } else {
        encode_utf8("Bridge "@) + trimmed(encode_utf8(bridge)) + seq![crate::text::LF]
    }
}

fn write_bridge_lines(out: &mut Vec<u8>, bridges: &Vec<String>)
    ensures
        final(out)@ == old(out)@ + bridge_lines(bridges.deep_view()),
{
    let mut i: usize = 0;
    let ghost all = bridges.deep_view();
    assert(all.subrange(0, 0) =~= Seq::<Seq<char>>::empty());
    assert(out@ =~= old(out)@ + bridge_lines(all.subrange(0, 0)));
    while i < bridges.len()
        invariant
            i <= bridges.len(),
            all == bridges.deep_view(),
            out@ == old(out)@ + bridge_lines(all.subrange(0, i as int)),
        decreases bridges.len() - i,
    {
        let ghost before = out@;
        assert(all.subrange(0, i + 1).drop_last() =~= all.subrange(0, i as int));
        assert(all.subrange(0, i + 1).last() == bridges[i as int]@);
        let t = trim(bridges[i].as_str().as_bytes());
        if t.len() > 0 {
            extend(out, "Bridge ".as_bytes());
            extend(out, t.as_slice());
            out.push(crate::text::LF);
        }
        assert(out@ =~= before + bridge_line(bridges[i as int]@));
        assert(out@ =~= old(out)@ + (bridge_lines(all.subrange(0, i as int)) + bridge_line(
            bridges[i as int]@,
        )));
        i += 1;
    }
    assert(all.subrange(0, all.len() as int) =~= all);
}

/// Writes the daemon's runtime configuration: data directory, control
/// port, cookie authentication, SOCKS port, bridges where they are asked
/// for, and the log file. Paths stand in double quotes.
pub fn torrc(data_dir: &str, control_port: u16, socks_port: u16, config: &StartConfig) -> (r: Vec<
    u8,
>)
    ensures
        r@ == torrc_text(
            data_dir@,
            control_port,
            socks_port,
            config.bridge_support,
            match config.bridges {
                Some(b) => b.deep_view(),
                None => Seq::empty(),
            },
        ),
{
    let mut out: Vec<u8> = Vec::new();
    extend(&mut out, "DataDirectory \"".as_bytes());
    extend(&mut out, data_dir.as_bytes());
    extend(&mut out, "\"\n".as_bytes());
    extend(&mut out, "ControlPort ".as_bytes());
    let cp = format_decimal(control_port as u64);
    extend(&mut out, cp.as_slice());
    out.push(crate::text::LF);
    extend(&mut out, "CookieAuthentication 1\n".as_bytes());
    extend(&mut out, "SocksPort ".as_bytes());
    let sp = format_decimal(socks_port as u64);
    extend(&mut out, sp.as_slice());
    out.push(crate::text::LF);
    let ghost head = out@;
    if config.bridge_support {
        extend(&mut out, "UseBridges 1\n".as_bytes());
        match &config.bridges {
            Some(list) => write_bridge_lines(&mut out, list),
            None => {
                assert(out@ =~= out@ + bridge_lines(Seq::<Seq<char>>::empty()));
            },
        }
    }
    let ghost mid = out@;
    let log = join_path(data_dir, "tor.log");
    extend(&mut out, "Log notice file \"".as_bytes());
    extend(&mut out, log.as_str().as_bytes());
    extend(&mut out, "\"\n".as_bytes());
    assert(out@ =~= torrc_text(
        data_dir@,
        control_port,
        socks_port,
        config.bridge_support,
        match config.bridges {
            Some(b) => b.deep_view(),
            None => Seq::empty(),
        },
    ));
    out
}

/// Records the daemon that was spawned on the given ports.
pub fn spawned(rt: &mut Option<TorRuntime>, data_dir: &str, control_port: u16, socks_port: u16)
    ensures
        (*final(rt)) is Some,
        (*final(rt))->0.data_dir@ == data_dir@,
        (*final(rt))->0.torrc_path@ == joined(data_dir@, "torrc"@),
        (*final(rt))->0.control_port == control_port,
        (*final(rt))->0.socks_port == socks_port,
        (*final(rt))->0.spawned,
        (*final(rt))->0.hidden_services@.len() == 0,
{
    *rt = Some(
        TorRuntime {
            data_dir: String::from_str(data_dir),
            torrc_path: join_path(data_dir, "torrc"),
            control_port,
            socks_port,
            spawned: true,
            hidden_services: Vec::new(),
        },
    );
}

/// Whether the start goes on waiting for the authentication cookie.
pub fn keep_waiting(elapsed_ms: u64, cookie_exists: bool) -> (r: bool)
    ensures
        r == (!cookie_exists && elapsed_ms < COOKIE_DEADLINE_MS),
{
    !cookie_exists && elapsed_ms < COOKIE_DEADLINE_MS
}

/// Whether the start goes on probing the bootstrap progress: until a
/// circuit is established or the deadline of the start has passed.
pub fn keep_probing(elapsed_ms: u64, progress: u32) -> (r: bool)
    ensures
        r == (progress < READY_AT && elapsed_ms < COOKIE_DEADLINE_MS),
{
    progress < READY_AT && elapsed_ms < COOKIE_DEADLINE_MS
}

/// A request as it goes out on the control channel: the command and CRLF.
pub open spec fn framed(command: Seq<u8>) -> Seq<u8> {
    command + seq![crate::text::CR, crate::text::LF]
}

/// Frames a command for the control channel.
pub fn command_line(command: &[u8]) -> (r: Vec<u8>)
    ensures
        r@ == framed(command@),
{
    let mut out: Vec<u8> = Vec::new();
    extend(&mut out, command);
    out.push(crate::text::CR);
    out.push(crate::text::LF);
    assert(out@ =~= framed(command@));
    out
}

/// Whether what has come in on the control channel is a whole answer.
pub open spec fn answer_complete(so_far: Seq<u8>) -> bool {
    ||| contains_seq(so_far, encode_utf8("\r\n250 "@))
    ||| contains_seq(so_far, encode_utf8("\r\n250-OK\r\n"@))
    ||| has_suffix(so_far, encode_utf8("\r\n"@))
    ||| contains_seq(so_far, encode_utf8("250 OK"@))
}

/// Tests whether what has come in on the control channel is a whole answer.
pub fn response_complete(so_far: &[u8]) -> (r: bool)
    ensures
        r == answer_complete(so_far@),
{
    contains(so_far, "\r\n250 ".as_bytes()) || contains(so_far, "\r\n250-OK\r\n".as_bytes())
        || ends_with(so_far, "\r\n".as_bytes()) || contains(so_far, "250 OK".as_bytes())
}

/// Whether an answer of the control channel reports success.
pub open spec fn accepted(answer: Seq<u8>) -> bool {
    contains_seq(answer, encode_utf8("250"@))
}

/// Tests whether an answer of the control channel reports success.
pub fn reply_ok(answer: &[u8]) -> (r: bool)
    ensures
        r == accepted(answer@),
{
    contains(answer, "250".as_bytes())
}

/// The command that authenticates with the cookie.
pub open spec fn authenticate_text(cookie: Seq<u8>) -> Seq<u8> {
    encode_utf8("AUTHENTICATE "@) + hex(cookie)
}

/// Writes the command that authenticates with the cookie: the cookie's
/// bytes in hexadecimal.
pub fn authenticate_command(cookie: &[u8]) -> (r: Vec<u8>)
    ensures
        r@ == authenticate_text(cookie@),
{
    let mut out: Vec<u8> = Vec::new();
    extend(&mut out, "AUTHENTICATE ".as_bytes());
    let h = to_hex(cookie);
    extend(&mut out, h.as_slice());
    out
}

/// The command that opens an ephemeral hidden service from the virtual
/// port `port` to the same port on the loopback.
pub open spec fn add_onion_text(port: u16) -> Seq<u8> {
    encode_utf8("ADD_ONION NEW:ED25519-V3 Port="@) + decimal(port as nat) + encode_utf8(
        ",127.0.0.1:"@,
    ) + decimal(port as nat)
}

/// Writes the command that opens a hidden service for `port`.
pub fn add_onion_command(port: u16) -> (r: Vec<u8>)
    ensures
        r@ == add_onion_text(port),
{
    let mut out: Vec<u8> = Vec::new();
    extend(&mut out, "ADD_ONION NEW:ED25519-V3 Port=".as_bytes());
    let digits = format_decimal(port as u64);
    extend(&mut out, digits.as_slice());
    extend(&mut out, ",127.0.0.1:".as_bytes());
    extend(&mut out, digits.as_slice());
    out
}

/// What a line says of a service id: what follows `250-ServiceID=`.
pub open spec fn service_id_of(line: Seq<u8>) -> Option<Seq<u8>> {
    if has_prefix(line, encode_utf8("250-ServiceID="@)) {
        Some(trimmed(line.subrange(encode_utf8("250-ServiceID="@).len() as int, line.len() as int)))
    } else {
        None
    }
}

/// The service id of the first line that names one.
pub open spec fn first_service_id(answer_lines: Seq<Seq<u8>>) -> Option<Seq<u8>>
    decreases answer_lines.len(),
{
    if answer_lines.len() == 0 {
        None
    } else {
        match service_id_of(answer_lines[0]) {
            Some(id) => Some(id),
            None => first_service_id(answer_lines.drop_first()),
        }
    }
}

/// The onion host of a service id: the id, with `.onion` behind it unless
/// it ends so.
pub open spec fn onion_host(id: Seq<u8>) -> Seq<u8> {
    if has_suffix(id, encode_utf8(".onion"@)) {
        id
    } else {
        id + encode_utf8(".onion"@)
    }
}

/// The onion host that the answer to `ADD_ONION` names, if it names one
/// and the name is text.
pub open spec fn onion_of(answer: Seq<u8>) -> Option<Seq<char>> {
    match first_service_id(lines_of(answer)) {
        Some(id) => text_of(onion_host(id)),
        None => None,
    }
}

/// Reads the onion host from the answer to `ADD_ONION`.
pub fn parse_service_id(answer: &[u8]) -> (r: Option<String>)
    ensures
        opt_view(r) == onion_of(answer@),
{
    let ls = lines(answer);
    let tag = "250-ServiceID=".as_bytes();
    let mut i: usize = 0;
    let ghost all = rows(ls@);
    assert(all.subrange(0, all.len() as int) =~= all);
    while i < ls.len()
        invariant
            i <= ls.len(),
            all == rows(ls@),
            all == lines_of(answer@),
            tag@ == encode_utf8("250-ServiceID="@),
            first_service_id(all) == first_service_id(all.subrange(i as int, all.len() as int)),
        decreases ls.len() - i,
    {
        let line = ls[i].as_slice();
        assert(all.subrange(i as int, all.len() as int)[0] == line@);
        assert(all.subrange(i as int, all.len() as int).drop_first() =~= all.subrange(
            i + 1,
            all.len() as int,
        ));
        if starts_with(line, tag) {
            let rest = slice_copy(line, tag.len(), line.len());
            let id = trim(rest.as_slice());
            let mut host: Vec<u8> = Vec::new();
            extend(&mut host, id.as_slice());
            if !ends_with(id.as_slice(), ".onion".as_bytes()) {
                extend(&mut host, ".onion".as_bytes());
            }
            assert(host@ =~= onion_host(id@));
            assert(service_id_of(line@) == Some(id@));
            assert(first_service_id(all.subrange(i as int, all.len() as int)) == Some(id@));
            return utf8_text(host.as_slice());
        }
        i += 1;
    }
    None
}

/// Why an operation on the control channel came to nothing.
#[derive(Debug, PartialEq, Eq)]
pub enum ControlError {
    /// No runtime exists.
    NotStarted,
    /// The daemon has no established circuit yet.
    NotReady,
    /// The daemon refused the cookie; the text is its answer.
    AuthFailed(Vec<u8>),
    /// The answer to `ADD_ONION` names no service; the text is the answer.
    MissingServiceId(Vec<u8>),
}

/// A control error as plain values.
pub enum ControlErrorView {
    NotStarted,
    NotReady,
    AuthFailed(Seq<u8>),
    MissingServiceId(Seq<u8>),
}

impl View for ControlError {
    type V = ControlErrorView;

    open spec fn view(&self) -> ControlErrorView {
        match self {
            ControlError::NotStarted => ControlErrorView::NotStarted,
            ControlError::NotReady => ControlErrorView::NotReady,
            ControlError::AuthFailed(a) => ControlErrorView::AuthFailed(a@),
            ControlError::MissingServiceId(a) => ControlErrorView::MissingServiceId(a@),
        }
    }
}

impl ControlError {
    /// The message under which the error is reported, as bytes of text.
    pub fn message(&self) -> (r: Vec<u8>)
        ensures
            r@ == match self@ {
                ControlErrorView::NotStarted => encode_utf8("tor not started"@),
                ControlErrorView::NotReady => encode_utf8("tor has no circuit yet"@),
                ControlErrorView::AuthFailed(a) => encode_utf8("AUTHENTICATE failed: "@) + a,
                ControlErrorView::MissingServiceId(a) => encode_utf8(
                    "missing ServiceID in response: "@,
                ) + a,
            },
    {
        let mut out: Vec<u8> = Vec::new();
        match self {
            ControlError::NotStarted => extend(&mut out, "tor not started".as_bytes()),
            ControlError::NotReady => extend(&mut out, "tor has no circuit yet".as_bytes()),
            ControlError::AuthFailed(a) => {
                extend(&mut out, "AUTHENTICATE failed: ".as_bytes());
                extend(&mut out, a.as_slice());
            },
            ControlError::MissingServiceId(a) => {
                extend(&mut out, "missing ServiceID in response: ".as_bytes());
                extend(&mut out, a.as_slice());
            },
        }
        out
    }
}

/// Whether an operation on the control channel may begin: only on a
/// runtime, and only when a circuit is established.
pub open spec fn may_operate(rt: Option<TorRuntime>, progress: u32) -> Result<
    (),
    ControlErrorView,
> {
    match rt {
        None => Err(ControlErrorView::NotStarted),
        Some(t) => if t.control_port == 0 || progress >= READY_AT {
            Ok(())
        } else {
            Err(ControlErrorView::NotReady)
        },
    }
}

/// The view of a command or an error.
pub open spec fn command_view(r: Result<Vec<u8>, ControlError>) -> Result<
    Seq<u8>,
    ControlErrorView,
> {
    match r {
        Ok(c) => Ok(c@),
        Err(e) => Err(e@),
    }
}

/// Begins an operation on the control channel: the command that
/// authenticates with `cookie`, where the manager is ready.
pub fn begin_control(rt: &Option<TorRuntime>, progress: u32, cookie: &[u8]) -> (r: Result<
    Vec<u8>,
    ControlError,
>)
    ensures
        command_view(r) == match may_operate(*rt, progress) {
            Ok(_) => Ok::<Seq<u8>, ControlErrorView>(authenticate_text(cookie@)),
            Err(e) => Err(e),
        },
{
    match rt {
        None => Err(ControlError::NotStarted),
        Some(t) => {
            if t.control_port == 0 || progress >= READY_AT {
                Ok(authenticate_command(cookie))
            } else {
                Err(ControlError::NotReady)
            }
        },
    }
}

/// Goes on after the daemon's answer to `AUTHENTICATE`: the command that
/// opens the hidden service, or the refusal.
pub fn hidden_service_request(auth_answer: &[u8], local_port: u16) -> (r: Result<
    Vec<u8>,
    ControlError,
>)
    ensures
        command_view(r) == if accepted(auth_answer@) {
            Ok::<Seq<u8>, ControlErrorView>(add_onion_text(local_port))
        } else {
            Err(ControlErrorView::AuthFailed(auth_answer@))
        },
{
    if reply_ok(auth_answer) {
        Ok(add_onion_command(local_port))
    } else {
        let mut copy: Vec<u8> = Vec::new();
        extend(&mut copy, auth_answer);
        assert(copy@ =~= auth_answer@);
        Err(ControlError::AuthFailed(copy))
    }
}

/// The view of an onion host or an error.
pub open spec fn service_view(r: Result<String, ControlError>) -> Result<
    Seq<char>,
    ControlErrorView,
> {
    match r {
        Ok(h) => Ok(h@),
        Err(e) => Err(e@),
    }
}

/// Ends the creation of a hidden service with the daemon's answer to
/// `ADD_ONION`: the onion host is read and remembered.
pub fn create_hidden_service(rt: &mut Option<TorRuntime>, answer: &[u8]) -> (r: Result<
    String,
    ControlError,
>)
    ensures
        service_view(r) == match onion_of(answer@) {
            Some(h) => if (*old(rt)) is Some {
                Ok::<Seq<char>, ControlErrorView>(h)
            } else {
                Err(ControlErrorView::NotStarted)
            },
            None => if (*old(rt)) is Some {
                Err(ControlErrorView::MissingServiceId(answer@))
            } else {
                Err(ControlErrorView::NotStarted)
            },
        },
        (*old(rt)) is None ==> (*final(rt)) is None,
        (*old(rt)) is Some ==> ({
            let before = (*old(rt))->0;
            let after = (*final(rt))->0;
            &&& (*final(rt)) is Some
            &&& after.hidden_services.deep_view() == match onion_of(answer@) {
                Some(h) => before.hidden_services.deep_view().push(h),
                None => before.hidden_services.deep_view(),
            }
            &&& after.control_port == before.control_port
            &&& after.socks_port == before.socks_port
            &&& after.data_dir@ == before.data_dir@
            &&& after.torrc_path@ == before.torrc_path@
            &&& after.spawned == before.spawned
        }),
{
    match rt.take() {
        None => Err(ControlError::NotStarted),
        Some(mut t) => {
            let ghost before = t.hidden_services.deep_view();
            match parse_service_id(answer) {
                Some(host) => {
                    t.hidden_services.push(host.clone());
                    assert(t.hidden_services.deep_view() =~= before.push(host@));
                    *rt = Some(t);
                    Ok(host)
                },
                None => {
                    *rt = Some(t);
                    let mut copy: Vec<u8> = Vec::new();
                    extend(&mut copy, answer);
                    assert(copy@ =~= answer@);
                    Err(ControlError::MissingServiceId(copy))
                },
            }
        },
    }
}

/// The command that asks for a new identity.
pub fn newnym_command() -> (r: Vec<u8>)
    ensures
        r@ == encode_utf8("SIGNAL NEWNYM"@),
{
    let mut out: Vec<u8> = Vec::new();
    extend(&mut out, "SIGNAL NEWNYM".as_bytes());
    out
}

/// Whether the daemon took the request for a new identity: it did where
/// its answer (none where the channel failed) reports success.
pub fn rotate_circuit(answer: Option<&[u8]>) -> (r: bool)
    ensures
        r == match answer {
            Some(a) => accepted(a@),
            None => false,
        },
{
    match answer {
        Some(a) => reply_ok(a),
        None => false,
    }
}

/// The commands that set the bridges: the old bridges are reset, bridge
/// mode is switched on, and each bridge is set.
pub open spec fn bridge_command_texts(bridges: Seq<Seq<char>>) -> Seq<Seq<u8>> {
    seq![encode_utf8("RESETCONF Bridge"@), encode_utf8("SETCONF UseBridges=1"@)] + Seq::new(
        bridges.len(),
        |i: int| encode_utf8("SETCONF Bridge="@) + encode_utf8(bridges[i]),
    )
}

/// Writes the commands that set the bridges, in the order in which they
/// are sent.
pub fn bridge_commands(bridges: &Vec<String>) -> (r: Vec<Vec<u8>>)
    ensures
        rows(r@) == bridge_command_texts(bridges.deep_view()),
{
    let mut out: Vec<Vec<u8>> = Vec::new();
    let mut reset: Vec<u8> = Vec::new();
    extend(&mut reset, "RESETCONF Bridge".as_bytes());
    out.push(reset);
    let mut on: Vec<u8> = Vec::new();
    extend(&mut on, "SETCONF UseBridges=1".as_bytes());
    out.push(on);
    let mut i: usize = 0;
    while i < bridges.len()
        invariant
            i <= bridges.len(),
            out.len() == i + 2,
            out[0]@ == encode_utf8("RESETCONF Bridge"@),
            out[1]@ == encode_utf8("SETCONF UseBridges=1"@),
            forall|j: int|
                0 <= j < i ==> out[j + 2]@ == encode_utf8("SETCONF Bridge="@) + encode_utf8(
                    bridges[j]@,
                ),
        decreases bridges.len() - i,
    {
        let mut cmd: Vec<u8> = Vec::new();
        extend(&mut cmd, "SETCONF Bridge=".as_bytes());
        extend(&mut cmd, bridges[i].as_str().as_bytes());
        out.push(cmd);
        i += 1;
    }
    assert(rows(out@) =~= bridge_command_texts(bridges.deep_view()));
    out
}

/// How many commands go before those of the bridges: the reset and the
/// switch to bridge mode, whose answers do not count.
pub const BRIDGE_PREAMBLE: usize = 2;

/// Whether every answer from position `from` on is there and reports
/// success.
pub open spec fn all_accepted(answers: Seq<Option<Vec<u8>>>, from: int) -> bool {
    forall|i: int|
        from <= i < answers.len() ==> (#[trigger] answers[i]) is Some && accepted(answers[i]->0@)
}

/// Whether the bridges were set: the channel was authenticated, and the
/// daemon answered each bridge's command with success. `answers` holds the
/// answers to the commands of `bridge_commands`, in order, none where the
/// channel failed; the answers to the reset and to the switch to bridge
/// mode do not count.
pub fn enable_bridges(authenticated: bool, answers: &Vec<Option<Vec<u8>>>) -> (r: bool)
    ensures
        r == (authenticated && all_accepted(answers@, BRIDGE_PREAMBLE as int)),
{
    if !authenticated {
        return false;
    }
    let mut i: usize = BRIDGE_PREAMBLE;
    while i < answers.len()
        invariant
            BRIDGE_PREAMBLE <= i,
            forall|j: int|
                BRIDGE_PREAMBLE <= j < i && j < answers@.len() ==> (#[trigger] answers@[j]) is Some
                    && accepted(answers@[j]->0@),
        decreases answers.len() - i,
    {
        match &answers[i] {
            Some(a) => {
                if !reply_ok(a.as_slice()) {
                    return false;
                }
            },
            None => {
                return false;
            },
        }
        i += 1;
    }
    true
}

/// The hidden services that were created.
pub fn list_hidden(rt: &Option<TorRuntime>) -> (r: Vec<String>)
    ensures
        r.deep_view() == match rt {
            Some(t) => t.hidden_services.deep_view(),
            None => Seq::empty(),
        },
{
    match rt {
        Some(t) => clone_texts(&t.hidden_services),
        None => {
            let out: Vec<String> = Vec::new();
            assert(out.deep_view() =~= Seq::<Seq<char>>::empty());
            out
        },
    }
}

/// Stops the manager: the runtime is dropped. Tells whether there was one.
pub fn stop(rt: &mut Option<TorRuntime>) -> (r: bool)
    ensures
        r == ((*old(rt)) is Some),
        (*final(rt)) is None,
{
    rt.take().is_some()
}

/// Index of the first white-space byte in `s`, or `s.len()`.
pub open spec fn first_space(s: Seq<u8>) -> int
    decreases s.len(),
{
    if s.len() == 0 || is_space(s[0]) {
        0
    } else {
        1 + first_space(s.drop_first())
    }
}

/// The first word of `line` that begins with `prefix`: words are what
/// stands between white space.
pub open spec fn word_with(line: Seq<u8>, prefix: Seq<u8>) -> Option<Seq<u8>>
    decreases line.len(),
{
    let t = skip_leading(line);
    let e = first_space(t);
    if t.len() == 0 || t.len() > line.len() || e <= 0 || e > t.len() {
        None
    } else if has_prefix(t.subrange(0, e), prefix) {
        Some(t.subrange(0, e))
    } else {
        word_with(t.subrange(e, t.len() as int), prefix)
    }
}

/// What stands between the first and the second `=` of a word (or its
/// end).
pub open spec fn value_of(word: Seq<u8>) -> Seq<u8> {
    if !found(word, 61u8) {
        Seq::empty()
    } else if found(after_first(word, 61u8), 61u8) {
        before_first(after_first(word, 61u8), 61u8)
    } else {
        after_first(word, 61u8)
    }
}

/// The progress that a word `PROGRESS=<n>` reports: zero where `<n>` is no
/// number that fits 32 bits.
pub open spec fn progress_value(word: Seq<u8>) -> u32 {
    match decimal_value(value_of(word)) {
        Some(n) => if n <= u32::MAX {
            n as u32
        } else {
            0
        },
        None => 0,
    }
}

/// The progress that the first line with a `PROGRESS=` word reports: zero
/// where no line has one.
pub open spec fn progress_of(answer_lines: Seq<Seq<u8>>) -> u32
    decreases answer_lines.len(),
{
    if answer_lines.len() == 0 {
        0
    } else {
        match word_with(answer_lines[0], encode_utf8("PROGRESS="@)) {
            Some(w) => progress_value(w),
            None => progress_of(answer_lines.drop_first()),
        }
    }
}

proof fn lemma_first_space(s: Seq<u8>)
    ensures
        0 <= first_space(s) <= s.len(),
        first_space(s) < s.len() ==> is_space(s[first_space(s)]),
        forall|j: int| 0 <= j < first_space(s) ==> !is_space(s[j]),
    decreases s.len(),
{
    if s.len() == 0 || is_space(s[0]) {
    } else {
        lemma_first_space(s.drop_first());
        let k = first_space(s.drop_first());
        assert forall|j: int| 0 <= j < 1 + k implies !is_space(s[j]) by {
            if j > 0 {
                assert(s.drop_first()[j - 1] == s[j]);
            }
        }
    }
}

proof fn lemma_first_space_is(s: Seq<u8>, at: int)
    requires
        0 <= at <= s.len(),
        at < s.len() ==> is_space(s[at]),
        forall|j: int| 0 <= j < at ==> !is_space(s[j]),
    ensures
        first_space(s) == at,
{
    lemma_first_space(s);
    let k = first_space(s);
    if k < at {
        assert(is_space(s[k]));
    } else if k > at {
        assert(is_space(s[at]));
    }
}

proof fn lemma_skip_leading(s: Seq<u8>, n: int)
    requires
        0 <= n <= s.len(),
        forall|j: int| 0 <= j < n ==> is_space(s[j]),
        n < s.len() ==> !is_space(s[n]),
    ensures
        skip_leading(s) == s.subrange(n, s.len() as int),
    decreases n,
{
    if n == 0 {
        assert(s.subrange(0, s.len() as int) =~= s);
    } else {
        let rest = s.drop_first();
        assert forall|j: int| 0 <= j < n - 1 implies is_space(rest[j]) by {
            assert(rest[j] == s[j + 1]);
        }
        lemma_skip_leading(rest, n - 1);
        assert(rest.subrange(n - 1, rest.len() as int) =~= s.subrange(n, s.len() as int));
    }
}

/// Finds the first word of `line` that begins with `prefix`.
pub fn find_word(line: &[u8], prefix: &[u8]) -> (r: Option<Vec<u8>>)
    ensures
        match r {
            Some(w) => word_with(line@, prefix@) == Some(w@),
            None => word_with(line@, prefix@) is None,
        },
{
    let mut at: usize = 0;
    assert(line@.subrange(0, line@.len() as int) =~= line@);
    while at < line.len()
        invariant
            at <= line.len(),
            word_with(line@, prefix@) == word_with(
                line@.subrange(at as int, line@.len() as int),
                prefix@,
            ),
        decreases line.len() - at,
    {
        let ghost rest = line@.subrange(at as int, line@.len() as int);
        let mut start: usize = at;
        while start < line.len() && is_space_byte(line[start])
            invariant
                at <= start <= line.len(),
                forall|j: int| at <= j < start ==> is_space(line@[j]),
            decreases line.len() - start,
        {
            start += 1;
        }
        proof {
            lemma_skip_leading(rest, start - at);
            assert(rest.subrange(start - at, rest.len() as int) =~= line@.subrange(
                start as int,
                line@.len() as int,
            ));
        }
        let ghost t = line@.subrange(start as int, line@.len() as int);
        if start >= line.len() {
            return None;
        }
        let mut end: usize = start;
        while end < line.len() && !is_space_byte(line[end])
            invariant
                start <= end <= line.len(),
                forall|j: int| start <= j < end ==> !is_space(line@[j]),
            decreases line.len() - end,
        {
            end += 1;
        }
        proof {
            lemma_first_space_is(t, end - start);
        }
        let word = slice_copy(line, start, end);
        assert(word@ =~= t.subrange(0, end - start));
        if starts_with(word.as_slice(), prefix) {
            return Some(word);
        }
        assert(t.subrange(end - start, t.len() as int) =~= line@.subrange(
            end as int,
            line@.len() as int,
        ));
        at = end;
    }
    assert(line@.subrange(at as int, line@.len() as int) =~= Seq::<u8>::empty());
    None
}

/// Reads the bootstrap progress from the answer to
/// `GETINFO status/bootstrap-phase`.
pub fn bootstrap_progress(answer: &[u8]) -> (r: u32)
    ensures
        r == progress_of(lines_of(answer@)),
{
    let ls = lines(answer);
    let tag = "PROGRESS=".as_bytes();
    let mut i: usize = 0;
    let ghost all = rows(ls@);
    assert(all.subrange(0, all.len() as int) =~= all);
    while i < ls.len()
        invariant
            i <= ls.len(),
            all == rows(ls@),
            all == lines_of(answer@),
            tag@ == encode_utf8("PROGRESS="@),
            progress_of(all) == progress_of(all.subrange(i as int, all.len() as int)),
        decreases ls.len() - i,
    {
        assert(all.subrange(i as int, all.len() as int)[0] == ls[i as int]@);
        assert(all.subrange(i as int, all.len() as int).drop_first() =~= all.subrange(
            i + 1,
            all.len() as int,
        ));
        match find_word(ls[i].as_slice(), tag) {
            Some(w) => {
                let eq = index_of(w.as_slice(), 61u8);
                proof {
                    lemma_first_index(w@, 61u8);
                }
                let rest = if eq < w.len() {
                    slice_copy(w.as_slice(), eq + 1, w.len())
                } else {
                    Vec::new()
                };
                assert(found(w@, 61u8) ==> rest@ =~= after_first(w@, 61u8));
                let second = index_of(rest.as_slice(), 61u8);
                proof {
                    lemma_first_index(rest@, 61u8);
                }
                let value = slice_copy(rest.as_slice(), 0, second);
                assert(value@ =~= value_of(w@));
                return match parse_decimal(value.as_slice(), 4294967295) {
                    Some(n) => n as u32,
                    None => 0,
                };
            },
            None => {},
        }
        i += 1;
    }
    0
}

/// The command that asks for the bootstrap phase.
pub fn bootstrap_query() -> (r: Vec<u8>)
    ensures
        r@ == encode_utf8("GETINFO status/bootstrap-phase"@),
{
    let mut out: Vec<u8> = Vec::new();
    extend(&mut out, "GETINFO status/bootstrap-phase".as_bytes());
    out
}

/// The command that asks whether bridges are in use.
pub fn bridges_query() -> (r: Vec<u8>)
    ensures
        r@ == encode_utf8("GETCONF UseBridges"@),
{
    let mut out: Vec<u8> = Vec::new();
    extend(&mut out, "GETCONF UseBridges".as_bytes());
    out
}

/// Whether the answer to `GETCONF UseBridges` says that bridges are in use.
pub open spec fn bridges_on(answer: Seq<u8>) -> bool {
    contains_seq(answer, encode_utf8("UseBridges=1"@)) || contains_seq(
        answer,
        encode_utf8("UseBridges=auto"@),
    )
}

/// Reads from the answer to `GETCONF UseBridges` whether bridges are in use.
pub fn bridges_in_use(answer: &[u8]) -> (r: bool)
    ensures
        r == bridges_on(answer@),
{
    contains(answer, "UseBridges=1".as_bytes()) || contains(answer, "UseBridges=auto".as_bytes())
}

/// Whether a progress counts as bootstrapped, and whether a circuit is
/// established.
pub fn bootstrap_state(progress: u32) -> (r: (bool, bool))
    ensures
        r.0 == (progress >= BOOTSTRAPPED_AT),
        r.1 == (progress >= READY_AT),
{
    (progress >= BOOTSTRAPPED_AT, progress >= READY_AT)
}

/// The status of a daemon of our own, from the answers to the two probes
/// (none where a probe failed). Without the first answer nothing is known
/// to be up; without the second the bridges count as `fallback` says.
pub open spec fn probed_status(
    socks_port: u16,
    bootstrap_answer: Option<Seq<u8>>,
    bridges_answer: Option<Seq<u8>>,
    fallback: bool,
) -> StatusView {
    match bootstrap_answer {
        Some(a) => StatusView {
            bootstrapped: progress_of(lines_of(a)) >= BOOTSTRAPPED_AT,
            circuit_established: progress_of(lines_of(a)) >= READY_AT,
            bridges_enabled: match bridges_answer {
                Some(b) => bridges_on(b),
                None => fallback,
            },
            socks: Some(loopback(socks_port)),
            supports_control: true,
        },
        None => StatusView {
            bootstrapped: false,
            circuit_established: false,
            bridges_enabled: false,
            socks: Some(loopback(socks_port)),
            supports_control: true,
        },
    }
}

/// The view of an optional answer.
pub open spec fn answer_view(a: Option<&[u8]>) -> Option<Seq<u8>> {
    match a {
        Some(x) => Some(x@),
        None => None,
    }
}

/// The status of the manager. A daemon of our own is judged by the answers
/// to the two probes (`GETINFO status/bootstrap-phase` and
/// `GETCONF UseBridges`; none where a probe failed); an external egress
/// counts as up; without a runtime nothing is up.
pub fn status(
    rt: &Option<TorRuntime>,
    bootstrap_answer: Option<&[u8]>,
    bridges_answer: Option<&[u8]>,
) -> (r: Status)
    ensures
        r@ == match rt {
            Some(t) => if t.control_port > 0 {
                probed_status(
                    t.socks_port,
                    answer_view(bootstrap_answer),
                    answer_view(bridges_answer),
                    false,
                )
            } else {
                external_status(loopback(t.socks_port))
            },
            None => idle_status(),
        },
{
    match rt {
        Some(t) => {
            let socks = Some(loopback_address(t.socks_port));
            if t.control_port > 0 {
                match bootstrap_answer {
                    Some(a) => {
                        let p = bootstrap_progress(a);
                        let bridges = match bridges_answer {
                            Some(b) => bridges_in_use(b),
                            None => false,
                        };
                        Status {
                            bootstrapped: p >= BOOTSTRAPPED_AT,
                            circuit_established: p >= READY_AT,
                            bridges_enabled: bridges,
                            socks,
                            supports_control: true,
                        }
                    },
                    None => Status {
                        bootstrapped: false,
                        circuit_established: false,
                        bridges_enabled: false,
                        socks,
                        supports_control: true,
                    },
                }
            } else {
                Status {
                    bootstrapped: true,
                    circuit_established: true,
                    bridges_enabled: false,
                    socks,
                    supports_control: false,
                }
            }
        },
        None => Status {
            bootstrapped: false,
            circuit_established: false,
            bridges_enabled: false,
            socks: None,
            supports_control: false,
        },
    }
}

/// The status that the start of a daemon of our own reports, from the
/// answers to the two probes. A start whose first probe fails reports a
/// daemon that is not bootstrapped; the bridges count as the
/// configuration asks where the daemon does not say.
pub fn started_status(
    config: &StartConfig,
    socks_port: u16,
    bootstrap_answer: Option<&[u8]>,
    bridges_answer: Option<&[u8]>,
) -> (r: Status)
    ensures
        r@ == (StatusView {
            bootstrapped: match bootstrap_answer {
                Some(a) => progress_of(lines_of(a@)) >= BOOTSTRAPPED_AT,
                None => false,
            },
            circuit_established: match bootstrap_answer {
                Some(a) => progress_of(lines_of(a@)) >= READY_AT,
                None => false,
            },
            bridges_enabled: match bootstrap_answer {
                Some(a) => if progress_of(lines_of(a@)) >= BOOTSTRAPPED_AT {
                    match bridges_answer {
                        Some(b) => bridges_on(b@),
                        None => config.bridge_support,
                    }
                } else {
                    config.bridge_support
                },
                None => config.bridge_support,
            },
            socks: Some(loopback(socks_port)),
            supports_control: true,
        }),
{
    let (boot, circuit) = match bootstrap_answer {
        Some(a) => bootstrap_state(bootstrap_progress(a)),
        None => (false, false),
    };
    let bridges = if boot {
        match bridges_answer {
            Some(b) => bridges_in_use(b),
            None => config.bridge_support,
        }
    } else {
        config.bridge_support
    };
    Status {
        bootstrapped: boot,
        circuit_established: circuit,
        bridges_enabled: bridges,
        socks: Some(loopback_address(socks_port)),
        supports_control: true,
    }
}

} // verus!
