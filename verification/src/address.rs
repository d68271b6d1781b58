//! Logical peer addresses: how they are written, what a dialer reads from
//! them, and the list of seed peers that an operator may give.

use crate::strings::{decimal_chars, decimal_string, opt_view, text_of, utf8_text};
use crate::text::{
    after_first, before_first, decimal_value, found, index_of, lemma_first_index, parse_decimal,
    rows, slice_copy, split, split_all, trim, trimmed,
};
use multiaddr::{Multiaddr, Protocol};
use vstd::prelude::*;
use vstd::string::*;

verus! {

pub const COMMA: u8 = 44;

pub const COLON: u8 = 58;

/// One component of a logical address, as far as a dialer reads it.
#[derive(Debug, PartialEq, Eq)]
pub enum AddrPart {
    /// A host: a DNS name or an IP address, as text.
    Host(String),
    /// A TCP port.
    Tcp(u16),
    /// A peer id, as text.
    Peer(String),
    /// Any other component.
    Other,
}

/// What an address component holds, as plain values.
pub enum AddrPartView {
    Host(Seq<char>),
    Tcp(u16),
    Peer(Seq<char>),
    Other,
}

impl View for AddrPart {
    type V = AddrPartView;

    open spec fn view(&self) -> AddrPartView {
        match self {
            AddrPart::Host(h) => AddrPartView::Host(h@),
            AddrPart::Tcp(p) => AddrPartView::Tcp(*p),
            AddrPart::Peer(p) => AddrPartView::Peer(p@),
            AddrPart::Other => AddrPartView::Other,
        }
    }
}

impl DeepView for AddrPart {
    type V = AddrPartView;

    open spec fn deep_view(&self) -> AddrPartView {
        self@
    }
}

/// What the `multiaddr` crate reads from a text: the components of the
/// address, or the debug form of its error.
pub uninterp spec fn parsed_address(text: Seq<char>) -> Result<Seq<AddrPartView>, Seq<char>>;

/// The view of what `parse_address` returns.
pub open spec fn parse_view(r: Result<Vec<AddrPart>, String>) -> Result<
    Seq<AddrPartView>,
    Seq<char>,
> {
    match r {
        Ok(parts) => Ok(parts.deep_view()),
        Err(e) => Err(e@),
    }
}

/// Parses `text` with `multiaddr::Multiaddr::from_str` and walks the
/// address with `Multiaddr::iter`. The components come back as plain
/// values: DNS names and IP addresses as `Host`, `tcp` as `Tcp`, `p2p` as
/// `Peer`, all others as `Other`. A text that the crate refuses gives the
/// debug form of its error. The crate accepts only the empty text and texts
/// that begin with `/`.
#[verifier::external_body]
pub(crate) fn parse_address(text: &str) -> (r: Result<Vec<AddrPart>, String>)
    ensures
        parse_view(r) == parsed_address(text@),
        r is Ok ==> text@.len() == 0 || text@[0] == '/',
{
    let ma: Multiaddr = text.parse().map_err(|e| format!("{:?}", e))?;
    Ok(ma.iter().map(|p| match p {
        Protocol::Dnsaddr(h) | Protocol::Dns4(h) | Protocol::Dns6(h) | Protocol::Dns(h) => {
            AddrPart::Host(h.to_string())
        },
        Protocol::Ip4(ip) => AddrPart::Host(ip.to_string()),
        Protocol::Ip6(ip) => AddrPart::Host(ip.to_string()),
        Protocol::Tcp(port) => AddrPart::Tcp(port),
        Protocol::P2p(id) => AddrPart::Peer(id.to_string()),
        _ => AddrPart::Other,
    }).collect())
}

/// Whether `text` is a logical address.
pub open spec fn is_address(text: Seq<char>) -> bool {
    parsed_address(text) is Ok
}

/// Tests whether `text` is a logical address.
pub fn is_valid_address(text: &str) -> (r: bool)
    ensures
        r == is_address(text@),
        r ==> text@.len() == 0 || text@[0] == '/',
{
    parse_address(text).is_ok()
}

/// The address of a seed peer: `/dnsaddr/<host>/tcp/<port>/ws`.
pub open spec fn bootstrap_text(host: Seq<char>, port: u16) -> Seq<char> {
    "/dnsaddr/"@ + host + "/tcp/"@ + decimal_chars(port as nat) + "/ws"@
}

/// The address under which a node announces itself:
/// `/dnsaddr/<onion>/tcp/<port>/ws/p2p/<peer>`.
pub open spec fn announce_text(onion: Seq<char>, port: u16, peer: Seq<char>) -> Seq<char> {
    bootstrap_text(onion, port) + "/p2p/"@ + peer
}

/// Writes the address of a seed peer.
pub fn onion_bootstrap_text(onion: &str, port: u16) -> (r: String)
    ensures
        r@ == bootstrap_text(onion@, port),
{
    let mut out = String::from_str("/dnsaddr/");
    out.append(onion);
    out.append("/tcp/");
    let digits = decimal_string(port as u64);
    out.append(digits.as_str());
    out.append("/ws");
    out
}

/// The address of a seed peer, where the overlay's address syntax takes it.
pub fn onion_bootstrap_addr(onion: &str, port: u16) -> (r: Option<String>)
    ensures
        opt_view(r) == if is_address(bootstrap_text(onion@, port)) {
            Some(bootstrap_text(onion@, port))
        } else {
            None
        },
{
    let text = onion_bootstrap_text(onion, port);
    if is_valid_address(text.as_str()) {
        Some(text)
    } else {
        None
    }
}

/// Writes the address under which a node announces itself: nothing while it
/// has no onion host.
pub fn announce_address(onion: &str, port: u16, peer: &str) -> (r: String)
    ensures
        r@ == if onion@.len() == 0 {
            Seq::<char>::empty()
        } else {
            announce_text(onion@, port, peer@)
        },
{
    if onion.unicode_len() == 0 {
        String::new()
    } else {
        let mut out = onion_bootstrap_text(onion, port);
        out.append("/p2p/");
        out.append(peer);
        out
    }
}

/// Why an address cannot be dialed.
#[derive(Debug, PartialEq, Eq, Clone, Copy)]
pub enum DialError {
    /// The address names no host.
    MissingHost,
    /// The address names no TCP port.
    MissingPort,
}

/// The last host among the components, if any.
pub open spec fn last_host(parts: Seq<AddrPartView>) -> Option<Seq<char>>
    decreases parts.len(),
{
    if parts.len() == 0 {
        None
    } else {
        match parts.last() {
            AddrPartView::Host(h) => Some(h),
            _ => last_host(parts.drop_last()),
        }
    }
}

/// The last TCP port among the components, if any.
pub open spec fn last_port(parts: Seq<AddrPartView>) -> Option<u16>
    decreases parts.len(),
{
    if parts.len() == 0 {
        None
    } else {
        match parts.last() {
            AddrPartView::Tcp(p) => Some(p),
            _ => last_port(parts.drop_last()),
        }
    }
}

/// The first peer id among the components, if any.
pub open spec fn first_peer(parts: Seq<AddrPartView>) -> Option<Seq<char>>
    decreases parts.len(),
{
    if parts.len() == 0 {
        None
    } else {
        match parts[0] {
            AddrPartView::Peer(p) => Some(p),
            _ => first_peer(parts.drop_first()),
        }
    }
}

/// Host and port that a dialer connects to, or why it cannot.
pub open spec fn target_of(parts: Seq<AddrPartView>) -> Result<(Seq<char>, u16), DialError> {
    match last_host(parts) {
        None => Err(DialError::MissingHost),
        Some(h) => match last_port(parts) {
            None => Err(DialError::MissingPort),
            Some(p) => Ok((h, p)),
        },
    }
}

/// The view of a dial target.
pub open spec fn target_view(r: Result<(String, u16), DialError>) -> Result<
    (Seq<char>, u16),
    DialError,
> {
    match r {
        Ok((h, p)) => Ok((h@, p)),
        Err(e) => Err(e),
    }
}

/// Reads host and TCP port from the components of an address. Where a
/// component occurs more than once the last one counts. An address without
/// a host is refused before one without a port.
pub fn dial_target(parts: &Vec<AddrPart>) -> (r: Result<(String, u16), DialError>)
    ensures
        target_view(r) == target_of(parts.deep_view()),
{
    let mut host: Option<String> = None;
    let mut port: Option<u16> = None;
    let mut i: usize = 0;
    let ghost all = parts.deep_view();
    while i < parts.len()
        invariant
            i <= parts.len(),
            all == parts.deep_view(),
            opt_view(host) == last_host(all.subrange(0, i as int)),
            port == last_port(all.subrange(0, i as int)),
        decreases parts.len() - i,
    {
        assert(all.subrange(0, i + 1).drop_last() =~= all.subrange(0, i as int));
        assert(all.subrange(0, i + 1).last() == parts[i as int]@);
        match &parts[i] {
            AddrPart::Host(h) => {
                host = Some(h.clone());
            },
            AddrPart::Tcp(p) => {
                port = Some(*p);
            },
            _ => {},
        }
        i += 1;
    }
    assert(all.subrange(0, all.len() as int) =~= all);
    match host {
        None => Err(DialError::MissingHost),
        Some(h) => match port {
            None => Err(DialError::MissingPort),
            Some(p) => Ok((h, p)),
        },
    }
}

/// Finds the first peer id among the components of an address.
pub fn peer_of(parts: &Vec<AddrPart>) -> (r: Option<String>)
    ensures
        opt_view(r) == first_peer(parts.deep_view()),
{
    let mut i: usize = parts.len();
    let mut peer: Option<String> = None;
    let ghost all = parts.deep_view();
    while i > 0
        invariant
            i <= parts.len(),
            all == parts.deep_view(),
            opt_view(peer) == first_peer(all.subrange(i as int, all.len() as int)),
        decreases i,
    {
        i -= 1;
        assert(all.subrange(i as int, all.len() as int).drop_first() =~= all.subrange(
            i + 1,
            all.len() as int,
        ));
        assert(all.subrange(i as int, all.len() as int)[0] == parts[i as int]@);
        match &parts[i] {
            AddrPart::Peer(p) => {
                peer = Some(p.clone());
            },
            _ => {},
        }
    }
    assert(all.subrange(0, all.len() as int) =~= all);
    peer
}

impl DialError {
    /// The message under which the error is reported.
    pub fn message(&self) -> (r: &'static str)
        ensures
            r@ == match self {
                DialError::MissingHost => "missing host in multiaddr"@,
                DialError::MissingPort => "missing tcp port in multiaddr"@,
            },
    {
        match self {
            DialError::MissingHost => "missing host in multiaddr",
            DialError::MissingPort => "missing tcp port in multiaddr",
        }
    }
}

/// One seed peer of an operator's list: host and port.
#[derive(Debug, PartialEq, Eq)]
pub struct SeedPeer {
    pub host: String,
    pub port: u16,
}

impl View for SeedPeer {
    type V = (Seq<char>, u16);

    open spec fn view(&self) -> (Seq<char>, u16) {
        (self.host@, self.port)
    }
}

impl DeepView for SeedPeer {
    type V = (Seq<char>, u16);

    open spec fn deep_view(&self) -> (Seq<char>, u16) {
        self@
    }
}

/// What one item of a seed list names. The item is trimmed; what stands
/// before its first colon is the host, what stands between the first and
/// the second colon (or the end) is the port. Items that are empty, have
/// no colon, whose port is no number up to 65535 or whose host is no text
/// name nothing.
pub open spec fn seed_of(item: Seq<u8>) -> Option<(Seq<char>, u16)> {
    let t = trimmed(item);
    if t.len() == 0 || !found(t, COLON) {
        None
    } else {
        let rest = after_first(t, COLON);
        let port_text = if found(rest, COLON) {
            before_first(rest, COLON)
        } else {
            rest
        };
        match (decimal_value(port_text), text_of(before_first(t, COLON))) {
            (Some(p), Some(h)) => if p <= 65535 {
                Some((h, p as u16))
            } else {
                None
            },
            _ => None,
        }
    }
}

/// The seed peers that the items name, in order.
pub open spec fn seeds_of(items: Seq<Seq<u8>>) -> Seq<(Seq<char>, u16)>
    decreases items.len(),
{
    if items.len() == 0 {
        Seq::empty()
    } else {
        match seed_of(items.last()) {
            Some(s) => seeds_of(items.drop_last()).push(s),
            None => seeds_of(items.drop_last()),
        }
    }
}

/// Reads one item of a seed list.
pub fn parse_seed(item: &[u8]) -> (r: Option<SeedPeer>)
    ensures
        match r {
            Some(s) => seed_of(item@) == Some(s@),
            None => seed_of(item@) is None,
        },
{
    let t = trim(item);
    let colon = index_of(t.as_slice(), COLON);
    proof {
        lemma_first_index(t@, COLON);
    }
    if t.len() == 0 || colon >= t.len() {
        return None;
    }
    let rest = slice_copy(t.as_slice(), colon + 1, t.len());
    let second = index_of(rest.as_slice(), COLON);
    proof {
        lemma_first_index(rest@, COLON);
    }
    let port_text = slice_copy(rest.as_slice(), 0, second);
    assert(port_text@ =~= if found(rest@, COLON) {
        before_first(rest@, COLON)
    } else {
        rest@
    });
    let host_bytes = slice_copy(t.as_slice(), 0, colon);
    match parse_decimal(port_text.as_slice(), 65535) {
        Some(p) => match utf8_text(host_bytes.as_slice()) {
            Some(host) => Some(SeedPeer { host, port: p as u16 }),
            None => None,
        },
        None => None,
    }
}

/// Reads an operator's list of seed peers: `host:port` items separated by
/// commas.
pub fn parse_bootstrap_list(list: &str) -> (r: Vec<SeedPeer>)
    ensures
        r.deep_view() == seeds_of(split_all(vstd::utf8::encode_utf8(list@), COMMA)),
{
    let items = split(list.as_bytes(), COMMA);
    let mut out: Vec<SeedPeer> = Vec::new();
    let mut i: usize = 0;
    let ghost all = rows(items@);
    assert(all.subrange(0, 0) =~= Seq::<Seq<u8>>::empty());
    assert(out.deep_view() =~= seeds_of(all.subrange(0, 0)));
    while i < items.len()
        invariant
            i <= items.len(),
            all == rows(items@),
            out.deep_view() == seeds_of(all.subrange(0, i as int)),
        decreases items.len() - i,
    {
        let ghost before = out.deep_view();
        assert(all.subrange(0, i + 1).drop_last() =~= all.subrange(0, i as int));
        assert(all.subrange(0, i + 1).last() == items[i as int]@);
        match parse_seed(items[i].as_slice()) {
            Some(s) => {
                let ghost v = s@;
                out.push(s);
                assert(out.deep_view() =~= before.push(v));
            },
            None => {},
        }
        i += 1;
    }
    assert(all.subrange(0, all.len() as int) =~= all);
    out
}

/// The address that is dialed where a seed peer's own does not parse.
pub open spec fn fallback_address() -> Seq<char> {
    "/ip4/127.0.0.1/tcp/9"@
}

/// The address to dial for a seed peer: its own where the overlay's address
/// syntax takes it, else the discard port on the loopback.
pub fn seed_address(host: &str, port: u16) -> (r: String)
    ensures
        r@ == if is_address(bootstrap_text(host@, port)) {
            bootstrap_text(host@, port)
        } else {
            fallback_address()
        },
{
    match onion_bootstrap_addr(host, port) {
        Some(text) => text,
        None => String::from_str("/ip4/127.0.0.1/tcp/9"),
    }
}

/// A dialer that reaches its targets through a SOCKS5 egress.
#[derive(Debug, PartialEq, Eq)]
pub struct SocksProxyTransport {
    pub socks_addr: String,
}

/// What a dial through the egress needs: where the egress listens and which
/// host and port it is asked to connect to.
#[derive(Debug, PartialEq, Eq)]
pub struct DialPlan {
    pub proxy: String,
    pub host: String,
    pub port: u16,
}

impl SocksProxyTransport {
    /// A dialer for the egress at `socks_addr`.
    pub fn new(socks_addr: String) -> (r: SocksProxyTransport)
        ensures
            r.socks_addr@ == socks_addr@,
    {
        SocksProxyTransport { socks_addr }
    }

    /// Plans the dial of an address given by its components: the egress, and
    /// the host and port of a CONNECT request.
    pub fn dial(&self, parts: &Vec<AddrPart>) -> (r: Result<DialPlan, DialError>)
        ensures
            match r {
                Ok(plan) => target_of(parts.deep_view()) == Ok::<(Seq<char>, u16), DialError>(
                    (plan.host@, plan.port),
                ) && plan.proxy@ == self.socks_addr@,
                Err(e) => target_of(parts.deep_view()) == Err::<(Seq<char>, u16), DialError>(e),
            },
    {
        match dial_target(parts) {
            Ok((host, port)) => Ok(DialPlan { proxy: self.socks_addr.clone(), host, port }),
            Err(e) => Err(e),
        }
    }

    /// Plans the dial of an address given as text. A text that is no address
    /// names no host.
    pub fn dial_text(&self, address: &str) -> (r: Result<DialPlan, DialError>)
        ensures
            match r {
                Ok(plan) => parsed_address(address@) is Ok && target_of(
                    parsed_address(address@)->Ok_0,
                ) == Ok::<(Seq<char>, u16), DialError>((plan.host@, plan.port)) && plan.proxy@
                    == self.socks_addr@,
                Err(e) => match parsed_address(address@) {
                    Ok(parts) => target_of(parts) == Err::<(Seq<char>, u16), DialError>(e),
                    Err(_) => e == DialError::MissingHost,
                },
            },
    {
        match parse_address(address) {
            Ok(parts) => self.dial(&parts),
            Err(_) => Err(DialError::MissingHost),
        }
    }
}

} // verus!
