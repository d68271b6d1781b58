//! The security score of a network connection and the warnings that go
//! with it.

use crate::strings::{lowercase, opt_view, to_lower};
use crate::text::{contains, contains_seq, has_prefix, starts_with};
use vstd::prelude::*;
use vstd::string::*;
use vstd::utf8::*;

verus! {

/// What is known of the network connection.
#[derive(Debug, PartialEq, Eq)]
pub struct SecurityInfo {
    pub public_ip: Option<String>,
    pub local_ip: Option<String>,
    pub country: Option<String>,
    pub region: Option<String>,
    pub city: Option<String>,
    pub isp: Option<String>,
    pub is_vpn: bool,
    pub is_proxy: bool,
    pub is_tor: bool,
    pub connection_type: String,
    pub latency_ms: Option<u64>,
    pub security_score: u32,
    pub warnings: Vec<String>,
    pub ssl_available: bool,
    pub timezone: Option<String>,
}

/// The score of a connection: a hundred, less 20 for a VPN, 15 for a proxy,
/// 30 for Tor, 10 for a latency above 500 ms (5 above 200 ms) and 15
/// without SSL.
pub open spec fn score_of(
    is_vpn: bool,
    is_proxy: bool,
    is_tor: bool,
    latency_ms: Option<u64>,
    ssl_available: bool,
) -> int {
    100 - (if is_vpn {
        20int
    } else {
        0int
    }) - (if is_proxy {
        15int
    } else {
        0int
    }) - (if is_tor {
        30int
    } else {
        0int
    }) - (match latency_ms {
        Some(l) => if l > 500 {
            10int
        } else if l > 200 {
            5int
        } else {
            0int
        },
        None => 0int,
    }) - (if ssl_available {
        0int
    } else {
        15int
    })
}

/// The warnings that a connection earns, in order.
pub open spec fn warnings_of(
    is_vpn: bool,
    is_proxy: bool,
    latency_ms: Option<u64>,
    ssl_available: bool,
    score: u32,
) -> Seq<Seq<char>> {
    (if is_vpn {
        seq!["VPN detected: May affect cultural heritage repository access policies"@]
    } else {
        Seq::empty()
    }) + (if is_proxy {
        seq!["Proxy connection: Institutional network policies may apply"@]
    } else {
        Seq::empty()
    }) + (if latency_ms is Some && latency_ms->0 > 500 {
        seq!["High network latency: May impact cultural data synchronization"@]
    } else {
        Seq::empty()
    }) + (if !ssl_available {
        seq!["SSL/TLS unavailable: Secure cultural heritage data transfer at risk"@]
    } else {
        Seq::empty()
    }) + (if score < 50 {
        seq!["Network security concerns detected: Review connection for heritage preservation"@]
    } else {
        Seq::empty()
    })
}

/// The words that mark the name of a provider as that of a VPN, a proxy or
/// a data centre.
pub open spec fn vpn_words() -> Seq<Seq<char>> {
    seq![
        "vpn"@,
        "proxy"@,
        "hosting"@,
        "datacenter"@,
        "cloud"@,
        "server"@,
        "digital ocean"@,
        "amazonaws"@,
        "linode"@,
        "vultr"@,
        "ovh"@,
    ]
}

/// Whether a provider's name in lower case holds one of the marking words.
pub open spec fn suspicious(lower: Seq<char>) -> bool {
    exists|i: int|
        0 <= i < vpn_words().len() && contains_seq(
            encode_utf8(lower),
            encode_utf8(#[trigger] vpn_words()[i]),
        )
}

/// Whether an address begins like one of a private network.
pub open spec fn private_address(ip: Seq<char>) -> bool {
    ||| has_prefix(encode_utf8(ip), encode_utf8("10."@))
    ||| has_prefix(encode_utf8(ip), encode_utf8("172."@))
    ||| has_prefix(encode_utf8(ip), encode_utf8("192.168."@))
}

impl SecurityInfo {
    /// What is assumed of a connection before anything is known.
    pub fn default() -> (r: SecurityInfo)
        ensures
            r.public_ip is None,
            r.local_ip is None,
            r.country is None,
            r.region is None,
            r.city is None,
            r.isp is None,
            r.timezone is None,
            !r.is_vpn && !r.is_proxy && !r.is_tor,
            r.connection_type@ == "Unknown"@,
            r.latency_ms is None,
            r.security_score == 50,
            r.warnings@.len() == 0,
            !r.ssl_available,
    {
        SecurityInfo {
            public_ip: None,
            local_ip: None,
            country: None,
            region: None,
            city: None,
            isp: None,
            is_vpn: false,
            is_proxy: false,
            is_tor: false,
            connection_type: String::from_str("Unknown"),
            latency_ms: None,
            security_score: 50,
            warnings: Vec::new(),
            ssl_available: false,
            timezone: None,
        }
    }
}

/// Computes the security score of a connection.
pub fn calculate_security_score(info: &SecurityInfo) -> (r: u32)
    ensures
        r == score_of(
            info.is_vpn,
            info.is_proxy,
            info.is_tor,
            info.latency_ms,
            info.ssl_available,
        ),
{
    let mut score: u32 = 100;
    if info.is_vpn {
        score = score - 20;
    }
    if info.is_proxy {
        score = score - 15;
    }
    if info.is_tor {
        score = score - 30;
    }
    match info.latency_ms {
        Some(latency) => {
            if latency > 500 {
                score = score - 10;
            } else if latency > 200 {
                score = score - 5;
            }
        },
        None => {},
    }
    if !info.ssl_available {
        score = score - 15;
    }
    score
}

/// Adds the warnings that the connection earns to those it has.
pub fn generate_warnings(info: &mut SecurityInfo)
    ensures
        final(info).warnings.deep_view() == old(info).warnings.deep_view() + warnings_of(
            old(info).is_vpn,
            old(info).is_proxy,
            old(info).latency_ms,
            old(info).ssl_available,
            old(info).security_score,
        ),
        final(info).is_vpn == old(info).is_vpn,
        final(info).is_proxy == old(info).is_proxy,
        final(info).is_tor == old(info).is_tor,
        final(info).latency_ms == old(info).latency_ms,
        final(info).ssl_available == old(info).ssl_available,
        final(info).security_score == old(info).security_score,
        final(info).connection_type@ == old(info).connection_type@,
{
    let ghost start = info.warnings.deep_view();
    if info.is_vpn {
        info.warnings.push(
            String::from_str(
                "VPN detected: May affect cultural heritage repository access policies",
            ),
        );
    }
    let ghost w1 = info.warnings.deep_view();
    assert(w1 =~= start + (if info.is_vpn {
        seq!["VPN detected: May affect cultural heritage repository access policies"@]
    } else {
        Seq::empty()
    }));
    if info.is_proxy {
        info.warnings.push(
            String::from_str("Proxy connection: Institutional network policies may apply"),
        );
    }
    let ghost w2 = info.warnings.deep_view();
    assert(w2 =~= w1 + (if info.is_proxy {
        seq!["Proxy connection: Institutional network policies may apply"@]
    } else {
        Seq::empty()
    }));
    let slow = match info.latency_ms {
        Some(latency) => latency > 500,
        None => false,
    };
    if slow {
        info.warnings.push(
            String::from_str("High network latency: May impact cultural data synchronization"),
        );
    }
    let ghost w3 = info.warnings.deep_view();
    assert(w3 =~= w2 + (if slow {
        seq!["High network latency: May impact cultural data synchronization"@]
    } else {
        Seq::empty()
    }));
    if !info.ssl_available {
        info.warnings.push(
            String::from_str("SSL/TLS unavailable: Secure cultural heritage data transfer at risk"),
        );
    }
    let ghost w4 = info.warnings.deep_view();
    assert(w4 =~= w3 + (if !info.ssl_available {
        seq!["SSL/TLS unavailable: Secure cultural heritage data transfer at risk"@]
    } else {
        Seq::empty()
    }));
    if info.security_score < 50 {
        info.warnings.push(
            String::from_str(
                "Network security concerns detected: Review connection for heritage preservation",
            ),
        );
    }
    assert(info.warnings.deep_view() =~= w4 + (if info.security_score < 50 {
        seq!["Network security concerns detected: Review connection for heritage preservation"@]
    } else {
        Seq::empty()
    }));
    assert(info.warnings.deep_view() =~= start + warnings_of(
        old(info).is_vpn,
        old(info).is_proxy,
        old(info).latency_ms,
        old(info).ssl_available,
        old(info).security_score,
    ));
}

/// Tests whether a provider's name in lower case holds one of the marking
/// words.
pub fn is_suspicious_provider(lower: &str) -> (r: bool)
    ensures
        r == suspicious(lower@),
{
    let mut words: Vec<&'static str> = Vec::new();
    words.push("vpn");
    words.push("proxy");
    words.push("hosting");
    words.push("datacenter");
    words.push("cloud");
    words.push("server");
    words.push("digital ocean");
    words.push("amazonaws");
    words.push("linode");
    words.push("vultr");
    words.push("ovh");
    assert(Seq::new(words@.len(), |i: int| words@[i]@) =~= vpn_words());
    let mut i: usize = 0;
    while i < words.len()
        invariant
            i <= words.len(),
            Seq::new(words@.len(), |i: int| words@[i]@) == vpn_words(),
            forall|j: int|
                0 <= j < i ==> !contains_seq(
                    encode_utf8(lower@),
                    encode_utf8(#[trigger] vpn_words()[j]),
                ),
        decreases words.len() - i,
    {
        assert(Seq::new(words@.len(), |i: int| words@[i]@)[i as int] == words@[i as int]@);
        if contains(lower.as_bytes(), words[i].as_bytes()) {
            return true;
        }
        i += 1;
    }
    false
}

/// Tests whether an address begins like one of a private network.
pub fn is_private_address(ip: &str) -> (r: bool)
    ensures
        r == private_address(ip@),
{
    let b = ip.as_bytes();
    starts_with(b, "10.".as_bytes()) || starts_with(b, "172.".as_bytes()) || starts_with(
        b,
        "192.168.".as_bytes(),
    )
}

/// Judges the kind of connection from the provider's name in lower case
/// (where one is known) and the public address: a provider with a marking
/// word means a VPN or proxy, any other provider a direct connection, and
/// an address of a private network a proxy, whatever the provider.
pub fn classify_connection(info: &mut SecurityInfo, lower_isp: Option<&str>)
    ensures
        final(info).is_vpn == (old(info).is_vpn || (lower_isp is Some && suspicious(
            lower_isp->0@,
        ))),
        final(info).is_proxy == (old(info).is_proxy || (old(info).public_ip is Some
            && private_address(old(info).public_ip->0@))),
        final(info).connection_type@ == if old(info).public_ip is Some && private_address(
            old(info).public_ip->0@,
        ) {
            "Private Network"@
        } else if lower_isp is Some {
            if suspicious(lower_isp->0@) {
                "VPN/Proxy Detected"@
            } else {
                "Direct Connection"@
            }
        } else {
            old(info).connection_type@
        },
        final(info).is_tor == old(info).is_tor,
        final(info).latency_ms == old(info).latency_ms,
        final(info).ssl_available == old(info).ssl_available,
        final(info).security_score == old(info).security_score,
        final(info).warnings.deep_view() == old(info).warnings.deep_view(),
        opt_view(final(info).public_ip) == opt_view(old(info).public_ip),
{
    match lower_isp {
        Some(isp) => {
            if is_suspicious_provider(isp) {
                info.is_vpn = true;
                info.connection_type = String::from_str("VPN/Proxy Detected");
            } else {
                info.connection_type = String::from_str("Direct Connection");
            }
        },
        None => {},
    }
    let private = match &info.public_ip {
        Some(ip) => is_private_address(ip.as_str()),
        None => false,
    };
    if private {
        info.is_proxy = true;
        info.connection_type = String::from_str("Private Network");
    }
}

/// Judges the kind of connection from the provider's name and the public
/// address, the letter case of the name set aside.
pub fn analyze_connection_type(info: &mut SecurityInfo, isp: &Option<String>)
    ensures
        final(info).is_vpn == (old(info).is_vpn || (isp is Some && suspicious(
            lowercase(isp->0@),
        ))),
        final(info).is_proxy == (old(info).is_proxy || (old(info).public_ip is Some
            && private_address(old(info).public_ip->0@))),
        final(info).connection_type@ == if old(info).public_ip is Some && private_address(
            old(info).public_ip->0@,
        ) {
            "Private Network"@
        } else if isp is Some {
            if suspicious(lowercase(isp->0@)) {
                "VPN/Proxy Detected"@
            } else {
                "Direct Connection"@
            }
        } else {
            old(info).connection_type@
        },
        final(info).is_tor == old(info).is_tor,
        final(info).latency_ms == old(info).latency_ms,
        final(info).ssl_available == old(info).ssl_available,
        final(info).security_score == old(info).security_score,
        final(info).warnings.deep_view() == old(info).warnings.deep_view(),
{
    match isp {
        Some(name) => {
            let lower = to_lower(name.as_str());
            classify_connection(info, Some(lower.as_str()));
        },
        None => {
            classify_connection(info, None);
        },
    }
}

} // verus!
