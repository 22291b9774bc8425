//! IPv4 addresses, peer endpoints, and their text forms.
//!
//! The embedded backend validates the peer endpoint and the client
//! address of a configuration before it touches any platform resource;
//! these parsers define exactly which texts are accepted.

use vstd::prelude::*;
use vstd::string::StrSliceExecFns;
use vstd::string::StringExecFns;

use crate::text::all_digits;
use crate::text::dec_rep;
use crate::text::digits_val;
use crate::text::find_char;
use crate::text::find_char_in;
use crate::text::lemma_digits_val_nonneg;
use crate::text::parse_u64_dec;
use crate::text::u64_to_dec;

verus! {

/// An IPv4 address as four octets.
#[derive(Clone, Copy, Debug, PartialEq, Eq)]
pub struct Ipv4 {
    pub a: u8,
    pub b: u8,
    pub c: u8,
    pub d: u8,
}

/// A peer endpoint: IPv4 host and UDP port.
#[derive(Clone, Copy, Debug, PartialEq, Eq)]
pub struct Endpoint {
    pub ip: Ipv4,
    pub port: u16,
}

/// Canonical dotted-decimal text of an address.
pub open spec fn ipv4_rep(ip: Ipv4) -> Seq<char> {
    dec_rep(ip.a as int) + seq!['.'] + dec_rep(ip.b as int) + seq!['.'] + dec_rep(ip.c as int)
        + seq!['.'] + dec_rep(ip.d as int)
}

/// Canonical `host:port` text of an endpoint.
pub open spec fn endpoint_rep(e: Endpoint) -> Seq<char> {
    ipv4_rep(e.ip) + seq![':'] + dec_rep(e.port as int)
}

/// A decimal numeral with no leading zero, denoting a value of at
/// most `max`.
pub open spec fn spec_parse_bounded(s: Seq<char>, max: int) -> Option<int> {
    if s.len() >= 1 && all_digits(s) && (s.len() == 1 || s[0] != '0') && digits_val(s) <= max {
        Some(digits_val(s))
    } else {
        None
    }
}

/// Parses one octet of a dotted-decimal address.
pub open spec fn spec_parse_octet(s: Seq<char>) -> Option<u8> {
    match spec_parse_bounded(s, 255) {
        None => None,
        Some(v) => Some(v as u8),
    }
}

/// Parses a dotted-decimal IPv4 address.
pub open spec fn spec_parse_ipv4(s: Seq<char>) -> Option<Ipv4> {
    match find_char(s, '.') {
        None => None,
        Some(i) => match spec_parse_octet(s.take(i)) {
            None => None,
            Some(a) => {
                let r1 = s.skip(i + 1);
                match find_char(r1, '.') {
                    None => None,
                    Some(j) => match spec_parse_octet(r1.take(j)) {
                        None => None,
                        Some(b) => {
                            let r2 = r1.skip(j + 1);
                            match find_char(r2, '.') {
                                None => None,
                                Some(k) => match spec_parse_octet(r2.take(k)) {
                                    None => None,
                                    Some(c) => match spec_parse_octet(r2.skip(k + 1)) {
                                        None => None,
                                        Some(d) => Some(Ipv4 { a, b, c, d }),
                                    },
                                },
                            }
                        },
                    },
                }
            },
        },
    }
}

/// Parses `host:port` with an IPv4 host and a decimal port.
pub open spec fn spec_parse_endpoint(s: Seq<char>) -> Option<Endpoint> {
    match find_char(s, ':') {
        None => None,
        Some(i) => match spec_parse_ipv4(s.take(i)) {
            None => None,
            Some(ip) => match spec_parse_bounded(s.skip(i + 1), 65535) {
                None => None,
                Some(p) => Some(Endpoint { ip, port: p as u16 }),
            },
        },
    }
}

/// The host part of a CIDR-style address: everything before the first
/// `/`, or the whole text when there is none.
pub open spec fn spec_host_part(s: Seq<char>) -> Seq<char> {
    match find_char(s, '/') {
        None => s,
        Some(i) => s.take(i),
    }
}

/// The client address of a configuration: the host part parsed as IPv4.
pub open spec fn spec_parse_client_ip(s: Seq<char>) -> Option<Ipv4> {
    spec_parse_ipv4(spec_host_part(s))
}

/// Parses a decimal numeral with no leading zero, bounded by `max`.
fn parse_bounded(s: &str, max: u64) -> (r: Option<u64>)
    ensures
        r matches Some(v) ==> spec_parse_bounded(s@, max as int) == Some(v as int),
        r is None ==> spec_parse_bounded(s@, max as int) is None,
{
    match parse_u64_dec(s) {
        None => {
            proof {
                if s@.len() >= 1 && all_digits(s@) {
                    lemma_digits_val_nonneg(s@);
                }
            }
            None
        },
        Some(v) => {
            proof {
                lemma_digits_val_nonneg(s@);
            }
            if v > max {
                None
            } else if s.unicode_len() > 1 && s.get_char(0) == '0' {
                None
            } else {
                Some(v)
            }
        },
    }
}

/// Parses one octet.
fn parse_octet(s: &str) -> (r: Option<u8>)
    ensures
        r == spec_parse_octet(s@),
{
    match parse_bounded(s, 255) {
        None => None,
        Some(v) => Some(v as u8),
    }
}

/// Parses a dotted-decimal IPv4 address, accepting exactly the
/// canonical form (four octets, each at most 255, no leading zeros).
pub fn parse_ipv4(s: &str) -> (r: Option<Ipv4>)
    ensures
        r == spec_parse_ipv4(s@),
{
    let n = s.unicode_len();
    match find_char_in(s, '.') {
        None => None,
        Some(i) => {
            let o1 = s.substring_char(0, i);
            let r1 = s.substring_char(i + 1, n);
            proof {
                assert(o1@ =~= s@.take(i as int));
                assert(r1@ =~= s@.skip(i + 1));
            }
            match parse_octet(o1) {
                None => None,
                Some(a) => {
                    let n1 = r1.unicode_len();
                    match find_char_in(r1, '.') {
                        None => None,
                        Some(j) => {
                            let o2 = r1.substring_char(0, j);
                            let r2 = r1.substring_char(j + 1, n1);
                            proof {
                                assert(o2@ =~= r1@.take(j as int));
                                assert(r2@ =~= r1@.skip(j + 1));
                            }
                            match parse_octet(o2) {
                                None => None,
                                Some(b) => {
                                    let n2 = r2.unicode_len();
                                    match find_char_in(r2, '.') {
                                        None => None,
                                        Some(k) => {
                                            let o3 = r2.substring_char(0, k);
                                            let o4 = r2.substring_char(k + 1, n2);
                                            proof {
                                                assert(o3@ =~= r2@.take(k as int));
                                                assert(o4@ =~= r2@.skip(k + 1));
                                            }
                                            match (parse_octet(o3), parse_octet(o4)) {
                                                (Some(c), Some(d)) => Some(Ipv4 { a, b, c, d }),
                                                _ => None,
                                            }
                                        },
                                    }
                                },
                            }
                        },
                    }
                },
            }
        },
    }
}

/// Parses `host:port` with an IPv4 host and a decimal port.
pub fn parse_endpoint(s: &str) -> (r: Option<Endpoint>)
    ensures
        r == spec_parse_endpoint(s@),
{
    let n = s.unicode_len();
    match find_char_in(s, ':') {
        None => None,
        Some(i) => {
            let host = s.substring_char(0, i);
            let port_text = s.substring_char(i + 1, n);
            proof {
                assert(host@ =~= s@.take(i as int));
                assert(port_text@ =~= s@.skip(i + 1));
            }
            match parse_ipv4(host) {
                None => None,
                Some(ip) => match parse_bounded(port_text, 65535) {
                    None => None,
                    Some(p) => Some(Endpoint { ip, port: p as u16 }),
                },
            }
        },
    }
}

/// Parses the client address of a configuration: the part before the
/// first `/` (the whole text when there is none), as an IPv4 address.
pub fn parse_client_ip(s: &str) -> (r: Option<Ipv4>)
    ensures
        r == spec_parse_client_ip(s@),
{
    let n = s.unicode_len();
    match find_char_in(s, '/') {
        None => parse_ipv4(s),
        Some(i) => {
            let host = s.substring_char(0, i);
            proof {
                assert(host@ =~= s@.take(i as int));
            }
            parse_ipv4(host)
        },
    }
}

/// Renders an address in dotted-decimal form.
pub fn ipv4_to_text(ip: &Ipv4) -> (r: String)
    ensures
        r@ == ipv4_rep(*ip),
{
    let mut s = u64_to_dec(ip.a as u64);
    s.append(".");
    let b = u64_to_dec(ip.b as u64);
    s.append(b.as_str());
    s.append(".");
    let c = u64_to_dec(ip.c as u64);
    s.append(c.as_str());
    s.append(".");
    let d = u64_to_dec(ip.d as u64);
    s.append(d.as_str());
    proof {
        reveal_strlit(".");
        assert("."@ =~= seq!['.']);
        assert(s@ =~= ipv4_rep(*ip));
    }
    s
}

/// Renders an endpoint as `host:port`.
pub fn endpoint_to_text(e: &Endpoint) -> (r: String)
    ensures
        r@ == endpoint_rep(*e),
{
    let mut s = ipv4_to_text(&e.ip);
    s.append(":");
    let p = u64_to_dec(e.port as u64);
    s.append(p.as_str());
    proof {
        reveal_strlit(":");
        assert(":"@ =~= seq![':']);
        assert(s@ =~= endpoint_rep(*e));
    }
    s
}

} // verus!
