//! The canonical text form of a tunnel configuration.
//!
//! Rendering produces an `[Interface]` block (private key, address,
//! comma-joined resolvers, optional MTU) followed by a `[Peer]` block
//! (public key, endpoint, comma-joined allowed ranges, optional
//! keepalive), with fixed field order and section names. Parsing
//! accepts exactly that shape, and the two round-trip: rendering,
//! parsing, and rendering again reproduces the text.

use vstd::prelude::*;
use vstd::string::StrSliceExecFns;
use vstd::string::StringExecFns;

use crate::config::ConfigV;
use crate::config::InterfaceConfig;
use crate::config::InterfaceV;
use crate::config::PeerConfig;
use crate::config::PeerV;
use crate::config::VpnConfig;
use crate::text::dec_rep;
use crate::text::join_list;
use crate::text::join_views;
use crate::text::lemma_dec_rep_ok;
use crate::text::lemma_dec_roundtrip_u32;
use crate::text::lemma_find_char;
use crate::text::lemma_join_split;
use crate::text::parse_u32_dec;
use crate::text::parse_u32_spec;
use crate::text::split_line;
use crate::text::split_line_at;
use crate::text::split_list;
use crate::text::split_views;
use crate::text::str_eq;
use crate::text::strip_prefix;
use crate::text::strip_prefix_of;
use crate::text::u64_to_dec;

verus! {

// ---------------------------------------------------------------------------
// Rendering
// ---------------------------------------------------------------------------

/// One `Label = value` line, newline-terminated.
pub open spec fn field_line_rep(label: Seq<char>, v: Seq<char>) -> Seq<char> {
    label + v + seq!['\n']
}

/// The `[Interface]` block.
pub open spec fn spec_render_interface(i: InterfaceV) -> Seq<char> {
    "[Interface]"@ + seq!['\n'] + field_line_rep("PrivateKey = "@, i.private_key)
        + field_line_rep("Address = "@, i.address) + field_line_rep(
        "DNS = "@,
        join_views(i.dns),
    ) + (match i.mtu {
        None => Seq::<char>::empty(),
        Some(m) => field_line_rep("MTU = "@, dec_rep(m as int)),
    })
}

/// The `[Peer]` block, preceded by the separating blank line.
pub open spec fn spec_render_peer(p: PeerV) -> Seq<char> {
    seq!['\n'] + "[Peer]"@ + seq!['\n'] + field_line_rep("PublicKey = "@, p.public_key)
        + field_line_rep("Endpoint = "@, p.endpoint) + field_line_rep(
        "AllowedIPs = "@,
        join_views(p.allowed_ips),
    ) + (match p.persistent_keepalive {
        None => Seq::<char>::empty(),
        Some(k) => field_line_rep("PersistentKeepalive = "@, dec_rep(k as int)),
    })
}

/// The whole canonical text.
pub open spec fn spec_render_config(c: ConfigV) -> Seq<char> {
    spec_render_interface(c.interface) + spec_render_peer(c.peer)
}

/// Renders a configuration to the canonical text.
#[verifier::rlimit(50)]
pub fn render_config(c: &VpnConfig) -> (r: String)
    ensures
        r@ == spec_render_config(c@),
{
    let mut s = String::from_str("[Interface]\nPrivateKey = ");
    s.append(c.interface.private_key.as_str());
    s.append("\nAddress = ");
    s.append(c.interface.address.as_str());
    s.append("\nDNS = ");
    let dns = join_list(&c.interface.dns);
    s.append(dns.as_str());
    s.append("\n");
    match c.interface.mtu {
        None => {},
        Some(m) => {
            s.append("MTU = ");
            let d = u64_to_dec(m as u64);
            s.append(d.as_str());
            s.append("\n");
        },
    }
    proof {
        reveal_strlit("[Interface]\nPrivateKey = ");
        reveal_strlit("\nAddress = ");
        reveal_strlit("\nDNS = ");
        reveal_strlit("\n");
        reveal_strlit("MTU = ");
        reveal_strlit("[Interface]");
        reveal_strlit("PrivateKey = ");
        reveal_strlit("Address = ");
        reveal_strlit("DNS = ");
        assert("[Interface]\nPrivateKey = "@ =~= "[Interface]"@ + seq!['\n'] + "PrivateKey = "@);
        assert("\nAddress = "@ =~= seq!['\n'] + "Address = "@);
        assert("\nDNS = "@ =~= seq!['\n'] + "DNS = "@);
        assert("\n"@ =~= seq!['\n']);
        assert(s@ =~= spec_render_interface(c@.interface));
    }
    let ghost mid = s@;
    s.append("\n[Peer]\nPublicKey = ");
    s.append(c.peer.public_key.as_str());
    s.append("\nEndpoint = ");
    s.append(c.peer.endpoint.as_str());
    s.append("\nAllowedIPs = ");
    let ips = join_list(&c.peer.allowed_ips);
    s.append(ips.as_str());
    s.append("\n");
    match c.peer.persistent_keepalive {
        None => {},
        Some(k) => {
            s.append("PersistentKeepalive = ");
            let d = u64_to_dec(k as u64);
            s.append(d.as_str());
            s.append("\n");
        },
    }
    proof {
        reveal_strlit("\n");
        reveal_strlit("\n[Peer]\nPublicKey = ");
        reveal_strlit("\nEndpoint = ");
        reveal_strlit("\nAllowedIPs = ");
        reveal_strlit("PersistentKeepalive = ");
        reveal_strlit("[Peer]");
        reveal_strlit("PublicKey = ");
        reveal_strlit("Endpoint = ");
        reveal_strlit("AllowedIPs = ");
        assert("\n[Peer]\nPublicKey = "@ =~= seq!['\n'] + "[Peer]"@ + seq!['\n']
            + "PublicKey = "@);
        assert("\nEndpoint = "@ =~= seq!['\n'] + "Endpoint = "@);
        assert("\nAllowedIPs = "@ =~= seq!['\n'] + "AllowedIPs = "@);
        assert("\n"@ =~= seq!['\n']);
        assert(s@ =~= mid + spec_render_peer(c@.peer));
        assert(s@ =~= spec_render_config(c@));
    }
    s
}

// ---------------------------------------------------------------------------
// Parsing
// ---------------------------------------------------------------------------

/// Consumes one line that must equal `line` exactly.
pub open spec fn parse_exact_line(s: Seq<char>, line: Seq<char>) -> Option<Seq<char>> {
    match split_line(s) {
        None => None,
        Some((l, rest)) => if l == line {
            Some(rest)
        } else {
            None
        },
    }
}

/// Consumes one `Label = value` line; yields the value and the rest.
pub open spec fn parse_field_line(s: Seq<char>, label: Seq<char>) -> Option<
    (Seq<char>, Seq<char>),
> {
    match split_line(s) {
        None => None,
        Some((l, rest)) => match strip_prefix(l, label) {
            None => None,
            Some(v) => Some((v, rest)),
        },
    }
}

/// Parses the `[Interface]` block; yields its fields and the rest of
/// the text after the separating blank line.
pub open spec fn spec_parse_interface(s: Seq<char>) -> Option<(InterfaceV, Seq<char>)> {
    match parse_exact_line(s, "[Interface]"@) {
        None => None,
        Some(s1) => match parse_field_line(s1, "PrivateKey = "@) {
            None => None,
            Some((pk, s2)) => match parse_field_line(s2, "Address = "@) {
                None => None,
                Some((ad, s3)) => match parse_field_line(s3, "DNS = "@) {
                    None => None,
                    Some((dns, s4)) => match split_line(s4) {
                        None => None,
                        Some((l, s5)) => if l.len() == 0 {
                            Some(
                                (
                                    InterfaceV {
                                        private_key: pk,
                                        address: ad,
                                        dns: split_views(dns),
                                        mtu: None,
                                    },
                                    s5,
                                ),
                            )
                        } else {
                            match strip_prefix(l, "MTU = "@) {
                                None => None,
                                Some(num) => match parse_u32_spec(num) {
                                    None => None,
                                    Some(m) => match parse_exact_line(s5, Seq::empty()) {
                                        None => None,
                                        Some(s6) => Some(
                                            (
                                                InterfaceV {
                                                    private_key: pk,
                                                    address: ad,
                                                    dns: split_views(dns),
                                                    mtu: Some(m),
                                                },
                                                s6,
                                            ),
                                        ),
                                    },
                                },
                            }
                        },
                    },
                },
            },
        },
    }
}

/// Parses the `[Peer]` block, which must end the text.
pub open spec fn spec_parse_peer(s: Seq<char>) -> Option<PeerV> {
    match parse_exact_line(s, "[Peer]"@) {
        None => None,
        Some(s1) => match parse_field_line(s1, "PublicKey = "@) {
            None => None,
            Some((pk, s2)) => match parse_field_line(s2, "Endpoint = "@) {
                None => None,
                Some((ep, s3)) => match parse_field_line(s3, "AllowedIPs = "@) {
                    None => None,
                    Some((ips, s4)) => if s4.len() == 0 {
                        Some(
                            PeerV {
                                public_key: pk,
                                endpoint: ep,
                                allowed_ips: split_views(ips),
                                persistent_keepalive: None,
                            },
                        )
                    } else {
                        match parse_field_line(s4, "PersistentKeepalive = "@) {
                            None => None,
                            Some((num, s5)) => if s5.len() == 0 {
                                match parse_u32_spec(num) {
                                    None => None,
                                    Some(k) => Some(
                                        PeerV {
                                            public_key: pk,
                                            endpoint: ep,
                                            allowed_ips: split_views(ips),
                                            persistent_keepalive: Some(k),
                                        },
                                    ),
                                }
                            } else {
                                None
                            },
                        }
                    },
                },
            },
        },
    }
}

/// Parses the canonical text back into a configuration.
pub open spec fn spec_parse_config(s: Seq<char>) -> Option<ConfigV> {
    match spec_parse_interface(s) {
        None => None,
        Some((iv, rest)) => match spec_parse_peer(rest) {
            None => None,
            Some(pv) => Some(ConfigV { interface: iv, peer: pv }),
        },
    }
}

/// Consumes one line that must equal `line` exactly.
fn exact_line<'a>(s: &'a str, line: &str) -> (r: Option<&'a str>)
    ensures
        r is Some <==> parse_exact_line(s@, line@) is Some,
        r matches Some(rest) ==> parse_exact_line(s@, line@) == Some(rest@),
{
    match split_line_at(s) {
        None => None,
        Some((l, rest)) => {
            if str_eq(l, line) {
                Some(rest)
            } else {
                None
            }
        },
    }
}

/// Consumes one `Label = value` line; yields the value and the rest.
fn field_line<'a>(s: &'a str, label: &str) -> (r: Option<(&'a str, &'a str)>)
    ensures
        r is Some <==> parse_field_line(s@, label@) is Some,
        r matches Some((v, rest)) ==> parse_field_line(s@, label@) == Some((v@, rest@)),
{
    match split_line_at(s) {
        None => None,
        Some((l, rest)) => match strip_prefix_of(l, label) {
            None => None,
            Some(v) => Some((v, rest)),
        },
    }
}

/// Parses the `[Interface]` block.
fn parse_interface<'a>(s: &'a str) -> (r: Option<(InterfaceConfig, &'a str)>)
    ensures
        r is Some <==> spec_parse_interface(s@) is Some,
        r matches Some((c, rest)) ==> spec_parse_interface(s@) == Some((c@, rest@)),
{
    let s1 = match exact_line(s, "[Interface]") {
        None => {
            return None;
        },
        Some(x) => x,
    };
    let (pk, s2) = match field_line(s1, "PrivateKey = ") {
        None => {
            return None;
        },
        Some(x) => x,
    };
    let (ad, s3) = match field_line(s2, "Address = ") {
        None => {
            return None;
        },
        Some(x) => x,
    };
    let (dns, s4) = match field_line(s3, "DNS = ") {
        None => {
            return None;
        },
        Some(x) => x,
    };
    let (l, s5) = match split_line_at(s4) {
        None => {
            return None;
        },
        Some(x) => x,
    };
    if l.unicode_len() == 0 {
        let c = InterfaceConfig {
            private_key: String::from_str(pk),
            address: String::from_str(ad),
            dns: split_list(dns),
            mtu: None,
        };
        Some((c, s5))
    } else {
        let num = match strip_prefix_of(l, "MTU = ") {
            None => {
                return None;
            },
            Some(x) => x,
        };
        let m = match parse_u32_dec(num) {
            None => {
                return None;
            },
            Some(x) => x,
        };
        proof {
            reveal_strlit("");
            assert(""@ =~= Seq::<char>::empty());
        }
        let s6 = match exact_line(s5, "") {
            None => {
                return None;
            },
            Some(x) => x,
        };
        let c = InterfaceConfig {
            private_key: String::from_str(pk),
            address: String::from_str(ad),
            dns: split_list(dns),
            mtu: Some(m),
        };
        Some((c, s6))
    }
}

/// Parses the `[Peer]` block, which must end the text.
fn parse_peer(s: &str) -> (r: Option<PeerConfig>)
    ensures
        r is Some <==> spec_parse_peer(s@) is Some,
        r matches Some(c) ==> spec_parse_peer(s@) == Some(c@),
{
    let s1 = match exact_line(s, "[Peer]") {
        None => {
            return None;
        },
        Some(x) => x,
    };
    let (pk, s2) = match field_line(s1, "PublicKey = ") {
        None => {
            return None;
        },
        Some(x) => x,
    };
    let (ep, s3) = match field_line(s2, "Endpoint = ") {
        None => {
            return None;
        },
        Some(x) => x,
    };
    let (ips, s4) = match field_line(s3, "AllowedIPs = ") {
        None => {
            return None;
        },
        Some(x) => x,
    };
    if s4.unicode_len() == 0 {
        Some(
            PeerConfig {
                public_key: String::from_str(pk),
                endpoint: String::from_str(ep),
                allowed_ips: split_list(ips),
                persistent_keepalive: None,
            },
        )
    } else {
        let (num, s5) = match field_line(s4, "PersistentKeepalive = ") {
            None => {
                return None;
            },
            Some(x) => x,
        };
        if s5.unicode_len() != 0 {
            return None;
        }
        let k = match parse_u32_dec(num) {
            None => {
                return None;
            },
            Some(x) => x,
        };
        Some(
            PeerConfig {
                public_key: String::from_str(pk),
                endpoint: String::from_str(ep),
                allowed_ips: split_list(ips),
                persistent_keepalive: Some(k),
            },
        )
    }
}

/// Parses the canonical text back into a configuration. Accepts
/// exactly the shape `render_config` produces.
pub fn parse_config(s: &str) -> (r: Option<VpnConfig>)
    ensures
        r is Some <==> spec_parse_config(s@) is Some,
        r matches Some(c) ==> spec_parse_config(s@) == Some(c@),
{
    let (interface, rest) = match parse_interface(s) {
        None => {
            return None;
        },
        Some(x) => x,
    };
    let peer = match parse_peer(rest) {
        None => {
            return None;
        },
        Some(x) => x,
    };
    Some(VpnConfig { interface, peer })
}

// ---------------------------------------------------------------------------
// The round trip
// ---------------------------------------------------------------------------

/// No newline occurs in `s`.
pub open spec fn field_clean(s: Seq<char>) -> bool {
    crate::text::find_char(s, '\n') is None
}

/// A configuration whose text fields and joined lists carry no
/// newline: exactly those the line-oriented canonical text can hold.
pub open spec fn config_renderable(c: ConfigV) -> bool {
    &&& field_clean(c.interface.private_key)
    &&& field_clean(c.interface.address)
    &&& field_clean(join_views(c.interface.dns))
    &&& field_clean(c.peer.public_key)
    &&& field_clean(c.peer.endpoint)
    &&& field_clean(join_views(c.peer.allowed_ips))
}

/// Cleanliness, element by element.
proof fn lemma_clean_chars(s: Seq<char>)
    ensures
        field_clean(s) <==> (forall|i: int| 0 <= i < s.len() ==> s[i] != '\n'),
{
    lemma_find_char(s, '\n');
    if forall|i: int| 0 <= i < s.len() ==> s[i] != '\n' {
        if let Some(i) = crate::text::find_char(s, '\n') {
            assert(s[i] == '\n');
            assert(false);
        }
    }
}

/// Concatenation preserves cleanliness.
proof fn lemma_clean_concat(a: Seq<char>, b: Seq<char>)
    requires
        field_clean(a),
        field_clean(b),
    ensures
        field_clean(a + b),
{
    lemma_clean_chars(a);
    lemma_clean_chars(b);
    lemma_clean_chars(a + b);
    assert(forall|i: int| 0 <= i < a.len() ==> (a + b)[i] == a[i]);
    assert(forall|i: int|
        a.len() <= i < a.len() + b.len() ==> #[trigger] (a + b)[i] == b[i - a.len()]);
}

/// A digit string is clean.
proof fn lemma_digits_clean(s: Seq<char>)
    requires
        crate::text::all_digits(s),
    ensures
        field_clean(s),
{
    lemma_clean_chars(s);
    assert(forall|i: int| 0 <= i < s.len() ==> crate::text::is_digit_char(#[trigger] s[i]));
}

/// The section names, field labels, and the empty line are clean.
proof fn lemma_labels_clean()
    ensures
        field_clean("[Interface]"@),
        field_clean("PrivateKey = "@),
        field_clean("Address = "@),
        field_clean("DNS = "@),
        field_clean("MTU = "@),
        field_clean("[Peer]"@),
        field_clean("PublicKey = "@),
        field_clean("Endpoint = "@),
        field_clean("AllowedIPs = "@),
        field_clean("PersistentKeepalive = "@),
        field_clean(Seq::<char>::empty()),
{
    reveal_strlit("[Interface]");
    reveal_strlit("PrivateKey = ");
    reveal_strlit("Address = ");
    reveal_strlit("DNS = ");
    reveal_strlit("MTU = ");
    reveal_strlit("[Peer]");
    reveal_strlit("PublicKey = ");
    reveal_strlit("Endpoint = ");
    reveal_strlit("AllowedIPs = ");
    reveal_strlit("PersistentKeepalive = ");
    lemma_clean_chars("[Interface]"@);
    lemma_clean_chars("PrivateKey = "@);
    lemma_clean_chars("Address = "@);
    lemma_clean_chars("DNS = "@);
    lemma_clean_chars("MTU = "@);
    lemma_clean_chars("[Peer]"@);
    lemma_clean_chars("PublicKey = "@);
    lemma_clean_chars("Endpoint = "@);
    lemma_clean_chars("AllowedIPs = "@);
    lemma_clean_chars("PersistentKeepalive = "@);
}

/// A clean line followed by its newline splits off exactly.
proof fn lemma_split_clean_line(x: Seq<char>, rest: Seq<char>)
    requires
        field_clean(x),
    ensures
        split_line(x + seq!['\n'] + rest) == Some((x, rest)),
{
    let s = x + seq!['\n'] + rest;
    lemma_clean_chars(x);
    lemma_find_char(s, '\n');
    assert(s[x.len() as int] == '\n');
    match crate::text::find_char(s, '\n') {
        None => {
            assert(false);
        },
        Some(i) => {
            assert(forall|j: int| 0 <= j < x.len() ==> s[j] == x[j]);
            if i < x.len() {
                assert(s[i] == x[i]);
                assert(false);
            }
            if i > x.len() {
                assert(s[x.len() as int] != '\n');
                assert(false);
            }
            assert(i == x.len());
            assert(s.take(i) =~= x);
            assert(s.skip(i + 1) =~= rest);
        },
    }
}

/// An exact clean line parses off the front.
proof fn lemma_parse_exact_rendered(x: Seq<char>, rest: Seq<char>)
    requires
        field_clean(x),
    ensures
        parse_exact_line(x + seq!['\n'] + rest, x) == Some(rest),
{
    lemma_split_clean_line(x, rest);
}

/// A rendered field line parses back to its value.
proof fn lemma_parse_field_rendered(label: Seq<char>, v: Seq<char>, rest: Seq<char>)
    requires
        field_clean(label),
        field_clean(v),
    ensures
        parse_field_line(field_line_rep(label, v) + rest, label) == Some((v, rest)),
{
    let l = label + v;
    lemma_clean_concat(label, v);
    assert(field_line_rep(label, v) + rest =~= l + seq!['\n'] + rest);
    lemma_split_clean_line(l, rest);
    assert(l.take(label.len() as int) =~= label);
    assert(l.skip(label.len() as int) =~= v);
}

/// The `[Peer]` block without its leading blank line.
pub open spec fn render_peer_tail(p: PeerV) -> Seq<char> {
    "[Peer]"@ + seq!['\n'] + field_line_rep("PublicKey = "@, p.public_key) + field_line_rep(
        "Endpoint = "@,
        p.endpoint,
    ) + field_line_rep("AllowedIPs = "@, join_views(p.allowed_ips)) + (
    match p.persistent_keepalive {
        None => Seq::<char>::empty(),
        Some(k) => field_line_rep("PersistentKeepalive = "@, dec_rep(k as int)),
    })
}

/// Parsing the rendered `[Interface]` block recovers its fields, with
/// the resolver list split back out of its joined form.
proof fn lemma_parse_interface_rendered(i: InterfaceV, peer_tail: Seq<char>)
    requires
        field_clean(i.private_key),
        field_clean(i.address),
        field_clean(join_views(i.dns)),
    ensures
        spec_parse_interface(spec_render_interface(i) + seq!['\n'] + peer_tail) matches Some(
            (iv, r),
        ) && r == peer_tail && iv == (InterfaceV {
            private_key: i.private_key,
            address: i.address,
            dns: split_views(join_views(i.dns)),
            mtu: i.mtu,
        }),
{
    lemma_labels_clean();
    let s = spec_render_interface(i) + seq!['\n'] + peer_tail;
    let l_pk = field_line_rep("PrivateKey = "@, i.private_key);
    let l_ad = field_line_rep("Address = "@, i.address);
    let l_dns = field_line_rep("DNS = "@, join_views(i.dns));
    match i.mtu {
        None => {
            let t1 = l_pk + l_ad + l_dns + seq!['\n'] + peer_tail;
            assert(s =~= "[Interface]"@ + seq!['\n'] + t1);
            lemma_parse_exact_rendered("[Interface]"@, t1);
            let t2 = l_ad + l_dns + seq!['\n'] + peer_tail;
            assert(t1 =~= l_pk + t2);
            lemma_parse_field_rendered("PrivateKey = "@, i.private_key, t2);
            let t3 = l_dns + seq!['\n'] + peer_tail;
            assert(t2 =~= l_ad + t3);
            lemma_parse_field_rendered("Address = "@, i.address, t3);
            let t4 = seq!['\n'] + peer_tail;
            assert(t3 =~= l_dns + t4);
            lemma_parse_field_rendered("DNS = "@, join_views(i.dns), t4);
            assert(t4 =~= Seq::<char>::empty() + seq!['\n'] + peer_tail);
            lemma_split_clean_line(Seq::<char>::empty(), peer_tail);
        },
        Some(m) => {
            lemma_dec_rep_ok(m as int);
            lemma_digits_clean(dec_rep(m as int));
            let l_mtu = field_line_rep("MTU = "@, dec_rep(m as int));
            let t1 = l_pk + l_ad + l_dns + l_mtu + seq!['\n'] + peer_tail;
            assert(s =~= "[Interface]"@ + seq!['\n'] + t1);
            lemma_parse_exact_rendered("[Interface]"@, t1);
            let t2 = l_ad + l_dns + l_mtu + seq!['\n'] + peer_tail;
            assert(t1 =~= l_pk + t2);
            lemma_parse_field_rendered("PrivateKey = "@, i.private_key, t2);
            let t3 = l_dns + l_mtu + seq!['\n'] + peer_tail;
            assert(t2 =~= l_ad + t3);
            lemma_parse_field_rendered("Address = "@, i.address, t3);
            let t4 = l_mtu + seq!['\n'] + peer_tail;
            assert(t3 =~= l_dns + t4);
            lemma_parse_field_rendered("DNS = "@, join_views(i.dns), t4);
            // The MTU line itself
            let lm = "MTU = "@ + dec_rep(m as int);
            lemma_clean_concat("MTU = "@, dec_rep(m as int));
            let t5 = seq!['\n'] + peer_tail;
            assert(t4 =~= lm + seq!['\n'] + t5);
            lemma_split_clean_line(lm, t5);
            assert(lm.len() > 0);
            assert(lm.take("MTU = "@.len() as int) =~= "MTU = "@);
            assert(lm.skip("MTU = "@.len() as int) =~= dec_rep(m as int));
            lemma_dec_roundtrip_u32(m);
            assert(t5 =~= Seq::<char>::empty() + seq!['\n'] + peer_tail);
            lemma_split_clean_line(Seq::<char>::empty(), peer_tail);
        },
    }
}

/// Parsing the rendered `[Peer]` block recovers its fields, with the
/// allowed list split back out of its joined form.
proof fn lemma_parse_peer_rendered(p: PeerV)
    requires
        field_clean(p.public_key),
        field_clean(p.endpoint),
        field_clean(join_views(p.allowed_ips)),
    ensures
        spec_parse_peer(render_peer_tail(p)) == Some(
            PeerV {
                public_key: p.public_key,
                endpoint: p.endpoint,
                allowed_ips: split_views(join_views(p.allowed_ips)),
                persistent_keepalive: p.persistent_keepalive,
            },
        ),
{
    lemma_labels_clean();
    let s = render_peer_tail(p);
    let l_pub = field_line_rep("PublicKey = "@, p.public_key);
    let l_ep = field_line_rep("Endpoint = "@, p.endpoint);
    let l_ips = field_line_rep("AllowedIPs = "@, join_views(p.allowed_ips));
    match p.persistent_keepalive {
        None => {
            let t1 = l_pub + l_ep + l_ips;
            assert(s =~= "[Peer]"@ + seq!['\n'] + t1);
            lemma_parse_exact_rendered("[Peer]"@, t1);
            let t2 = l_ep + l_ips;
            assert(t1 =~= l_pub + t2);
            lemma_parse_field_rendered("PublicKey = "@, p.public_key, t2);
            let t3 = l_ips;
            assert(t2 =~= l_ep + t3);
            lemma_parse_field_rendered("Endpoint = "@, p.endpoint, t3);
            assert(t3 =~= l_ips + Seq::<char>::empty());
            lemma_parse_field_rendered(
                "AllowedIPs = "@,
                join_views(p.allowed_ips),
                Seq::<char>::empty(),
            );
        },
        Some(k) => {
            lemma_dec_rep_ok(k as int);
            lemma_digits_clean(dec_rep(k as int));
            let l_ka = field_line_rep("PersistentKeepalive = "@, dec_rep(k as int));
            let t1 = l_pub + l_ep + l_ips + l_ka;
            assert(s =~= "[Peer]"@ + seq!['\n'] + t1);
            lemma_parse_exact_rendered("[Peer]"@, t1);
            let t2 = l_ep + l_ips + l_ka;
            assert(t1 =~= l_pub + t2);
            lemma_parse_field_rendered("PublicKey = "@, p.public_key, t2);
            let t3 = l_ips + l_ka;
            assert(t2 =~= l_ep + t3);
            lemma_parse_field_rendered("Endpoint = "@, p.endpoint, t3);
            assert(t3 =~= l_ips + l_ka);
            lemma_parse_field_rendered("AllowedIPs = "@, join_views(p.allowed_ips), l_ka);
            assert(l_ka.len() > 0);
            assert(l_ka =~= field_line_rep("PersistentKeepalive = "@, dec_rep(k as int))
                + Seq::<char>::empty());
            lemma_parse_field_rendered(
                "PersistentKeepalive = "@,
                dec_rep(k as int),
                Seq::<char>::empty(),
            );
            lemma_dec_roundtrip_u32(k);
        },
    }
}

/// The codec round-trips: rendering a configuration, parsing the text,
/// and rendering the parse yields the original text. The parsed
/// configuration itself may differ only in how the resolver and
/// allowed lists are split, which joining collapses again.
pub proof fn lemma_render_parse_render(c: ConfigV)
    requires
        config_renderable(c),
    ensures
        spec_parse_config(spec_render_config(c)) matches Some(c2) && spec_render_config(c2)
            == spec_render_config(c),
{
    let s = spec_render_config(c);
    assert(s =~= spec_render_interface(c.interface) + seq!['\n'] + render_peer_tail(c.peer));
    lemma_parse_interface_rendered(c.interface, render_peer_tail(c.peer));
    lemma_parse_peer_rendered(c.peer);
    let c2 = spec_parse_config(s)->0;
    lemma_join_split(join_views(c.interface.dns));
    lemma_join_split(join_views(c.peer.allowed_ips));
    assert(join_views(c2.interface.dns) == join_views(c.interface.dns));
    assert(join_views(c2.peer.allowed_ips) == join_views(c.peer.allowed_ips));
    assert(spec_render_config(c2) =~= spec_render_config(c));
}

} // verus!
