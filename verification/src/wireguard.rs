//! The embedded tunnel driver: configuration validation, session
//! construction, routing decisions, failure classification, and the
//! byte-accounting core of the packet-forwarding pump.
//!
//! Platform work — acquiring the virtual adapter, binding the peer
//! socket, installing routes, running the pump loop — is performed by
//! the surrounding application; this module decides on its reported
//! outcomes and drives the cryptographic tunnel state.

use vstd::prelude::*;
use vstd::string::StringExecFns;

use crate::addr::Endpoint;
use crate::addr::Ipv4;
use crate::config::spec_config_fault_msg;
use crate::config::spec_config_valid;
use crate::addr::spec_parse_endpoint;
use crate::config::validate_config;
use crate::config::VpnConfig;
use crate::text::contains_seq;
use crate::text::contains_substr;
use crate::text::str_eq;
use crate::tool::spec_tool_permission_fault;
use crate::types::VpnError;

verus! {

/// The cryptographic tunnel state of the protocol library.
#[verifier::external_type_specification]
#[verifier::external_body]
pub struct ExTunn(boringtun::noise::Tunn);

/// Relies on boringtun's `Tunn::new`: builds the handshake state from
/// the local private key, the peer public key and the keepalive
/// interval. The key copies demand exactly 32 bytes each.
#[verifier::external_body]
fn tunn_new(private_key: &Vec<u8>, peer_public_key: &Vec<u8>, keepalive: Option<u16>) -> (r:
    boringtun::noise::Tunn)
    requires
        private_key@.len() == 32,
        peer_public_key@.len() == 32,
{
    let mut sk = [0u8; 32];
    sk.copy_from_slice(private_key);
    let mut pk = [0u8; 32];
    pk.copy_from_slice(peer_public_key);
    boringtun::noise::Tunn::new(
        boringtun::x25519::StaticSecret::from(sk),
        boringtun::x25519::PublicKey::from(pk),
        None,
        keepalive,
        0,
        None,
    )
}

/// What one protocol step asks the pump to do next.
pub enum TunnVerdict {
    /// Nothing to forward (handshake in progress, or a quiet step).
    Quiet,
    /// Bytes to send to the peer over the socket.
    ToNetwork(Vec<u8>),
    /// Plaintext to write to the virtual adapter.
    ToTunnel(Vec<u8>),
    /// The protocol reported an error; the step is dropped.
    Failure,
}

/// Relies on boringtun's `Tunn::encapsulate`. Its documentation demands
/// a destination of at least `src.len() + 32` and at least 148 bytes;
/// the 64 KiB buffer used here covers sources up to 65504 bytes, which
/// the caller must respect.
#[verifier::external_body]
fn tunn_encapsulate(t: &mut boringtun::noise::Tunn, src: &[u8]) -> (r: TunnVerdict)
    requires
        src@.len() <= 65504,
{
    let mut dst = vec![0u8; 65536];
    match t.encapsulate(src, &mut dst) {
        boringtun::noise::TunnResult::WriteToNetwork(d) => TunnVerdict::ToNetwork(d.to_vec()),
        boringtun::noise::TunnResult::WriteToTunnelV4(d, _) => TunnVerdict::ToTunnel(d.to_vec()),
        boringtun::noise::TunnResult::WriteToTunnelV6(d, _) => TunnVerdict::ToTunnel(d.to_vec()),
        boringtun::noise::TunnResult::Done => TunnVerdict::Quiet,
        boringtun::noise::TunnResult::Err(_) => TunnVerdict::Failure,
    }
}

/// Relies on boringtun's `Tunn::decapsulate`. Decapsulated plaintext is
/// never longer than the datagram, and handshake or cookie replies are
/// at most 148 bytes, so a 64 KiB destination suffices for datagrams up
/// to 64 KiB.
#[verifier::external_body]
fn tunn_decapsulate(t: &mut boringtun::noise::Tunn, datagram: &[u8]) -> (r: TunnVerdict)
    requires
        datagram@.len() <= 65536,
{
    let mut dst = vec![0u8; 65536];
    match t.decapsulate(None, datagram, &mut dst) {
        boringtun::noise::TunnResult::WriteToNetwork(d) => TunnVerdict::ToNetwork(d.to_vec()),
        boringtun::noise::TunnResult::WriteToTunnelV4(d, _) => TunnVerdict::ToTunnel(d.to_vec()),
        boringtun::noise::TunnResult::WriteToTunnelV6(d, _) => TunnVerdict::ToTunnel(d.to_vec()),
        boringtun::noise::TunnResult::Done => TunnVerdict::Quiet,
        boringtun::noise::TunnResult::Err(_) => TunnVerdict::Failure,
    }
}

/// Relies on boringtun's `Tunn::update_timers`: drives retransmission
/// and keepalive; what it produces, if anything, is at most a handshake
/// initiation of 148 bytes, far below the 64 KiB destination.
#[verifier::external_body]
fn tunn_update_timers(t: &mut boringtun::noise::Tunn) -> (r: TunnVerdict)
{
    let mut dst = vec![0u8; 65536];
    match t.update_timers(&mut dst) {
        boringtun::noise::TunnResult::WriteToNetwork(d) => TunnVerdict::ToNetwork(d.to_vec()),
        boringtun::noise::TunnResult::WriteToTunnelV4(d, _) => TunnVerdict::ToTunnel(d.to_vec()),
        boringtun::noise::TunnResult::WriteToTunnelV6(d, _) => TunnVerdict::ToTunnel(d.to_vec()),
        boringtun::noise::TunnResult::Done => TunnVerdict::Quiet,
        boringtun::noise::TunnResult::Err(_) => TunnVerdict::Failure,
    }
}

/// The live session of the embedded backend: the cryptographic tunnel
/// state, the peer endpoint, and the pump's running flag.
pub struct TunnelSession {
    pub tunn: boringtun::noise::Tunn,
    pub endpoint: Endpoint,
    pub running: bool,
}

/// The platform layer's report of bringing the tunnel link up. The
/// backend is selected at startup by the platform layer: the embedded
/// engine reports its virtual adapter and peer socket, the
/// external-tool backend reports the tool's run. Performing that
/// outside work is the platform layer's job; deciding on the outcome
/// is the driver's.
pub enum LinkSetup {
    /// Embedded engine: adapter and socket are ready.
    Ready,
    /// Embedded engine: creating the virtual adapter failed with the
    /// given message.
    AdapterFailed(String),
    /// Embedded engine: binding or connecting the peer socket failed
    /// with the given message.
    SocketFailed(String),
    /// External tool: the tool brought the interface up.
    ToolSucceeded,
    /// External tool: the tool ran and failed with the given text.
    ToolFailed(String),
    /// External tool: the tool could not be launched.
    ToolMissing(String),
}

impl LinkSetup {
    /// The outcomes of the embedded engine, whose connect decodes and
    /// validates the configuration before anything else.
    pub open spec fn is_embedded(self) -> bool {
        self is Ready || self is AdapterFailed || self is SocketFailed
    }
}

/// The message used when adapter creation is refused for privileges.
pub open spec fn spec_admin_msg() -> Seq<char> {
    "Administrator privileges required to create VPN tunnel"@
}

/// Classifies an adapter-creation failure: an access-denied message
/// means missing privileges; anything else is a generic tunnel error.
pub fn classify_adapter_failure(m: String) -> (r: VpnError)
    ensures
        contains_seq(m@, "Access"@) ==> (r matches VpnError::PermissionDenied(t) && t@
            == spec_admin_msg()),
        !contains_seq(m@, "Access"@) ==> (r matches VpnError::WireGuardError(t) && t@
            == "Failed to create adapter: "@ + m@),
{
    if contains_substr(m.as_str(), "Access") {
        VpnError::PermissionDenied(
            String::from_str("Administrator privileges required to create VPN tunnel"),
        )
    } else {
        let mut t = String::from_str("Failed to create adapter: ");
        t.append(m.as_str());
        VpnError::WireGuardError(t)
    }
}

/// One route to install: destination, mask, gateway.
#[derive(Debug, Clone, Copy, PartialEq, Eq)]
pub struct RouteRule {
    pub dest: Ipv4,
    pub mask: Ipv4,
    pub gateway: Ipv4,
}

/// The tunnel gateway the installed routes point at.
pub open spec fn spec_tunnel_gateway() -> Ipv4 {
    Ipv4 { a: 10, b: 70, c: 0, d: 1 }
}

/// The two complementary half-range routes that together cover every
/// destination without replacing the existing default route.
pub open spec fn spec_half_range_routes() -> Seq<RouteRule> {
    seq![
        RouteRule {
            dest: Ipv4 { a: 0, b: 0, c: 0, d: 0 },
            mask: Ipv4 { a: 128, b: 0, c: 0, d: 0 },
            gateway: spec_tunnel_gateway(),
        },
        RouteRule {
            dest: Ipv4 { a: 128, b: 0, c: 0, d: 0 },
            mask: Ipv4 { a: 128, b: 0, c: 0, d: 0 },
            gateway: spec_tunnel_gateway(),
        },
    ]
}

/// The routes installed for a list of allowed ranges: two half-range
/// routes for each occurrence of the universal range.
pub open spec fn spec_routes_for(l: Seq<Seq<char>>) -> Seq<RouteRule>
    decreases l.len(),
{
    if l.len() == 0 {
        Seq::empty()
    } else {
        (if l[0] == "0.0.0.0/0"@ {
            spec_half_range_routes()
        } else {
            Seq::empty()
        }) + spec_routes_for(l.drop_first())
    }
}

/// Decides which routes the platform layer must install so that the
/// allowed destination ranges are reached through the tunnel. The
/// universal range becomes two complementary half-ranges through the
/// tunnel gateway, so the default route that carries the control
/// connection to the peer survives.
pub fn routes_for(allowed_ips: &Vec<String>) -> (r: Vec<RouteRule>)
    ensures
        r@ == spec_routes_for(crate::text::seq_views(allowed_ips@)),
{
    let r = routes_from(allowed_ips, 0);
    proof {
        assert(crate::text::seq_views(allowed_ips@).skip(0) =~= crate::text::seq_views(
            allowed_ips@,
        ));
    }
    r
}

fn routes_from(allowed_ips: &Vec<String>, i: usize) -> (r: Vec<RouteRule>)
    requires
        i <= allowed_ips.len(),
    ensures
        r@ == spec_routes_for(crate::text::seq_views(allowed_ips@).skip(i as int)),
    decreases allowed_ips.len() - i,
{
    let ghost l = crate::text::seq_views(allowed_ips@).skip(i as int);
    if i == allowed_ips.len() {
        let r: Vec<RouteRule> = Vec::new();
        proof {
            assert(l =~= Seq::<Seq<char>>::empty());
        }
        r
    } else {
        let mut rest = routes_from(allowed_ips, i + 1);
        proof {
            assert(l.drop_first() =~= crate::text::seq_views(allowed_ips@).skip(i + 1));
            assert(l[0] == allowed_ips@[i as int]@);
        }
        if str_eq(allowed_ips[i].as_str(), "0.0.0.0/0") {
            let gateway = Ipv4 { a: 10, b: 70, c: 0, d: 1 };
            let mut r: Vec<RouteRule> = Vec::new();
            r.push(
                RouteRule {
                    dest: Ipv4 { a: 0, b: 0, c: 0, d: 0 },
                    mask: Ipv4 { a: 128, b: 0, c: 0, d: 0 },
                    gateway,
                },
            );
            r.push(
                RouteRule {
                    dest: Ipv4 { a: 128, b: 0, c: 0, d: 0 },
                    mask: Ipv4 { a: 128, b: 0, c: 0, d: 0 },
                    gateway,
                },
            );
            r.append(&mut rest);
            proof {
                assert(r@ =~= spec_half_range_routes() + spec_routes_for(l.drop_first()));
            }
            r
        } else {
            proof {
                assert(rest@ =~= Seq::<RouteRule>::empty() + spec_routes_for(l.drop_first()));
            }
            rest
        }
    }
}

/// The embedded tunnel driver: owns the session and the transfer
/// counters while connected.
pub struct WireGuardManager {
    pub tunnel_name: String,
    pub is_connected: bool,
    pub bytes_received: u64,
    pub bytes_sent: u64,
    pub session: Option<TunnelSession>,
}

impl WireGuardManager {
    /// A fresh driver: not connected, counters zero, no session, and
    /// the fixed tunnel name.
    pub fn new() -> (r: Self)
        ensures
            !r.is_connected,
            r.bytes_received == 0,
            r.bytes_sent == 0,
            r.session is None,
            r.tunnel_name@ == "SACVPN"@,
    {
        WireGuardManager {
            tunnel_name: String::from_str("SACVPN"),
            is_connected: false,
            bytes_received: 0,
            bytes_sent: 0,
            session: None,
        }
    }

    /// Establishes the tunnel, deciding on the platform layer's
    /// report for whichever backend it selected.
    ///
    /// Embedded outcomes: validation comes first, so an invalid
    /// configuration is rejected as a configuration error before any
    /// platform outcome is consulted; a failed adapter is classified
    /// (an access-denied text means missing privileges); a failed
    /// socket is a generic tunnel error; when everything is ready the
    /// cryptographic session is built and the driver is connected.
    ///
    /// External-tool outcomes: a successful run connects the driver
    /// without an embedded session; a failed run is classified by its
    /// text (permission phrases mean missing privileges); a tool that
    /// could not be launched is reported as missing.
    pub fn connect(&mut self, config: &VpnConfig, link: LinkSetup) -> (r: Result<(), VpnError>)
        ensures
            link.is_embedded() && !spec_config_valid(config@) ==> {
                &&& r matches Err(e) && e matches VpnError::ConfigError(m) && m@
                    == spec_config_fault_msg(config@)
                &&& *final(self) == *old(self)
            },
            link.is_embedded() && spec_config_valid(config@) ==> match link {
                LinkSetup::AdapterFailed(m) => {
                    &&& *final(self) == *old(self)
                    &&& (contains_seq(m@, "Access"@) ==> (r matches Err(e) && e matches
                        VpnError::PermissionDenied(t) && t@ == spec_admin_msg()))
                    &&& (!contains_seq(m@, "Access"@) ==> (r matches Err(e) && e matches
                        VpnError::WireGuardError(t) && t@ == "Failed to create adapter: "@ + m@))
                },
                LinkSetup::SocketFailed(m) => {
                    &&& *final(self) == *old(self)
                    &&& r matches Err(e) && e matches VpnError::WireGuardError(t) && t@ == m@
                },
                LinkSetup::Ready => {
                    &&& r is Ok
                    &&& final(self).is_connected
                    &&& final(self).session matches Some(s) && s.running && Some(s.endpoint)
                        == spec_parse_endpoint(config@.peer.endpoint)
                    &&& final(self).bytes_received == old(self).bytes_received
                    &&& final(self).bytes_sent == old(self).bytes_sent
                    &&& final(self).tunnel_name == old(self).tunnel_name
                },
                _ => true,
            },
            link is ToolSucceeded ==> {
                &&& r is Ok
                &&& final(self).is_connected
                &&& final(self).session == old(self).session
                &&& final(self).bytes_received == old(self).bytes_received
                &&& final(self).bytes_sent == old(self).bytes_sent
                &&& final(self).tunnel_name == old(self).tunnel_name
            },
            link matches LinkSetup::ToolFailed(m) ==> {
                &&& *final(self) == *old(self)
                &&& (spec_tool_permission_fault(m@) ==> (r matches Err(e) && e matches
                    VpnError::PermissionDenied(t) && t@ == "WireGuard requires root privileges"@))
                &&& (!spec_tool_permission_fault(m@) ==> (r matches Err(e) && e matches
                    VpnError::WireGuardError(t) && t@ == "wg-quick failed: "@ + m@))
            },
            link matches LinkSetup::ToolMissing(m) ==> {
                &&& *final(self) == *old(self)
                &&& r matches Err(e) && e matches VpnError::WireGuardError(t) && t@
                    == "WireGuard tools not found: "@ + m@
            },
    {
        match link {
            LinkSetup::ToolSucceeded => {
                self.is_connected = true;
                Ok(())
            },
            LinkSetup::ToolFailed(m) => Err(crate::tool::classify_tool_failure(m)),
            LinkSetup::ToolMissing(m) => {
                let mut t = String::from_str("WireGuard tools not found: ");
                t.append(m.as_str());
                Err(VpnError::WireGuardError(t))
            },
            embedded => {
                let v = match validate_config(config) {
                    Err(e) => {
                        return Err(e);
                    },
                    Ok(v) => v,
                };
                match embedded {
                    LinkSetup::AdapterFailed(m) => Err(classify_adapter_failure(m)),
                    LinkSetup::SocketFailed(m) => Err(VpnError::WireGuardError(m)),
                    _ => {
                        let tunn = tunn_new(&v.private_key, &v.peer_public_key, v.keepalive);
                        self.session = Some(
                            TunnelSession { tunn, endpoint: v.endpoint, running: true },
                        );
                        self.is_connected = true;
                        Ok(())
                    },
                }
            },
        }
    }

    /// Tears the tunnel down: the session (and with it the adapter
    /// handle the platform layer holds against it) is dropped and the
    /// counters are zeroed. Always succeeds, so a second call is
    /// harmless.
    pub fn disconnect(&mut self) -> (r: Result<(), VpnError>)
        ensures
            r is Ok,
            !final(self).is_connected,
            final(self).session is None,
            final(self).bytes_received == 0,
            final(self).bytes_sent == 0,
            final(self).tunnel_name == old(self).tunnel_name,
    {
        self.session = None;
        self.is_connected = false;
        self.bytes_received = 0;
        self.bytes_sent = 0;
        Ok(())
    }

    /// Cumulative transfer counters as `(received, sent)`; `(0, 0)`
    /// rather than an error when not connected.
    pub fn get_transfer_stats(&self) -> (r: Result<(u64, u64), VpnError>)
        ensures
            r is Ok,
            self.is_connected ==> (r matches Ok(p) && p == (self.bytes_received,
            self.bytes_sent)),
            !self.is_connected ==> (r matches Ok(p) && p == (0u64, 0u64)),
    {
        if !self.is_connected {
            return Ok((0, 0));
        }
        Ok((self.bytes_received, self.bytes_sent))
    }

    /// Whether the pump may move packets: a running session exists.
    pub open spec fn spec_pumping(self) -> bool {
        self.session matches Some(s) && s.running
    }

    /// Everything except the counters and the opaque tunnel state is
    /// unchanged.
    pub open spec fn spec_same_but_counters(pre: Self, post: Self) -> bool {
        &&& post.is_connected == pre.is_connected
        &&& post.tunnel_name == pre.tunnel_name
        &&& post.session is Some <==> pre.session is Some
        &&& pre.session matches Some(s) ==> post.session matches Some(t) && t.endpoint
            == s.endpoint && t.running == s.running
    }

    /// One outbound pump step: accounts one packet read from the
    /// virtual adapter against the sent-byte counter, encapsulates it,
    /// and hands back the bytes to send to the peer, if the protocol
    /// produced any. Without a running session nothing happens.
    pub fn pump_outbound(&mut self, packet: &[u8]) -> (r: Option<Vec<u8>>)
        requires
            packet@.len() <= 65504,
        ensures
            !old(self).spec_pumping() ==> *final(self) == *old(self) && r is None,
            old(self).spec_pumping() ==> {
                &&& final(self).bytes_sent == old(self).bytes_sent.saturating_add(
                    packet@.len() as u64,
                )
                &&& final(self).bytes_received == old(self).bytes_received
                &&& Self::spec_same_but_counters(*old(self), *final(self))
            },
    {
        let pumping = match &self.session {
            Some(s) => s.running,
            None => false,
        };
        if !pumping {
            return None;
        }
        self.bytes_sent = self.bytes_sent.saturating_add(packet.len() as u64);
        match &mut self.session {
            Some(s) => {
                match tunn_encapsulate(&mut s.tunn, packet) {
                    TunnVerdict::ToNetwork(d) => Some(d),
                    _ => None,
                }
            },
            None => None,
        }
    }

    /// One inbound pump step: accounts one datagram received from the
    /// peer against the received-byte counter, decapsulates it, and
    /// hands back what the protocol asks for — plaintext for the
    /// adapter, a handshake reply for the network, or nothing. Without
    /// a running session nothing happens.
    pub fn pump_inbound(&mut self, datagram: &[u8]) -> (r: TunnVerdict)
        requires
            datagram@.len() <= 65536,
        ensures
            !old(self).spec_pumping() ==> *final(self) == *old(self) && r is Quiet,
            old(self).spec_pumping() ==> {
                &&& final(self).bytes_received == old(self).bytes_received.saturating_add(
                    datagram@.len() as u64,
                )
                &&& final(self).bytes_sent == old(self).bytes_sent
                &&& Self::spec_same_but_counters(*old(self), *final(self))
            },
    {
        let pumping = match &self.session {
            Some(s) => s.running,
            None => false,
        };
        if !pumping {
            return TunnVerdict::Quiet;
        }
        self.bytes_received = self.bytes_received.saturating_add(datagram.len() as u64);
        match &mut self.session {
            Some(s) => tunn_decapsulate(&mut s.tunn, datagram),
            None => TunnVerdict::Quiet,
        }
    }

    /// One timer step: drives the protocol's retransmission and
    /// keepalive timers and hands back a packet to send, if one is
    /// due. Counters are untouched.
    pub fn pump_timers(&mut self) -> (r: Option<Vec<u8>>)
        ensures
            !old(self).spec_pumping() ==> *final(self) == *old(self) && r is None,
            old(self).spec_pumping() ==> {
                &&& final(self).bytes_received == old(self).bytes_received
                &&& final(self).bytes_sent == old(self).bytes_sent
                &&& Self::spec_same_but_counters(*old(self), *final(self))
            },
    {
        let pumping = match &self.session {
            Some(s) => s.running,
            None => false,
        };
        if !pumping {
            return None;
        }
        match &mut self.session {
            Some(s) => {
                match tunn_update_timers(&mut s.tunn) {
                    TunnVerdict::ToNetwork(d) => Some(d),
                    _ => None,
                }
            },
            None => None,
        }
    }
}

impl Default for WireGuardManager {
    fn default() -> (r: Self)
        ensures
            !r.is_connected,
            r.bytes_received == 0,
            r.bytes_sent == 0,
            r.session is None,
    {
        WireGuardManager::new()
    }
}

} // verus!
