//! Tunnel configuration: the immutable description of one tunnel and
//! its validation.
//!
//! A configuration carries the local identity and address, resolvers,
//! the peer identity and endpoint, the allowed destination ranges and
//! the keepalive interval. Validation decodes both keys (which must be
//! base64 of exactly 32 bytes), the peer endpoint and the client
//! address, and reports the first fault as a configuration error.

use vstd::prelude::*;

use crate::addr::spec_parse_client_ip;
use crate::addr::spec_parse_endpoint;
use crate::addr::Endpoint;
use crate::addr::Ipv4;
use crate::text::seq_views;
use crate::types::VpnError;

use base64::Engine;
use vstd::string::StringExecFns;

verus! {

/// The `[Interface]` half of a configuration.
#[derive(Debug, Clone)]
pub struct InterfaceConfig {
    pub private_key: String,
    pub address: String,
    pub dns: Vec<String>,
    pub mtu: Option<u32>,
}

/// The `[Peer]` half of a configuration.
#[derive(Debug, Clone)]
pub struct PeerConfig {
    pub public_key: String,
    pub endpoint: String,
    pub allowed_ips: Vec<String>,
    pub persistent_keepalive: Option<u32>,
}

/// One tunnel description.
#[derive(Debug, Clone)]
pub struct VpnConfig {
    pub interface: InterfaceConfig,
    pub peer: PeerConfig,
}

/// Mathematical view of an `[Interface]` block.
pub ghost struct InterfaceV {
    pub private_key: Seq<char>,
    pub address: Seq<char>,
    pub dns: Seq<Seq<char>>,
    pub mtu: Option<u32>,
}

/// Mathematical view of a `[Peer]` block.
pub ghost struct PeerV {
    pub public_key: Seq<char>,
    pub endpoint: Seq<char>,
    pub allowed_ips: Seq<Seq<char>>,
    pub persistent_keepalive: Option<u32>,
}

/// Mathematical view of a whole configuration.
pub ghost struct ConfigV {
    pub interface: InterfaceV,
    pub peer: PeerV,
}

impl View for InterfaceConfig {
    type V = InterfaceV;

    open spec fn view(&self) -> InterfaceV {
        InterfaceV {
            private_key: self.private_key@,
            address: self.address@,
            dns: seq_views(self.dns@),
            mtu: self.mtu,
        }
    }
}

impl View for PeerConfig {
    type V = PeerV;

    open spec fn view(&self) -> PeerV {
        PeerV {
            public_key: self.public_key@,
            endpoint: self.endpoint@,
            allowed_ips: seq_views(self.allowed_ips@),
            persistent_keepalive: self.persistent_keepalive,
        }
    }
}

impl View for VpnConfig {
    type V = ConfigV;

    open spec fn view(&self) -> ConfigV {
        ConfigV { interface: self.interface@, peer: self.peer@ }
    }
}

/// What base64's standard-engine `decode` returns for a given text:
/// the decoded bytes, or nothing when the text is not valid
/// standard-alphabet base64.
pub uninterp spec fn base64_decode_of(s: Seq<char>) -> Option<Seq<u8>>;

/// Relies on base64's `Engine::decode` with the `STANDARD` engine;
/// the result is a function of the input text alone.
#[verifier::external_body]
fn b64_decode(s: &str) -> (r: Option<Vec<u8>>)
    ensures
        r is Some <==> base64_decode_of(s@) is Some,
        r matches Some(v) ==> base64_decode_of(s@) == Some(v@),
{
    match base64::engine::general_purpose::STANDARD.decode(s) {
        Ok(v) => Some(v),
        Err(_) => None,
    }
}

/// A key is valid when it is base64 text denoting exactly 32 bytes.
pub open spec fn spec_valid_key(s: Seq<char>) -> bool {
    base64_decode_of(s) matches Some(b) && b.len() == 32
}

/// A configuration is valid when both keys decode to 32 bytes, the
/// peer endpoint parses, and the client address has an IPv4 host part.
pub open spec fn spec_config_valid(c: ConfigV) -> bool {
    &&& spec_valid_key(c.interface.private_key)
    &&& spec_valid_key(c.peer.public_key)
    &&& spec_parse_endpoint(c.peer.endpoint) is Some
    &&& spec_parse_client_ip(c.interface.address) is Some
}

/// The message reported for the first fault found in an invalid
/// configuration, in validation order.
pub open spec fn spec_config_fault_msg(c: ConfigV) -> Seq<char> {
    if base64_decode_of(c.interface.private_key) is None {
        "Invalid private key"@
    } else if base64_decode_of(c.interface.private_key)->0.len() != 32 {
        "Private key must be 32 bytes"@
    } else if base64_decode_of(c.peer.public_key) is None {
        "Invalid peer public key"@
    } else if base64_decode_of(c.peer.public_key)->0.len() != 32 {
        "Peer public key must be 32 bytes"@
    } else if spec_parse_endpoint(c.peer.endpoint) is None {
        "Invalid endpoint"@
    } else {
        "Invalid client IP"@
    }
}

/// The keepalive interval handed to the tunnel, narrowed to the width
/// the protocol library takes.
pub open spec fn spec_keepalive_of(k: Option<u32>) -> Option<u16> {
    match k {
        None => None,
        Some(v) => Some(v as u16),
    }
}

/// The decoded, machine-level form of a valid configuration.
#[derive(Debug)]
pub struct ValidatedConfig {
    pub private_key: Vec<u8>,
    pub peer_public_key: Vec<u8>,
    pub client_ip: Ipv4,
    pub endpoint: Endpoint,
    pub keepalive: Option<u16>,
}

impl ValidatedConfig {
    /// Both decoded keys hold exactly 32 bytes.
    pub open spec fn wf(self) -> bool {
        self.private_key@.len() == 32 && self.peer_public_key@.len() == 32
    }
}

/// Decodes and checks a configuration. Succeeds exactly on valid
/// configurations; on an invalid one, reports the first fault in
/// validation order as a configuration error.
pub fn validate_config(c: &VpnConfig) -> (r: Result<ValidatedConfig, VpnError>)
    ensures
        r is Ok <==> spec_config_valid(c@),
        r matches Ok(v) ==> {
            &&& v.wf()
            &&& base64_decode_of(c@.interface.private_key) == Some(v.private_key@)
            &&& base64_decode_of(c@.peer.public_key) == Some(v.peer_public_key@)
            &&& spec_parse_endpoint(c@.peer.endpoint) == Some(v.endpoint)
            &&& spec_parse_client_ip(c@.interface.address) == Some(v.client_ip)
            &&& v.keepalive == spec_keepalive_of(c@.peer.persistent_keepalive)
        },
        r matches Err(e) ==> e matches VpnError::ConfigError(m) && m@ == spec_config_fault_msg(
            c@,
        ),
{
    let private_key = match b64_decode(c.interface.private_key.as_str()) {
        None => {
            return Err(VpnError::ConfigError(string_lit("Invalid private key")));
        },
        Some(v) => v,
    };
    if private_key.len() != 32 {
        return Err(VpnError::ConfigError(string_lit("Private key must be 32 bytes")));
    }
    let peer_public_key = match b64_decode(c.peer.public_key.as_str()) {
        None => {
            return Err(VpnError::ConfigError(string_lit("Invalid peer public key")));
        },
        Some(v) => v,
    };
    if peer_public_key.len() != 32 {
        return Err(VpnError::ConfigError(string_lit("Peer public key must be 32 bytes")));
    }
    let endpoint = match crate::addr::parse_endpoint(c.peer.endpoint.as_str()) {
        None => {
            return Err(VpnError::ConfigError(string_lit("Invalid endpoint")));
        },
        Some(e) => e,
    };
    let client_ip = match crate::addr::parse_client_ip(c.interface.address.as_str()) {
        None => {
            return Err(VpnError::ConfigError(string_lit("Invalid client IP")));
        },
        Some(ip) => ip,
    };
    let keepalive = match c.peer.persistent_keepalive {
        None => None,
        Some(v) => Some(#[verifier::truncate] (v as u16)),
    };
    Ok(ValidatedConfig { private_key, peer_public_key, client_ip, endpoint, keepalive })
}

/// A literal as an owned string.
fn string_lit(s: &str) -> (r: String)
    ensures
        r@ == s@,
{
    String::from_str(s)
}

} // verus!
