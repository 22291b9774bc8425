//! Core value types: errors, connection status, statistics, server records.

use vstd::prelude::*;
use vstd::string::StringExecFns;

verus! {

/// Errors reported by the tunnel lifecycle operations.
#[derive(Debug, Clone, PartialEq)]
pub enum VpnError {
    ConnectionFailed(String),
    DisconnectionFailed(String),
    ConfigError(String),
    NotConnected,
    AlreadyConnected,
    PlatformNotSupported,
    WireGuardError(String),
    PermissionDenied(String),
}

impl VpnError {
    /// The operator-visible text of this error.
    pub open spec fn spec_message(self) -> Seq<char> {
        match self {
            VpnError::ConnectionFailed(s) => "Connection failed: "@ + s@,
            VpnError::DisconnectionFailed(s) => "Disconnection failed: "@ + s@,
            VpnError::ConfigError(s) => "Configuration error: "@ + s@,
            VpnError::NotConnected => "Not connected"@,
            VpnError::AlreadyConnected => "Already connected"@,
            VpnError::PlatformNotSupported => "Platform not supported"@,
            VpnError::WireGuardError(s) => "WireGuard error: "@ + s@,
            VpnError::PermissionDenied(s) => "Permission denied: "@ + s@,
        }
    }

    /// Renders the error as the text shown to the operator and stored in
    /// the `Error` status.
    pub fn message(&self) -> (r: String)
        ensures
            r@ == self.spec_message(),
    {
        match self {
            VpnError::ConnectionFailed(s) => {
                let mut m = String::from_str("Connection failed: ");
                m.append(s.as_str());
                m
            },
            VpnError::DisconnectionFailed(s) => {
                let mut m = String::from_str("Disconnection failed: ");
                m.append(s.as_str());
                m
            },
            VpnError::ConfigError(s) => {
                let mut m = String::from_str("Configuration error: ");
                m.append(s.as_str());
                m
            },
            VpnError::NotConnected => String::from_str("Not connected"),
            VpnError::AlreadyConnected => String::from_str("Already connected"),
            VpnError::PlatformNotSupported => String::from_str("Platform not supported"),
            VpnError::WireGuardError(s) => {
                let mut m = String::from_str("WireGuard error: ");
                m.append(s.as_str());
                m
            },
            VpnError::PermissionDenied(s) => {
                let mut m = String::from_str("Permission denied: ");
                m.append(s.as_str());
                m
            },
        }
    }
}

/// The lifecycle state of the single managed tunnel.
#[derive(Debug, Clone, PartialEq)]
pub enum VpnStatus {
    Disconnected,
    Connecting,
    Connected,
    Disconnecting,
    Error(String),
}

impl VpnStatus {
    /// A field-preserving copy, usable from verified code.
    pub fn snapshot(&self) -> (r: VpnStatus)
        ensures
            r == *self,
    {
        match self {
            VpnStatus::Disconnected => VpnStatus::Disconnected,
            VpnStatus::Connecting => VpnStatus::Connecting,
            VpnStatus::Connected => VpnStatus::Connected,
            VpnStatus::Disconnecting => VpnStatus::Disconnecting,
            VpnStatus::Error(m) => VpnStatus::Error(m.clone()),
        }
    }
}

/// Cumulative transfer statistics for the active connection.
///
/// `total_uploaded` and `total_downloaded` are cumulative byte counts;
/// the speed fields are the delta observed over the last sampling
/// interval. `connected_since` is a Unix timestamp, present exactly
/// while a connection is established.
#[derive(Clone, Copy, Debug, PartialEq)]
pub struct ConnectionStats {
    pub upload_speed: u64,
    pub download_speed: u64,
    pub total_uploaded: u64,
    pub total_downloaded: u64,
    pub connected_since: Option<i64>,
}

impl ConnectionStats {
    /// All counters zero, no connection timestamp.
    pub open spec fn spec_zeroed() -> ConnectionStats {
        ConnectionStats {
            upload_speed: 0,
            download_speed: 0,
            total_uploaded: 0,
            total_downloaded: 0,
            connected_since: None,
        }
    }

    pub fn zeroed() -> (r: ConnectionStats)
        ensures
            r == Self::spec_zeroed(),
    {
        ConnectionStats {
            upload_speed: 0,
            download_speed: 0,
            total_uploaded: 0,
            total_downloaded: 0,
            connected_since: None,
        }
    }
}

impl Default for ConnectionStats {
    fn default() -> (r: ConnectionStats)
        ensures
            r == Self::spec_zeroed(),
    {
        ConnectionStats::zeroed()
    }
}

/// One entry of the remote server list.
#[derive(Debug, Clone)]
pub struct Server {
    pub id: String,
    pub name: String,
    pub country: String,
    pub country_code: String,
    pub city: String,
    pub ip: String,
    pub public_key: String,
    pub load: u8,
    pub latency: u32,
}

} // verus!
