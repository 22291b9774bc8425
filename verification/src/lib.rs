//! Lifecycle management for a single encrypted tunnel connection.
//!
//! The crate models the connection state machine that serializes
//! connect/disconnect/status/stats operations against one logical tunnel,
//! the configuration codec for the canonical text format, and the
//! byte-accounting core of the userspace packet-forwarding engine.

pub mod addr;
pub mod codec;
pub mod config;
pub mod manager;
pub mod text;
pub mod tool;
pub mod types;
pub mod wireguard;

pub use config::InterfaceConfig;
pub use config::PeerConfig;
pub use config::VpnConfig;
pub use manager::VpnManager;
pub use types::ConnectionStats;
pub use types::Server;
pub use types::VpnError;
pub use types::VpnStatus;
pub use wireguard::WireGuardManager;
