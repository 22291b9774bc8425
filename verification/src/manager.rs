//! The connection state machine: serializes connect, disconnect,
//! status and statistics operations against the single managed tunnel.
//!
//! Status, statistics and the stored configuration are owned by the
//! manager; the surrounding application serializes concurrent access
//! to the whole manager.

use vstd::prelude::*;

use crate::config::spec_config_fault_msg;
use crate::config::spec_config_valid;
use crate::config::VpnConfig;
use crate::text::contains_seq;
use crate::tool::spec_tool_permission_fault;
use crate::types::ConnectionStats;
use crate::types::VpnError;
use crate::types::VpnStatus;
use crate::wireguard::LinkSetup;
use crate::wireguard::WireGuardManager;

verus! {

/// Relies on chrono's `Utc::now`: the seconds of the current Unix
/// time. Nothing is assumed of the value.
#[verifier::external_body]
fn now_timestamp() -> i64 {
    chrono::Utc::now().timestamp()
}

/// The top-level connection manager.
pub struct VpnManager {
    pub status: VpnStatus,
    pub stats: ConnectionStats,
    pub current_config: Option<VpnConfig>,
    pub wireguard: WireGuardManager,
}

impl VpnManager {
    /// A fresh manager: disconnected, statistics zeroed, no stored
    /// configuration, driver idle.
    pub fn new() -> (r: Self)
        ensures
            r.status is Disconnected,
            r.stats == ConnectionStats::spec_zeroed(),
            r.current_config is None,
            !r.wireguard.is_connected,
            r.wireguard.bytes_received == 0,
            r.wireguard.bytes_sent == 0,
            r.wireguard.session is None,
    {
        VpnManager {
            status: VpnStatus::Disconnected,
            stats: ConnectionStats::zeroed(),
            current_config: None,
            wireguard: WireGuardManager::new(),
        }
    }

    /// Connects the tunnel, using `link` as the platform layer's
    /// report of bringing the selected backend up.
    ///
    /// A second connect without an intervening disconnect fails with
    /// `AlreadyConnected` and changes nothing. Otherwise the
    /// configuration is stored (also on failure, for diagnostics), the
    /// driver is asked to connect, and on success the status becomes
    /// `Connected` with a fresh connection timestamp and zeroed
    /// totals; on failure the status records the error's message and
    /// the error is returned.
    pub fn connect(&mut self, config: VpnConfig, link: LinkSetup) -> (r: Result<(), VpnError>)
        ensures
            old(self).status is Connected ==> (r matches Err(e) && e is AlreadyConnected)
                && *final(self) == *old(self),
            !(old(self).status is Connected) ==> {
                &&& final(self).current_config == Some(config)
                &&& (link.is_embedded() && !spec_config_valid(config@) ==> (r matches Err(e)
                    && e matches VpnError::ConfigError(m) && m@ == spec_config_fault_msg(config@)))
                &&& (link.is_embedded() && spec_config_valid(config@) ==> match link {
                    LinkSetup::Ready => r is Ok,
                    LinkSetup::AdapterFailed(m) => {
                        &&& (contains_seq(m@, "Access"@) ==> (r matches Err(e) && e matches
                            VpnError::PermissionDenied(t) && t@
                            == crate::wireguard::spec_admin_msg()))
                        &&& (!contains_seq(m@, "Access"@) ==> (r matches Err(e) && e matches
                            VpnError::WireGuardError(t) && t@ == "Failed to create adapter: "@
                            + m@))
                    },
                    LinkSetup::SocketFailed(m) => r matches Err(e) && e matches
                        VpnError::WireGuardError(t) && t@ == m@,
                    _ => true,
                })
                &&& (link is ToolSucceeded ==> r is Ok)
                &&& (link matches LinkSetup::ToolFailed(m) ==> {
                    &&& (spec_tool_permission_fault(m@) ==> (r matches Err(e) && e matches
                        VpnError::PermissionDenied(t) && t@
                        == "WireGuard requires root privileges"@))
                    &&& (!spec_tool_permission_fault(m@) ==> (r matches Err(e) && e matches
                        VpnError::WireGuardError(t) && t@ == "wg-quick failed: "@ + m@))
                })
                &&& (link matches LinkSetup::ToolMissing(m) ==> (r matches Err(e) && e matches
                    VpnError::WireGuardError(t) && t@ == "WireGuard tools not found: "@ + m@))
                &&& (r is Ok ==> {
                    &&& final(self).status is Connected
                    &&& final(self).stats.connected_since is Some
                    &&& final(self).stats.total_uploaded == 0
                    &&& final(self).stats.total_downloaded == 0
                    &&& final(self).stats.upload_speed == old(self).stats.upload_speed
                    &&& final(self).stats.download_speed == old(self).stats.download_speed
                    &&& final(self).wireguard.is_connected
                    &&& (link is Ready ==> final(self).wireguard.session is Some)
                    &&& final(self).wireguard.bytes_received == old(self).wireguard.bytes_received
                    &&& final(self).wireguard.bytes_sent == old(self).wireguard.bytes_sent
                })
                &&& (r matches Err(e) ==> {
                    &&& final(self).status matches VpnStatus::Error(t) && t@ == e.spec_message()
                    &&& final(self).stats == old(self).stats
                    &&& final(self).wireguard == old(self).wireguard
                })
            },
    {
        match &self.status {
            VpnStatus::Connected => {
                return Err(VpnError::AlreadyConnected);
            },
            _ => {},
        }
        self.status = VpnStatus::Connecting;
        match self.wireguard.connect(&config, link) {
            Ok(()) => {
                self.status = VpnStatus::Connected;
                let now = now_timestamp();
                self.stats.connected_since = Some(now);
                self.stats.total_uploaded = 0;
                self.stats.total_downloaded = 0;
                self.current_config = Some(config);
                Ok(())
            },
            Err(e) => {
                let msg = e.message();
                self.status = VpnStatus::Error(msg);
                self.current_config = Some(config);
                Err(e)
            },
        }
    }

    /// Disconnects the tunnel.
    ///
    /// On a manager that is already disconnected this fails with
    /// `NotConnected` and changes nothing. Otherwise the driver tears
    /// the session down, the status returns to `Disconnected`, the
    /// stored configuration is cleared, and the statistics are zeroed.
    pub fn disconnect(&mut self) -> (r: Result<(), VpnError>)
        ensures
            old(self).status is Disconnected ==> (r matches Err(e) && e is NotConnected)
                && *final(self) == *old(self),
            !(old(self).status is Disconnected) ==> {
                &&& r is Ok
                &&& final(self).status is Disconnected
                &&& final(self).current_config is None
                &&& final(self).stats == ConnectionStats::spec_zeroed()
                &&& !final(self).wireguard.is_connected
                &&& final(self).wireguard.session is None
                &&& final(self).wireguard.bytes_received == 0
                &&& final(self).wireguard.bytes_sent == 0
            },
    {
        match &self.status {
            VpnStatus::Disconnected => {
                return Err(VpnError::NotConnected);
            },
            _ => {},
        }
        self.status = VpnStatus::Disconnecting;
        match self.wireguard.disconnect() {
            Ok(()) => {
                self.status = VpnStatus::Disconnected;
                self.current_config = None;
                self.stats = ConnectionStats::zeroed();
                Ok(())
            },
            Err(e) => {
                // The embedded driver's teardown cannot fail; kept for
                // the driver contract's error shape.
                let msg = e.message();
                self.status = VpnStatus::Error(msg);
                Err(e)
            },
        }
    }

    /// A snapshot of the current status.
    pub fn get_status(&self) -> (r: VpnStatus)
        ensures
            r == self.status,
    {
        self.status.snapshot()
    }

    /// A snapshot of the current statistics.
    pub fn get_stats(&self) -> (r: ConnectionStats)
        ensures
            r == self.stats,
    {
        self.stats
    }

    /// Samples the driver's cumulative counters and derives speeds.
    ///
    /// A no-op unless the status is `Connected`. Speeds are the delta
    /// against the previous totals, clamped at zero: even if a counter
    /// is observed to regress, no speed is ever negative.
    pub fn update_stats(&mut self) -> (r: Result<(), VpnError>)
        ensures
            r is Ok,
            !(old(self).status is Connected) ==> *final(self) == *old(self),
            old(self).status is Connected ==> {
                let rx = if old(self).wireguard.is_connected {
                    old(self).wireguard.bytes_received
                } else {
                    0u64
                };
                let tx = if old(self).wireguard.is_connected {
                    old(self).wireguard.bytes_sent
                } else {
                    0u64
                };
                &&& final(self).stats.total_downloaded == rx
                &&& final(self).stats.total_uploaded == tx
                &&& final(self).stats.download_speed == (if rx >= old(self).stats.total_downloaded {
                    (rx - old(self).stats.total_downloaded) as u64
                } else {
                    0u64
                })
                &&& final(self).stats.upload_speed == (if tx >= old(self).stats.total_uploaded {
                    (tx - old(self).stats.total_uploaded) as u64
                } else {
                    0u64
                })
                &&& final(self).stats.connected_since == old(self).stats.connected_since
                &&& final(self).status == old(self).status
                &&& final(self).current_config == old(self).current_config
                &&& final(self).wireguard == old(self).wireguard
            },
    {
        match &self.status {
            VpnStatus::Connected => {},
            _ => {
                return Ok(());
            },
        }
        match self.wireguard.get_transfer_stats() {
            Ok((rx, tx)) => {
                let old_rx = self.stats.total_downloaded;
                let old_tx = self.stats.total_uploaded;
                self.stats.total_downloaded = rx;
                self.stats.total_uploaded = tx;
                self.stats.download_speed = rx.saturating_sub(old_rx);
                self.stats.upload_speed = tx.saturating_sub(old_tx);
                Ok(())
            },
            Err(_) => {
                // Statistics are advisory: a failed query changes nothing.
                Ok(())
            },
        }
    }
}

impl Default for VpnManager {
    fn default() -> (r: Self)
        ensures
            r.status is Disconnected,
            r.stats == ConnectionStats::spec_zeroed(),
            r.current_config is None,
    {
        VpnManager::new()
    }
}

} // verus!
