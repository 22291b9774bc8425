use base64::Engine;

use sacvpn::config::InterfaceConfig;
use sacvpn::config::PeerConfig;
use sacvpn::config::VpnConfig;
use sacvpn::manager::VpnManager;
use sacvpn::wireguard::LinkSetup;
use sacvpn::ConnectionStats;
use sacvpn::VpnError;
use sacvpn::VpnStatus;

fn key_of(byte: u8) -> String {
    base64::engine::general_purpose::STANDARD.encode([byte; 32])
}

fn valid_config() -> VpnConfig {
    VpnConfig {
        interface: InterfaceConfig {
            private_key: key_of(0),
            address: String::from("10.0.0.2/24"),
            dns: vec![String::from("1.1.1.1")],
            mtu: None,
        },
        peer: PeerConfig {
            public_key: key_of(1),
            endpoint: String::from("203.0.113.5:51820"),
            allowed_ips: vec![String::from("0.0.0.0/0")],
            persistent_keepalive: Some(25),
        },
    }
}

#[test]
fn test_vpn_manager_new() {
    let manager = VpnManager::new();
    assert_eq!(manager.get_status(), VpnStatus::Disconnected);
}

#[test]
fn connect_then_connect_fails_already_connected() {
    let mut manager = VpnManager::new();
    assert!(manager.connect(valid_config(), LinkSetup::Ready).is_ok());
    assert_eq!(manager.get_status(), VpnStatus::Connected);
    let second = manager.connect(valid_config(), LinkSetup::Ready);
    assert!(matches!(second, Err(VpnError::AlreadyConnected)));
    assert_eq!(manager.get_status(), VpnStatus::Connected);
}

#[test]
fn disconnect_fresh_manager_fails_not_connected() {
    let mut manager = VpnManager::new();
    let r = manager.disconnect();
    assert!(matches!(r, Err(VpnError::NotConnected)));
    assert_eq!(manager.get_status(), VpnStatus::Disconnected);
}

#[test]
fn connect_sets_timestamp_and_zero_totals_disconnect_resets() {
    let mut manager = VpnManager::new();
    assert!(manager.connect(valid_config(), LinkSetup::Ready).is_ok());
    let stats = manager.get_stats();
    assert!(stats.connected_since.is_some());
    assert_eq!(stats.total_uploaded, 0);
    assert_eq!(stats.total_downloaded, 0);

    assert!(manager.disconnect().is_ok());
    let stats = manager.get_stats();
    assert_eq!(stats, ConnectionStats::zeroed());
    assert!(stats.connected_since.is_none());
    assert_eq!(manager.get_status(), VpnStatus::Disconnected);
}

#[test]
fn update_stats_is_noop_when_not_connected() {
    let mut manager = VpnManager::new();
    let before = manager.get_stats();
    assert!(manager.update_stats().is_ok());
    assert_eq!(manager.get_stats(), before);

    // Also a no-op in an error state.
    let bad = VpnConfig {
        interface: InterfaceConfig {
            private_key: String::from("not base64!"),
            address: String::from("10.0.0.2/24"),
            dns: vec![],
            mtu: None,
        },
        peer: valid_config().peer,
    };
    let r = manager.connect(bad, LinkSetup::Ready);
    assert!(matches!(r, Err(VpnError::ConfigError(_))));
    assert!(matches!(manager.get_status(), VpnStatus::Error(_)));
    let before = manager.get_stats();
    assert!(manager.update_stats().is_ok());
    assert_eq!(manager.get_stats(), before);
}

#[test]
fn update_stats_tracks_counters_and_derives_speed() {
    let mut manager = VpnManager::new();
    assert!(manager.connect(valid_config(), LinkSetup::Ready).is_ok());
    let payload = vec![0u8; 300];
    manager.wireguard.pump_outbound(&payload);
    assert!(manager.update_stats().is_ok());
    let stats = manager.get_stats();
    assert_eq!(stats.total_uploaded, 300);
    assert_eq!(stats.upload_speed, 300);
    assert_eq!(stats.total_downloaded, 0);
    assert_eq!(stats.download_speed, 0);
}

#[test]
fn speed_never_negative_when_counter_regresses() {
    let mut manager = VpnManager::new();
    assert!(manager.connect(valid_config(), LinkSetup::Ready).is_ok());
    let payload = vec![0u8; 300];
    manager.wireguard.pump_outbound(&payload);
    assert!(manager.update_stats().is_ok());
    assert_eq!(manager.get_stats().total_uploaded, 300);

    // An external reset of the driver makes the cumulative counter
    // regress to zero while the manager still believes it is connected.
    assert!(manager.wireguard.disconnect().is_ok());
    assert!(manager.update_stats().is_ok());
    let stats = manager.get_stats();
    assert_eq!(stats.total_uploaded, 0);
    assert_eq!(stats.upload_speed, 0);
    assert_eq!(stats.download_speed, 0);
}

#[test]
fn failed_connect_reports_error_status_and_keeps_config() {
    let mut manager = VpnManager::new();
    let msg = String::from("something broke");
    let r = manager.connect(valid_config(), LinkSetup::SocketFailed(msg));
    match r {
        Err(VpnError::WireGuardError(t)) => assert_eq!(t, "something broke"),
        other => panic!("unexpected result: {:?}", other),
    }
    match manager.get_status() {
        VpnStatus::Error(t) => assert_eq!(t, "WireGuard error: something broke"),
        other => panic!("unexpected status: {:?}", other),
    }
    assert!(manager.current_config.is_some());
}

#[test]
fn tool_backend_connects_without_key_validation() {
    // The external tool consumes the rendered text itself; the driver
    // does not decode keys on this path.
    let mut manager = VpnManager::new();
    let mut config = valid_config();
    config.interface.private_key = String::from("not base64");
    assert!(manager.connect(config, LinkSetup::ToolSucceeded).is_ok());
    assert_eq!(manager.get_status(), VpnStatus::Connected);
    let stats = manager.get_stats();
    assert!(stats.connected_since.is_some());
    assert_eq!(stats.total_uploaded, 0);
    assert!(manager.disconnect().is_ok());
}

#[test]
fn tool_outcomes_are_classified_by_the_driver() {
    let mut manager = VpnManager::new();
    let r = manager.connect(
        valid_config(),
        LinkSetup::ToolFailed(String::from("wg-quick: Operation not permitted")),
    );
    assert!(matches!(r, Err(VpnError::PermissionDenied(_))));

    let mut manager = VpnManager::new();
    let r = manager.connect(
        valid_config(),
        LinkSetup::ToolFailed(String::from("address in use")),
    );
    match r {
        Err(VpnError::WireGuardError(m)) => assert_eq!(m, "wg-quick failed: address in use"),
        other => panic!("unexpected: {:?}", other),
    }

    let mut manager = VpnManager::new();
    let r = manager.connect(
        valid_config(),
        LinkSetup::ToolMissing(String::from("no such file")),
    );
    match r {
        Err(VpnError::WireGuardError(m)) => {
            assert_eq!(m, "WireGuard tools not found: no such file")
        },
        other => panic!("unexpected: {:?}", other),
    }
    match manager.get_status() {
        VpnStatus::Error(t) => {
            assert_eq!(t, "WireGuard error: WireGuard tools not found: no such file")
        },
        other => panic!("unexpected status: {:?}", other),
    }
}

#[test]
fn error_messages_render_like_the_taxonomy() {
    assert_eq!(VpnError::NotConnected.message(), "Not connected");
    assert_eq!(VpnError::AlreadyConnected.message(), "Already connected");
    assert_eq!(
        VpnError::PlatformNotSupported.message(),
        "Platform not supported"
    );
    assert_eq!(
        VpnError::ConfigError(String::from("bad key")).message(),
        "Configuration error: bad key"
    );
    assert_eq!(
        VpnError::ConnectionFailed(String::from("x")).message(),
        "Connection failed: x"
    );
    assert_eq!(
        VpnError::DisconnectionFailed(String::from("y")).message(),
        "Disconnection failed: y"
    );
    assert_eq!(
        VpnError::PermissionDenied(String::from("p")).message(),
        "Permission denied: p"
    );
    assert_eq!(
        VpnError::WireGuardError(String::from("w")).message(),
        "WireGuard error: w"
    );
}
