use base64::Engine;

use sacvpn::addr::Ipv4;
use sacvpn::config::validate_config;
use sacvpn::config::InterfaceConfig;
use sacvpn::config::PeerConfig;
use sacvpn::config::VpnConfig;
use sacvpn::tool::classify_tool_failure;
use sacvpn::tool::parse_tool_stats;
use sacvpn::wireguard::classify_adapter_failure;
use sacvpn::wireguard::routes_for;
use sacvpn::wireguard::LinkSetup;
use sacvpn::wireguard::TunnVerdict;
use sacvpn::wireguard::WireGuardManager;
use sacvpn::VpnError;

fn key_of(byte: u8) -> String {
    base64::engine::general_purpose::STANDARD.encode([byte; 32])
}

fn valid_config() -> VpnConfig {
    VpnConfig {
        interface: InterfaceConfig {
            private_key: key_of(0),
            address: String::from("10.0.0.2/24"),
            dns: vec![String::from("1.1.1.1")],
            mtu: None,
        },
        peer: PeerConfig {
            public_key: key_of(1),
            endpoint: String::from("203.0.113.5:51820"),
            allowed_ips: vec![String::from("0.0.0.0/0")],
            persistent_keepalive: Some(25),
        },
    }
}

#[test]
fn validate_accepts_valid_config_and_decodes_keys() {
    let v = validate_config(&valid_config()).expect("valid config");
    assert_eq!(v.private_key, vec![0u8; 32]);
    assert_eq!(v.peer_public_key, vec![1u8; 32]);
    assert_eq!(v.client_ip, Ipv4 { a: 10, b: 0, c: 0, d: 2 });
    assert_eq!(v.endpoint.ip, Ipv4 { a: 203, b: 0, c: 113, d: 5 });
    assert_eq!(v.endpoint.port, 51820);
    assert_eq!(v.keepalive, Some(25));
}

#[test]
fn validate_reports_first_fault_in_order() {
    let mut c = valid_config();
    c.interface.private_key = String::from("***");
    match validate_config(&c) {
        Err(VpnError::ConfigError(m)) => assert_eq!(m, "Invalid private key"),
        other => panic!("unexpected: {:?}", other),
    }

    let mut c = valid_config();
    c.interface.private_key = base64::engine::general_purpose::STANDARD.encode([0u8; 31]);
    match validate_config(&c) {
        Err(VpnError::ConfigError(m)) => assert_eq!(m, "Private key must be 32 bytes"),
        other => panic!("unexpected: {:?}", other),
    }

    let mut c = valid_config();
    c.peer.public_key = String::from("@@@");
    match validate_config(&c) {
        Err(VpnError::ConfigError(m)) => assert_eq!(m, "Invalid peer public key"),
        other => panic!("unexpected: {:?}", other),
    }

    let mut c = valid_config();
    c.peer.public_key = base64::engine::general_purpose::STANDARD.encode([1u8; 33]);
    match validate_config(&c) {
        Err(VpnError::ConfigError(m)) => assert_eq!(m, "Peer public key must be 32 bytes"),
        other => panic!("unexpected: {:?}", other),
    }

    let mut c = valid_config();
    c.peer.endpoint = String::from("not-an-endpoint");
    match validate_config(&c) {
        Err(VpnError::ConfigError(m)) => assert_eq!(m, "Invalid endpoint"),
        other => panic!("unexpected: {:?}", other),
    }

    let mut c = valid_config();
    c.interface.address = String::from("999.0.0.1/24");
    match validate_config(&c) {
        Err(VpnError::ConfigError(m)) => assert_eq!(m, "Invalid client IP"),
        other => panic!("unexpected: {:?}", other),
    }
}

#[test]
fn adapter_access_denied_maps_to_permission_denied() {
    let mut wg = WireGuardManager::new();
    let r = wg.connect(
        &valid_config(),
        LinkSetup::AdapterFailed(String::from("Access is denied. (os error 5)")),
    );
    assert!(matches!(r, Err(VpnError::PermissionDenied(_))));
    assert!(!wg.is_connected);

    let r = wg.connect(
        &valid_config(),
        LinkSetup::AdapterFailed(String::from("driver not found")),
    );
    match r {
        Err(VpnError::WireGuardError(m)) => {
            assert_eq!(m, "Failed to create adapter: driver not found")
        },
        other => panic!("unexpected: {:?}", other),
    }
}

#[test]
fn classify_adapter_failure_checks_access_phrase() {
    assert!(matches!(
        classify_adapter_failure(String::from("Access denied")),
        VpnError::PermissionDenied(_)
    ));
    assert!(matches!(
        classify_adapter_failure(String::from("no such device")),
        VpnError::WireGuardError(_)
    ));
}

#[test]
fn outbound_packets_count_exactly_before_any_inbound() {
    let mut wg = WireGuardManager::new();
    wg.connect(&valid_config(), LinkSetup::Ready).expect("connect");
    let first = vec![0u8; 100];
    let second = vec![0u8; 200];
    wg.pump_outbound(&first);
    wg.pump_outbound(&second);
    let (rx, tx) = wg.get_transfer_stats().unwrap();
    assert_eq!(tx, 300);
    assert_eq!(rx, 0);
}

#[test]
fn inbound_bytes_count_and_garbage_is_tolerated() {
    let mut wg = WireGuardManager::new();
    wg.connect(&valid_config(), LinkSetup::Ready).expect("connect");
    let garbage = vec![7u8; 64];
    let verdict = wg.pump_inbound(&garbage);
    assert!(matches!(verdict, TunnVerdict::Quiet | TunnVerdict::Failure));
    let (rx, tx) = wg.get_transfer_stats().unwrap();
    assert_eq!(rx, 64);
    assert_eq!(tx, 0);
}

#[test]
fn timers_step_leaves_counters_alone() {
    let mut wg = WireGuardManager::new();
    wg.connect(&valid_config(), LinkSetup::Ready).expect("connect");
    let _ = wg.pump_timers();
    let (rx, tx) = wg.get_transfer_stats().unwrap();
    assert_eq!((rx, tx), (0, 0));
}

#[test]
fn pump_does_nothing_without_session() {
    let mut wg = WireGuardManager::new();
    let payload = vec![0u8; 50];
    assert!(wg.pump_outbound(&payload).is_none());
    assert!(matches!(wg.pump_inbound(&payload), TunnVerdict::Quiet));
    assert!(wg.pump_timers().is_none());
    assert_eq!(wg.get_transfer_stats().unwrap(), (0, 0));
}

#[test]
fn stats_are_zero_when_disconnected_and_reset_by_disconnect() {
    let mut wg = WireGuardManager::new();
    wg.connect(&valid_config(), LinkSetup::Ready).expect("connect");
    let payload = vec![0u8; 128];
    wg.pump_outbound(&payload);
    assert_eq!(wg.get_transfer_stats().unwrap(), (0, 128));
    wg.disconnect().expect("disconnect");
    assert_eq!(wg.get_transfer_stats().unwrap(), (0, 0));
    assert!(wg.session.is_none());
    // Idempotent at the driver layer.
    assert!(wg.disconnect().is_ok());
}

#[test]
fn universal_range_becomes_two_half_ranges() {
    let rules = routes_for(&vec![String::from("0.0.0.0/0")]);
    assert_eq!(rules.len(), 2);
    assert_eq!(rules[0].dest, Ipv4 { a: 0, b: 0, c: 0, d: 0 });
    assert_eq!(rules[0].mask, Ipv4 { a: 128, b: 0, c: 0, d: 0 });
    assert_eq!(rules[0].gateway, Ipv4 { a: 10, b: 70, c: 0, d: 1 });
    assert_eq!(rules[1].dest, Ipv4 { a: 128, b: 0, c: 0, d: 0 });
    assert_eq!(rules[1].mask, Ipv4 { a: 128, b: 0, c: 0, d: 0 });
    assert_eq!(rules[1].gateway, Ipv4 { a: 10, b: 70, c: 0, d: 1 });

    let none = routes_for(&vec![String::from("10.0.0.0/8")]);
    assert!(none.is_empty());

    let twice = routes_for(&vec![
        String::from("0.0.0.0/0"),
        String::from("10.0.0.0/8"),
        String::from("0.0.0.0/0"),
    ]);
    assert_eq!(twice.len(), 4);
}

#[test]
fn tool_failure_classification_checks_permission_phrases() {
    assert!(matches!(
        classify_tool_failure(String::from("wg-quick: Operation not permitted")),
        VpnError::PermissionDenied(_)
    ));
    assert!(matches!(
        classify_tool_failure(String::from("sudo: Permission denied")),
        VpnError::PermissionDenied(_)
    ));
    match classify_tool_failure(String::from("interface exists")) {
        VpnError::WireGuardError(m) => assert_eq!(m, "wg-quick failed: interface exists"),
        other => panic!("unexpected: {:?}", other),
    }
}

#[test]
fn tool_stats_line_parses_or_defaults() {
    assert_eq!(parse_tool_stats("peerkey\t123\t456\n"), (123, 456));
    assert_eq!(parse_tool_stats("peerkey\t123\t456"), (123, 456));
    assert_eq!(parse_tool_stats("peerkey\t1\t2\nother\t3\t4\n"), (1, 2));
    assert_eq!(parse_tool_stats(""), (0, 0));
    assert_eq!(parse_tool_stats("no tabs here"), (0, 0));
    assert_eq!(parse_tool_stats("peer\tx\t9"), (0, 0));
    assert_eq!(parse_tool_stats("peer\t9\t"), (0, 0));
    assert_eq!(parse_tool_stats("peer\t9\t8\t7"), (0, 0));
}
