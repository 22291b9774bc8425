use base64::Engine;

use sacvpn::codec::parse_config;
use sacvpn::codec::render_config;
use sacvpn::config::InterfaceConfig;
use sacvpn::config::PeerConfig;
use sacvpn::config::VpnConfig;

fn key_of(byte: u8) -> String {
    base64::engine::general_purpose::STANDARD.encode([byte; 32])
}

fn sample_config(mtu: Option<u32>, keepalive: Option<u32>) -> VpnConfig {
    VpnConfig {
        interface: InterfaceConfig {
            private_key: key_of(0),
            address: String::from("10.0.0.2/24"),
            dns: vec![String::from("1.1.1.1"), String::from("8.8.8.8")],
            mtu,
        },
        peer: PeerConfig {
            public_key: key_of(1),
            endpoint: String::from("203.0.113.5:51820"),
            allowed_ips: vec![String::from("0.0.0.0/0")],
            persistent_keepalive: keepalive,
        },
    }
}

#[test]
fn render_has_fixed_sections_and_order() {
    let text = render_config(&sample_config(Some(1420), Some(25)));
    let expected = format!(
        "[Interface]\nPrivateKey = {}\nAddress = 10.0.0.2/24\nDNS = 1.1.1.1, 8.8.8.8\nMTU = 1420\n\n[Peer]\nPublicKey = {}\nEndpoint = 203.0.113.5:51820\nAllowedIPs = 0.0.0.0/0\nPersistentKeepalive = 25\n",
        key_of(0),
        key_of(1)
    );
    assert_eq!(text, expected);
}

#[test]
fn zero_key_config_renders_endpoint_and_keepalive_without_mtu() {
    let config = sample_config(None, Some(25));
    let text = render_config(&config);
    assert!(text.contains("[Interface]"));
    assert!(text.contains("[Peer]"));
    assert!(text.contains("Endpoint = 203.0.113.5:51820"));
    assert!(text.contains("PersistentKeepalive = 25"));
    assert!(!text.contains("MTU"));
}

#[test]
fn codec_round_trips_with_all_fields() {
    let config = sample_config(Some(1380), Some(25));
    let once = render_config(&config);
    let parsed = parse_config(&once).expect("canonical text parses");
    let twice = render_config(&parsed);
    assert_eq!(once, twice);
}

#[test]
fn codec_round_trips_without_optional_fields() {
    let config = sample_config(None, None);
    let once = render_config(&config);
    let parsed = parse_config(&once).expect("canonical text parses");
    let twice = render_config(&parsed);
    assert_eq!(once, twice);
}

#[test]
fn parse_recovers_fields_and_lists() {
    let config = sample_config(Some(1420), None);
    let text = render_config(&config);
    let parsed = parse_config(&text).unwrap();
    assert_eq!(parsed.interface.private_key, key_of(0));
    assert_eq!(parsed.interface.address, "10.0.0.2/24");
    assert_eq!(parsed.interface.dns, vec!["1.1.1.1", "8.8.8.8"]);
    assert_eq!(parsed.interface.mtu, Some(1420));
    assert_eq!(parsed.peer.public_key, key_of(1));
    assert_eq!(parsed.peer.endpoint, "203.0.113.5:51820");
    assert_eq!(parsed.peer.allowed_ips, vec!["0.0.0.0/0"]);
    assert_eq!(parsed.peer.persistent_keepalive, None);
}

#[test]
fn parse_rejects_malformed_texts() {
    assert!(parse_config("").is_none());
    assert!(parse_config("[Interface]\n").is_none());
    assert!(parse_config("[Peer]\nPublicKey = x\n").is_none());
    let missing_blank = "[Interface]\nPrivateKey = a\nAddress = b\nDNS = c\n[Peer]\nPublicKey = d\nEndpoint = e\nAllowedIPs = f\n";
    assert!(parse_config(missing_blank).is_none());
    let bad_mtu = "[Interface]\nPrivateKey = a\nAddress = b\nDNS = c\nMTU = lots\n\n[Peer]\nPublicKey = d\nEndpoint = e\nAllowedIPs = f\n";
    assert!(parse_config(bad_mtu).is_none());
    let trailing = "[Interface]\nPrivateKey = a\nAddress = b\nDNS = c\n\n[Peer]\nPublicKey = d\nEndpoint = e\nAllowedIPs = f\nPersistentKeepalive = 25\nextra\n";
    assert!(parse_config(trailing).is_none());
}

#[test]
fn parse_accepts_minimal_text() {
    let text = "[Interface]\nPrivateKey = a\nAddress = b\nDNS = \n\n[Peer]\nPublicKey = d\nEndpoint = e\nAllowedIPs = f\n";
    let parsed = parse_config(text).unwrap();
    assert_eq!(parsed.interface.dns, vec![""]);
    assert_eq!(parsed.peer.persistent_keepalive, None);
    assert_eq!(render_config(&parsed), text);
}
