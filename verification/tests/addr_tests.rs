use sacvpn::addr::endpoint_to_text;
use sacvpn::addr::ipv4_to_text;
use sacvpn::addr::parse_client_ip;
use sacvpn::addr::parse_endpoint;
use sacvpn::addr::parse_ipv4;
use sacvpn::addr::Endpoint;
use sacvpn::addr::Ipv4;
use sacvpn::text::contains_substr;
use sacvpn::text::join_list;
use sacvpn::text::parse_u32_dec;
use sacvpn::text::parse_u64_dec;
use sacvpn::text::split_list;
use sacvpn::text::str_eq;
use sacvpn::text::u64_to_dec;

#[test]
fn ipv4_parses_canonical_dotted_decimal() {
    assert_eq!(
        parse_ipv4("203.0.113.5"),
        Some(Ipv4 { a: 203, b: 0, c: 113, d: 5 })
    );
    assert_eq!(
        parse_ipv4("255.255.255.255"),
        Some(Ipv4 { a: 255, b: 255, c: 255, d: 255 })
    );
    assert_eq!(parse_ipv4("0.0.0.0"), Some(Ipv4 { a: 0, b: 0, c: 0, d: 0 }));
    assert_eq!(parse_ipv4("256.0.0.1"), None);
    assert_eq!(parse_ipv4("01.2.3.4"), None);
    assert_eq!(parse_ipv4("1.2.3"), None);
    assert_eq!(parse_ipv4("1.2.3.4.5"), None);
    assert_eq!(parse_ipv4("a.b.c.d"), None);
    assert_eq!(parse_ipv4(""), None);
}

#[test]
fn endpoint_parses_host_and_port() {
    let e = parse_endpoint("203.0.113.5:51820").unwrap();
    assert_eq!(e.ip, Ipv4 { a: 203, b: 0, c: 113, d: 5 });
    assert_eq!(e.port, 51820);
    assert_eq!(parse_endpoint("203.0.113.5"), None);
    assert_eq!(parse_endpoint("203.0.113.5:"), None);
    assert_eq!(parse_endpoint("203.0.113.5:65536"), None);
    assert_eq!(parse_endpoint("203.0.113.5:0"), Some(Endpoint {
        ip: Ipv4 { a: 203, b: 0, c: 113, d: 5 },
        port: 0,
    }));
}

#[test]
fn client_ip_takes_the_host_part_of_a_cidr() {
    assert_eq!(
        parse_client_ip("10.0.0.2/24"),
        Some(Ipv4 { a: 10, b: 0, c: 0, d: 2 })
    );
    assert_eq!(
        parse_client_ip("10.0.0.2"),
        Some(Ipv4 { a: 10, b: 0, c: 0, d: 2 })
    );
    assert_eq!(parse_client_ip("10.0.0/24"), None);
}

#[test]
fn addresses_render_back_to_dotted_decimal() {
    let ip = Ipv4 { a: 10, b: 70, c: 0, d: 1 };
    assert_eq!(ipv4_to_text(&ip), "10.70.0.1");
    let e = Endpoint { ip, port: 51820 };
    assert_eq!(endpoint_to_text(&e), "10.70.0.1:51820");
}

#[test]
fn decimal_rendering_and_parsing_agree() {
    assert_eq!(u64_to_dec(0), "0");
    assert_eq!(u64_to_dec(51820), "51820");
    assert_eq!(u64_to_dec(18446744073709551615), "18446744073709551615");
    assert_eq!(parse_u64_dec("18446744073709551615"), Some(18446744073709551615));
    assert_eq!(parse_u64_dec("18446744073709551616"), None);
    assert_eq!(parse_u64_dec(""), None);
    assert_eq!(parse_u64_dec("12x"), None);
    assert_eq!(parse_u32_dec("4294967295"), Some(4294967295));
    assert_eq!(parse_u32_dec("4294967296"), None);
    assert_eq!(parse_u32_dec("25"), Some(25));
}

#[test]
fn lists_join_and_split_on_comma_space() {
    let v = vec![String::from("1.1.1.1"), String::from("8.8.8.8")];
    let joined = join_list(&v);
    assert_eq!(joined, "1.1.1.1, 8.8.8.8");
    assert_eq!(split_list(&joined), v);
    assert_eq!(join_list(&Vec::new()), "");
    assert_eq!(split_list(""), vec![String::new()]);
    assert_eq!(split_list("a"), vec![String::from("a")]);
}

#[test]
fn substring_search_and_equality() {
    assert!(contains_substr("Access is denied", "Access"));
    assert!(!contains_substr("granted", "Access"));
    assert!(contains_substr("anything", ""));
    assert!(str_eq("0.0.0.0/0", "0.0.0.0/0"));
    assert!(!str_eq("0.0.0.0/0", "0.0.0.0/1"));
}
