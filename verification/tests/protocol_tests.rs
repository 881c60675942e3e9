use daytime::protocol::{contains_protocol, normalize_protocols, Protocol};

#[test]
fn parse_accepts_tcp_any_case() {
    assert_eq!(Protocol::parse("tcp"), Some(Protocol::Tcp));
    assert_eq!(Protocol::parse("TCP"), Some(Protocol::Tcp));
    assert_eq!(Protocol::parse("Tcp"), Some(Protocol::Tcp));
    assert_eq!(Protocol::parse("tCp"), Some(Protocol::Tcp));
}

#[test]
fn parse_accepts_udp_any_case() {
    assert_eq!(Protocol::parse("udp"), Some(Protocol::Udp));
    assert_eq!(Protocol::parse("UDP"), Some(Protocol::Udp));
    assert_eq!(Protocol::parse("uDp"), Some(Protocol::Udp));
}

#[test]
fn parse_rejects_other_names() {
    assert_eq!(Protocol::parse(""), None);
    assert_eq!(Protocol::parse("tc"), None);
    assert_eq!(Protocol::parse("tcpp"), None);
    assert_eq!(Protocol::parse("smtp"), None);
    assert_eq!(Protocol::parse("ucp"), None);
    assert_eq!(Protocol::parse("tdp"), None);
}

#[test]
fn normalize_deduplicates_and_orders() {
    let requested = vec![Protocol::Udp, Protocol::Tcp, Protocol::Tcp, Protocol::Udp];
    assert_eq!(normalize_protocols(&requested), vec![Protocol::Tcp, Protocol::Udp]);
}

#[test]
fn normalize_of_empty_is_empty() {
    let requested: Vec<Protocol> = vec![];
    assert_eq!(normalize_protocols(&requested), vec![]);
}

#[test]
fn normalize_keeps_single_protocol() {
    let requested = vec![Protocol::Udp, Protocol::Udp];
    assert_eq!(normalize_protocols(&requested), vec![Protocol::Udp]);
    let requested = vec![Protocol::Tcp];
    assert_eq!(normalize_protocols(&requested), vec![Protocol::Tcp]);
}

#[test]
fn contains_protocol_finds_members() {
    let requested = vec![Protocol::Udp];
    assert!(contains_protocol(&requested, Protocol::Udp));
    assert!(!contains_protocol(&requested, Protocol::Tcp));
}
