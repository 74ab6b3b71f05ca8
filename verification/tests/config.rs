use mtpdb_master::config::{
    listen_address, listen_port, local_ip_best_effort, master_url, parse_port,
};
use mtpdb_master::text::{decimal_text, signed_decimal_text};

#[test]
fn port_texts() {
    assert_eq!(parse_port("7000"), Some(7000));
    assert_eq!(parse_port("0"), Some(0));
    assert_eq!(parse_port("+8080"), Some(8080));
    assert_eq!(parse_port("0000065535"), Some(65535));
    assert_eq!(parse_port("65536"), None);
    assert_eq!(parse_port("99999999999999999999999999"), None);
    assert_eq!(parse_port(""), None);
    assert_eq!(parse_port("+"), None);
    assert_eq!(parse_port("++1"), None);
    assert_eq!(parse_port("-1"), None);
    assert_eq!(parse_port(" 7000"), None);
    assert_eq!(parse_port("70x0"), None);
    assert_eq!(parse_port("٧"), None);
}

#[test]
fn port_texts_read_like_std() {
    for text in [
        "1", "+1", "-0", "007", "65535", "65536", "655350", "1 ", "a", "+ 1", "1+", "", "+", "é",
    ] {
        assert_eq!(parse_port(text), text.parse::<u16>().ok(), "{}", text);
    }
}

#[test]
fn listen_port_defaults() {
    assert_eq!(listen_port(None), 7000);
    assert_eq!(listen_port(Some("nonsense".to_string())), 7000);
    assert_eq!(listen_port(Some("8123".to_string())), 8123);
}

#[test]
fn every_port_can_be_set() {
    for port in [0u16, 9, 10, 80, 443, 7000, 10000, 65535] {
        assert_eq!(listen_port(Some(decimal_text(port as u64))), port);
    }
}

#[test]
fn listen_addresses() {
    assert_eq!(listen_address(7000), "0.0.0.0:7000");
    assert_eq!(listen_address(0), "0.0.0.0:0");
}

#[test]
fn decimal_texts() {
    for n in [0u64, 7, 10, 100, 7001, 65535, u64::MAX] {
        assert_eq!(decimal_text(n), n.to_string());
    }
    for n in [0i32, 1, -1, 127, -255, i32::MAX, i32::MIN] {
        assert_eq!(signed_decimal_text(n), n.to_string());
    }
}

#[test]
fn local_addresses() {
    assert_eq!(local_ip_best_effort(Some("10.0.0.7".to_string())), "10.0.0.7");
    assert_eq!(local_ip_best_effort(None), "127.0.0.1");
}

#[test]
fn master_urls() {
    let advertised = Some("https://master.example".to_string());
    let detected = Some("10.0.0.7".to_string());
    assert_eq!(master_url(advertised.clone(), None, 7000), "https://master.example");
    assert_eq!(master_url(advertised, detected.clone(), 8000), "https://master.example");
    assert_eq!(master_url(None, detected.clone(), 7000), "http://10.0.0.7:7000");
    assert_eq!(master_url(None, detected, 8000), "http://10.0.0.7:8000");
    assert_eq!(master_url(None, None, 7000), "http://127.0.0.1:7000");
}

#[test]
fn default_urls_have_the_listen_port() {
    let detected = Some("10.0.0.1".to_string());
    let port = listen_port(Some("8000".to_string()));
    assert_eq!(master_url(None, detected.clone(), port), "http://10.0.0.1:8000");
    assert_eq!(listen_address(port), "0.0.0.0:8000");
    assert_eq!(master_url(None, detected, listen_port(None)), "http://10.0.0.1:7000");
}
