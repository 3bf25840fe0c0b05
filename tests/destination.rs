use piing::ping::{parse_destination, parse_port, Destination, PingMode, PingOutcome};

fn parts(d: &Destination) -> (String, String, u16, Option<String>) {
    (d.display.clone(), d.host.clone(), d.port, d.url.clone())
}

#[test]
fn https_url_with_port_and_path() {
    let d = parse_destination("https://example.com:8443/health", PingMode::HttpGet);
    assert_eq!(
        parts(&d),
        (
            "https://example.com:8443/health".to_string(),
            "example.com".to_string(),
            8443,
            Some("https://example.com:8443/health".to_string())
        )
    );
}

#[test]
fn http_url_default_port() {
    let d = parse_destination("http://example.invalid", PingMode::HttpGet);
    assert_eq!(d.host, "example.invalid");
    assert_eq!(d.port, 80);
    assert_eq!(d.url.as_deref(), Some("http://example.invalid"));
}

#[test]
fn url_with_bad_port_falls_back_to_scheme_port() {
    let d = parse_destination("https://host:abc/x", PingMode::HttpHead);
    assert_eq!(d.host, "host");
    assert_eq!(d.port, 443);
}

#[test]
fn bare_host_with_port() {
    let d = parse_destination("127.0.0.1:9", PingMode::Tcp);
    assert_eq!(d.host, "127.0.0.1");
    assert_eq!(d.port, 9);
    assert_eq!(d.url, None);
}

#[test]
fn bare_host_mode_defaults() {
    assert_eq!(parse_destination("example.com", PingMode::Tcp).port, 80);
    assert_eq!(parse_destination("example.com", PingMode::Icmp).port, 0);
    let d = parse_destination("example.com", PingMode::HttpHead);
    assert_eq!(d.port, 443);
    assert_eq!(d.url.as_deref(), Some("https://example.com:443"));
    let d = parse_destination("example.com:8080", PingMode::HttpGet);
    assert_eq!(d.url.as_deref(), Some("https://example.com:8080"));
}

#[test]
fn ipv6_like_text_splits_at_last_colon() {
    let d = parse_destination("::1:22", PingMode::Tcp);
    assert_eq!(d.host, "::1");
    assert_eq!(d.port, 22);
    let d = parse_destination("fe80::1", PingMode::Tcp);
    assert_eq!(d.host, "fe80:");
    assert_eq!(d.port, 1);
}

#[test]
fn empty_destination_is_not_an_error() {
    let d = parse_destination("", PingMode::Icmp);
    assert_eq!(parts(&d), (String::new(), String::new(), 0, None));
    let d = parse_destination("", PingMode::HttpGet);
    assert_eq!(d.url.as_deref(), Some("https://:443"));
}

#[test]
fn url_presence_follows_mode() {
    for s in ["a", "a:1", "", "x:y", "http://h", "https://h:1/p"] {
        for m in [PingMode::HttpGet, PingMode::HttpHead] {
            assert!(parse_destination(s, m).url.is_some());
        }
    }
    for s in ["a", "a:1", "", "x:y"] {
        for m in [PingMode::Tcp, PingMode::Icmp] {
            assert!(parse_destination(s, m).url.is_none());
        }
    }
}

#[test]
fn resolution_is_repeatable() {
    for s in ["https://a:1/b", "c:2", "d"] {
        let a = parse_destination(s, PingMode::HttpGet);
        let b = parse_destination(s, PingMode::HttpGet);
        assert_eq!(parts(&a), parts(&b));
    }
}

#[test]
fn port_parsing() {
    assert_eq!(parse_port("80"), Some(80));
    assert_eq!(parse_port("+80"), Some(80));
    assert_eq!(parse_port("0065535"), Some(65535));
    assert_eq!(parse_port("65536"), None);
    assert_eq!(parse_port("99999999999999999999"), None);
    assert_eq!(parse_port(""), None);
    assert_eq!(parse_port("+"), None);
    assert_eq!(parse_port("-1"), None);
    assert_eq!(parse_port(" 1"), None);
    assert_eq!(parse_port("1a"), None);
}

#[test]
fn mode_names_and_ports() {
    assert_eq!(PingMode::Icmp.as_str(), "icmp");
    assert_eq!(PingMode::Tcp.as_str(), "tcp");
    assert_eq!(PingMode::HttpGet.as_str(), "http-get");
    assert_eq!(PingMode::HttpHead.as_str(), "http-head");
    assert_eq!(PingMode::Tcp.default_port(), 80);
    assert_eq!(PingMode::HttpGet.default_port(), 443);
    assert_eq!(PingMode::Icmp.default_port(), 0);
}

#[test]
fn request_url_prefers_resolved_url() {
    let d = parse_destination("example.com", PingMode::HttpGet);
    assert_eq!(d.request_url(), "https://example.com:443");
    let d = parse_destination("example.com", PingMode::Tcp);
    assert_eq!(d.request_url(), "example.com");
}

#[test]
fn outcome_constructors() {
    let ok = PingOutcome::success("h", PingMode::HttpGet, 5, Some(503));
    assert!(ok.success);
    assert_eq!(ok.latency_ns, Some(5));
    assert_eq!(ok.status, Some(503));
    assert_eq!(ok.error, None);
    let bad = PingOutcome::failure("h", PingMode::Tcp, "refused".to_string());
    assert!(!bad.success);
    assert_eq!(bad.latency_ns, None);
    assert_eq!(bad.error.as_deref(), Some("refused"));
    assert_eq!(bad.host, "h");
}
