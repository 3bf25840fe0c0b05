use piing::config::{ConfigAttribute, ConfigBlock, ConfigErrorKind};
use piing::ping::PingMode;
use piing::latency::LatencyColour;
use piing::targets::{
    count_digits, decode_target, decode_targets, parse_interval, sanitize_label, MAX_INTERVAL_DIGITS,
};
use piing::vpn::decode_vpn_criteria;

fn attr(key: &str, value: &str) -> ConfigAttribute {
    ConfigAttribute { key: key.to_string(), value: Some(value.to_string()) }
}

fn block(labels: &[&str], attributes: Vec<ConfigAttribute>) -> ConfigBlock {
    ConfigBlock { labels: labels.iter().map(|l| l.to_string()).collect(), attributes }
}

fn target_block(name: &str, value: &str, mode: &str, interval: &str) -> ConfigBlock {
    block(
        &["piing_target", name],
        vec![attr("value", value), attr("mode", mode), attr("interval", interval)],
    )
}

#[test]
fn sanitize_label_cases() {
    assert_eq!(sanitize_label("example.com"), "examplecom");
    assert_eq!(sanitize_label("my host-1_a"), "my_host-1_a");
    assert_eq!(sanitize_label("tab\there"), "tab_here");
    assert_eq!(sanitize_label("..."), "t");
    assert_eq!(sanitize_label(""), "t");
    assert_eq!(sanitize_label("\u{3000}é"), "_");
}

#[test]
fn mode_names_any_case() {
    assert_eq!(PingMode::from_str_case_insensitive("ICMP"), Some(PingMode::Icmp));
    assert_eq!(PingMode::from_str_case_insensitive("Tcp"), Some(PingMode::Tcp));
    assert_eq!(PingMode::from_str_case_insensitive("http_get"), Some(PingMode::HttpGet));
    assert_eq!(PingMode::from_str_case_insensitive("HTTP-HEAD"), Some(PingMode::HttpHead));
    assert_eq!(PingMode::from_str_case_insensitive("udp"), None);
    assert_eq!(PingMode::from_str_case_insensitive(""), None);
}

#[test]
fn intervals_read_with_humantime() {
    assert_eq!(parse_interval("1s"), Some(1_000_000_000));
    assert_eq!(parse_interval("500ms"), Some(500_000_000));
    assert_eq!(parse_interval("2m 1s"), Some(121_000_000_000));
    assert_eq!(parse_interval("0"), Some(0));
    assert_eq!(parse_interval("soon"), None);
}

#[test]
fn decode_targets_in_order() {
    let blocks = vec![
        target_block("a", "127.0.0.1:9", "tcp", "1s"),
        block(&["other_kind", "x"], vec![]),
        block(&["piing_target"], vec![]),
        target_block("b", "http://example.invalid", "http-get", "5s"),
    ];
    let targets = decode_targets("f.piing_hcl", &blocks).unwrap();
    assert_eq!(targets.len(), 2);
    assert_eq!(targets[0].id.name, "a");
    assert_eq!(targets[0].id.file_path, "f.piing_hcl");
    assert_eq!(targets[0].value, "127.0.0.1:9");
    assert_eq!(targets[0].mode, PingMode::Tcp);
    assert_eq!(targets[0].interval_ns, 1_000_000_000);
    assert_eq!(targets[1].mode, PingMode::HttpGet);
    assert_eq!(targets[1].interval_ns, 5_000_000_000);
}

#[test]
fn decode_target_errors() {
    let missing = block(&["piing_target", "a"], vec![attr("value", "x"), attr("mode", "tcp")]);
    let e = decode_target("f", &missing).unwrap_err();
    assert_eq!(e.kind, ConfigErrorKind::MissingAttribute);
    assert_eq!((e.file.as_str(), e.block.as_str(), e.detail.as_str()), ("f", "a", "interval"));

    let not_string = block(
        &["piing_target", "a"],
        vec![ConfigAttribute { key: "value".to_string(), value: None }],
    );
    let e = decode_target("f", &not_string).unwrap_err();
    assert_eq!(e.kind, ConfigErrorKind::NotAString);
    assert_eq!(e.detail, "value");

    let e = decode_target("f", &target_block("a", "x", "udp", "1s")).unwrap_err();
    assert_eq!(e.kind, ConfigErrorKind::InvalidMode);
    assert_eq!(e.detail, "udp");

    let e = decode_target("f", &target_block("a", "x", "icmp", "often")).unwrap_err();
    assert_eq!(e.kind, ConfigErrorKind::InvalidInterval);
    assert_eq!(e.detail, "often");

    let blocks = vec![
        target_block("a", "x", "icmp", "1s"),
        target_block("b", "x", "icmp", "bad"),
        target_block("c", "x", "bogus", "1s"),
    ];
    let e = decode_targets("f", &blocks).unwrap_err();
    assert_eq!(e.block, "b");
}

#[test]
fn first_attribute_with_a_key_wins() {
    let b = block(
        &["piing_target", "a"],
        vec![attr("value", "first"), attr("value", "second"), attr("mode", "tcp"), attr("interval", "1s")],
    );
    assert_eq!(decode_target("f", &b).unwrap().unwrap().value, "first");
}

#[test]
fn decode_vpn_criteria_blocks() {
    let blocks = vec![
        block(&["piing_vpn_criterion", "a"], vec![attr("display_name", "Corp VPN")]),
        block(&["piing_vpn_criterion", "b"], vec![]),
        target_block("t", "x", "icmp", "1s"),
    ];
    let criteria = decode_vpn_criteria("f", &blocks).unwrap();
    assert_eq!(criteria.len(), 2);
    assert_eq!(criteria[0].display_name.as_deref(), Some("Corp VPN"));
    assert_eq!(criteria[1].display_name, None);

    let bad = vec![block(
        &["piing_vpn_criterion", "c"],
        vec![ConfigAttribute { key: "display_name".to_string(), value: None }],
    )];
    let e = decode_vpn_criteria("f", &bad).unwrap_err();
    assert_eq!(e.kind, ConfigErrorKind::NotAString);
    assert_eq!(e.block, "c");
}

#[test]
fn overlong_intervals_are_rejected() {
    assert_eq!(MAX_INTERVAL_DIGITS, 11);
    assert_eq!(count_digits("2m 1.5s"), 3);
    assert_eq!(parse_interval("99999999999ns"), Some(99_999_999_999));
    assert_eq!(parse_interval("999999999999ns"), None);
    assert_eq!(parse_interval("18446744073709551615s 1000ms"), None);
    let e = decode_target("f", &target_block("a", "x", "icmp", "18446744073709551615s 1000ms"))
        .unwrap_err();
    assert_eq!(e.kind, ConfigErrorKind::InvalidInterval);
}

#[test]
fn latency_colour_names() {
    assert_eq!(LatencyColour::parse("Green"), Some(LatencyColour::Green));
    assert_eq!(LatencyColour::parse("purple"), Some(LatencyColour::Magenta));
    assert_eq!(LatencyColour::parse("TEAL"), Some(LatencyColour::Cyan));
    assert_eq!(LatencyColour::parse("grey"), Some(LatencyColour::BrightBlack));
    assert_eq!(LatencyColour::parse("bright-white"), Some(LatencyColour::BrightWhite));
    assert_eq!(LatencyColour::parse("bright_red"), Some(LatencyColour::BrightRed));
    assert_eq!(LatencyColour::parse("orange"), None);
    assert_eq!(LatencyColour::parse(""), None);
}
