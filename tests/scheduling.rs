use piing::ping::{parse_destination, PingMode, PingOutcome};
use piing::schedule::{
    all_succeeded, collect_outcomes, next_interval, AlertState, TickReport, DEFAULT_INTERVAL_NS,
};
use piing::targets::{Target, TargetId};

const SECOND: u64 = 1_000_000_000;

fn target(name: &str, value: &str, mode: PingMode, interval_ns: u64) -> Target {
    Target {
        id: TargetId { file_path: "t.piing_hcl".to_string(), name: name.to_string() },
        value: value.to_string(),
        mode,
        interval_ns,
    }
}

fn ok(host: &str) -> PingOutcome {
    PingOutcome::success(host, PingMode::Tcp, 1_000, None)
}

fn bad(host: &str) -> PingOutcome {
    PingOutcome::failure(host, PingMode::Tcp, "unreachable".to_string())
}

#[test]
fn interval_is_minimum_or_default() {
    assert_eq!(next_interval(&[]), DEFAULT_INTERVAL_NS);
    assert_eq!(DEFAULT_INTERVAL_NS, SECOND);
    let ts = vec![
        target("a", "a", PingMode::Tcp, 5 * SECOND),
        target("b", "b", PingMode::Tcp, 2 * SECOND),
        target("c", "c", PingMode::Tcp, 9 * SECOND),
    ];
    assert_eq!(next_interval(&ts), 2 * SECOND);
    assert_eq!(next_interval(&ts[2..]), 9 * SECOND);
}

#[test]
fn two_target_scenario_resolution_and_interval() {
    let ts = vec![
        target("a", "127.0.0.1:9", PingMode::Tcp, SECOND),
        target("b", "http://example.invalid", PingMode::HttpGet, 5 * SECOND),
    ];
    assert_eq!(next_interval(&ts), SECOND);
    let a = parse_destination(&ts[0].value, ts[0].mode);
    assert_eq!((a.host.as_str(), a.port, a.url.is_none()), ("127.0.0.1", 9, true));
    let b = parse_destination(&ts[1].value, ts[1].mode);
    assert_eq!(b.host, "example.invalid");
    assert_eq!(b.request_url(), "http://example.invalid");
}

#[test]
fn one_failure_keeps_every_outcome() {
    let results = vec![Some(ok("a")), Some(bad("b")), Some(ok("c"))];
    let outcomes = collect_outcomes(results);
    assert_eq!(outcomes.len(), 3);
    assert!(!all_succeeded(&outcomes));
    assert!(all_succeeded(&[ok("a"), ok("b")]));
    assert!(all_succeeded(&[]));
}

#[test]
fn failed_tasks_leave_no_outcome() {
    let results = vec![None, Some(bad("b")), None, Some(ok("d"))];
    let outcomes = collect_outcomes(results);
    let hosts: Vec<&str> = outcomes.iter().map(|o| o.host.as_str()).collect();
    assert_eq!(hosts, vec!["b", "d"]);
}

#[test]
fn alert_fires_on_first_of_three_failing_ticks() {
    let mut state = AlertState::new();
    let failing = vec![bad("a")];
    let r1 = state.record(&failing);
    let r2 = state.record(&failing);
    let r3 = state.record(&failing);
    assert_eq!(r1, TickReport { play_alert: true, icon: Some(false) });
    assert_eq!(r2, TickReport { play_alert: false, icon: Some(false) });
    assert_eq!(r3, TickReport { play_alert: false, icon: Some(false) });
    assert_eq!(state.last_success, Some(false));
}

#[test]
fn alert_rearms_after_recovery_or_empty_tick() {
    let mut state = AlertState::new();
    assert!(state.record(&[ok("a"), bad("b")]).play_alert);
    let healthy = state.record(&[ok("a")]);
    assert_eq!(healthy, TickReport { play_alert: false, icon: Some(true) });
    assert!(state.record(&[bad("a")]).play_alert);
    state.clear();
    assert_eq!(state.last_success, None);
    assert!(state.record(&[bad("a")]).play_alert);
    let none = state.record(&[]);
    assert_eq!(none, TickReport { play_alert: false, icon: None });
    assert_eq!(state.last_success, Some(true));
}

#[test]
fn end_tick_without_targets_resets_health() {
    let mut state = AlertState::new();
    state.record(&[bad("a")]);
    let plan = state.end_tick(&[], &[]);
    assert_eq!(plan.report, TickReport { play_alert: false, icon: None });
    assert_eq!(plan.sleep_ns, DEFAULT_INTERVAL_NS);
    assert_eq!(state.last_success, None);
    let ts = vec![target("a", "a", PingMode::Icmp, 3 * SECOND)];
    let plan = state.end_tick(&ts, &[bad("a")]);
    assert_eq!(plan.report, TickReport { play_alert: true, icon: Some(false) });
    assert_eq!(plan.sleep_ns, 3 * SECOND);
}
