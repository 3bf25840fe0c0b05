use piing::vpn::{AdapterInfo, AdapterStatus, VpnCriterion, VpnDetector, VPN_REFRESH_INTERVAL_NS};

const SECOND: u64 = 1_000_000_000;

fn criterion(name: &str) -> VpnCriterion {
    VpnCriterion { display_name: Some(name.to_string()) }
}

fn adapter(id: u64, name: &str) -> AdapterInfo {
    AdapterInfo { id, display_name: name.to_string() }
}

#[test]
fn first_call_needs_refresh() {
    let d = VpnDetector::new();
    assert_eq!(d.refresh_interval, VPN_REFRESH_INTERVAL_NS);
    assert!(d.needs_refresh(&[criterion("VPN")], 0, 0));
    assert!(d.needs_refresh(&[], 0, 0));
}

#[test]
fn refresh_matches_by_display_name() {
    let mut d = VpnDetector::new();
    let criteria = vec![criterion("Corp VPN"), VpnCriterion { display_name: None }];
    let adapters = vec![adapter(1, "Ethernet"), adapter(2, "Corp VPN"), adapter(3, "corp vpn")];
    d.update_matches(&criteria, &adapters, 10 * SECOND);
    assert_eq!(d.matched_ids, vec![2]);
    assert_eq!(d.last_refresh, Some(10 * SECOND));
    assert_eq!(d.last_criteria_names, vec![Some("Corp VPN".to_string()), None]);
}

#[test]
fn cache_trusted_within_interval() {
    let mut d = VpnDetector::new();
    let criteria = vec![criterion("VPN")];
    d.update_matches(&criteria, &[adapter(7, "VPN")], 100 * SECOND);
    for now in [100 * SECOND, 101 * SECOND, 130 * SECOND] {
        assert!(!d.needs_refresh(&criteria, now, 99 * SECOND));
    }
    assert!(d.needs_refresh(&criteria, 130 * SECOND + 1, 99 * SECOND));
}

#[test]
fn newer_snapshot_forces_refresh() {
    let mut d = VpnDetector::new();
    let criteria = vec![criterion("VPN")];
    d.update_matches(&criteria, &[], 100 * SECOND);
    assert!(!d.needs_refresh(&criteria, 101 * SECOND, 100 * SECOND));
    assert!(d.needs_refresh(&criteria, 101 * SECOND, 100 * SECOND + 1));
}

#[test]
fn changed_criteria_force_refresh() {
    let mut d = VpnDetector::new();
    d.update_matches(&[criterion("A")], &[], 100 * SECOND);
    assert!(d.needs_refresh(&[criterion("B")], 100 * SECOND, 0));
    assert!(d.needs_refresh(&[criterion("A"), criterion("B")], 100 * SECOND, 0));
    assert!(!d.needs_refresh(&[criterion("A")], 100 * SECOND, 0));
}

#[test]
fn no_criteria_means_no_vpn() {
    let mut d = VpnDetector::new();
    d.update_matches(&[criterion("VPN")], &[adapter(1, "VPN")], SECOND);
    assert!(!d.is_vpn_active(&[], &[AdapterStatus::Up]));
    assert_eq!(d.last_refresh, Some(SECOND));
}

#[test]
fn active_when_an_adapter_is_up() {
    let mut d = VpnDetector::new();
    let criteria = vec![criterion("VPN")];
    d.update_matches(&criteria, &[adapter(1, "VPN"), adapter(2, "VPN")], SECOND);
    assert!(d.is_vpn_active(&criteria, &[AdapterStatus::NotUp, AdapterStatus::Up]));
    assert_eq!(d.last_refresh, Some(SECOND));
    assert!(!d.is_vpn_active(&criteria, &[AdapterStatus::NotUp, AdapterStatus::NotUp]));
}

#[test]
fn lost_adapter_schedules_refresh() {
    let mut d = VpnDetector::new();
    let criteria = vec![criterion("VPN")];
    d.update_matches(&criteria, &[adapter(1, "VPN"), adapter(2, "VPN")], SECOND);
    assert!(d.is_vpn_active(&criteria, &[AdapterStatus::Unavailable, AdapterStatus::Up]));
    assert_eq!(d.last_refresh, None);
    assert!(d.needs_refresh(&criteria, SECOND, 0));
}
