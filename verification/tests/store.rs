use remipn::config::VpnProfile;
use remipn::controller::VpnError;
use remipn::vpn::{StatusColor, VpnConnection, VpnManager, VpnStatus};

fn profile(name: &str) -> VpnProfile {
    VpnProfile {
        name: name.to_string(),
        gateway_address: "gw.example.com".to_string(),
        category: "dev".to_string(),
        cert_path: None,
        username: None,
        aliases: None,
        protocol: "IKEv2".to_string(),
        auto_connect: false,
    }
}

fn active(entries: &[(&str, Option<&str>)]) -> Vec<(String, Option<String>)> {
    entries.iter().map(|(n, ip)| (n.to_string(), ip.map(|s| s.to_string()))).collect()
}

fn names(list: &[&str]) -> Vec<String> {
    list.iter().map(|s| s.to_string()).collect()
}

#[test]
fn unknown_profile_is_disconnected() {
    let mgr = VpnManager::new();
    assert_eq!(mgr.get_status("office"), VpnStatus::Disconnected);
    assert_eq!(mgr.get_status(""), VpnStatus::Disconnected);
    assert!(mgr.get_all_connections().is_empty());
}

#[test]
fn unknown_profile_stays_disconnected_beside_others() {
    let mut mgr = VpnManager::new();
    mgr.set_status("office", VpnStatus::Connecting);
    assert_eq!(mgr.get_status("home"), VpnStatus::Disconnected);
    assert_eq!(mgr.get_status("Office"), VpnStatus::Disconnected);
    assert_eq!(mgr.get_status("office"), VpnStatus::Connecting);
}

#[test]
fn get_gives_default_record_for_unknown_profile() {
    let mgr = VpnManager::new();
    let record = mgr.get("office");
    assert_eq!(
        record,
        VpnConnection {
            profile_name: "office".to_string(),
            status: VpnStatus::Disconnected,
            connected_since: None,
            ip_address: None,
            bytes_sent: 0,
            bytes_received: 0,
        }
    );
    assert!(mgr.get_all_connections().is_empty());
}

#[test]
fn set_status_creates_a_default_record() {
    let mut mgr = VpnManager::new();
    mgr.set_status("office", VpnStatus::Error("boom".to_string()));
    let all = mgr.get_all_connections();
    assert_eq!(all.len(), 1);
    assert_eq!(all[0].profile_name, "office");
    assert_eq!(all[0].status, VpnStatus::Error("boom".to_string()));
    assert_eq!(all[0].connected_since, None);
    assert_eq!(all[0].ip_address, None);
    assert_eq!(all[0].bytes_sent, 0);
    assert_eq!(all[0].bytes_received, 0);
}

#[test]
fn set_status_keeps_one_record_per_name() {
    let mut mgr = VpnManager::new();
    mgr.set_status("office", VpnStatus::Connecting);
    mgr.set_status("home", VpnStatus::Disconnected);
    mgr.set_status("office", VpnStatus::Disconnecting);
    let all = mgr.get_all_connections();
    assert_eq!(all.len(), 2);
    assert_eq!(mgr.get_status("office"), VpnStatus::Disconnecting);
    assert_eq!(mgr.get_status("home"), VpnStatus::Disconnected);
}

#[test]
fn set_status_connected_keeps_time_and_address() {
    let mut mgr = VpnManager::new();
    mgr.reconcile(&names(&["office"]), &active(&[("office", Some("10.0.0.5"))]), 1_000);
    mgr.set_status("office", VpnStatus::Connected);
    let record = mgr.get("office");
    assert_eq!(record.status, VpnStatus::Connected);
    assert_eq!(record.connected_since, Some(1_000));
    assert_eq!(record.ip_address, Some("10.0.0.5".to_string()));
}

#[test]
fn set_status_keeps_the_other_fields_for_every_status() {
    for status in [
        VpnStatus::Connecting,
        VpnStatus::Disconnecting,
        VpnStatus::Disconnected,
        VpnStatus::Retrying(1, 3),
        VpnStatus::Error("x".to_string()),
        VpnStatus::Connected,
    ] {
        let mut mgr = VpnManager::new();
        mgr.reconcile(
            &names(&["office", "home"]),
            &active(&[("office", Some("10.0.0.5")), ("home", None)]),
            1_000,
        );
        let home = mgr.get("home");
        mgr.set_status("office", status.clone());
        let record = mgr.get("office");
        assert_eq!(record.status, status);
        assert_eq!(record.connected_since, Some(1_000));
        assert_eq!(record.ip_address, Some("10.0.0.5".to_string()));
        assert_eq!(record.bytes_sent, 0);
        assert_eq!(record.bytes_received, 0);
        assert_eq!(mgr.get("home"), home);
        assert_eq!(mgr.get_all_connections().len(), 2);
    }
}

#[test]
fn reconciliation_settles_what_set_status_left() {
    let mut mgr = VpnManager::new();
    mgr.reconcile(&names(&["office"]), &active(&[("office", Some("10.0.0.5"))]), 1_000);
    mgr.set_status("office", VpnStatus::Connecting);
    assert_eq!(mgr.get("office").connected_since, Some(1_000));
    mgr.reconcile(&names(&["office"]), &active(&[]), 2_000);
    let record = mgr.get("office");
    assert_eq!(record.status, VpnStatus::Disconnected);
    assert_eq!(record.connected_since, None);
    assert_eq!(record.ip_address, None);
}

#[test]
fn set_status_stores_retrying_as_given() {
    let mut mgr = VpnManager::new();
    mgr.set_status("office", VpnStatus::Retrying(2, 3));
    assert_eq!(mgr.get_status("office"), VpnStatus::Retrying(2, 3));
}

#[test]
fn upsert_all_adds_missing_and_keeps_existing() {
    let mut mgr = VpnManager::new();
    mgr.set_status("office", VpnStatus::Connecting);
    mgr.upsert_all(&names(&["home", "office", "lab", "home"]));
    let all = mgr.get_all_connections();
    assert_eq!(all.len(), 3);
    assert_eq!(mgr.get_status("office"), VpnStatus::Connecting);
    assert_eq!(mgr.get_status("home"), VpnStatus::Disconnected);
    assert_eq!(mgr.get_status("lab"), VpnStatus::Disconnected);
    let mut seen: Vec<String> = all.iter().map(|c| c.profile_name.clone()).collect();
    seen.sort();
    assert_eq!(seen, names(&["home", "lab", "office"]));
}

#[test]
fn snapshot_is_a_copy() {
    let mut mgr = VpnManager::new();
    mgr.set_status("office", VpnStatus::Connecting);
    let mut all = mgr.get_all_connections();
    all[0].status = VpnStatus::Connected;
    all[0].profile_name = "other".to_string();
    assert_eq!(mgr.get_status("office"), VpnStatus::Connecting);
    assert_eq!(mgr.get_status("other"), VpnStatus::Disconnected);
}

#[test]
fn reconcile_reports_active_profile_with_address() {
    let mut mgr = VpnManager::new();
    mgr.reconcile(&names(&["P", "Q"]), &active(&[("P", Some("10.0.0.5"))]), 42);
    assert_eq!(mgr.get_status("P"), VpnStatus::Connected);
    assert_eq!(mgr.get("P").ip_address, Some("10.0.0.5".to_string()));
    assert_eq!(mgr.get("P").connected_since, Some(42));
    assert_eq!(mgr.get_status("Q"), VpnStatus::Disconnected);

    mgr.reconcile(&names(&["P", "Q"]), &active(&[]), 43);
    assert_eq!(mgr.get_status("P"), VpnStatus::Disconnected);
    assert_eq!(mgr.get("P").ip_address, None);
    assert_eq!(mgr.get("P").connected_since, None);
}

#[test]
fn reconcile_twice_keeps_connection_time() {
    let mut mgr = VpnManager::new();
    let report = active(&[("P", Some("10.0.0.5"))]);
    mgr.reconcile(&names(&["P"]), &report, 1_000);
    let first = mgr.get("P");
    mgr.reconcile(&names(&["P"]), &report, 2_000);
    let second = mgr.get("P");
    assert_eq!(first.connected_since, Some(1_000));
    assert_eq!(second.connected_since, Some(1_000));
    assert_eq!(first, second);
}

#[test]
fn reconcile_updates_address_without_resetting_time() {
    let mut mgr = VpnManager::new();
    mgr.reconcile(&names(&["P"]), &active(&[("P", None)]), 1_000);
    assert_eq!(mgr.get("P").ip_address, None);
    mgr.reconcile(&names(&["P"]), &active(&[("P", Some("10.1.1.1"))]), 5_000);
    assert_eq!(mgr.get("P").ip_address, Some("10.1.1.1".to_string()));
    assert_eq!(mgr.get("P").connected_since, Some(1_000));
}

#[test]
fn reconcile_overrides_cached_error() {
    let mut mgr = VpnManager::new();
    mgr.set_status("P", VpnStatus::Error("auth".to_string()));
    mgr.set_status("Q", VpnStatus::Error("auth".to_string()));
    mgr.reconcile(&names(&[]), &active(&[("P", None)]), 7);
    assert_eq!(mgr.get_status("P"), VpnStatus::Connected);
    assert_eq!(mgr.get("P").connected_since, Some(7));
    assert_eq!(mgr.get_status("Q"), VpnStatus::Disconnected);
}

#[test]
fn reconcile_takes_first_report_of_a_name() {
    let mut mgr = VpnManager::new();
    mgr.reconcile(
        &names(&["P"]),
        &active(&[("P", Some("10.0.0.1")), ("P", Some("10.0.0.2"))]),
        7,
    );
    assert_eq!(mgr.get("P").ip_address, Some("10.0.0.1".to_string()));
}

#[test]
fn reconcile_ignores_active_profiles_that_are_not_known() {
    let mut mgr = VpnManager::new();
    mgr.reconcile(&names(&["P"]), &active(&[("stranger", None)]), 7);
    assert_eq!(mgr.get_all_connections().len(), 1);
    assert_eq!(mgr.get_status("stranger"), VpnStatus::Disconnected);
    assert_eq!(mgr.get_status("P"), VpnStatus::Disconnected);
}

#[test]
fn reconcile_keeps_records_of_profiles_no_longer_known() {
    let mut mgr = VpnManager::new();
    mgr.reconcile(&names(&["P"]), &active(&[("P", None)]), 7);
    mgr.reconcile(&names(&[]), &active(&[("P", None)]), 8);
    assert_eq!(mgr.get_status("P"), VpnStatus::Connected);
    assert_eq!(mgr.get("P").connected_since, Some(7));
}

#[test]
fn refresh_all_status_reads_the_clock_once_connected() {
    let mut mgr = VpnManager::new();
    let profiles = vec![profile("P"), profile("Q")];
    let report = active(&[("P", Some("10.0.0.5"))]);
    assert_eq!(mgr.refresh_all_status(&profiles, &Ok(report.clone())), Ok(()));
    let first = mgr.get("P");
    assert_eq!(first.status, VpnStatus::Connected);
    assert_eq!(first.ip_address, Some("10.0.0.5".to_string()));
    let since = first.connected_since.expect("a connected profile has a connection time");
    assert!(since > 1_600_000_000_000);
    assert_eq!(mgr.get_status("Q"), VpnStatus::Disconnected);
    assert_eq!(mgr.get_all_connections().len(), 2);

    assert_eq!(mgr.refresh_all_status(&profiles, &Ok(report.clone())), Ok(()));
    assert_eq!(mgr.get("P").connected_since, Some(since));

    assert_eq!(
        mgr.refresh_all_status(&profiles, &Err("nmcli: not found".to_string())),
        Err(VpnError::Probe("nmcli: not found".to_string()))
    );
    assert_eq!(mgr.get("P").connected_since, Some(since));
    assert_eq!(mgr.get_status("P"), VpnStatus::Connected);
    assert_eq!(mgr.get_all_connections().len(), 2);

    assert_eq!(mgr.refresh_all_status(&profiles, &Ok(active(&[]))), Ok(()));
    assert_eq!(mgr.get_status("P"), VpnStatus::Disconnected);
    assert_eq!(mgr.get("P").connected_since, None);
    assert_eq!(mgr.get("P").ip_address, None);
}

#[test]
fn every_record_is_settled_after_a_reconciliation() {
    let mut mgr = VpnManager::new();
    mgr.reconcile(&names(&["a", "b", "c"]), &active(&[("a", Some("1.1.1.1")), ("b", None)]), 9);
    mgr.set_status("a", VpnStatus::Error("x".to_string()));
    mgr.set_status("b", VpnStatus::Connecting);
    mgr.set_status("d", VpnStatus::Connected);
    assert_eq!(mgr.get("a").connected_since, Some(9));
    mgr.reconcile(&names(&["a", "b", "c"]), &active(&[("c", Some("2.2.2.2"))]), 10);
    assert_eq!(mgr.get_all_connections().len(), 4);
    for record in mgr.get_all_connections() {
        if record.status != VpnStatus::Connected {
            assert_eq!(record.connected_since, None);
            assert_eq!(record.ip_address, None);
        }
    }
}

#[test]
fn status_labels() {
    assert_eq!(VpnStatus::Connected.as_str(), "Connected");
    assert_eq!(VpnStatus::Connecting.as_str(), "Connecting...");
    assert_eq!(VpnStatus::Retrying(2, 3).as_str(), "Retry 2/3...");
    assert_eq!(VpnStatus::Retrying(0, 4_294_967_295).as_str(), "Retry 0/4294967295...");
    assert_eq!(VpnStatus::Retrying(10, 120).as_str(), "Retry 10/120...");
    assert_eq!(VpnStatus::Disconnected.as_str(), "Disconnected");
    assert_eq!(VpnStatus::Disconnecting.as_str(), "Disconnecting...");
    assert_eq!(VpnStatus::Error("whatever".to_string()).as_str(), "Error");
}

#[test]
fn status_colors() {
    assert_eq!(VpnStatus::Connected.color(), StatusColor::Green);
    assert_eq!(VpnStatus::Connecting.color(), StatusColor::Yellow);
    assert_eq!(VpnStatus::Retrying(1, 3).color(), StatusColor::Yellow);
    assert_eq!(VpnStatus::Disconnected.color(), StatusColor::Gray);
    assert_eq!(VpnStatus::Disconnecting.color(), StatusColor::Yellow);
    assert_eq!(VpnStatus::Error("e".to_string()).color(), StatusColor::Red);
}

#[test]
fn status_clone_is_equal() {
    let status = VpnStatus::Error("no route".to_string());
    assert_eq!(status.clone(), status);
    assert!(VpnStatus::Connected.is_connected());
    assert!(!VpnStatus::Connecting.is_connected());
}

#[test]
fn status_descriptions() {
    assert_eq!(VpnStatus::Connected.describe(), "Connected");
    assert_eq!(VpnStatus::Retrying(1, 3).describe(), "Retry 1/3...");
    assert_eq!(VpnStatus::Error("no route".to_string()).describe(), "Error: no route");
    assert_eq!(VpnStatus::Error(String::new()).describe(), "Error: ");
}

#[test]
fn default_cache_is_empty() {
    let mgr = VpnManager::default();
    assert!(mgr.get_all_connections().is_empty());
    assert_eq!(mgr.get_status("x"), VpnStatus::Disconnected);
}

#[test]
fn fresh_and_changed_records() {
    let fresh = VpnConnection::fresh("p", VpnStatus::Connecting);
    assert_eq!(fresh.profile_name, "p");
    assert_eq!(fresh.status, VpnStatus::Connecting);
    assert_eq!(fresh.connected_since, None);
    let up = fresh.connected_at(77);
    assert_eq!(up.status, VpnStatus::Connected);
    assert_eq!(up.connected_since, Some(77));
    let seen = up.reconciled(Some(Some("10.0.0.1".to_string())), 99);
    assert_eq!(seen.connected_since, Some(77));
    assert_eq!(seen.ip_address, Some("10.0.0.1".to_string()));
    let kept = seen.with_status(VpnStatus::Disconnecting);
    assert_eq!(kept.status, VpnStatus::Disconnecting);
    assert_eq!(kept.connected_since, Some(77));
    assert_eq!(kept.ip_address, Some("10.0.0.1".to_string()));
    let down = seen.moved_to(VpnStatus::Disconnecting);
    assert_eq!(down.status, VpnStatus::Disconnecting);
    assert_eq!(down.connected_since, None);
    assert_eq!(down.ip_address, None);
    assert_eq!(seen.moved_to(VpnStatus::Connected), seen);
    let again = down.reconciled(Some(None), 100);
    assert_eq!(again.status, VpnStatus::Connected);
    assert_eq!(again.connected_since, Some(100));
    assert_eq!(again.reconciled(None, 101).status, VpnStatus::Disconnected);
    assert_eq!(seen.with_status(VpnStatus::Connected), seen);
}

#[test]
fn first_report_of_a_name_is_found() {
    use_find_active();
}

fn use_find_active() {
    let list = active(&[("a", None), ("b", Some("1.1.1.1")), ("b", Some("2.2.2.2"))]);
    assert_eq!(remipn::vpn::find_active(&list, "a"), Some(None));
    assert_eq!(remipn::vpn::find_active(&list, "b"), Some(Some("1.1.1.1".to_string())));
    assert_eq!(remipn::vpn::find_active(&list, "c"), None);
}
