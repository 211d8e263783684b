use costa::host::Host;
use costa::scanner::{
    classify_heartbeat, collect_scan, heartbeat_url, port_base_url, scan_ports, ProbeResponse,
};
use costa::store::{
    insert_recent_device, CostaStoreWrapper, StoreError, StoreKey, StoreValue,
};
use costa::device::DeviceMap;
use costa::menu::TrayMenu;
use costa::tick::process_host_scanner;

fn probe(url: &str, body: Option<&str>) -> ProbeResponse {
    ProbeResponse { url: url.to_string(), body: body.map(|b| b.to_string()) }
}

fn empty_store() -> CostaStoreWrapper {
    CostaStoreWrapper {
        simulator: DeviceMap::default(),
        tray: TrayMenu::default(),
        recent_devices: Vec::new(),
        clipboard_content: None,
        recent_urls: None,
        debug_hosts: None,
    }
}

#[test]
fn heartbeat_success_extracts_identity() {
    let r = classify_heartbeat("costa_heartbeat_success_DeviceA");
    assert_eq!(r, Some("DeviceA".to_string()));
}

#[test]
fn heartbeat_without_sentinel_fails() {
    assert_eq!(classify_heartbeat(""), None);
    assert_eq!(classify_heartbeat("hello"), None);
    assert_eq!(classify_heartbeat("costa_heartbeat_failure_X"), None);
}

#[test]
fn heartbeat_takes_text_after_last_sentinel() {
    let body = "costa_heartbeat_success_Acosta_heartbeat_success_B";
    assert_eq!(classify_heartbeat(body), Some("B".to_string()));
}

#[test]
fn heartbeat_identity_may_be_empty() {
    assert_eq!(classify_heartbeat("costa_heartbeat_success_"), Some(String::new()));
}

#[test]
fn scan_gains_discovered_host() {
    let responses = vec![probe(
        "http://127.0.0.1:9081",
        Some("costa_heartbeat_success_DeviceA"),
    )];
    let reg = collect_scan(&responses);
    assert_eq!(reg.entries.len(), 1);
    assert_eq!(reg.entries[0].name, "DeviceA");
    assert_eq!(reg.entries[0].url, "http://127.0.0.1:9081");
    assert_eq!(reg.get("DeviceA"), Some(&"http://127.0.0.1:9081".to_string()));
}

#[test]
fn scan_lists_exactly_the_successes() {
    let responses = vec![
        probe("http://127.0.0.1:9081", Some("costa_heartbeat_success_A")),
        probe("http://127.0.0.1:9082", None),
        probe("http://127.0.0.1:9083", Some("no sentinel here")),
        probe("http://127.0.0.1:9084", Some("costa_heartbeat_success_B")),
    ];
    let reg = collect_scan(&responses);
    assert_eq!(reg.entries.len(), 2);
    assert_eq!(reg.get("A"), Some(&"http://127.0.0.1:9081".to_string()));
    assert_eq!(reg.get("B"), Some(&"http://127.0.0.1:9084".to_string()));
    assert_eq!(reg.get("no sentinel here"), None);
}

#[test]
fn scan_twice_same_inputs_same_registry() {
    let responses = vec![
        probe("http://127.0.0.1:9081", Some("costa_heartbeat_success_A")),
        probe("http://127.0.0.1:9090", Some("costa_heartbeat_success_B")),
    ];
    let r1 = collect_scan(&responses);
    let r2 = collect_scan(&responses);
    assert_eq!(r1.entries.len(), r2.entries.len());
    for (e1, e2) in r1.entries.iter().zip(r2.entries.iter()) {
        assert_eq!(e1.name, e2.name);
        assert_eq!(e1.url, e2.url);
    }
}

#[test]
fn scan_same_identity_last_probe_wins() {
    let responses = vec![
        probe("http://127.0.0.1:9081", Some("costa_heartbeat_success_A")),
        probe("http://127.0.0.1:9082", Some("costa_heartbeat_success_A")),
    ];
    let reg = collect_scan(&responses);
    assert_eq!(reg.entries.len(), 1);
    assert_eq!(reg.get("A"), Some(&"http://127.0.0.1:9082".to_string()));
}

#[test]
fn scan_ports_cover_fixed_range() {
    let ports = scan_ports();
    assert_eq!(ports.len(), 11);
    assert_eq!(ports[0], 9081);
    assert_eq!(ports[10], 9091);
}

#[test]
fn port_urls_have_decimal_port() {
    assert_eq!(port_base_url(9081), "http://127.0.0.1:9081");
    assert_eq!(
        heartbeat_url("http://127.0.0.1:9081"),
        "http://127.0.0.1:9081/costa/heartbeat"
    );
}

#[test]
fn tick_preserves_selected_host_still_discovered() {
    let mut store = empty_store();
    let mut hosts = Host::default();
    hosts.set_selected_host("http://127.0.0.1:9081".to_string());
    store.debug_hosts = Some(hosts);
    let responses = vec![probe(
        "http://127.0.0.1:9081",
        Some("costa_heartbeat_success_X"),
    )];
    let reg = collect_scan(&responses);
    process_host_scanner(&mut store, reg);
    let after = store.debug_hosts.as_ref().unwrap();
    assert_eq!(after.selected_host, Some("http://127.0.0.1:9081".to_string()));
    assert_eq!(after.host_map.entries.len(), 1);
}

#[test]
fn tick_keeps_stale_selection_when_host_vanishes() {
    let mut store = empty_store();
    let mut hosts = Host::default();
    hosts.set_selected_host("http://127.0.0.1:9085".to_string());
    store.debug_hosts = Some(hosts);
    let reg = collect_scan(&Vec::new());
    process_host_scanner(&mut store, reg);
    let after = store.debug_hosts.as_ref().unwrap();
    assert_eq!(after.selected_host, Some("http://127.0.0.1:9085".to_string()));
    assert!(after.host_map.entries.is_empty());
}

#[test]
fn recent_insert_existing_non_front_moves_to_front() {
    let recent = vec!["d3".to_string(), "d2".to_string(), "d1".to_string()];
    let out = insert_recent_device(&recent, "d2");
    assert_eq!(out, vec!["d2".to_string(), "d3".to_string(), "d1".to_string()]);
}

#[test]
fn recent_insert_front_leaves_list_unchanged() {
    let recent = vec!["d3".to_string(), "d2".to_string(), "d1".to_string()];
    let out = insert_recent_device(&recent, "d3");
    assert_eq!(out, recent);
}

#[test]
fn recent_insert_full_evicts_oldest() {
    let recent: Vec<String> =
        ["d5", "d4", "d3", "d2", "d1"].iter().map(|s| s.to_string()).collect();
    let out = insert_recent_device(&recent, "d6");
    assert_eq!(out.len(), 5);
    assert_eq!(out[0], "d6");
    assert_eq!(
        out,
        vec!["d6".to_string(), "d5".to_string(), "d4".to_string(), "d3".to_string(), "d2".to_string()]
    );
}

#[test]
fn recent_insert_new_under_cap_prepends() {
    let recent = vec!["d1".to_string()];
    let out = insert_recent_device(&recent, "d2");
    assert_eq!(out, vec!["d2".to_string(), "d1".to_string()]);
}

#[test]
fn store_set_and_get_recent_devices() {
    let mut store = empty_store();
    let r = store.set(
        StoreKey::RecentDevices,
        StoreValue::RecentDevices(vec!["a".to_string()]),
    );
    assert!(r.is_ok());
    match store.get(StoreKey::RecentDevices) {
        Some(StoreValue::RecentDevices(v)) => assert_eq!(v, vec!["a".to_string()]),
        _ => panic!("recent devices slot must answer"),
    }
}

#[test]
fn store_set_wrong_kind_is_refused() {
    let mut store = empty_store();
    let r = store.set(StoreKey::Tray, StoreValue::RecentDevices(Vec::new()));
    assert_eq!(r, Err(StoreError::InvalidKind));
    assert!(store.get(StoreKey::DebugHosts).is_none());
}

#[test]
fn store_optional_slots_start_empty() {
    let store = empty_store();
    assert!(store.get(StoreKey::ClipboardContent).is_none());
    assert!(store.get(StoreKey::RecentUrls).is_none());
    assert!(store.get(StoreKey::DebugHosts).is_none());
    assert!(store.get(StoreKey::Simulator).is_some());
    assert!(store.get(StoreKey::Tray).is_some());
    assert!(store.get(StoreKey::RecentDevices).is_some());
}

#[test]
fn store_first_run_has_empty_substructures() {
    let store = CostaStoreWrapper::first_run(DeviceMap::default());
    assert!(store.recent_devices.is_empty());
    assert!(store.clipboard_content.is_none());
    assert!(store.debug_hosts.is_none());
    assert!(store.simulator.devices.is_empty());
}

#[test]
fn store_setup_resets_debug_hosts() {
    let mut store = empty_store();
    let mut hosts = Host::default();
    hosts.set_selected_host("http://127.0.0.1:9081".to_string());
    store.debug_hosts = Some(hosts);
    store.setup_debug_hosts();
    let after = store.debug_hosts.as_ref().unwrap();
    assert_eq!(after.selected_host, None);
    assert!(after.host_map.entries.is_empty());
}

#[test]
fn store_key_names() {
    assert_eq!(StoreKey::Simulator.as_str(), "simulator");
    assert_eq!(StoreKey::Tray.as_str(), "tray");
    assert_eq!(StoreKey::RecentDevices.as_str(), "recent_devices");
    assert_eq!(StoreKey::ClipboardContent.as_str(), "clipboard_content");
    assert_eq!(StoreKey::RecentUrls.as_str(), "recent_urls");
    assert_eq!(StoreKey::DebugHosts.as_str(), "debug_hosts");
}
