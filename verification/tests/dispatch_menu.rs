use costa::clipboard::{ClipboardContent, ClipboardType};
use costa::device::{Device, DeviceGroup, DeviceMap, SimCommand};
use costa::dispatch::{on_system_tray_event, DispatchEffect};
use costa::host::{Host, HostEntry, HostMap, RequestBody};
use costa::menu::TrayMenu;
use costa::store::CostaStoreWrapper;
use costa::tray::{init_system_tray_menu, MenuEntry};
use costa::window::CostaRouter;

fn device(udid: &str, name: &str, state: &str) -> Device {
    Device::new(
        format!("/data/{}", udid),
        1024,
        format!("/log/{}", udid),
        udid.to_string(),
        true,
        "com.example.device-type".to_string(),
        state.to_string(),
        name.to_string(),
        None,
        None,
        Some("17-5".to_string()),
    )
}

fn catalog_with(devices: Vec<Device>) -> DeviceMap {
    DeviceMap::new(vec![DeviceGroup {
        version: "com.example.iOS-17-5".to_string(),
        devices,
    }])
}

fn store_with(catalog: DeviceMap, hosts: Option<Host>) -> CostaStoreWrapper {
    let tray_catalog = catalog.clone();
    CostaStoreWrapper {
        simulator: catalog,
        tray: TrayMenu { simulator: tray_catalog },
        recent_devices: Vec::new(),
        clipboard_content: None,
        recent_urls: None,
        debug_hosts: hosts,
    }
}

fn selected_host(url: &str, names: &[(&str, &str)]) -> Host {
    let mut map = HostMap::new();
    for (n, u) in names {
        map.insert(n.to_string(), u.to_string());
    }
    let mut h = Host { selected_host: None, host_map: map };
    h.set_selected_host(url.to_string());
    h
}

#[test]
fn dispatch_debug_menu_without_selection_issues_no_post() {
    let store = store_with(DeviceMap::default(), Some(Host::default()));
    let out = on_system_tray_event(&store, "op_debug_menu", &None);
    assert!(out.effects.is_empty());
}

#[test]
fn dispatch_debug_menu_without_record_issues_no_post() {
    let store = store_with(DeviceMap::default(), None);
    let out = on_system_tray_event(&store, "op_debug_menu", &None);
    assert!(out.effects.is_empty());
}

#[test]
fn dispatch_debug_menu_posts_to_selected_host() {
    let host = selected_host("http://127.0.0.1:9081", &[("A", "http://127.0.0.1:9081")]);
    let store = store_with(DeviceMap::default(), Some(host));
    let out = on_system_tray_event(&store, "op_debug_menu", &None);
    assert_eq!(out.effects.len(), 1);
    match &out.effects[0] {
        DispatchEffect::Post(req) => {
            assert_eq!(req.url, "http://127.0.0.1:9081/costa/routeSwitch");
            match &req.body {
                RequestBody::Text(t) => assert_eq!(t, "sslocal://debug"),
                _ => panic!("debug menu posts a raw string"),
            }
        },
        _ => panic!("debug menu must post"),
    }
}

#[test]
fn dispatch_route_back_posts_item_id() {
    let host = selected_host("http://127.0.0.1:9082", &[]);
    let store = store_with(DeviceMap::default(), Some(host));
    let out = on_system_tray_event(&store, "op_route_back", &None);
    assert_eq!(out.effects.len(), 1);
    match &out.effects[0] {
        DispatchEffect::Post(req) => {
            assert_eq!(req.url, "http://127.0.0.1:9082/costa/routeVCOperation");
            match &req.body {
                RequestBody::Text(t) => assert_eq!(t, "op_route_back"),
                _ => panic!("route back posts a raw string"),
            }
        },
        _ => panic!("route back must post"),
    }
}

#[test]
fn dispatch_select_host_updates_selection() {
    let mut map = HostMap::new();
    map.insert("A".to_string(), "http://127.0.0.1:9081".to_string());
    let host = Host { selected_host: None, host_map: map };
    let store = store_with(DeviceMap::default(), Some(host));
    let out = on_system_tray_event(&store, "select_hosthttp://127.0.0.1:9081", &None);
    assert!(out.effects.is_empty());
    let after = out.store.debug_hosts.as_ref().unwrap();
    assert_eq!(after.selected_host, Some("http://127.0.0.1:9081".to_string()));
    assert_eq!(after.host_map.entries.len(), 1);
}

#[test]
fn dispatch_open_simulator_records_and_boots() {
    let catalog = catalog_with(vec![device("UD-1", "iPhone 15 Pro", "Shutdown")]);
    let store = store_with(catalog, None);
    let out = on_system_tray_event(&store, "open_simulatorUD-1", &None);
    assert_eq!(out.store.recent_devices, vec!["UD-1".to_string()]);
    assert_eq!(out.effects.len(), 2);
    match &out.effects[0] {
        DispatchEffect::Sim(SimCommand::Boot { udid }) => assert_eq!(udid, "UD-1"),
        _ => panic!("first effect boots the device"),
    }
    match &out.effects[1] {
        DispatchEffect::Sim(SimCommand::OpenSimulatorApp) => {},
        _ => panic!("second effect opens the simulator application"),
    }
}

#[test]
fn dispatch_open_simulator_unknown_device_is_noop() {
    let catalog = catalog_with(vec![device("UD-1", "iPhone 15 Pro", "Shutdown")]);
    let store = store_with(catalog, None);
    let out = on_system_tray_event(&store, "open_simulatorUD-9", &None);
    assert!(out.effects.is_empty());
    assert!(out.store.recent_devices.is_empty());
}

#[test]
fn dispatch_quit_and_install_app() {
    let store = store_with(DeviceMap::default(), None);
    let out = on_system_tray_event(&store, "quit", &None);
    assert!(matches!(out.effects.as_slice(), [DispatchEffect::Exit]));
    let out = on_system_tray_event(&store, "install_app", &None);
    assert!(matches!(
        out.effects.as_slice(),
        [DispatchEffect::OpenWindow(CostaRouter::DownloadApp)]
    ));
}

#[test]
fn dispatch_clipboard_schema_stores_payload_and_opens_editor() {
    let store = store_with(DeviceMap::default(), None);
    let clip = ClipboardContent {
        content: "sslocal://page".to_string(),
        clipboard_type: ClipboardType::Text,
    };
    let out = on_system_tray_event(&store, "qr_code", &Some(clip));
    assert!(matches!(
        out.effects.as_slice(),
        [DispatchEffect::OpenWindow(CostaRouter::UrlEdit)]
    ));
    let stored = out.store.clipboard_content.as_ref().unwrap();
    assert_eq!(stored.content, "sslocal://page");
    assert_eq!(stored.clipboard_type, ClipboardType::Text);
}

#[test]
fn dispatch_clipboard_schema_without_payload_only_opens_editor() {
    let store = store_with(DeviceMap::default(), None);
    let out = on_system_tray_event(&store, "qr_code", &None);
    assert!(matches!(
        out.effects.as_slice(),
        [DispatchEffect::OpenWindow(CostaRouter::UrlEdit)]
    ));
    assert!(out.store.clipboard_content.is_none());
}

#[test]
fn dispatch_set_env_opens_env_editor() {
    let store = store_with(DeviceMap::default(), None);
    let out = on_system_tray_event(&store, "op_set_env", &None);
    assert!(matches!(
        out.effects.as_slice(),
        [DispatchEffect::OpenWindow(CostaRouter::EnvEdit)]
    ));
}

#[test]
fn dispatch_unknown_id_is_noop() {
    let store = store_with(DeviceMap::default(), None);
    let out = on_system_tray_event(&store, "something_else", &None);
    assert!(out.effects.is_empty());
    assert!(out.store.recent_devices.is_empty());
}

#[test]
fn menu_shows_placeholder_without_hosts() {
    let menu = init_system_tray_menu(&DeviceMap::default(), &Vec::new(), &None);
    let placeholder = menu
        .entries
        .iter()
        .find_map(|e| match e {
            MenuEntry::Item(t) if t.id == "debug_host" => Some(t),
            _ => None,
        })
        .expect("placeholder item expected");
    assert_eq!(placeholder.label, "Debug Host Not Found");
    assert!(placeholder.disabled);
}

#[test]
fn menu_marks_selected_host() {
    let host = selected_host(
        "http://127.0.0.1:9082",
        &[("A", "http://127.0.0.1:9081"), ("B", "http://127.0.0.1:9082")],
    );
    let menu = init_system_tray_menu(&DeviceMap::default(), &Vec::new(), &Some(host));
    let items = menu
        .entries
        .iter()
        .find_map(|e| match e {
            MenuEntry::Submenu(label, items) if label == "Debug Host" => Some(items),
            _ => None,
        })
        .expect("hosts submenu expected");
    assert_eq!(items.len(), 2);
    assert_eq!(items[0].id, "select_hosthttp://127.0.0.1:9081");
    assert_eq!(items[0].label, "A");
    assert!(!items[0].selected);
    assert_eq!(items[1].id, "select_hosthttp://127.0.0.1:9082");
    assert!(items[1].selected);
}

#[test]
fn menu_device_items_mark_booted() {
    let catalog = catalog_with(vec![
        device("UD-1", "iPhone 15 Pro", "Booted"),
        device("UD-2", "iPhone SE", "Shutdown"),
    ]);
    let menu = init_system_tray_menu(&catalog, &Vec::new(), &None);
    let items = menu
        .entries
        .iter()
        .find_map(|e| match e {
            MenuEntry::Submenu(label, items) if label == "Devices" => Some(items),
            _ => None,
        })
        .expect("devices submenu expected");
    assert_eq!(items.len(), 2);
    assert_eq!(items[0].id, "open_simulatorUD-1");
    assert_eq!(items[0].label, "iPhone 15 Pro-17-5");
    assert!(items[0].selected);
    assert!(!items[1].selected);
}

#[test]
fn menu_recent_section_skips_missing_devices() {
    let catalog = catalog_with(vec![device("UD-1", "iPhone 15 Pro", "Shutdown")]);
    let recent = vec!["UD-9".to_string(), "UD-1".to_string()];
    let menu = init_system_tray_menu(&catalog, &recent, &None);
    let heading_pos = menu
        .entries
        .iter()
        .position(|e| matches!(e, MenuEntry::Item(t) if t.id == "recent_device"))
        .expect("recent heading expected");
    match &menu.entries[heading_pos + 1] {
        MenuEntry::Item(t) => assert_eq!(t.id, "open_simulatorUD-1"),
        _ => panic!("resolved recent device expected after the heading"),
    }
    match &menu.entries[heading_pos + 2] {
        MenuEntry::Separator => {},
        _ => panic!("only one recent device resolves"),
    }
}

#[test]
fn menu_sections_come_in_fixed_order() {
    let menu = init_system_tray_menu(&DeviceMap::default(), &Vec::new(), &None);
    let ids: Vec<String> = menu
        .entries
        .iter()
        .filter_map(|e| match e {
            MenuEntry::Item(t) => Some(t.id.clone()),
            _ => None,
        })
        .collect();
    assert_eq!(
        ids,
        vec![
            "recent_device".to_string(),
            "debug_host".to_string(),
            "op_route_back".to_string(),
            "op_route_forward".to_string(),
            "op_route_refresh".to_string(),
            "op_set_env".to_string(),
            "op_debug_menu".to_string(),
            "qr_code".to_string(),
            "safari_dev_tool".to_string(),
            "install_app".to_string(),
            "quit".to_string(),
        ]
    );
}
