use costa::clipboard::{ClipboardContent, ClipboardType};
use costa::command::{
    get_clipborad_value, goto_schema, goto_schema_by_sslocal, is_app_package,
    is_simulator_runtime_package, plan_install_app, set_boe, set_ppe,
};
use costa::device::{set_os_versions, Device, DeviceGroup, DeviceMap, SimCommand};
use costa::host::{Host, HostMap, OperationParams, RequestBody, SetEnvParams};
use costa::menu::TrayMenu;
use costa::operation::{parse_operation, OperationId};
use costa::path::{get_app_data_dir, get_sotre_path};
use costa::store::CostaStoreWrapper;
use costa::window::{CostaRouter, EnvName};

fn device(udid: &str, name: &str, state: &str) -> Device {
    Device::new(
        format!("/data/{}", udid),
        1024,
        format!("/log/{}", udid),
        udid.to_string(),
        true,
        "com.example.device-type".to_string(),
        state.to_string(),
        name.to_string(),
        None,
        None,
        None,
    )
}

fn store_with(catalog: DeviceMap, hosts: Option<Host>) -> CostaStoreWrapper {
    let tray_catalog = catalog.clone();
    CostaStoreWrapper {
        simulator: catalog,
        tray: TrayMenu { simulator: tray_catalog },
        recent_devices: Vec::new(),
        clipboard_content: None,
        recent_urls: None,
        debug_hosts: hosts,
    }
}

#[test]
fn clipboard_value_comes_from_the_slot() {
    let mut store = store_with(DeviceMap::default(), None);
    assert_eq!(get_clipborad_value(&store), None);
    store.clipboard_content = Some(ClipboardContent {
        content: "hello".to_string(),
        clipboard_type: ClipboardType::Image,
    });
    assert_eq!(get_clipborad_value(&store), Some("hello".to_string()));
}

#[test]
fn goto_schema_posts_schema_to_selected_host() {
    let mut host = Host { selected_host: None, host_map: HostMap::new() };
    host.set_selected_host("http://127.0.0.1:9083".to_string());
    let store = store_with(DeviceMap::default(), Some(host));
    let req = goto_schema(&store, "sslocal://page").expect("request expected");
    assert_eq!(req.url, "http://127.0.0.1:9083/costa/routeSwitch");
    match &req.body {
        RequestBody::Text(t) => assert_eq!(t, "sslocal://page"),
        _ => panic!("schema goes as a raw string"),
    }
}

#[test]
fn goto_schema_without_selection_sends_nothing() {
    let store = store_with(DeviceMap::default(), Some(Host::default()));
    assert!(goto_schema(&store, "sslocal://page").is_none());
}

#[test]
fn set_env_posts_json_for_test_environments() {
    let mut host = Host { selected_host: None, host_map: HostMap::new() };
    host.set_selected_host("http://127.0.0.1:9081".to_string());
    let store = store_with(DeviceMap::default(), Some(host));
    let params = SetEnvParams {
        env_type: "boe".to_string(),
        is_on: true,
        name: "feature".to_string(),
        gecko_online: false,
    };
    let req = set_boe(&store, &params).expect("request expected");
    assert_eq!(req.url, "http://127.0.0.1:9081/costa/setEnv");
    match &req.body {
        RequestBody::EnvJson(p) => {
            assert_eq!(p.env_type, "boe");
            assert!(p.is_on);
            assert_eq!(p.name, "feature");
            assert!(!p.gecko_online);
        },
        _ => panic!("environment switch goes as JSON parameters"),
    }
    let req = set_ppe(&store, &params).expect("request expected");
    assert_eq!(req.url, "http://127.0.0.1:9081/costa/setEnv");
}

#[test]
fn set_env_refuses_other_environments() {
    let mut host = Host { selected_host: None, host_map: HostMap::new() };
    host.set_selected_host("http://127.0.0.1:9081".to_string());
    let store = store_with(DeviceMap::default(), Some(host));
    let params = SetEnvParams {
        env_type: "online".to_string(),
        is_on: true,
        name: "feature".to_string(),
        gecko_online: false,
    };
    assert!(set_boe(&store, &params).is_none());
}

#[test]
fn sslocal_scheme_is_rewritten_for_the_device() {
    let catalog = DeviceMap::new(vec![DeviceGroup {
        version: "iOS-17-5".to_string(),
        devices: vec![device("UD-1", "iPhone 15 Pro", "Booted")],
    }]);
    let store = store_with(catalog, None);
    match goto_schema_by_sslocal(&store, "sslocal://page?x=1") {
        Some(SimCommand::OpenUrl { udid, url }) => {
            assert_eq!(udid, "UD-1");
            assert_eq!(url, "snssdk36://page?x=1");
        },
        _ => panic!("booted device opens the rewritten url"),
    }
}

#[test]
fn sslocal_jump_needs_a_booted_device() {
    let store = store_with(DeviceMap::default(), None);
    assert!(goto_schema_by_sslocal(&store, "sslocal://page").is_none());
}

#[test]
fn install_plan_strips_zip_extension() {
    let catalog = DeviceMap::new(vec![DeviceGroup {
        version: "iOS-17-5".to_string(),
        devices: vec![device("UD-1", "iPhone 15 Pro", "Booted")],
    }]);
    let store = store_with(catalog, None);
    let plan = plan_install_app(&store, "/tmp/demo.app.zip").expect("plan expected");
    assert!(plan.unzip);
    match &plan.command {
        SimCommand::InstallApp { udid, app_path } => {
            assert_eq!(udid, "UD-1");
            assert_eq!(app_path, "/tmp/demo.app");
        },
        _ => panic!("plan installs on the booted device"),
    }
    let plan = plan_install_app(&store, "/tmp/demo.app").expect("plan expected");
    assert!(!plan.unzip);
    assert!(plan_install_app(&store_with(DeviceMap::default(), None), "/tmp/demo.app").is_none());
}

#[test]
fn package_name_filters() {
    assert!(is_app_package("demo.app"));
    assert!(is_app_package("demo.app.zip"));
    assert!(!is_app_package("demo.txt"));
    assert!(is_simulator_runtime_package("iOS_17_Simulator_Runtime.dmg"));
    assert!(!is_simulator_runtime_package("iOS_17.dmg"));
}

#[test]
fn os_versions_are_stamped_from_the_group_key() {
    let mut catalog = DeviceMap::new(vec![DeviceGroup {
        version: "com.apple.CoreSimulator.SimRuntime.iOS-17-5".to_string(),
        devices: vec![device("UD-1", "iPhone 15 Pro", "Shutdown")],
    }, DeviceGroup {
        version: "plainkey".to_string(),
        devices: vec![device("UD-2", "iPhone SE", "Shutdown")],
    }]);
    set_os_versions(&mut catalog);
    assert_eq!(
        catalog.devices[0].devices[0].os_version,
        Some("iOS-17-5".to_string())
    );
    assert_eq!(catalog.devices[1].devices[0].os_version, Some("plainkey".to_string()));
}

#[test]
fn device_map_lookups() {
    let mut catalog = DeviceMap::default();
    catalog.add_device("17", device("UD-1", "iPhone 15 Pro", "Shutdown"));
    catalog.add_device("17", device("UD-2", "iPhone SE", "Booted"));
    catalog.add_device("16", device("UD-3", "iPhone 14", "Shutdown"));
    assert_eq!(catalog.devices.len(), 2);
    assert_eq!(catalog.get_device("17", "UD-2").unwrap().name, "iPhone SE");
    assert!(catalog.get_device("16", "UD-2").is_none());
    assert_eq!(catalog.get_device_by_udid("UD-3").unwrap().name, "iPhone 14");
    assert_eq!(catalog.get_default_device().unwrap().udid, "UD-1");
    assert_eq!(catalog.get_first_booted_device().unwrap().udid, "UD-2");
    catalog.remove_device("17", "UD-1");
    assert!(catalog.get_device_by_udid("UD-1").is_none());
    assert_eq!(catalog.get_device_by_udid("UD-2").unwrap().udid, "UD-2");
}

#[test]
fn device_commands_carry_the_udid() {
    let d = device("UD-7", "iPhone 15 Pro", "Booted");
    match d.open_url("https://example.com") {
        SimCommand::OpenUrl { udid, url } => {
            assert_eq!(udid, "UD-7");
            assert_eq!(url, "https://example.com");
        },
        _ => panic!("open_url builds an OpenUrl command"),
    }
    match d.terminate_app("com.example.app") {
        SimCommand::TerminateApp { udid, bundle_id } => {
            assert_eq!(udid, "UD-7");
            assert_eq!(bundle_id, "com.example.app");
        },
        _ => panic!("terminate_app builds a TerminateApp command"),
    }
    match d.uninstall_app("com.example.app") {
        SimCommand::UninstallApp { udid, .. } => assert_eq!(udid, "UD-7"),
        _ => panic!("uninstall_app builds an UninstallApp command"),
    }
    match d.list_apps() {
        SimCommand::ListApps { udid } => assert_eq!(udid, "UD-7"),
        _ => panic!("list_apps builds a ListApps command"),
    }
}

#[test]
fn host_lookup_by_name() {
    let mut map = HostMap::new();
    map.insert("A".to_string(), "http://127.0.0.1:9081".to_string());
    map.insert("A".to_string(), "http://127.0.0.1:9090".to_string());
    let host = Host { selected_host: None, host_map: map };
    assert_eq!(host.get_host_by_name("A"), Some(&"http://127.0.0.1:9090".to_string()));
    assert_eq!(host.get_host_by_name("B"), None);
    assert_eq!(host.get_host_map().entries.len(), 1);
    assert_eq!(host.get_selected_host(), None);
}

#[test]
fn exec_operation_ignores_foreign_operations() {
    let mut host = Host { selected_host: None, host_map: HostMap::new() };
    host.set_selected_host("http://127.0.0.1:9081".to_string());
    assert!(host.exec_operation(OperationId::Quit, &OperationParams::Empty).is_none());
    assert!(host
        .exec_operation(OperationId::ClipboardSchema, &OperationParams::Empty)
        .is_none());
}

#[test]
fn parse_operation_fixed_words() {
    assert_eq!(parse_operation("qr_code").op, OperationId::ClipboardSchema);
    assert_eq!(parse_operation("safari_dev_tool").op, OperationId::Safari);
    assert_eq!(parse_operation("install_app").op, OperationId::InstallApp);
    assert_eq!(parse_operation("quit").op, OperationId::Quit);
    assert_eq!(parse_operation("op_route_back").op, OperationId::RouteBack);
    assert_eq!(parse_operation("op_route_forward").op, OperationId::RouteForward);
    assert_eq!(parse_operation("op_route_refresh").op, OperationId::RouteRefresh);
    assert_eq!(parse_operation("op_set_env").op, OperationId::SetEnv);
    assert_eq!(parse_operation("op_login").op, OperationId::Login);
    assert_eq!(parse_operation("op_logout").op, OperationId::Logout);
    assert_eq!(parse_operation("op_debug_menu").op, OperationId::DebugMenu);
    assert_eq!(parse_operation("anything").op, OperationId::NoOp);
}

#[test]
fn parse_operation_prefixed_forms_carry_the_target() {
    let sel = parse_operation("open_simulatorUD-1");
    assert_eq!(sel.op, OperationId::OpenSimulator);
    assert_eq!(sel.param, Some("UD-1".to_string()));
    let sel = parse_operation("select_hosthttp://127.0.0.1:9081");
    assert_eq!(sel.op, OperationId::SelectHost);
    assert_eq!(sel.param, Some("http://127.0.0.1:9081".to_string()));
    let sel = parse_operation("select_host");
    assert_eq!(sel.op, OperationId::SelectHost);
    assert_eq!(sel.param, Some(String::new()));
}

#[test]
fn operation_names_round_trip() {
    assert_eq!(OperationId::OpenSimulator.as_str(), "open_simulator");
    assert_eq!(OperationId::SelectHost.as_str(), "select_host");
    assert_eq!(OperationId::DebugMenu.as_str(), "op_debug_menu");
    assert_eq!(parse_operation(OperationId::Quit.as_str()).op, OperationId::Quit);
}

#[test]
fn router_and_env_names() {
    assert_eq!(CostaRouter::UrlEdit.as_str(), "/schema_editor");
    assert_eq!(CostaRouter::parse("/download_app"), CostaRouter::DownloadApp);
    assert_eq!(CostaRouter::parse("nonsense"), CostaRouter::Home);
    assert_eq!(EnvName::BOE.as_str(), "boe");
    assert_eq!(EnvName::parse("ppe"), EnvName::PPE);
    assert_eq!(EnvName::parse("anything"), EnvName::ONLINE);
    assert_eq!(ClipboardType::Text.as_str(), "Text");
    assert_eq!(ClipboardType::Image.as_str(), "Image");
}

#[test]
fn store_paths_sit_under_home() {
    assert_eq!(get_app_data_dir("/Users/me"), "/Users/me/.costa");
    assert_eq!(get_sotre_path("/Users/me"), "/Users/me/.costa/store");
}

#[test]
fn runtime_default_is_empty() {
    let r = costa::runtime::Runtime::default();
    assert_eq!(r.identifier, "");
    assert_eq!(r.version, "");
    assert!(!r.deletable);
    assert_eq!(r.size_bytes, 0);
    assert!(r.mount_path.is_none());
}
