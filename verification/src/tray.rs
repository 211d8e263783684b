//! The tray menu as a declarative description.
//!
//! The builder is a pure derivation: from the device catalog, the
//! recent-device list and the debug-hosts record it produces the menu's
//! fixed sections in their fixed order. Rendering the description into
//! a real tray is the caller's concern, and every rebuild replaces the
//! whole menu.

use vstd::prelude::*;
use vstd::string::*;

use crate::device::{Device, DeviceGroupV, DeviceMap, DeviceV};
use crate::host::{Host, HostV, RegV};
use crate::strutil::str_eq;

verus! {

/// Mathematical image of a [`TrayItem`].
#[verifier::ext_equal]
pub struct TrayItemV {
    pub id: Seq<char>,
    pub label: Seq<char>,
    pub selected: bool,
    pub disabled: bool,
}

/// One clickable tray item: its operation identifier, its label, and
/// whether it is rendered selected or disabled.
#[derive(Debug)]
pub struct TrayItem {
    pub id: String,
    pub label: String,
    pub selected: bool,
    pub disabled: bool,
}

impl View for TrayItem {
    type V = TrayItemV;

    open spec fn view(&self) -> TrayItemV {
        TrayItemV {
            id: self.id@,
            label: self.label@,
            selected: self.selected,
            disabled: self.disabled,
        }
    }
}

impl TrayItem {
    /// Builds an enabled, unselected item.
    pub fn new(id: String, label: String) -> (r: Self)
        ensures
            r@ == (TrayItemV { id: id@, label: label@, selected: false, disabled: false }),
    {
        TrayItem { id, label, selected: false, disabled: false }
    }
}

/// Mathematical image of a [`MenuEntry`].
#[verifier::ext_equal]
pub enum MenuEntryV {
    Item(TrayItemV),
    Submenu(Seq<char>, Seq<TrayItemV>),
    Separator,
}

/// One entry of the tray menu: a plain item, a labelled submenu of
/// items, or a separator line.
#[derive(Debug)]
pub enum MenuEntry {
    Item(TrayItem),
    Submenu(String, Vec<TrayItem>),
    Separator,
}

impl View for MenuEntry {
    type V = MenuEntryV;

    open spec fn view(&self) -> MenuEntryV {
        match self {
            MenuEntry::Item(t) => MenuEntryV::Item(t@),
            MenuEntry::Submenu(l, items) => MenuEntryV::Submenu(
                l@,
                items@.map_values(|t: TrayItem| t@),
            ),
            MenuEntry::Separator => MenuEntryV::Separator,
        }
    }
}

/// The whole tray menu, top to bottom.
#[derive(Debug)]
pub struct MenuDescription {
    pub entries: Vec<MenuEntry>,
}

impl View for MenuDescription {
    type V = Seq<MenuEntryV>;

    open spec fn view(&self) -> Seq<MenuEntryV> {
        self.entries@.map_values(|e: MenuEntry| e@)
    }
}

/// The tray item of one device: it opens the device, shows name and OS
/// version, and is marked selected exactly when the device is booted.
pub open spec fn spec_device_item(d: DeviceV) -> TrayItemV {
    TrayItemV {
        id: "open_simulator"@ + d.udid,
        label: d.name + "-"@ + (match d.os_version {
            Some(v) => v,
            None => Seq::<char>::empty(),
        }),
        selected: d.state == "Booted"@,
        disabled: false,
    }
}

/// The device items of every group, groups in order.
pub open spec fn spec_all_device_items(gs: Seq<DeviceGroupV>) -> Seq<TrayItemV>
    decreases gs.len(),
{
    if gs.len() == 0 {
        Seq::empty()
    } else {
        gs[0].devices.map_values(|d: DeviceV| spec_device_item(d)) + spec_all_device_items(
            gs.skip(1),
        )
    }
}

/// The device-list section: one submenu of all devices, then a
/// separator.
pub open spec fn spec_devices_section(gs: Seq<DeviceGroupV>) -> Seq<MenuEntryV> {
    seq![
        MenuEntryV::Submenu("Devices"@, spec_all_device_items(gs)),
        MenuEntryV::Separator,
    ]
}

/// The recent-devices section: a disabled heading, one item per
/// resolved recent device in stored order, then a separator.
pub open spec fn spec_recent_section(devs: Seq<DeviceV>) -> Seq<MenuEntryV> {
    seq![
        MenuEntryV::Item(
            TrayItemV {
                id: "recent_device"@,
                label: "Recent Devices"@,
                selected: false,
                disabled: true,
            },
        ),
    ] + devs.map_values(|d: DeviceV| MenuEntryV::Item(spec_device_item(d))) + seq![
        MenuEntryV::Separator,
    ]
}

/// The tray item of one registry entry: it selects the host's URL,
/// shows the host's identity, and is marked selected exactly when that
/// URL is the selected host.
pub open spec fn spec_host_item(e: (Seq<char>, Seq<char>), selected: Option<Seq<char>>) -> TrayItemV {
    TrayItemV {
        id: "select_host"@ + e.1,
        label: e.0,
        selected: selected == Some(e.1),
        disabled: false,
    }
}

/// The discovered-hosts section: a submenu with one item per registry
/// entry, or a disabled placeholder when no record exists or the
/// registry is empty; then a separator.
pub open spec fn spec_hosts_section(hosts: Option<HostV>) -> Seq<MenuEntryV> {
    match hosts {
        Some(h) => if h.host_map.len() > 0 {
            seq![
                MenuEntryV::Submenu(
                    "Debug Host"@,
                    h.host_map.map_values(|e: (Seq<char>, Seq<char>)| spec_host_item(e, h.selected_host)),
                ),
                MenuEntryV::Separator,
            ]
        } else {
            spec_no_hosts_section()
        },
        None => spec_no_hosts_section(),
    }
}

/// Law: a host item is marked selected exactly when its URL is the
/// selected one. In particular, a selection whose URL no scan
/// rediscovered stays in the record but marks no item: the stale host
/// is no longer selectable from the menu.
pub proof fn lemma_host_item_selection(m: RegV, x: Seq<char>)
    ensures
        forall|i: int|
            0 <= i < m.len() ==> (spec_host_item(#[trigger] m[i], Some(x)).selected <==> m[i].1
                == x),
{
}

/// The placeholder shown when no debug host is known.
pub open spec fn spec_no_hosts_section() -> Seq<MenuEntryV> {
    seq![
        MenuEntryV::Item(
            TrayItemV {
                id: "debug_host"@,
                label: "Debug Host Not Found"@,
                selected: false,
                disabled: true,
            },
        ),
        MenuEntryV::Separator,
    ]
}

/// A plain enabled item.
pub open spec fn spec_plain_item(id: Seq<char>, label: Seq<char>) -> MenuEntryV {
    MenuEntryV::Item(TrayItemV { id, label, selected: false, disabled: false })
}

/// The host-operation section: the navigation, environment and debug
/// operations, then a separator.
pub open spec fn spec_operation_section() -> Seq<MenuEntryV> {
    seq![
        spec_plain_item("op_route_back"@, "Route Back"@),
        spec_plain_item("op_route_forward"@, "Route Forward"@),
        spec_plain_item("op_route_refresh"@, "Route Refresh"@),
        spec_plain_item("op_set_env"@, "Set Env"@),
        spec_plain_item("op_debug_menu"@, "Open Debug Menu"@),
        MenuEntryV::Separator,
    ]
}

/// The fixed bottom section: clipboard schema, the external dev tool,
/// application install, and quit.
pub open spec fn spec_basic_section() -> Seq<MenuEntryV> {
    seq![
        spec_plain_item("qr_code"@, "Read Schema from Clipboard"@),
        spec_plain_item("safari_dev_tool"@, "Open Safari Dev Tool"@),
        spec_plain_item("install_app"@, "Install App"@),
        spec_plain_item("quit"@, "Quit"@),
    ]
}

/// The whole menu a snapshot derives: devices, recent devices,
/// discovered hosts, operations, and the fixed bottom section.
pub open spec fn spec_tray_menu(
    catalog: Seq<DeviceGroupV>,
    resolved_recent: Seq<DeviceV>,
    hosts: Option<HostV>,
) -> Seq<MenuEntryV> {
    spec_devices_section(catalog) + spec_recent_section(resolved_recent) + spec_hosts_section(
        hosts,
    ) + spec_operation_section() + spec_basic_section()
}

/// Builds the tray item of one device.
fn device_item(d: &Device) -> (r: TrayItem)
    ensures
        r@ == spec_device_item(d@),
{
    let id = String::from_str("open_simulator").concat(d.udid.as_str());
    let mut label = d.name.clone().concat("-");
    match &d.os_version {
        Some(v) => {
            label.append(v.as_str());
        },
        None => {
            proof {
                reveal_strlit("");
                assert(""@ =~= Seq::<char>::empty());
            }
            label.append("");
        },
    }
    let r = TrayItem { id, label, selected: str_eq(d.state.as_str(), "Booted"), disabled: false };
    r
}

/// Appends one item to a submenu's item list.
fn push_item(items: &mut Vec<TrayItem>, t: TrayItem)
    ensures
        final(items)@.map_values(|x: TrayItem| x@) == old(items)@.map_values(
            |x: TrayItem| x@,
        ).push(t@),
{
    let ghost tv = t@;
    items.push(t);
    proof {
        assert(items@.map_values(|x: TrayItem| x@) =~= old(items)@.map_values(
            |x: TrayItem| x@,
        ).push(tv));
    }
}

impl MenuDescription {
    /// The empty menu.
    pub fn new() -> (r: Self)
        ensures
            r@ == Seq::<MenuEntryV>::empty(),
    {
        let r = MenuDescription { entries: Vec::new() };
        proof {
            assert(r@ =~= Seq::<MenuEntryV>::empty());
        }
        r
    }

    /// Appends one entry.
    fn push_entry(&mut self, e: MenuEntry)
        ensures
            final(self)@ == old(self)@.push(e@),
    {
        let ghost ev = e@;
        self.entries.push(e);
        proof {
            assert(self@ =~= old(self)@.push(ev));
        }
    }

    /// Appends the device-list section.
    pub fn set_devices(&mut self, devices: &DeviceMap)
        ensures
            final(self)@ == old(self)@ + spec_devices_section(devices@),
    {
        let mut items: Vec<TrayItem> = Vec::new();
        let n = devices.devices.len();
        let mut i: usize = 0;
        proof {
            assert(devices@.skip(0) =~= devices@);
            assert(items@.map_values(|x: TrayItem| x@) =~= Seq::<TrayItemV>::empty());
            assert(Seq::<TrayItemV>::empty() + spec_all_device_items(devices@)
                =~= spec_all_device_items(devices@));
        }
        while i < n
            invariant
                i <= n,
                n == devices.devices@.len(),
                spec_all_device_items(devices@) == items@.map_values(|x: TrayItem| x@)
                    + spec_all_device_items(devices@.skip(i as int)),
            decreases n - i,
        {
            proof {
                assert(devices@.skip(i as int)[0] == devices@[i as int]);
                assert(devices@.skip(i as int).skip(1) =~= devices@.skip(i + 1));
                assert(devices@[i as int] == devices.devices@[i as int]@);
            }
            let ghost base = items@.map_values(|x: TrayItem| x@);
            let group = &devices.devices[i];
            let m = group.devices.len();
            let mut j: usize = 0;
            proof {
                assert(base + group@.devices.take(0).map_values(|d: DeviceV| spec_device_item(d))
                    =~= base);
            }
            while j < m
                invariant
                    j <= m,
                    m == group.devices@.len(),
                    items@.map_values(|x: TrayItem| x@) == base + group@.devices.take(
                        j as int,
                    ).map_values(|d: DeviceV| spec_device_item(d)),
                decreases m - j,
            {
                proof {
                    assert(group@.devices[j as int] == group.devices@[j as int]@);
                }
                push_item(&mut items, device_item(&group.devices[j]));
                proof {
                    assert(group@.devices.take(j + 1) =~= group@.devices.take(j as int).push(
                        group@.devices[j as int],
                    ));
                    assert(group@.devices.take(j + 1).map_values(|d: DeviceV| spec_device_item(d))
                        =~= group@.devices.take(j as int).map_values(
                        |d: DeviceV| spec_device_item(d),
                    ).push(spec_device_item(group@.devices[j as int])));
                    assert(items@.map_values(|x: TrayItem| x@) =~= base + group@.devices.take(
                        j + 1,
                    ).map_values(|d: DeviceV| spec_device_item(d)));
                }
                j += 1;
            }
            proof {
                assert(group@.devices.take(m as int) =~= group@.devices);
                assert(items@.map_values(|x: TrayItem| x@) + spec_all_device_items(
                    devices@.skip(i + 1),
                ) =~= spec_all_device_items(devices@));
            }
            i += 1;
        }
        proof {
            assert(devices@.skip(n as int) =~= Seq::<DeviceGroupV>::empty());
            assert(spec_all_device_items(devices@.skip(n as int)) =~= Seq::<TrayItemV>::empty());
            assert(items@.map_values(|x: TrayItem| x@) =~= spec_all_device_items(devices@));
        }
        self.push_entry(MenuEntry::Submenu(String::from_str("Devices"), items));
        self.push_entry(MenuEntry::Separator);
        proof {
            assert(self@ =~~= old(self)@ + spec_devices_section(devices@));
        }
    }

    /// Appends the recent-devices section for the already-resolved
    /// recent devices.
    pub fn set_recent_devices(&mut self, devices: &Vec<Device>)
        ensures
            final(self)@ == old(self)@ + spec_recent_section(
                devices@.map_values(|d: Device| d@),
            ),
    {
        let ghost dv = devices@.map_values(|d: Device| d@);
        let ghost heading_v = TrayItemV {
            id: "recent_device"@,
            label: "Recent Devices"@,
            selected: false,
            disabled: true,
        };
        let heading = TrayItem {
            id: String::from_str("recent_device"),
            label: String::from_str("Recent Devices"),
            selected: false,
            disabled: true,
        };
        self.push_entry(MenuEntry::Item(heading));
        let n = devices.len();
        let mut i: usize = 0;
        proof {
            assert(dv.take(0).map_values(|d: DeviceV| MenuEntryV::Item(spec_device_item(d)))
                =~= Seq::<MenuEntryV>::empty());
            assert(self@ =~= old(self)@ + seq![MenuEntryV::Item(heading_v)] + dv.take(
                0,
            ).map_values(|d: DeviceV| MenuEntryV::Item(spec_device_item(d))));
        }
        while i < n
            invariant
                i <= n,
                n == devices@.len(),
                dv == devices@.map_values(|d: Device| d@),
                heading_v == (TrayItemV {
                    id: "recent_device"@,
                    label: "Recent Devices"@,
                    selected: false,
                    disabled: true,
                }),
                self@ == old(self)@ + seq![MenuEntryV::Item(heading_v)] + dv.take(
                    i as int,
                ).map_values(|d: DeviceV| MenuEntryV::Item(spec_device_item(d))),
            decreases n - i,
        {
            proof {
                assert(dv[i as int] == devices@[i as int]@);
            }
            let item = device_item(&devices[i]);
            self.push_entry(MenuEntry::Item(item));
            proof {
                assert(dv.take(i + 1) =~= dv.take(i as int).push(dv[i as int]));
                assert(dv.take(i + 1).map_values(
                    |d: DeviceV| MenuEntryV::Item(spec_device_item(d)),
                ) =~= dv.take(i as int).map_values(
                    |d: DeviceV| MenuEntryV::Item(spec_device_item(d)),
                ).push(MenuEntryV::Item(spec_device_item(dv[i as int]))));
                assert(self@ =~= old(self)@ + seq![MenuEntryV::Item(heading_v)] + dv.take(
                    i + 1,
                ).map_values(|d: DeviceV| MenuEntryV::Item(spec_device_item(d))));
            }
            i += 1;
        }
        self.push_entry(MenuEntry::Separator);
        proof {
            assert(dv.take(n as int) =~= dv);
            assert(self@ =~~= old(self)@ + spec_recent_section(dv));
        }
    }

    /// Appends the discovered-hosts section.
    pub fn set_debug_hosts(&mut self, hosts: &Option<Host>)
        ensures
            final(self)@ == old(self)@ + spec_hosts_section(
                match hosts {
                    Some(h) => Some(h@),
                    None => None,
                },
            ),
    {
        match hosts {
            Some(h) => {
                if h.host_map.is_empty() {
                    self.push_no_hosts();
                } else {
                    let ghost reg = h@.host_map;
                    let ghost sel = h@.selected_host;
                    let mut items: Vec<TrayItem> = Vec::new();
                    let n = h.host_map.entries.len();
                    let mut i: usize = 0;
                    proof {
                        assert(items@.map_values(|x: TrayItem| x@) =~= reg.take(0).map_values(
                            |e: (Seq<char>, Seq<char>)| spec_host_item(e, sel),
                        ));
                    }
                    while i < n
                        invariant
                            i <= n,
                            n == h.host_map.entries@.len(),
                            reg == h@.host_map,
                            sel == h@.selected_host,
                            items@.map_values(|x: TrayItem| x@) == reg.take(i as int).map_values(
                                |e: (Seq<char>, Seq<char>)| spec_host_item(e, sel),
                            ),
                        decreases n - i,
                    {
                        proof {
                            assert(reg[i as int] == h.host_map.entries@[i as int]@);
                        }
                        let entry = &h.host_map.entries[i];
                        let id = String::from_str("select_host").concat(entry.url.as_str());
                        let selected = match &h.selected_host {
                            Some(s) => str_eq(s.as_str(), entry.url.as_str()),
                            None => false,
                        };
                        push_item(
                            &mut items,
                            TrayItem { id, label: entry.name.clone(), selected, disabled: false },
                        );
                        proof {
                            assert(reg.take(i + 1) =~= reg.take(i as int).push(reg[i as int]));
                            assert(reg.take(i + 1).map_values(
                                |e: (Seq<char>, Seq<char>)| spec_host_item(e, sel),
                            ) =~= reg.take(i as int).map_values(
                                |e: (Seq<char>, Seq<char>)| spec_host_item(e, sel),
                            ).push(spec_host_item(reg[i as int], sel)));
                            assert(items@.map_values(|x: TrayItem| x@) =~= reg.take(
                                i + 1,
                            ).map_values(|e: (Seq<char>, Seq<char>)| spec_host_item(e, sel)));
                        }
                        i += 1;
                    }
                    proof {
                        assert(reg.take(n as int) =~= reg);
                        assert(items@.map_values(|x: TrayItem| x@) =~= reg.map_values(
                            |e: (Seq<char>, Seq<char>)| spec_host_item(e, sel),
                        ));
                    }
                    self.push_entry(MenuEntry::Submenu(String::from_str("Debug Host"), items));
                    self.push_entry(MenuEntry::Separator);
                    proof {
                        assert(self@ =~~= old(self)@ + spec_hosts_section(Some(h@)));
                    }
                }
            },
            None => {
                self.push_no_hosts();
            },
        }
    }

    /// Appends the placeholder shown when no debug host is known.
    fn push_no_hosts(&mut self)
        ensures
            final(self)@ == old(self)@ + spec_no_hosts_section(),
    {
        let placeholder = TrayItem {
            id: String::from_str("debug_host"),
            label: String::from_str("Debug Host Not Found"),
            selected: false,
            disabled: true,
        };
        self.push_entry(MenuEntry::Item(placeholder));
        self.push_entry(MenuEntry::Separator);
        proof {
            assert(self@ =~~= old(self)@ + spec_no_hosts_section());
        }
    }

    /// Appends one plain enabled item.
    fn push_plain(&mut self, id: &'static str, label: &'static str)
        ensures
            final(self)@ == old(self)@ + seq![spec_plain_item(id@, label@)],
    {
        self.push_entry(MenuEntry::Item(TrayItem::new(id.to_owned(), label.to_owned())));
        proof {
            assert(self@ =~~= old(self)@ + seq![spec_plain_item(id@, label@)]);
        }
    }

    /// Appends the fixed bottom section.
    pub fn set_basic_menu(&mut self)
        ensures
            final(self)@ == old(self)@ + spec_basic_section(),
    {
        self.push_plain("qr_code", "Read Schema from Clipboard");
        self.push_plain("safari_dev_tool", "Open Safari Dev Tool");
        self.push_plain("install_app", "Install App");
        self.push_plain("quit", "Quit");
        proof {
            assert(self@ =~~= old(self)@ + spec_basic_section());
        }
    }

    /// Appends the host-operation section.
    pub fn set_operation_menu(&mut self)
        ensures
            final(self)@ == old(self)@ + spec_operation_section(),
    {
        self.push_plain("op_route_back", "Route Back");
        self.push_plain("op_route_forward", "Route Forward");
        self.push_plain("op_route_refresh", "Route Refresh");
        self.push_plain("op_set_env", "Set Env");
        self.push_plain("op_debug_menu", "Open Debug Menu");
        self.push_entry(MenuEntry::Separator);
        proof {
            assert(self@ =~~= old(self)@ + spec_operation_section());
        }
    }
}

/// What resolving the recent-device identifiers yields: each identifier
/// looked up in the catalog, the missing ones skipped.
pub open spec fn spec_resolve_recent(gs: Seq<DeviceGroupV>, ids: Seq<Seq<char>>) -> Seq<DeviceV>
    decreases ids.len(),
{
    if ids.len() == 0 {
        Seq::empty()
    } else {
        (match crate::device::spec_map_find_by_udid(gs, ids[0]) {
            Some(d) => seq![d],
            None => Seq::empty(),
        }) + spec_resolve_recent(gs, ids.skip(1))
    }
}

/// Looks every recent identifier up in the catalog, keeping the stored
/// order and skipping identifiers the catalog no longer lists.
pub fn resolve_recent_devices(catalog: &DeviceMap, recent: &Vec<String>) -> (r: Vec<Device>)
    ensures
        r@.map_values(|d: Device| d@) == spec_resolve_recent(catalog@, recent.deep_view()),
{
    let ghost ids = recent.deep_view();
    let mut out: Vec<Device> = Vec::new();
    let n = recent.len();
    let mut i: usize = 0;
    proof {
        assert(ids.skip(0) =~= ids);
        assert(out@.map_values(|d: Device| d@) =~= Seq::<DeviceV>::empty());
        assert(Seq::<DeviceV>::empty() + spec_resolve_recent(catalog@, ids) =~= spec_resolve_recent(
            catalog@,
            ids,
        ));
    }
    while i < n
        invariant
            i <= n,
            n == recent@.len(),
            ids == recent.deep_view(),
            spec_resolve_recent(catalog@, ids) == out@.map_values(|d: Device| d@)
                + spec_resolve_recent(catalog@, ids.skip(i as int)),
        decreases n - i,
    {
        proof {
            assert(ids.skip(i as int)[0] == ids[i as int]);
            assert(ids.skip(i as int).skip(1) =~= ids.skip(i + 1));
            assert(ids[i as int] == recent@[i as int]@);
        }
        match catalog.get_device_by_udid(recent[i].as_str()) {
            Some(d) => {
                out.push(d.clone());
                proof {
                    assert(out@.map_values(|d: Device| d@) + spec_resolve_recent(
                        catalog@,
                        ids.skip(i + 1),
                    ) =~= spec_resolve_recent(catalog@, ids));
                }
            },
            None => {
                proof {
                    assert(out@.map_values(|d: Device| d@) + spec_resolve_recent(
                        catalog@,
                        ids.skip(i + 1),
                    ) =~= spec_resolve_recent(catalog@, ids));
                }
            },
        }
        i += 1;
    }
    proof {
        assert(ids.skip(n as int) =~= Seq::<Seq<char>>::empty());
        assert(out@.map_values(|d: Device| d@) =~= spec_resolve_recent(catalog@, ids));
    }
    out
}

/// Derives the whole tray menu from the snapshot's parts: the device
/// catalog, the recent-device identifiers, and the debug-hosts record.
pub fn init_system_tray_menu(
    catalog: &DeviceMap,
    recent: &Vec<String>,
    hosts: &Option<Host>,
) -> (r: MenuDescription)
    ensures
        r@ == spec_tray_menu(
            catalog@,
            spec_resolve_recent(catalog@, recent.deep_view()),
            match hosts {
                Some(h) => Some(h@),
                None => None,
            },
        ),
{
    let resolved = resolve_recent_devices(catalog, recent);
    let mut menu = MenuDescription::new();
    menu.set_devices(catalog);
    menu.set_recent_devices(&resolved);
    menu.set_debug_hosts(hosts);
    menu.set_operation_menu();
    menu.set_basic_menu();
    proof {
        assert(menu@ =~= spec_tray_menu(
            catalog@,
            spec_resolve_recent(catalog@, recent.deep_view()),
            match hosts {
                Some(h) => Some(h@),
                None => None,
            },
        ));
    }
    menu
}

} // verus!
