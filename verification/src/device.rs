//! Simulator devices: the device catalog and the commands that control a
//! device.
//!
//! The catalog groups devices by an OS-version key, as the external
//! simulator facility reports them. Control operations are returned as
//! [`SimCommand`] values; executing them is the caller's concern.

use vstd::prelude::*;
use vstd::string::*;

use crate::strutil::{find_last, lemma_find_last_from, spec_find_last, str_eq};

verus! {

/// Mathematical image of a [`Device`].
#[verifier::ext_equal]
pub struct DeviceV {
    pub data_path: Seq<char>,
    pub data_path_size: u64,
    pub log_path: Seq<char>,
    pub udid: Seq<char>,
    pub is_available: bool,
    pub device_type_identifier: Seq<char>,
    pub state: Seq<char>,
    pub name: Seq<char>,
    pub last_booted_at: Option<Seq<char>>,
    pub log_path_size: Option<u64>,
    pub os_version: Option<Seq<char>>,
}

/// One simulator device as the external facility lists it.
#[derive(Debug)]
pub struct Device {
    pub data_path: String,
    pub data_path_size: u64,
    pub log_path: String,
    pub udid: String,
    pub is_available: bool,
    pub device_type_identifier: String,
    pub state: String,
    pub name: String,
    pub last_booted_at: Option<String>,
    pub log_path_size: Option<u64>,
    pub os_version: Option<String>,
}

impl View for Device {
    type V = DeviceV;

    open spec fn view(&self) -> DeviceV {
        DeviceV {
            data_path: self.data_path@,
            data_path_size: self.data_path_size,
            log_path: self.log_path@,
            udid: self.udid@,
            is_available: self.is_available,
            device_type_identifier: self.device_type_identifier@,
            state: self.state@,
            name: self.name@,
            last_booted_at: self.last_booted_at.deep_view(),
            log_path_size: self.log_path_size,
            os_version: self.os_version.deep_view(),
        }
    }
}

impl Clone for Device {
    fn clone(&self) -> (r: Self)
        ensures
            r@ == self@,
    {
        Device {
            data_path: self.data_path.clone(),
            data_path_size: self.data_path_size,
            log_path: self.log_path.clone(),
            udid: self.udid.clone(),
            is_available: self.is_available,
            device_type_identifier: self.device_type_identifier.clone(),
            state: self.state.clone(),
            name: self.name.clone(),
            last_booted_at: match &self.last_booted_at {
                Some(s) => Some(s.clone()),
                None => None,
            },
            log_path_size: self.log_path_size,
            os_version: match &self.os_version {
                Some(s) => Some(s.clone()),
                None => None,
            },
        }
    }
}

impl Device {
    /// Builds a device record from its parts.
    pub fn new(
        data_path: String,
        data_path_size: u64,
        log_path: String,
        udid: String,
        is_available: bool,
        device_type_identifier: String,
        state: String,
        name: String,
        last_booted_at: Option<String>,
        log_path_size: Option<u64>,
        os_version: Option<String>,
    ) -> (r: Self)
        ensures
            r@ == (DeviceV {
                data_path: data_path@,
                data_path_size,
                log_path: log_path@,
                udid: udid@,
                is_available,
                device_type_identifier: device_type_identifier@,
                state: state@,
                name: name@,
                last_booted_at: last_booted_at.deep_view(),
                log_path_size,
                os_version: os_version.deep_view(),
            }),
    {
        Device {
            data_path,
            data_path_size,
            log_path,
            udid,
            is_available,
            device_type_identifier,
            state,
            name,
            last_booted_at,
            log_path_size,
            os_version,
        }
    }

    /// Command that opens `url` on this device.
    pub fn open_url(&self, url: &str) -> (c: SimCommand)
        ensures
            (c matches SimCommand::OpenUrl { udid, url: u } && udid@ == self@.udid && u@ == url@),
    {
        SimCommand::OpenUrl { udid: self.udid.clone(), url: url.to_owned() }
    }

    /// Command that lists the applications installed on this device.
    pub fn list_apps(&self) -> (c: SimCommand)
        ensures
            (c matches SimCommand::ListApps { udid } && udid@ == self@.udid),
    {
        SimCommand::ListApps { udid: self.udid.clone() }
    }

    /// Command that terminates the application `bundle_id` on this device.
    pub fn terminate_app(&self, bundle_id: &str) -> (c: SimCommand)
        ensures
            (c matches SimCommand::TerminateApp { udid, bundle_id: b } && udid@ == self@.udid
                && b@ == bundle_id@),
    {
        SimCommand::TerminateApp { udid: self.udid.clone(), bundle_id: bundle_id.to_owned() }
    }

    /// Command that installs the application package at `app_path` on this
    /// device.
    pub fn install_app(&self, app_path: &str) -> (c: SimCommand)
        ensures
            (c matches SimCommand::InstallApp { udid, app_path: p } && udid@ == self@.udid
                && p@ == app_path@),
    {
        SimCommand::InstallApp { udid: self.udid.clone(), app_path: app_path.to_owned() }
    }

    /// Command that uninstalls the application `bundle_id` from this device.
    pub fn uninstall_app(&self, bundle_id: &str) -> (c: SimCommand)
        ensures
            (c matches SimCommand::UninstallApp { udid, bundle_id: b } && udid@ == self@.udid
                && b@ == bundle_id@),
    {
        SimCommand::UninstallApp { udid: self.udid.clone(), bundle_id: bundle_id.to_owned() }
    }
}

/// A control operation for the external simulator facility, as data.
#[derive(Debug)]
pub enum SimCommand {
    Boot { udid: String },
    Shutdown { udid: String },
    Erase { udid: String },
    InstallApp { udid: String, app_path: String },
    UninstallApp { udid: String, bundle_id: String },
    LaunchApp { udid: String, bundle_id: String },
    TerminateApp { udid: String, bundle_id: String },
    OpenUrl { udid: String, url: String },
    ListApps { udid: String },
    OpenSimulatorApp,
}

/// Mathematical image of a [`DeviceGroup`].
#[verifier::ext_equal]
pub struct DeviceGroupV {
    pub version: Seq<char>,
    pub devices: Seq<DeviceV>,
}

/// The devices of one OS-version key, in listed order.
#[derive(Debug)]
pub struct DeviceGroup {
    pub version: String,
    pub devices: Vec<Device>,
}

impl View for DeviceGroup {
    type V = DeviceGroupV;

    open spec fn view(&self) -> DeviceGroupV {
        DeviceGroupV {
            version: self.version@,
            devices: self.devices@.map_values(|d: Device| d@),
        }
    }
}

impl Clone for DeviceGroup {
    fn clone(&self) -> (r: Self)
        ensures
            r@ == self@,
    {
        let mut devices: Vec<Device> = Vec::new();
        let mut i: usize = 0;
        while i < self.devices.len()
            invariant
                i <= self.devices@.len(),
                devices@.len() == i,
                forall|k: int| 0 <= k < i ==> devices@[k]@ == self.devices@[k]@,
            decreases self.devices@.len() - i,
        {
            devices.push(self.devices[i].clone());
            i += 1;
        }
        let r = DeviceGroup { version: self.version.clone(), devices };
        proof {
            assert(r@.devices =~= self@.devices);
        }
        r
    }
}

/// First device in `s` whose identifier is `udid`.
pub open spec fn spec_find_by_udid(s: Seq<DeviceV>, udid: Seq<char>) -> Option<DeviceV>
    decreases s.len(),
{
    if s.len() == 0 {
        None
    } else if s[0].udid == udid {
        Some(s[0])
    } else {
        spec_find_by_udid(s.skip(1), udid)
    }
}

/// First device in `s` whose state is `"Booted"`.
pub open spec fn spec_find_booted(s: Seq<DeviceV>) -> Option<DeviceV>
    decreases s.len(),
{
    if s.len() == 0 {
        None
    } else if s[0].state == "Booted"@ {
        Some(s[0])
    } else {
        spec_find_booted(s.skip(1))
    }
}

/// First device in `s` whose display name is `name`.
pub open spec fn spec_find_by_name(s: Seq<DeviceV>, name: Seq<char>) -> Option<DeviceV>
    decreases s.len(),
{
    if s.len() == 0 {
        None
    } else if s[0].name == name {
        Some(s[0])
    } else {
        spec_find_by_name(s.skip(1), name)
    }
}

/// First group in `gs` whose version key is `version`.
pub open spec fn spec_find_group(gs: Seq<DeviceGroupV>, version: Seq<char>) -> Option<DeviceGroupV>
    decreases gs.len(),
{
    if gs.len() == 0 {
        None
    } else if gs[0].version == version {
        Some(gs[0])
    } else {
        spec_find_group(gs.skip(1), version)
    }
}

/// First device with identifier `udid`, searching the groups in order.
pub open spec fn spec_map_find_by_udid(gs: Seq<DeviceGroupV>, udid: Seq<char>) -> Option<DeviceV>
    decreases gs.len(),
{
    if gs.len() == 0 {
        None
    } else {
        match spec_find_by_udid(gs[0].devices, udid) {
            Some(d) => Some(d),
            None => spec_map_find_by_udid(gs.skip(1), udid),
        }
    }
}

/// First booted device, searching the groups in order.
pub open spec fn spec_map_find_booted(gs: Seq<DeviceGroupV>) -> Option<DeviceV>
    decreases gs.len(),
{
    if gs.len() == 0 {
        None
    } else {
        match spec_find_booted(gs[0].devices) {
            Some(d) => Some(d),
            None => spec_map_find_booted(gs.skip(1)),
        }
    }
}

/// The device catalog: devices grouped by OS-version key, groups in the
/// order the external facility reported them.
#[derive(Debug)]
pub struct DeviceMap {
    pub devices: Vec<DeviceGroup>,
}

impl View for DeviceMap {
    type V = Seq<DeviceGroupV>;

    open spec fn view(&self) -> Seq<DeviceGroupV> {
        self.devices@.map_values(|g: DeviceGroup| g@)
    }
}

impl Clone for DeviceMap {
    fn clone(&self) -> (r: Self)
        ensures
            r@ == self@,
    {
        let mut devices: Vec<DeviceGroup> = Vec::new();
        let mut i: usize = 0;
        while i < self.devices.len()
            invariant
                i <= self.devices@.len(),
                devices@.len() == i,
                forall|k: int| 0 <= k < i ==> devices@[k]@ == self.devices@[k]@,
            decreases self.devices@.len() - i,
        {
            devices.push(self.devices[i].clone());
            i += 1;
        }
        let r = DeviceMap { devices };
        proof {
            assert(r@ =~= self@);
        }
        r
    }
}

impl DeviceMap {
    /// Builds a catalog from already-grouped devices.
    pub fn new(devices: Vec<DeviceGroup>) -> (r: Self)
        ensures
            r.devices@ == devices@,
    {
        DeviceMap { devices }
    }

    /// The empty catalog.
    pub fn default() -> (r: Self)
        ensures
            r@ == Seq::<DeviceGroupV>::empty(),
    {
        let r = DeviceMap { devices: Vec::new() };
        proof {
            assert(r@ =~= Seq::<DeviceGroupV>::empty());
        }
        r
    }

    /// Appends `device` to the group keyed `version`, creating the group at
    /// the back when no group has that key yet.
    pub fn add_device(&mut self, version: &str, device: Device)
        ensures
            (match spec_find_group(old(self)@, version@) {
                Some(_) => {
                    &&& final(self)@.len() == old(self)@.len()
                    &&& exists|i: int|
                        {
                            &&& 0 <= i < old(self)@.len()
                            &&& old(self)@[i].version == version@
                            &&& final(self)@[i].devices == old(self)@[i].devices.push(device@)
                            &&& final(self)@[i].version == old(self)@[i].version
                            &&& (forall|k: int|
                                0 <= k < old(self)@.len() && k != i ==> final(self)@[k]
                                    == old(self)@[k])
                            &&& (forall|k: int| 0 <= k < i ==> old(self)@[k].version != version@)
                        }
                },
                None => final(self)@ == old(self)@.push(
                    DeviceGroupV { version: version@, devices: seq![device@] },
                ),
            }),
    {
        let n = self.devices.len();
        let mut i: usize = 0;
        while i < n
            invariant
                i <= n,
                n == self.devices@.len(),
                *self == *old(self),
                forall|k: int| 0 <= k < i ==> self@[k].version != version@,
            decreases n - i,
        {
            if str_eq(self.devices[i].version.as_str(), version) {
                proof {
                    lemma_find_group_at(self@, version@, i as int);
                }
                let g = &mut self.devices[i];
                g.devices.push(device);
                proof {
                    assert(final(self)@[i as int].devices =~= old(self)@[i as int].devices.push(
                        device@,
                    ));
                    assert forall|k: int|
                        0 <= k < old(self)@.len() && k != i implies final(self)@[k] == old(
                        self,
                    )@[k] by {}
                }
                return ;
            }
            i += 1;
        }
        proof {
            lemma_find_group_none(self@, version@);
        }
        let ghost dv = device@;
        let group = DeviceGroup { version: version.to_owned(), devices: vec_of_one(device) };
        self.devices.push(group);
        proof {
            assert(final(self)@ =~~= old(self)@.push(
                DeviceGroupV { version: version@, devices: seq![dv] },
            ));
        }
    }

    /// Removes every device with identifier `udid` from the first group
    /// keyed `version`; other groups are untouched.
    pub fn remove_device(&mut self, version: &str, udid: &str)
        ensures
            (match spec_find_group(old(self)@, version@) {
                Some(_) => {
                    &&& final(self)@.len() == old(self)@.len()
                    &&& exists|i: int|
                        {
                            &&& 0 <= i < old(self)@.len()
                            &&& old(self)@[i].version == version@
                            &&& final(self)@[i].devices == old(self)@[i].devices.filter(
                                |d: DeviceV| d.udid != udid@,
                            )
                            &&& final(self)@[i].version == old(self)@[i].version
                            &&& (forall|k: int|
                                0 <= k < old(self)@.len() && k != i ==> final(self)@[k]
                                    == old(self)@[k])
                        }
                },
                None => final(self)@ == old(self)@,
            }),
    {
        let n = self.devices.len();
        let mut i: usize = 0;
        while i < n
            invariant
                i <= n,
                n == self.devices@.len(),
                *self == *old(self),
                forall|k: int| 0 <= k < i ==> self@[k].version != version@,
            decreases n - i,
        {
            if str_eq(self.devices[i].version.as_str(), version) {
                proof {
                    lemma_find_group_at(self@, version@, i as int);
                }
                let g = &self.devices[i];
                let mut kept: Vec<Device> = Vec::new();
                let m = g.devices.len();
                let mut j: usize = 0;
                proof {
                    reveal(Seq::filter);
                    assert(g@.devices.take(0).filter(|d: DeviceV| d.udid != udid@) =~= Seq::<
                        DeviceV,
                    >::empty());
                    assert(kept@.map_values(|d: Device| d@) =~= Seq::<DeviceV>::empty());
                }
                while j < m
                    invariant
                        j <= m,
                        m == g.devices@.len(),
                        kept@.map_values(|d: Device| d@) =~= g@.devices.take(j as int).filter(
                            |d: DeviceV| d.udid != udid@,
                        ),
                    decreases m - j,
                {
                    proof {
                        reveal(Seq::filter);
                        assert(g@.devices.take(j + 1).drop_last() =~= g@.devices.take(j as int));
                        assert(g@.devices.take(j + 1).last() == g@.devices[j as int]);
                    }
                    if !str_eq(g.devices[j].udid.as_str(), udid) {
                        kept.push(g.devices[j].clone());
                    }
                    proof {
                        reveal(Seq::filter);
                        assert(kept@.map_values(|d: Device| d@) =~= g@.devices.take(j + 1).filter(
                            |d: DeviceV| d.udid != udid@,
                        ));
                    }
                    j += 1;
                }
                proof {
                    assert(g@.devices.take(m as int) =~= g@.devices);
                }
                let g = &mut self.devices[i];
                g.devices = kept;
                proof {
                    assert forall|k: int|
                        0 <= k < old(self)@.len() && k != i implies final(self)@[k] == old(
                        self,
                    )@[k] by {}
                }
                return ;
            }
            i += 1;
        }
        proof {
            lemma_find_group_none(self@, version@);
            assert(final(self)@ =~= old(self)@);
        }
    }

    /// Device with identifier `udid` in the first group keyed `version`.
    pub fn get_device(&self, version: &str, udid: &str) -> (r: Option<&Device>)
        ensures
            (match r {
                Some(d) => {
                    &&& spec_find_group(self@, version@) is Some
                    &&& spec_find_by_udid(spec_find_group(self@, version@)->Some_0.devices, udid@)
                        == Some(d@)
                },
                None => (match spec_find_group(self@, version@) {
                    Some(g) => spec_find_by_udid(g.devices, udid@) is None,
                    None => true,
                }),
            }),
    {
        let n = self.devices.len();
        let mut i: usize = 0;
        while i < n
            invariant
                i <= n,
                n == self.devices@.len(),
                forall|k: int| 0 <= k < i ==> self@[k].version != version@,
            decreases n - i,
        {
            if str_eq(self.devices[i].version.as_str(), version) {
                proof {
                    lemma_find_group_at(self@, version@, i as int);
                }
                return find_by_udid(&self.devices[i].devices, udid);
            }
            i += 1;
        }
        proof {
            lemma_find_group_none(self@, version@);
        }
        None
    }

    /// First device with identifier `udid`, searching groups in order.
    pub fn get_device_by_udid(&self, udid: &str) -> (r: Option<&Device>)
        ensures
            (match r {
                Some(d) => spec_map_find_by_udid(self@, udid@) == Some(d@),
                None => spec_map_find_by_udid(self@, udid@) is None,
            }),
    {
        let n = self.devices.len();
        let mut i: usize = 0;
        proof {
            assert(self@.skip(0) =~= self@);
        }
        while i < n
            invariant
                i <= n,
                n == self.devices@.len(),
                spec_map_find_by_udid(self@, udid@) == spec_map_find_by_udid(
                    self@.skip(i as int),
                    udid@,
                ),
            decreases n - i,
        {
            proof {
                assert(self@.skip(i as int)[0] == self@[i as int]);
                assert(self@.skip(i as int).skip(1) =~= self@.skip(i + 1));
            }
            let r = find_by_udid(&self.devices[i].devices, udid);
            if r.is_some() {
                return r;
            }
            i += 1;
        }
        proof {
            assert(self@.skip(n as int) =~= Seq::<DeviceGroupV>::empty());
        }
        None
    }

    /// The device named `"iPhone 15 Pro"` in the first group, if the
    /// catalog has a group and that group has such a device.
    pub fn get_default_device(&self) -> (r: Option<&Device>)
        ensures
            (match r {
                Some(d) => self@.len() > 0 && spec_find_by_name(self@[0].devices, "iPhone 15 Pro"@)
                    == Some(d@),
                None => self@.len() == 0 || spec_find_by_name(
                    self@[0].devices,
                    "iPhone 15 Pro"@,
                ) is None,
            }),
    {
        if self.devices.len() == 0 {
            return None;
        }
        find_by_name(&self.devices[0].devices, "iPhone 15 Pro")
    }

    /// First device whose state is `"Booted"`, searching groups in order.
    pub fn get_first_booted_device(&self) -> (r: Option<&Device>)
        ensures
            (match r {
                Some(d) => spec_map_find_booted(self@) == Some(d@),
                None => spec_map_find_booted(self@) is None,
            }),
    {
        let n = self.devices.len();
        let mut i: usize = 0;
        proof {
            assert(self@.skip(0) =~= self@);
        }
        while i < n
            invariant
                i <= n,
                n == self.devices@.len(),
                spec_map_find_booted(self@) == spec_map_find_booted(self@.skip(i as int)),
            decreases n - i,
        {
            proof {
                assert(self@.skip(i as int)[0] == self@[i as int]);
                assert(self@.skip(i as int).skip(1) =~= self@.skip(i + 1));
            }
            let r = find_booted(&self.devices[i].devices);
            if r.is_some() {
                return r;
            }
            i += 1;
        }
        proof {
            assert(self@.skip(n as int) =~= Seq::<DeviceGroupV>::empty());
        }
        None
    }
}

/// OS-version label of a catalog key: the text after the key's last
/// dot, or the whole key when it has none.
pub open spec fn spec_os_version_label(key: Seq<char>) -> Seq<char> {
    match spec_find_last(key, "."@) {
        Some(i) => key.subrange(i + "."@.len(), key.len() as int),
        None => key,
    }
}

/// Extracts the OS-version label from a catalog key.
pub fn os_version_label(key: &str) -> (r: String)
    ensures
        r@ == spec_os_version_label(key@),
{
    proof {
        reveal_strlit(".");
    }
    match find_last(key, ".") {
        Some(i) => {
            proof {
                lemma_find_last_from(key@, "."@, key@.len() - "."@.len());
            }
            let key_len = key.unicode_len();
            let label = key.substring_char(i + 1, key_len);
            proof {
                assert(label@ =~= key@.subrange(i + "."@.len(), key@.len() as int));
            }
            label.to_owned()
        },
        None => key.to_owned(),
    }
}

/// A device with its OS-version field set to `v`.
pub open spec fn spec_with_os(d: DeviceV, v: Seq<char>) -> DeviceV {
    DeviceV { os_version: Some(v), ..d }
}

/// A group with every device's OS-version field set to the group key's
/// label.
pub open spec fn spec_group_with_os(g: DeviceGroupV) -> DeviceGroupV {
    DeviceGroupV {
        version: g.version,
        devices: g.devices.map_values(
            |d: DeviceV| spec_with_os(d, spec_os_version_label(g.version)),
        ),
    }
}

/// Stamps every device of the catalog with the OS-version label of its
/// group's key, as the catalog refresh does after querying the external
/// facility.
pub fn set_os_versions(map: &mut DeviceMap)
    ensures
        final(map)@ == old(map)@.map_values(|g: DeviceGroupV| spec_group_with_os(g)),
{
    let mut groups: Vec<DeviceGroup> = Vec::new();
    let n = map.devices.len();
    let mut i: usize = 0;
    while i < n
        invariant
            i <= n,
            n == map.devices@.len(),
            *map == *old(map),
            groups@.len() == i,
            forall|k: int| 0 <= k < i ==> groups@[k]@ == spec_group_with_os(old(map)@[k]),
        decreases n - i,
    {
        proof {
            assert(map@[i as int] == map.devices@[i as int]@);
        }
        let group = &map.devices[i];
        let label = os_version_label(group.version.as_str());
        let mut devs: Vec<Device> = Vec::new();
        let m = group.devices.len();
        let mut j: usize = 0;
        while j < m
            invariant
                j <= m,
                m == group.devices@.len(),
                label@ == spec_os_version_label(group@.version),
                devs@.len() == j,
                forall|k: int|
                    0 <= k < j ==> devs@[k]@ == spec_with_os(
                        group@.devices[k],
                        spec_os_version_label(group@.version),
                    ),
            decreases m - j,
        {
            proof {
                assert(group@.devices[j as int] == group.devices@[j as int]@);
            }
            let mut nd = group.devices[j].clone();
            nd.os_version = Some(label.clone());
            proof {
                assert(nd@ =~~= spec_with_os(
                    group@.devices[j as int],
                    spec_os_version_label(group@.version),
                ));
            }
            devs.push(nd);
            j += 1;
        }
        let ng = DeviceGroup { version: group.version.clone(), devices: devs };
        proof {
            assert(ng@.devices =~= group@.devices.map_values(
                |d: DeviceV| spec_with_os(d, spec_os_version_label(group@.version)),
            ));
            assert(ng@ =~~= spec_group_with_os(old(map)@[i as int]));
        }
        groups.push(ng);
        i += 1;
    }
    map.devices = groups;
    proof {
        assert(map@ =~= old(map)@.map_values(|g: DeviceGroupV| spec_group_with_os(g)));
    }
}

/// A one-element vector.
fn vec_of_one(device: Device) -> (r: Vec<Device>)
    ensures
        r@.len() == 1,
        r@[0] == device,
{
    let mut v: Vec<Device> = Vec::new();
    v.push(device);
    v
}

/// First device with identifier `udid` in `devices`.
pub fn find_by_udid<'a>(devices: &'a Vec<Device>, udid: &str) -> (r: Option<&'a Device>)
    ensures
        (match r {
            Some(d) => spec_find_by_udid(devices@.map_values(|d: Device| d@), udid@) == Some(d@),
            None => spec_find_by_udid(devices@.map_values(|d: Device| d@), udid@) is None,
        }),
{
    let ghost s = devices@.map_values(|d: Device| d@);
    let n = devices.len();
    let mut i: usize = 0;
    proof {
        assert(s.skip(0) =~= s);
    }
    while i < n
        invariant
            i <= n,
            n == devices@.len(),
            s == devices@.map_values(|d: Device| d@),
            spec_find_by_udid(s, udid@) == spec_find_by_udid(s.skip(i as int), udid@),
        decreases n - i,
    {
        proof {
            assert(s.skip(i as int)[0] == s[i as int]);
            assert(s.skip(i as int).skip(1) =~= s.skip(i + 1));
        }
        if str_eq(devices[i].udid.as_str(), udid) {
            return Some(&devices[i]);
        }
        i += 1;
    }
    proof {
        assert(s.skip(n as int) =~= Seq::<DeviceV>::empty());
    }
    None
}

/// First device whose state is `"Booted"` in `devices`.
pub fn find_booted<'a>(devices: &'a Vec<Device>) -> (r: Option<&'a Device>)
    ensures
        (match r {
            Some(d) => spec_find_booted(devices@.map_values(|d: Device| d@)) == Some(d@),
            None => spec_find_booted(devices@.map_values(|d: Device| d@)) is None,
        }),
{
    let ghost s = devices@.map_values(|d: Device| d@);
    let n = devices.len();
    let mut i: usize = 0;
    proof {
        assert(s.skip(0) =~= s);
    }
    while i < n
        invariant
            i <= n,
            n == devices@.len(),
            s == devices@.map_values(|d: Device| d@),
            spec_find_booted(s) == spec_find_booted(s.skip(i as int)),
        decreases n - i,
    {
        proof {
            assert(s.skip(i as int)[0] == s[i as int]);
            assert(s.skip(i as int).skip(1) =~= s.skip(i + 1));
        }
        if str_eq(devices[i].state.as_str(), "Booted") {
            return Some(&devices[i]);
        }
        i += 1;
    }
    proof {
        assert(s.skip(n as int) =~= Seq::<DeviceV>::empty());
    }
    None
}

/// First device named `name` in `devices`.
fn find_by_name<'a>(devices: &'a Vec<Device>, name: &str) -> (r: Option<&'a Device>)
    ensures
        (match r {
            Some(d) => spec_find_by_name(devices@.map_values(|d: Device| d@), name@) == Some(d@),
            None => spec_find_by_name(devices@.map_values(|d: Device| d@), name@) is None,
        }),
{
    let ghost s = devices@.map_values(|d: Device| d@);
    let n = devices.len();
    let mut i: usize = 0;
    proof {
        assert(s.skip(0) =~= s);
    }
    while i < n
        invariant
            i <= n,
            n == devices@.len(),
            s == devices@.map_values(|d: Device| d@),
            spec_find_by_name(s, name@) == spec_find_by_name(s.skip(i as int), name@),
        decreases n - i,
    {
        proof {
            assert(s.skip(i as int)[0] == s[i as int]);
            assert(s.skip(i as int).skip(1) =~= s.skip(i + 1));
        }
        if str_eq(devices[i].name.as_str(), name) {
            return Some(&devices[i]);
        }
        i += 1;
    }
    proof {
        assert(s.skip(n as int) =~= Seq::<DeviceV>::empty());
    }
    None
}

/// If the first `i` groups do not carry `version` and group `i` does, the
/// group search lands on `i`.
proof fn lemma_find_group_at(gs: Seq<DeviceGroupV>, version: Seq<char>, i: int)
    requires
        0 <= i < gs.len(),
        gs[i].version == version,
        forall|k: int| 0 <= k < i ==> gs[k].version != version,
    ensures
        spec_find_group(gs, version) == Some(gs[i]),
    decreases i,
{
    if i > 0 {
        assert(gs.skip(1)[i - 1] == gs[i]);
        lemma_find_group_at(gs.skip(1), version, i - 1);
    }
}

/// If no group carries `version`, the group search fails.
proof fn lemma_find_group_none(gs: Seq<DeviceGroupV>, version: Seq<char>)
    requires
        forall|k: int| 0 <= k < gs.len() ==> gs[k].version != version,
    ensures
        spec_find_group(gs, version) is None,
    decreases gs.len(),
{
    if gs.len() > 0 {
        assert(forall|k: int| 0 <= k < gs.skip(1).len() ==> gs.skip(1)[k] == gs[k + 1]);
        lemma_find_group_none(gs.skip(1), version);
    }
}

} // verus!
