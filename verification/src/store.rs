//! The state store: the single persisted snapshot and its typed
//! get/set-by-key interface, and the recent-device list it carries.
//!
//! Reading and writing the snapshot on disk is the caller's concern; the
//! store itself is a plain value, so every mutation here is total and
//! every contract pins the whole new snapshot.

use vstd::prelude::*;
use vstd::string::*;

use crate::clipboard::{ClipboardContent, ClipboardContentV};
use crate::device::{DeviceGroupV, DeviceMap};
use crate::host::{Host, HostV};
use crate::menu::TrayMenu;
use crate::strutil::str_eq;
use crate::MAX_RECENT_DEVICES;

verus! {

/// The fixed logical slots of the persisted snapshot.
#[derive(PartialEq, Eq, Structural, Clone, Copy, Debug)]
pub enum StoreKey {
    Simulator,
    Tray,
    RecentDevices,
    ClipboardContent,
    RecentUrls,
    DebugHosts,
}

impl StoreKey {
    /// The fixed name of this slot in the persisted document.
    pub open spec fn spec_str(self) -> Seq<char> {
        match self {
            StoreKey::Simulator => "simulator"@,
            StoreKey::Tray => "tray"@,
            StoreKey::RecentDevices => "recent_devices"@,
            StoreKey::ClipboardContent => "clipboard_content"@,
            StoreKey::RecentUrls => "recent_urls"@,
            StoreKey::DebugHosts => "debug_hosts"@,
        }
    }

    /// Name of this slot in the persisted document.
    pub fn as_str(&self) -> (r: String)
        ensures
            r@ == self.spec_str(),
    {
        match self {
            StoreKey::Simulator => String::from_str("simulator"),
            StoreKey::Tray => String::from_str("tray"),
            StoreKey::RecentDevices => String::from_str("recent_devices"),
            StoreKey::ClipboardContent => String::from_str("clipboard_content"),
            StoreKey::RecentUrls => String::from_str("recent_urls"),
            StoreKey::DebugHosts => String::from_str("debug_hosts"),
        }
    }
}

/// Mathematical image of a [`StoreValue`].
#[verifier::ext_equal]
pub enum StoreValueV {
    Simulator(Seq<DeviceGroupV>),
    Tray(Seq<DeviceGroupV>),
    RecentDevices(Seq<Seq<char>>),
    ClipboardContent(ClipboardContentV),
    RecentUrls(Seq<Seq<char>>),
    DebugHosts(HostV),
}

/// A typed value held by one slot of the snapshot.
#[derive(Debug)]
pub enum StoreValue {
    Simulator(DeviceMap),
    Tray(TrayMenu),
    RecentDevices(Vec<String>),
    ClipboardContent(ClipboardContent),
    RecentUrls(Vec<String>),
    DebugHosts(Host),
}

impl View for StoreValue {
    type V = StoreValueV;

    open spec fn view(&self) -> StoreValueV {
        match self {
            StoreValue::Simulator(d) => StoreValueV::Simulator(d@),
            StoreValue::Tray(t) => StoreValueV::Tray(t@),
            StoreValue::RecentDevices(v) => StoreValueV::RecentDevices(v.deep_view()),
            StoreValue::ClipboardContent(c) => StoreValueV::ClipboardContent(c@),
            StoreValue::RecentUrls(v) => StoreValueV::RecentUrls(v.deep_view()),
            StoreValue::DebugHosts(h) => StoreValueV::DebugHosts(h@),
        }
    }
}

/// Why a store write was refused.
#[derive(PartialEq, Eq, Structural, Clone, Copy, Debug)]
pub enum StoreError {
    /// The value's kind does not fit the slot it was written to.
    InvalidKind,
}

/// Mathematical image of the whole snapshot.
#[verifier::ext_equal]
pub struct StoreV {
    pub simulator: Seq<DeviceGroupV>,
    pub tray: Seq<DeviceGroupV>,
    pub recent_devices: Seq<Seq<char>>,
    pub clipboard_content: Option<ClipboardContentV>,
    pub recent_urls: Option<Seq<Seq<char>>>,
    pub debug_hosts: Option<HostV>,
}

/// The persisted snapshot: every slot of the state store as one value.
#[derive(Debug)]
pub struct CostaStoreWrapper {
    pub simulator: DeviceMap,
    pub tray: TrayMenu,
    pub recent_devices: Vec<String>,
    pub clipboard_content: Option<ClipboardContent>,
    pub recent_urls: Option<Vec<String>>,
    pub debug_hosts: Option<Host>,
}

impl View for CostaStoreWrapper {
    type V = StoreV;

    open spec fn view(&self) -> StoreV {
        StoreV {
            simulator: self.simulator@,
            tray: self.tray@,
            recent_devices: self.recent_devices.deep_view(),
            clipboard_content: match &self.clipboard_content {
                Some(c) => Some(c@),
                None => None,
            },
            recent_urls: match &self.recent_urls {
                Some(v) => Some(v.deep_view()),
                None => None,
            },
            debug_hosts: match &self.debug_hosts {
                Some(h) => Some(h@),
                None => None,
            },
        }
    }
}

impl Clone for CostaStoreWrapper {
    fn clone(&self) -> (r: Self)
        ensures
            r@ == self@,
    {
        CostaStoreWrapper {
            simulator: self.simulator.clone(),
            tray: self.tray.clone(),
            recent_devices: clone_string_vec(&self.recent_devices),
            clipboard_content: match &self.clipboard_content {
                Some(c) => Some(c.clone()),
                None => None,
            },
            recent_urls: match &self.recent_urls {
                Some(v) => Some(clone_string_vec(v)),
                None => None,
            },
            debug_hosts: match &self.debug_hosts {
                Some(h) => Some(h.clone()),
                None => None,
            },
        }
    }
}

/// A copy of a vector of strings.
pub fn clone_string_vec(v: &Vec<String>) -> (r: Vec<String>)
    ensures
        r@ == v@,
        r.deep_view() == v.deep_view(),
{
    let mut out: Vec<String> = Vec::new();
    let mut i: usize = 0;
    while i < v.len()
        invariant
            i <= v@.len(),
            out@.len() == i,
            forall|k: int| 0 <= k < i ==> out@[k] == v@[k],
        decreases v@.len() - i,
    {
        out.push(v[i].clone());
        i += 1;
    }
    proof {
        assert(out@ =~= v@);
        assert(out.deep_view() =~~= v.deep_view());
    }
    out
}

impl CostaStoreWrapper {
    /// The first-run snapshot: the freshly queried catalog in both the
    /// catalog slot and the tray slot, everything else empty or absent.
    pub fn first_run(catalog: DeviceMap) -> (r: Self)
        ensures
            r@.simulator == catalog@,
            r@.tray == catalog@,
            r@.recent_devices == Seq::<Seq<char>>::empty(),
            r@.clipboard_content is None,
            r@.recent_urls is None,
            r@.debug_hosts is None,
    {
        let tray_catalog = catalog.clone();
        let r = CostaStoreWrapper {
            simulator: catalog,
            tray: TrayMenu { simulator: tray_catalog },
            recent_devices: Vec::new(),
            clipboard_content: None,
            recent_urls: None,
            debug_hosts: None,
        };
        proof {
            assert(r@.recent_devices =~= Seq::<Seq<char>>::empty());
        }
        r
    }

    /// Resets the debug-hosts slot to the empty record, as start-up does.
    pub fn setup_debug_hosts(&mut self)
        ensures
            final(self)@ == (StoreV {
                debug_hosts: Some(
                    HostV {
                        selected_host: None,
                        host_map: Seq::<(Seq<char>, Seq<char>)>::empty(),
                    },
                ),
                ..old(self)@
            }),
    {
        self.debug_hosts = Some(Host::default());
        proof {
            assert(final(self)@ =~~= (StoreV {
                debug_hosts: Some(
                    HostV {
                        selected_host: None,
                        host_map: Seq::<(Seq<char>, Seq<char>)>::empty(),
                    },
                ),
                ..old(self)@
            }));
        }
    }

    /// Reads one slot: the fixed slots always answer, the optional slots
    /// answer only when occupied.
    pub fn get(&self, key: StoreKey) -> (r: Option<StoreValue>)
        ensures
            (match key {
                StoreKey::Simulator => (r matches Some(StoreValue::Simulator(d)) && d@
                    == self@.simulator),
                StoreKey::Tray => (r matches Some(StoreValue::Tray(t)) && t@ == self@.tray),
                StoreKey::RecentDevices => (r matches Some(StoreValue::RecentDevices(v))
                    && v.deep_view() == self@.recent_devices),
                StoreKey::ClipboardContent => (match self@.clipboard_content {
                    Some(c) => r matches Some(StoreValue::ClipboardContent(cc)) && cc@ == c,
                    None => r is None,
                }),
                StoreKey::RecentUrls => (match self@.recent_urls {
                    Some(v) => r matches Some(StoreValue::RecentUrls(vv)) && vv.deep_view() == v,
                    None => r is None,
                }),
                StoreKey::DebugHosts => (match self@.debug_hosts {
                    Some(h) => r matches Some(StoreValue::DebugHosts(hh)) && hh@ == h,
                    None => r is None,
                }),
            }),
    {
        match key {
            StoreKey::Simulator => Some(StoreValue::Simulator(self.simulator.clone())),
            StoreKey::Tray => Some(StoreValue::Tray(self.tray.clone())),
            StoreKey::RecentDevices => Some(
                StoreValue::RecentDevices(clone_string_vec(&self.recent_devices)),
            ),
            StoreKey::ClipboardContent => match &self.clipboard_content {
                Some(c) => Some(StoreValue::ClipboardContent(c.clone())),
                None => None,
            },
            StoreKey::RecentUrls => match &self.recent_urls {
                Some(v) => Some(StoreValue::RecentUrls(clone_string_vec(v))),
                None => None,
            },
            StoreKey::DebugHosts => match &self.debug_hosts {
                Some(h) => Some(StoreValue::DebugHosts(h.clone())),
                None => None,
            },
        }
    }

    /// Writes one slot. The write lands exactly when the value's kind
    /// fits the slot; otherwise the snapshot is unchanged and the caller
    /// is told.
    pub fn set(&mut self, key: StoreKey, value: StoreValue) -> (r: Result<(), StoreError>)
        ensures
            (match key {
                StoreKey::Simulator => (match value {
                    StoreValue::Simulator(d) => r is Ok && final(self)@ == (StoreV {
                        simulator: d@,
                        ..old(self)@
                    }),
                    _ => r == Err::<(), StoreError>(StoreError::InvalidKind) && *final(self)
                        == *old(self),
                }),
                StoreKey::Tray => (match value {
                    StoreValue::Tray(t) => r is Ok && final(self)@ == (StoreV {
                        tray: t@,
                        ..old(self)@
                    }),
                    _ => r == Err::<(), StoreError>(StoreError::InvalidKind) && *final(self)
                        == *old(self),
                }),
                StoreKey::RecentDevices => (match value {
                    StoreValue::RecentDevices(v) => r is Ok && final(self)@ == (StoreV {
                        recent_devices: v.deep_view(),
                        ..old(self)@
                    }),
                    _ => r == Err::<(), StoreError>(StoreError::InvalidKind) && *final(self)
                        == *old(self),
                }),
                StoreKey::ClipboardContent => (match value {
                    StoreValue::ClipboardContent(c) => r is Ok && final(self)@ == (StoreV {
                        clipboard_content: Some(c@),
                        ..old(self)@
                    }),
                    _ => r == Err::<(), StoreError>(StoreError::InvalidKind) && *final(self)
                        == *old(self),
                }),
                StoreKey::RecentUrls => (match value {
                    StoreValue::RecentUrls(v) => r is Ok && final(self)@ == (StoreV {
                        recent_urls: Some(v.deep_view()),
                        ..old(self)@
                    }),
                    _ => r == Err::<(), StoreError>(StoreError::InvalidKind) && *final(self)
                        == *old(self),
                }),
                StoreKey::DebugHosts => (match value {
                    StoreValue::DebugHosts(h) => r is Ok && final(self)@ == (StoreV {
                        debug_hosts: Some(h@),
                        ..old(self)@
                    }),
                    _ => r == Err::<(), StoreError>(StoreError::InvalidKind) && *final(self)
                        == *old(self),
                }),
            }),
    {
        match key {
            StoreKey::Simulator => match value {
                StoreValue::Simulator(d) => {
                    self.simulator = d;
                    Ok(())
                },
                _ => Err(StoreError::InvalidKind),
            },
            StoreKey::Tray => match value {
                StoreValue::Tray(t) => {
                    self.tray = t;
                    Ok(())
                },
                _ => Err(StoreError::InvalidKind),
            },
            StoreKey::RecentDevices => match value {
                StoreValue::RecentDevices(v) => {
                    self.recent_devices = v;
                    Ok(())
                },
                _ => Err(StoreError::InvalidKind),
            },
            StoreKey::ClipboardContent => match value {
                StoreValue::ClipboardContent(c) => {
                    self.clipboard_content = Some(c);
                    Ok(())
                },
                _ => Err(StoreError::InvalidKind),
            },
            StoreKey::RecentUrls => match value {
                StoreValue::RecentUrls(v) => {
                    self.recent_urls = Some(v);
                    Ok(())
                },
                _ => Err(StoreError::InvalidKind),
            },
            StoreKey::DebugHosts => match value {
                StoreValue::DebugHosts(h) => {
                    self.debug_hosts = Some(h);
                    Ok(())
                },
                _ => Err(StoreError::InvalidKind),
            },
        }
    }
}

/// No identifier occurs twice in `s`.
pub open spec fn no_dup_ids(s: Seq<Seq<char>>) -> bool {
    forall|i: int, j: int| 0 <= i < j < s.len() ==> s[i] != s[j]
}

/// `s` with every occurrence of the identifier `x` removed.
pub open spec fn spec_remove_id(s: Seq<Seq<char>>, x: Seq<char>) -> Seq<Seq<char>> {
    s.filter(|y: Seq<char>| y != x)
}

/// The recent-device list after recording `udid`: an identifier already
/// present moves to the front, the others keeping their order; a fresh
/// identifier lands at the front, evicting the oldest entry when the
/// list is full.
pub open spec fn spec_insert_recent(recent: Seq<Seq<char>>, udid: Seq<char>) -> Seq<Seq<char>> {
    if recent.contains(udid) {
        seq![udid] + spec_remove_id(recent, udid)
    } else if recent.len() >= MAX_RECENT_DEVICES {
        seq![udid] + recent.drop_last()
    } else {
        seq![udid] + recent
    }
}

/// Records `udid` as the most recently used device.
pub fn insert_recent_device(recent: &Vec<String>, udid: &str) -> (r: Vec<String>)
    ensures
        r.deep_view() == spec_insert_recent(recent.deep_view(), udid@),
{
    let ghost rv = recent.deep_view();
    let n = recent.len();
    proof {
        assert(rv.len() == recent@.len());
    }
    let mut found = false;
    let mut i: usize = 0;
    while i < n
        invariant
            i <= n,
            n == recent@.len(),
            rv == recent.deep_view(),
            found <==> exists|k: int| 0 <= k < i && rv[k] == udid@,
        decreases n - i,
    {
        if str_eq(recent[i].as_str(), udid) {
            found = true;
        }
        proof {
            assert(rv[i as int] == recent@[i as int]@);
        }
        i += 1;
    }
    proof {
        assert(found == rv.contains(udid@));
    }
    let mut out: Vec<String> = Vec::new();
    out.push(udid.to_owned());
    if found {
        let mut j: usize = 0;
        proof {
            reveal(Seq::filter);
            assert(spec_remove_id(rv.take(0), udid@) =~= Seq::<Seq<char>>::empty());
            assert(out.deep_view() =~= seq![udid@]);
        }
        while j < n
            invariant
                j <= n,
                n == recent@.len(),
                rv == recent.deep_view(),
                out.deep_view() == seq![udid@] + spec_remove_id(rv.take(j as int), udid@),
            decreases n - j,
        {
            proof {
                reveal(Seq::filter);
                assert(rv.take(j + 1).drop_last() =~= rv.take(j as int));
                assert(rv.take(j + 1).last() == rv[j as int]);
                assert(rv[j as int] == recent@[j as int]@);
            }
            let ghost prev = out.deep_view();
            if !str_eq(recent[j].as_str(), udid) {
                out.push(recent[j].clone());
                proof {
                    reveal(Seq::filter);
                    assert(out@.len() == prev.len() + 1);
                    assert(out@[out@.len() - 1]@ == rv[j as int]);
                    assert(out.deep_view() =~= prev.push(rv[j as int]));
                    assert(out.deep_view() =~= seq![udid@] + spec_remove_id(
                        rv.take(j + 1),
                        udid@,
                    ));
                }
            } else {
                proof {
                    reveal(Seq::filter);
                    assert(out.deep_view() =~= seq![udid@] + spec_remove_id(
                        rv.take(j + 1),
                        udid@,
                    ));
                }
            }
            j += 1;
        }
        proof {
            assert(rv.take(n as int) =~= rv);
        }
        out
    } else {
        let keep = if n >= MAX_RECENT_DEVICES {
            n - 1
        } else {
            n
        };
        let mut j: usize = 0;
        proof {
            assert(out.deep_view() =~= seq![udid@]);
        }
        while j < keep
            invariant
                j <= keep,
                keep <= n,
                n == recent@.len(),
                rv == recent.deep_view(),
                out.deep_view() == seq![udid@] + rv.take(j as int),
            decreases keep - j,
        {
            proof {
                assert(rv[j as int] == recent@[j as int]@);
            }
            let ghost prev = out.deep_view();
            out.push(recent[j].clone());
            proof {
                assert(out@.len() == prev.len() + 1);
                assert(out@[out@.len() - 1]@ == rv[j as int]);
                assert(out.deep_view() =~= prev.push(rv[j as int]));
                assert(out.deep_view() =~= seq![udid@] + rv.take(j + 1));
            }
            j += 1;
        }
        proof {
            if n >= MAX_RECENT_DEVICES {
                assert(rv.take(keep as int) =~= rv.drop_last());
            } else {
                assert(rv.take(keep as int) =~= rv);
            }
        }
        out
    }
}

/// If `x` does not occur in `s`, filtering `x` out changes nothing.
proof fn lemma_filter_absent(s: Seq<Seq<char>>, x: Seq<char>)
    requires
        !s.contains(x),
    ensures
        s.filter(|y: Seq<char>| y != x) == s,
    decreases s.len(),
{
    reveal(Seq::filter);
    if s.len() > 0 {
        assert(!s.drop_last().contains(x)) by {
            if s.drop_last().contains(x) {
                let i = choose|i: int| 0 <= i < s.drop_last().len() && s.drop_last()[i] == x;
                assert(s[i] == x);
            }
        }
        lemma_filter_absent(s.drop_last(), x);
        assert(s.last() != x) by {
            assert(s[s.len() - 1] == s.last());
        }
        assert(s.filter(|y: Seq<char>| y != x) =~= s);
    }
}

/// Filtering `x` out keeps only elements of `s`, keeps them distinct
/// when `s` has no duplicates, and drops at least one element when `x`
/// occurs.
proof fn lemma_filter_out_dups(s: Seq<Seq<char>>, x: Seq<char>)
    requires
        no_dup_ids(s),
    ensures
        no_dup_ids(spec_remove_id(s, x)),
        !spec_remove_id(s, x).contains(x),
        forall|z: Seq<char>| #[trigger] spec_remove_id(s, x).contains(z) ==> s.contains(z),
        s.contains(x) ==> spec_remove_id(s, x).len() < s.len(),
        !s.contains(x) ==> spec_remove_id(s, x) == s,
    decreases s.len(),
{
    reveal(Seq::filter);
    let out = spec_remove_id(s, x);
    if s.len() == 0 {
        assert(out =~= s);
        assert(!out.contains(x));
    } else {
        let sub = s.drop_last();
        assert(no_dup_ids(sub)) by {
            assert(forall|i: int| 0 <= i < sub.len() ==> sub[i] == s[i]);
        }
        lemma_filter_out_dups(sub, x);
        let subf = spec_remove_id(sub, x);
        assert(!sub.contains(s.last())) by {
            if sub.contains(s.last()) {
                let i = choose|i: int| 0 <= i < sub.len() && sub[i] == s.last();
                assert(s[i] == s[s.len() - 1]);
            }
        }
        assert(!subf.contains(s.last()));
        if s.last() != x {
            assert(out == subf.push(s.last()));
            assert(no_dup_ids(out)) by {
                assert forall|i: int, j: int| 0 <= i < j < out.len() implies out[i] != out[j] by {
                    if j == out.len() - 1 {
                        assert(out[i] == subf[i]);
                        assert(subf.contains(out[i]));
                    } else {
                        assert(out[i] == subf[i] && out[j] == subf[j]);
                    }
                }
            }
            assert(!out.contains(x)) by {
                if out.contains(x) {
                    let k = choose|k: int| 0 <= k < out.len() && out[k] == x;
                    if k < out.len() - 1 {
                        assert(subf[k] == x);
                        assert(subf.contains(x));
                    }
                }
            }
            assert forall|z: Seq<char>| #[trigger] out.contains(z) implies s.contains(z) by {
                let i = choose|i: int| 0 <= i < out.len() && out[i] == z;
                if i == out.len() - 1 {
                    assert(s[s.len() - 1] == z);
                } else {
                    assert(subf[i] == z);
                    assert(subf.contains(z));
                    assert(sub.contains(z));
                    let j = choose|j: int| 0 <= j < sub.len() && sub[j] == z;
                    assert(s[j] == z);
                }
            }
            if s.contains(x) {
                assert(sub.contains(x)) by {
                    let i = choose|i: int| 0 <= i < s.len() && s[i] == x;
                    assert(i != s.len() - 1);
                    assert(sub[i] == x);
                }
            }
            if !s.contains(x) {
                assert(!sub.contains(x)) by {
                    if sub.contains(x) {
                        let i = choose|i: int| 0 <= i < sub.len() && sub[i] == x;
                        assert(s[i] == x);
                    }
                }
                assert(subf == sub);
                assert(out =~= s);
            }
        } else {
            assert(out == subf);
            assert(s.contains(x)) by {
                assert(s[s.len() - 1] == x);
            }
            sub.lemma_filter_len(|y: Seq<char>| y != x);
            assert forall|z: Seq<char>| #[trigger] out.contains(z) implies s.contains(z) by {
                assert(sub.contains(z));
                let j = choose|j: int| 0 <= j < sub.len() && sub[j] == z;
                assert(s[j] == z);
            }
        }
    }
}

/// Removing the identifier that stands only at the front drops exactly
/// the front entry.
proof fn lemma_remove_id_front(s: Seq<Seq<char>>, x: Seq<char>)
    requires
        s.len() > 0,
        s[0] == x,
        !s.drop_first().contains(x),
    ensures
        spec_remove_id(s, x) == s.drop_first(),
    decreases s.len(),
{
    reveal(Seq::filter);
    if s.len() == 1 {
        assert(s.drop_last() =~= Seq::<Seq<char>>::empty());
        assert(spec_remove_id(s.drop_last(), x) =~= Seq::<Seq<char>>::empty());
        assert(spec_remove_id(s, x) == spec_remove_id(s.drop_last(), x));
        assert(s.drop_first() =~= Seq::<Seq<char>>::empty());
        assert(spec_remove_id(s, x) =~= s.drop_first());
    } else {
        assert(s.drop_last()[0] == s[0]);
        assert(!s.drop_last().drop_first().contains(x)) by {
            if s.drop_last().drop_first().contains(x) {
                let i = choose|i: int|
                    0 <= i < s.drop_last().drop_first().len() && s.drop_last().drop_first()[i]
                        == x;
                assert(s.drop_first()[i] == x);
                assert(s.drop_first().contains(x));
            }
        }
        lemma_remove_id_front(s.drop_last(), x);
        assert(s.last() != x) by {
            assert(s.drop_first()[s.len() - 2] == s.last());
            if s.last() == x {
                assert(s.drop_first().contains(x));
            }
        }
        assert(spec_remove_id(s, x) == spec_remove_id(s.drop_last(), x).push(s.last()));
        assert(spec_remove_id(s, x) =~= s.drop_first());
    }
}

/// Law: recording a device keeps the recent-device list bounded and
/// duplicate-free, puts the recorded identifier first, leaves the list
/// unchanged when that identifier was already in front, moves it to the
/// front with the remaining entries in their old order when it was
/// elsewhere, and, when the identifier is fresh and the list full,
/// evicts exactly the oldest entry.
pub proof fn lemma_recent_device_list(recent: Seq<Seq<char>>, udid: Seq<char>)
    requires
        no_dup_ids(recent),
        recent.len() <= MAX_RECENT_DEVICES,
    ensures
        spec_insert_recent(recent, udid).len() <= MAX_RECENT_DEVICES,
        no_dup_ids(spec_insert_recent(recent, udid)),
        spec_insert_recent(recent, udid)[0] == udid,
        recent.len() > 0 && recent[0] == udid ==> spec_insert_recent(recent, udid) == recent,
        recent.contains(udid) ==> spec_insert_recent(recent, udid) == seq![udid] + spec_remove_id(
            recent,
            udid,
        ),
        !recent.contains(udid) && recent.len() == MAX_RECENT_DEVICES ==> spec_insert_recent(
            recent,
            udid,
        ) == seq![udid] + recent.drop_last(),
        !recent.contains(udid) && recent.len() < MAX_RECENT_DEVICES ==> spec_insert_recent(
            recent,
            udid,
        ) == seq![udid] + recent,
{
    let out = spec_insert_recent(recent, udid);
    if recent.contains(udid) {
        lemma_filter_out_dups(recent, udid);
        let f = spec_remove_id(recent, udid);
        assert(out == seq![udid] + f);
        assert(out.len() <= MAX_RECENT_DEVICES);
        assert(no_dup_ids(out)) by {
            assert forall|i: int, j: int| 0 <= i < j < out.len() implies out[i] != out[j] by {
                if i == 0 {
                    assert(out[j] == f[j - 1]);
                    if out[j] == udid {
                        assert(f.contains(udid)) by {
                            assert(f[j - 1] == udid);
                        }
                    }
                } else {
                    assert(out[i] == f[i - 1] && out[j] == f[j - 1]);
                }
            }
        }
        if recent.len() > 0 && recent[0] == udid {
            assert(!recent.drop_first().contains(udid)) by {
                if recent.drop_first().contains(udid) {
                    let i = choose|i: int|
                        0 <= i < recent.drop_first().len() && recent.drop_first()[i] == udid;
                    assert(recent[i + 1] == udid);
                    assert(recent[0] == recent[i + 1]);
                }
            }
            lemma_remove_id_front(recent, udid);
            assert(out =~= recent);
        }
    } else if recent.len() >= MAX_RECENT_DEVICES {
        assert(out == seq![udid] + recent.drop_last());
        assert(no_dup_ids(out)) by {
            assert forall|i: int, j: int| 0 <= i < j < out.len() implies out[i] != out[j] by {
                if i == 0 {
                    assert(out[j] == recent[j - 1]);
                    if out[j] == udid {
                        assert(recent.contains(udid)) by {
                            assert(recent[j - 1] == udid);
                        }
                    }
                } else {
                    assert(out[i] == recent[i - 1] && out[j] == recent[j - 1]);
                }
            }
        }
    } else {
        assert(out == seq![udid] + recent);
        assert(no_dup_ids(out)) by {
            assert forall|i: int, j: int| 0 <= i < j < out.len() implies out[i] != out[j] by {
                if i == 0 {
                    assert(out[j] == recent[j - 1]);
                    if out[j] == udid {
                        assert(recent.contains(udid)) by {
                            assert(recent[j - 1] == udid);
                        }
                    }
                } else {
                    assert(out[i] == recent[i - 1] && out[j] == recent[j - 1]);
                }
            }
        }
    }
    assert(out[0] == udid);
}

} // verus!
