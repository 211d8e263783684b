//! Debug hosts: the registry of discovered hosts, the selected host, and
//! the derivation of host-directed HTTP commands.
//!
//! The registry maps a host-reported identity to its base URL; identities
//! are unique when the registry is built by [`HostMap::insert`]. Remote
//! operations become [`HostRequest`] values; posting them is the caller's
//! concern.

use vstd::prelude::*;
use vstd::string::*;

use crate::operation::OperationId;
use crate::strutil::str_eq;

verus! {

/// The registry as mathematics: identity/URL pairs in insertion order.
pub type RegV = Seq<(Seq<char>, Seq<char>)>;

/// URL of the first entry carrying `name`.
pub open spec fn spec_reg_get(m: RegV, name: Seq<char>) -> Option<Seq<char>>
    decreases m.len(),
{
    if m.len() == 0 {
        None
    } else if m[0].0 == name {
        Some(m[0].1)
    } else {
        spec_reg_get(m.skip(1), name)
    }
}

/// Some entry of `m` carries `name`.
pub open spec fn reg_has_name(m: RegV, name: Seq<char>) -> bool {
    exists|i: int| 0 <= i < m.len() && m[i].0 == name
}

/// Registry after binding `name` to `url`: the first entry carrying
/// `name` is replaced in place, or a new entry is appended.
pub open spec fn spec_reg_insert(m: RegV, name: Seq<char>, url: Seq<char>) -> RegV
    decreases m.len(),
{
    if m.len() == 0 {
        seq![(name, url)]
    } else if m[0].0 == name {
        seq![(name, url)] + m.skip(1)
    } else {
        seq![m[0]] + spec_reg_insert(m.skip(1), name, url)
    }
}

/// No two entries of `m` carry the same identity.
pub open spec fn reg_unique_names(m: RegV) -> bool {
    forall|i: int, j: int| 0 <= i < j < m.len() ==> m[i].0 != m[j].0
}

/// One discovered host: its self-reported identity and its base URL.
#[derive(Debug)]
pub struct HostEntry {
    pub name: String,
    pub url: String,
}

impl View for HostEntry {
    type V = (Seq<char>, Seq<char>);

    open spec fn view(&self) -> (Seq<char>, Seq<char>) {
        (self.name@, self.url@)
    }
}

impl Clone for HostEntry {
    fn clone(&self) -> (r: Self)
        ensures
            r == *self,
    {
        HostEntry { name: self.name.clone(), url: self.url.clone() }
    }
}

/// The registry of discovered hosts, identity to base URL.
#[derive(Debug)]
pub struct HostMap {
    pub entries: Vec<HostEntry>,
}

impl View for HostMap {
    type V = RegV;

    open spec fn view(&self) -> RegV {
        self.entries@.map_values(|e: HostEntry| e@)
    }
}

impl Clone for HostMap {
    fn clone(&self) -> (r: Self)
        ensures
            r@ == self@,
            r.entries@ == self.entries@,
    {
        let mut entries: Vec<HostEntry> = Vec::new();
        let mut i: usize = 0;
        while i < self.entries.len()
            invariant
                i <= self.entries@.len(),
                entries@.len() == i,
                forall|k: int| 0 <= k < i ==> entries@[k] == self.entries@[k],
            decreases self.entries@.len() - i,
        {
            entries.push(self.entries[i].clone());
            i += 1;
        }
        let r = HostMap { entries };
        proof {
            assert(r.entries@ =~= self.entries@);
        }
        r
    }
}

impl HostMap {
    /// The empty registry.
    pub fn new() -> (r: Self)
        ensures
            r@ == Seq::<(Seq<char>, Seq<char>)>::empty(),
    {
        let r = HostMap { entries: Vec::new() };
        proof {
            assert(r@ =~= Seq::<(Seq<char>, Seq<char>)>::empty());
        }
        r
    }

    /// Binds `name` to `url`, replacing the entry that carried `name` or
    /// appending a new one.
    pub fn insert(&mut self, name: String, url: String)
        ensures
            final(self)@ == spec_reg_insert(old(self)@, name@, url@),
    {
        let ghost nv = name@;
        let ghost uv = url@;
        let n = self.entries.len();
        let mut i: usize = 0;
        while i < n
            invariant
                i <= n,
                n == self.entries@.len(),
                *self == *old(self),
                nv == name@,
                uv == url@,
                forall|k: int| 0 <= k < i ==> self@[k].0 != nv,
            decreases n - i,
        {
            proof {
                assert(self@[i as int] == self.entries@[i as int]@);
            }
            if str_eq(self.entries[i].name.as_str(), name.as_str()) {
                proof {
                    assert(old(self)@[i as int].0 == nv);
                    lemma_reg_insert_at(old(self)@, nv, uv, i as int);
                }
                self.entries[i] = HostEntry { name, url };
                proof {
                    assert(self@ =~= old(self)@.update(i as int, (nv, uv)));
                }
                return ;
            }
            i += 1;
        }
        self.entries.push(HostEntry { name, url });
        proof {
            lemma_reg_insert_none(old(self)@, nv, uv);
            assert(final(self)@ =~= old(self)@.push((nv, uv)));
        }
    }

    /// URL bound to `name`, if any.
    pub fn get<'a>(&'a self, name: &str) -> (r: Option<&'a String>)
        ensures
            (match r {
                Some(u) => spec_reg_get(self@, name@) == Some(u@),
                None => spec_reg_get(self@, name@) is None,
            }),
    {
        let n = self.entries.len();
        let mut i: usize = 0;
        proof {
            assert(self@.skip(0) =~= self@);
        }
        while i < n
            invariant
                i <= n,
                n == self.entries@.len(),
                spec_reg_get(self@, name@) == spec_reg_get(self@.skip(i as int), name@),
            decreases n - i,
        {
            proof {
                assert(self@.skip(i as int)[0] == self@[i as int]);
                assert(self@.skip(i as int).skip(1) =~= self@.skip(i + 1));
            }
            if str_eq(self.entries[i].name.as_str(), name) {
                return Some(&self.entries[i].url);
            }
            i += 1;
        }
        proof {
            assert(self@.skip(n as int) =~= Seq::<(Seq<char>, Seq<char>)>::empty());
        }
        None
    }

    /// Whether the registry lists no host.
    pub fn is_empty(&self) -> (r: bool)
        ensures
            r == (self@.len() == 0),
    {
        self.entries.len() == 0
    }

    /// Number of hosts listed.
    pub fn len(&self) -> (r: usize)
        ensures
            r == self@.len(),
    {
        self.entries.len()
    }
}

/// Binding a name whose first occurrence is at `i` replaces that entry.
proof fn lemma_reg_insert_at(m: RegV, name: Seq<char>, url: Seq<char>, i: int)
    requires
        0 <= i < m.len(),
        m[i].0 == name,
        forall|k: int| 0 <= k < i ==> m[k].0 != name,
    ensures
        spec_reg_insert(m, name, url) == m.update(i, (name, url)),
    decreases i,
{
    if i == 0 {
        assert(spec_reg_insert(m, name, url) =~= m.update(0, (name, url)));
    } else {
        assert(forall|k: int| 0 <= k < i - 1 ==> m.skip(1)[k] == m[k + 1]);
        assert(m.skip(1)[i - 1] == m[i]);
        lemma_reg_insert_at(m.skip(1), name, url, i - 1);
        assert(spec_reg_insert(m, name, url) =~= m.update(i, (name, url)));
    }
}

/// Binding a name that no entry carries appends an entry.
proof fn lemma_reg_insert_none(m: RegV, name: Seq<char>, url: Seq<char>)
    requires
        forall|k: int| 0 <= k < m.len() ==> m[k].0 != name,
    ensures
        spec_reg_insert(m, name, url) == m.push((name, url)),
    decreases m.len(),
{
    if m.len() == 0 {
        assert(spec_reg_insert(m, name, url) =~= m.push((name, url)));
    } else {
        assert(forall|k: int| 0 <= k < m.skip(1).len() ==> m.skip(1)[k] == m[k + 1]);
        lemma_reg_insert_none(m.skip(1), name, url);
        assert(spec_reg_insert(m, name, url) =~= m.push((name, url)));
    }
}

/// After binding `name` to `url`, lookups answer `url` for `name` and
/// are otherwise unchanged.
pub proof fn lemma_reg_insert_get(m: RegV, name: Seq<char>, url: Seq<char>, x: Seq<char>)
    ensures
        spec_reg_get(spec_reg_insert(m, name, url), x) == (if x == name {
            Some(url)
        } else {
            spec_reg_get(m, x)
        }),
    decreases m.len(),
{
    let out = spec_reg_insert(m, name, url);
    if m.len() == 0 {
        assert(out[0] == (name, url));
        assert(out.skip(1) =~= Seq::<(Seq<char>, Seq<char>)>::empty());
        if x == name {
            assert(spec_reg_get(out, x) == Some(url));
        } else {
            assert(spec_reg_get(out, x) == spec_reg_get(out.skip(1), x));
            assert(spec_reg_get(out.skip(1), x) == spec_reg_get(
                Seq::<(Seq<char>, Seq<char>)>::empty(),
                x,
            ));
            assert(spec_reg_get(m, x) is None);
        }
    } else if m[0].0 == name {
        assert(out[0] == (name, url));
        assert(out.skip(1) =~= m.skip(1));
        if x == name {
            assert(spec_reg_get(out, x) == Some(url));
        } else {
            assert(spec_reg_get(out, x) == spec_reg_get(m.skip(1), x));
            assert(spec_reg_get(m, x) == spec_reg_get(m.skip(1), x));
        }
    } else {
        lemma_reg_insert_get(m.skip(1), name, url, x);
        assert(out[0] == m[0]);
        assert(out.skip(1) =~= spec_reg_insert(m.skip(1), name, url));
        if x == m[0].0 {
            assert(spec_reg_get(out, x) == Some(m[0].1));
            assert(spec_reg_get(m, x) == Some(m[0].1));
        } else {
            assert(spec_reg_get(out, x) == spec_reg_get(
                spec_reg_insert(m.skip(1), name, url),
                x,
            ));
            assert(spec_reg_get(m, x) == spec_reg_get(m.skip(1), x));
        }
    }
}

/// Mathematical image of a [`Host`] record.
#[verifier::ext_equal]
pub struct HostV {
    pub selected_host: Option<Seq<char>>,
    pub host_map: RegV,
}

/// The debug-hosts record the store persists: the registry and the
/// explicitly selected host URL, if any.
#[derive(Debug)]
pub struct Host {
    pub selected_host: Option<String>,
    pub host_map: HostMap,
}

impl View for Host {
    type V = HostV;

    open spec fn view(&self) -> HostV {
        HostV { selected_host: self.selected_host.deep_view(), host_map: self.host_map@ }
    }
}

impl Clone for Host {
    fn clone(&self) -> (r: Self)
        ensures
            r@ == self@,
    {
        Host {
            selected_host: match &self.selected_host {
                Some(s) => Some(s.clone()),
                None => None,
            },
            host_map: self.host_map.clone(),
        }
    }
}

impl Host {
    /// The empty record: nothing selected, nothing discovered.
    pub fn default() -> (r: Self)
        ensures
            r@.selected_host is None,
            r@.host_map == Seq::<(Seq<char>, Seq<char>)>::empty(),
    {
        let r = Host { selected_host: None, host_map: HostMap::new() };
        r
    }

    /// Selects `host`; the registry is untouched.
    pub fn set_selected_host(&mut self, host: String)
        ensures
            final(self)@ == (HostV { selected_host: Some(host@), host_map: old(self)@.host_map }),
    {
        self.selected_host = Some(host);
    }

    /// The selected host URL, if one is set.
    pub fn get_selected_host(&self) -> (r: Option<String>)
        ensures
            r.deep_view() == self@.selected_host,
    {
        match &self.selected_host {
            Some(s) => Some(s.clone()),
            None => None,
        }
    }

    /// URL the registry binds to `name`, if any.
    pub fn get_host_by_name<'a>(&'a self, name: &str) -> (r: Option<&'a String>)
        ensures
            (match r {
                Some(u) => spec_reg_get(self@.host_map, name@) == Some(u@),
                None => spec_reg_get(self@.host_map, name@) is None,
            }),
    {
        self.host_map.get(name)
    }

    /// A copy of the registry.
    pub fn get_host_map(&self) -> (r: HostMap)
        ensures
            r@ == self@.host_map,
    {
        self.host_map.clone()
    }

    /// Replaces the registry; the selection is untouched.
    pub fn set_host_map(&mut self, map: HostMap)
        ensures
            final(self)@ == (HostV {
                selected_host: old(self)@.selected_host,
                host_map: map@,
            }),
    {
        self.host_map = map;
    }
}

/// Mathematical image of [`SetEnvParams`].
#[verifier::ext_equal]
pub struct SetEnvParamsV {
    pub env_type: Seq<char>,
    pub is_on: bool,
    pub name: Seq<char>,
    pub gecko_online: bool,
}

/// Parameters of the environment-switch operation, as the host expects
/// them.
#[derive(Debug)]
pub struct SetEnvParams {
    pub env_type: String,
    pub is_on: bool,
    pub name: String,
    pub gecko_online: bool,
}

impl View for SetEnvParams {
    type V = SetEnvParamsV;

    open spec fn view(&self) -> SetEnvParamsV {
        SetEnvParamsV {
            env_type: self.env_type@,
            is_on: self.is_on,
            name: self.name@,
            gecko_online: self.gecko_online,
        }
    }
}

impl Clone for SetEnvParams {
    fn clone(&self) -> (r: Self)
        ensures
            r == *self,
    {
        SetEnvParams {
            env_type: self.env_type.clone(),
            is_on: self.is_on,
            name: self.name.clone(),
            gecko_online: self.gecko_online,
        }
    }
}

/// Mathematical image of an [`OperationParams`] value.
#[verifier::ext_equal]
pub enum OperationParamsV {
    Empty,
    Text(Seq<char>),
    Env(SetEnvParamsV),
}

/// Parameter a dispatched operation carries.
#[derive(Debug)]
pub enum OperationParams {
    Empty,
    Text(String),
    Env(SetEnvParams),
}

impl View for OperationParams {
    type V = OperationParamsV;

    open spec fn view(&self) -> OperationParamsV {
        match self {
            OperationParams::Empty => OperationParamsV::Empty,
            OperationParams::Text(s) => OperationParamsV::Text(s@),
            OperationParams::Env(p) => OperationParamsV::Env(p@),
        }
    }
}

/// Mathematical image of a [`RequestBody`].
#[verifier::ext_equal]
pub enum RequestBodyV {
    Text(Seq<char>),
    EnvJson(SetEnvParamsV),
}

/// Body of an outbound host command: a raw string, or environment
/// parameters to be sent as their JSON encoding.
#[derive(Debug)]
pub enum RequestBody {
    Text(String),
    EnvJson(SetEnvParams),
}

impl View for RequestBody {
    type V = RequestBodyV;

    open spec fn view(&self) -> RequestBodyV {
        match self {
            RequestBody::Text(s) => RequestBodyV::Text(s@),
            RequestBody::EnvJson(p) => RequestBodyV::EnvJson(p@),
        }
    }
}

/// Mathematical image of a [`HostRequest`].
#[verifier::ext_equal]
pub struct HostRequestV {
    pub url: Seq<char>,
    pub body: RequestBodyV,
}

/// One outbound HTTP POST to the selected host, as data.
#[derive(Debug)]
pub struct HostRequest {
    pub url: String,
    pub body: RequestBody,
}

impl View for HostRequest {
    type V = HostRequestV;

    open spec fn view(&self) -> HostRequestV {
        HostRequestV { url: self.url@, body: self.body@ }
    }
}

/// The HTTP command a host record issues for an operation: `None` when no
/// host is selected, when the operation is not host-directed, or when the
/// parameter kind does not fit the operation.
pub open spec fn spec_operation_request(
    h: HostV,
    op: OperationId,
    params: OperationParamsV,
) -> Option<HostRequestV> {
    match h.selected_host {
        None => None,
        Some(sel) => match op {
            OperationId::ClipboardSchema => match params {
                OperationParamsV::Text(s) => Some(
                    HostRequestV {
                        url: sel + "/costa/routeSwitch"@,
                        body: RequestBodyV::Text(s),
                    },
                ),
                _ => None,
            },
            OperationId::RouteBack => match params {
                OperationParamsV::Text(s) => Some(
                    HostRequestV {
                        url: sel + "/costa/routeVCOperation"@,
                        body: RequestBodyV::Text(s),
                    },
                ),
                _ => None,
            },
            OperationId::SetEnv => match params {
                OperationParamsV::Env(p) => Some(
                    HostRequestV { url: sel + "/costa/setEnv"@, body: RequestBodyV::EnvJson(p) },
                ),
                _ => None,
            },
            OperationId::DebugMenu => Some(
                HostRequestV {
                    url: sel + "/costa/routeSwitch"@,
                    body: RequestBodyV::Text("sslocal://debug"@),
                },
            ),
            _ => None,
        },
    }
}

impl Host {
    /// Resolves a host-directed operation to the single HTTP POST it
    /// issues, or to nothing when no host is selected, the operation is
    /// not host-directed, or the parameter does not fit.
    pub fn exec_operation(&self, operation: OperationId, params: &OperationParams) -> (r: Option<
        HostRequest,
    >)
        ensures
            (match r {
                Some(req) => spec_operation_request(self@, operation, params@) == Some(req@),
                None => spec_operation_request(self@, operation, params@) is None,
            }),
    {
        let sel = match &self.selected_host {
            Some(s) => s,
            None => {
                return None;
            },
        };
        match operation {
            OperationId::ClipboardSchema => match params {
                OperationParams::Text(s) => Some(
                    HostRequest {
                        url: sel.clone().concat("/costa/routeSwitch"),
                        body: RequestBody::Text(s.clone()),
                    },
                ),
                _ => None,
            },
            OperationId::RouteBack => match params {
                OperationParams::Text(s) => Some(
                    HostRequest {
                        url: sel.clone().concat("/costa/routeVCOperation"),
                        body: RequestBody::Text(s.clone()),
                    },
                ),
                _ => None,
            },
            OperationId::SetEnv => match params {
                OperationParams::Env(p) => Some(
                    HostRequest {
                        url: sel.clone().concat("/costa/setEnv"),
                        body: RequestBody::EnvJson(p.clone()),
                    },
                ),
                _ => None,
            },
            OperationId::DebugMenu => Some(
                HostRequest {
                    url: sel.clone().concat("/costa/routeSwitch"),
                    body: RequestBody::Text(String::from_str("sslocal://debug")),
                },
            ),
            _ => None,
        }
    }
}

} // verus!
