//! Host discovery: heartbeat classification and scan aggregation.
//!
//! A probe of one candidate address yields a response body or nothing.
//! A body counts as a live debug host exactly when it carries the
//! success sentinel; the text after the sentinel's last occurrence is
//! the host's self-reported identity. A scan cycle folds every probe
//! outcome into a fresh registry.

use vstd::prelude::*;
use vstd::string::*;

use crate::host::{
    lemma_reg_insert_get, reg_has_name, reg_unique_names, spec_reg_get, spec_reg_insert, HostMap,
    RegV,
};
use crate::strutil::{
    find_last, lemma_find_last_contains, lemma_find_last_from, spec_contains, spec_digits,
    spec_find_last, u16_to_string,
};

verus! {

/// Lowest port probed in a scan cycle.
pub const SCAN_FIRST_PORT: u16 = 9081;

/// First port above the probed range.
pub const SCAN_END_PORT: u16 = 9092;

/// Identity a heartbeat body reports: the text after the last occurrence
/// of the success sentinel, or nothing when the sentinel is absent.
pub open spec fn spec_classify_heartbeat(body: Seq<char>) -> Option<Seq<char>> {
    match spec_find_last(body, "costa_heartbeat_success_"@) {
        Some(i) => Some(body.skip(i + "costa_heartbeat_success_"@.len())),
        None => None,
    }
}

/// A body classifies as success exactly when it contains the sentinel.
pub proof fn lemma_classify_contains(body: Seq<char>)
    ensures
        spec_classify_heartbeat(body) is Some <==> spec_contains(
            body,
            "costa_heartbeat_success_"@,
        ),
{
    lemma_find_last_contains(body, "costa_heartbeat_success_"@);
}

/// Extracts the host identity from a heartbeat response body, if the
/// body carries the success sentinel.
pub fn classify_heartbeat(body: &str) -> (r: Option<String>)
    ensures
        (match r {
            Some(ident) => spec_classify_heartbeat(body@) == Some(ident@),
            None => spec_classify_heartbeat(body@) is None,
        }),
{
    let sentinel = "costa_heartbeat_success_";
    proof {
        reveal_strlit("costa_heartbeat_success_");
    }
    match find_last(body, sentinel) {
        Some(i) => {
            proof {
                lemma_find_last_from(body@, sentinel@, body@.len() - sentinel@.len());
            }
            let body_len = body.unicode_len();
            let sentinel_len = sentinel.unicode_len();
            let ident = body.substring_char(i + sentinel_len, body_len);
            proof {
                assert(ident@ =~= body@.skip(i + sentinel@.len()));
            }
            Some(ident.to_owned())
        },
        None => None,
    }
}

/// Base URL of a local candidate port.
pub fn port_base_url(port: u16) -> (r: String)
    ensures
        r@ == "http://127.0.0.1:"@ + spec_digits(port as int),
{
    let mut s = String::from_str("http://127.0.0.1:");
    let digits = u16_to_string(port);
    s.append(digits.as_str());
    s
}

/// Heartbeat endpoint of a candidate base URL.
pub fn heartbeat_url(base: &str) -> (r: String)
    ensures
        r@ == base@ + "/costa/heartbeat"@,
{
    base.to_owned().concat("/costa/heartbeat")
}

/// The fixed contiguous port range a scan cycle probes, in order.
pub fn scan_ports() -> (r: Vec<u16>)
    ensures
        r@.len() == SCAN_END_PORT - SCAN_FIRST_PORT,
        forall|k: int| 0 <= k < r@.len() ==> r@[k] == SCAN_FIRST_PORT + k,
{
    let mut ports: Vec<u16> = Vec::new();
    let mut p: u16 = SCAN_FIRST_PORT;
    while p < SCAN_END_PORT
        invariant
            SCAN_FIRST_PORT <= p <= SCAN_END_PORT,
            ports@.len() == p - SCAN_FIRST_PORT,
            forall|k: int| 0 <= k < ports@.len() ==> ports@[k] == SCAN_FIRST_PORT + k,
        decreases SCAN_END_PORT - p,
    {
        ports.push(p);
        p += 1;
    }
    ports
}

/// Mathematical image of a [`ProbeResponse`].
#[verifier::ext_equal]
pub struct ProbeResponseV {
    pub url: Seq<char>,
    pub body: Option<Seq<char>>,
}

/// Outcome of probing one candidate address: the body the probe
/// returned, or nothing on any network failure or empty response.
#[derive(Debug)]
pub struct ProbeResponse {
    pub url: String,
    pub body: Option<String>,
}

impl View for ProbeResponse {
    type V = ProbeResponseV;

    open spec fn view(&self) -> ProbeResponseV {
        ProbeResponseV { url: self.url@, body: self.body.deep_view() }
    }
}

/// Identity a probe outcome contributes: the classification of its body.
pub open spec fn probe_success_name(p: ProbeResponseV) -> Option<Seq<char>> {
    match p.body {
        Some(b) => spec_classify_heartbeat(b),
        None => None,
    }
}

/// Registry a scan cycle builds: probe outcomes folded in order, each
/// successful one binding its identity to its probe's base URL.
pub open spec fn spec_collect_scan(rs: Seq<ProbeResponseV>) -> RegV
    decreases rs.len(),
{
    if rs.len() == 0 {
        Seq::empty()
    } else {
        let prev = spec_collect_scan(rs.drop_last());
        match probe_success_name(rs.last()) {
            Some(name) => spec_reg_insert(prev, name, rs.last().url),
            None => prev,
        }
    }
}

/// Aggregates one scan cycle's probe outcomes into a registry.
pub fn collect_scan(responses: &Vec<ProbeResponse>) -> (r: HostMap)
    ensures
        r@ == spec_collect_scan(responses@.map_values(|p: ProbeResponse| p@)),
{
    let ghost rs = responses@.map_values(|p: ProbeResponse| p@);
    let mut reg = HostMap::new();
    let n = responses.len();
    let mut i: usize = 0;
    proof {
        assert(rs.take(0) =~= Seq::<ProbeResponseV>::empty());
    }
    while i < n
        invariant
            i <= n,
            n == responses@.len(),
            rs == responses@.map_values(|p: ProbeResponse| p@),
            reg@ == spec_collect_scan(rs.take(i as int)),
        decreases n - i,
    {
        proof {
            assert(rs.take(i + 1).drop_last() =~= rs.take(i as int));
            assert(rs.take(i + 1).last() == rs[i as int]);
            assert(rs[i as int] == responses@[i as int]@);
        }
        match &responses[i].body {
            Some(b) => {
                match classify_heartbeat(b.as_str()) {
                    Some(name) => {
                        reg.insert(name, responses[i].url.clone());
                    },
                    None => {},
                }
            },
            None => {},
        }
        i += 1;
    }
    proof {
        assert(rs.take(n as int) =~= rs);
    }
    reg
}

/// After binding `name`, a registry carries `x` exactly when it carried
/// `x` before or `x` is `name`.
proof fn lemma_insert_has_name(m: RegV, name: Seq<char>, url: Seq<char>, x: Seq<char>)
    ensures
        reg_has_name(spec_reg_insert(m, name, url), x) <==> (reg_has_name(m, x) || x == name),
    decreases m.len(),
{
    let out = spec_reg_insert(m, name, url);
    if m.len() == 0 {
        if x == name {
            assert(out[0].0 == x);
        }
    } else if m[0].0 == name {
        assert(forall|k: int| 0 <= k < m.skip(1).len() ==> m.skip(1)[k] == m[k + 1]);
        if reg_has_name(out, x) {
            let i = choose|i: int| 0 <= i < out.len() && out[i].0 == x;
            if i == 0 {
                assert(x == name);
            } else {
                assert(m[i].0 == x);
            }
        }
        if reg_has_name(m, x) {
            let i = choose|i: int| 0 <= i < m.len() && m[i].0 == x;
            if i == 0 {
                assert(out[0].0 == name);
            } else {
                assert(out[i].0 == x);
            }
        }
        if x == name {
            assert(out[0].0 == x);
        }
    } else {
        lemma_insert_has_name(m.skip(1), name, url, x);
        let sub = spec_reg_insert(m.skip(1), name, url);
        assert(forall|k: int| 0 <= k < m.skip(1).len() ==> m.skip(1)[k] == m[k + 1]);
        assert(forall|k: int| 0 <= k < sub.len() ==> out[k + 1] == sub[k]);
        if reg_has_name(out, x) {
            let i = choose|i: int| 0 <= i < out.len() && out[i].0 == x;
            if i == 0 {
                assert(m[0].0 == x);
            } else {
                assert(sub[i - 1].0 == x);
                assert(reg_has_name(sub, x));
                if reg_has_name(m.skip(1), x) {
                    let j = choose|j: int| 0 <= j < m.skip(1).len() && m.skip(1)[j].0 == x;
                    assert(m[j + 1].0 == x);
                }
            }
        }
        if reg_has_name(m, x) {
            let i = choose|i: int| 0 <= i < m.len() && m[i].0 == x;
            if i == 0 {
                assert(out[0].0 == x);
            } else {
                assert(m.skip(1)[i - 1].0 == x);
                assert(reg_has_name(sub, x));
                let j = choose|j: int| 0 <= j < sub.len() && sub[j].0 == x;
                assert(out[j + 1].0 == x);
            }
        }
        if x == name {
            assert(reg_has_name(sub, x));
            let j = choose|j: int| 0 <= j < sub.len() && sub[j].0 == x;
            assert(out[j + 1].0 == x);
        }
    }
}

/// Binding a name keeps the registry's identities unique.
proof fn lemma_insert_unique(m: RegV, name: Seq<char>, url: Seq<char>)
    requires
        reg_unique_names(m),
    ensures
        reg_unique_names(spec_reg_insert(m, name, url)),
    decreases m.len(),
{
    let out = spec_reg_insert(m, name, url);
    if m.len() == 0 {
    } else if m[0].0 == name {
        assert(forall|k: int| 0 <= k < m.skip(1).len() ==> m.skip(1)[k] == m[k + 1]);
        assert forall|i: int, j: int| 0 <= i < j < out.len() implies out[i].0 != out[j].0 by {
            if i == 0 {
                assert(out[j] == m[j]);
                assert(m[0].0 != m[j].0);
            } else {
                assert(out[i] == m[i] && out[j] == m[j]);
            }
        }
    } else {
        assert(forall|k: int| 0 <= k < m.skip(1).len() ==> m.skip(1)[k] == m[k + 1]);
        assert(reg_unique_names(m.skip(1)));
        lemma_insert_unique(m.skip(1), name, url);
        let sub = spec_reg_insert(m.skip(1), name, url);
        assert(forall|k: int| 0 <= k < sub.len() ==> out[k + 1] == sub[k]);
        lemma_insert_has_name(m.skip(1), name, url, m[0].0);
        assert(!reg_has_name(sub, m[0].0));
        assert forall|i: int, j: int| 0 <= i < j < out.len() implies out[i].0 != out[j].0 by {
            if i == 0 {
                assert(out[j] == sub[j - 1]);
                if out[0].0 == sub[j - 1].0 {
                    assert(reg_has_name(sub, m[0].0));
                }
            } else {
                assert(out[i] == sub[i - 1] && out[j] == sub[j - 1]);
            }
        }
    }
}

/// Law: the registry a scan cycle builds lists exactly the identities of
/// the probes whose body carried the success sentinel, each identity
/// once; failed or silent probes contribute nothing.
pub proof fn lemma_scan_registry_exact(rs: Seq<ProbeResponseV>)
    ensures
        forall|name: Seq<char>|
            #[trigger] reg_has_name(spec_collect_scan(rs), name) <==> (exists|i: int|
                0 <= i < rs.len() && probe_success_name(#[trigger] rs[i]) == Some(name)),
        reg_unique_names(spec_collect_scan(rs)),
    decreases rs.len(),
{
    if rs.len() == 0 {
    } else {
        lemma_scan_registry_exact(rs.drop_last());
        let prev = spec_collect_scan(rs.drop_last());
        let out = spec_collect_scan(rs);
        assert forall|name: Seq<char>|
            #[trigger] reg_has_name(out, name) <==> (exists|i: int|
                0 <= i < rs.len() && probe_success_name(#[trigger] rs[i]) == Some(name)) by {
            match probe_success_name(rs.last()) {
                Some(n) => {
                    lemma_insert_has_name(prev, n, rs.last().url, name);
                    if reg_has_name(out, name) {
                        if name == n {
                            assert(probe_success_name(rs[rs.len() - 1]) == Some(name));
                        } else {
                            let i = choose|i: int|
                                0 <= i < rs.drop_last().len() && probe_success_name(
                                    #[trigger] rs.drop_last()[i],
                                ) == Some(name);
                            assert(rs[i] == rs.drop_last()[i]);
                        }
                    }
                    if exists|i: int|
                        0 <= i < rs.len() && probe_success_name(#[trigger] rs[i]) == Some(name) {
                        let i = choose|i: int|
                            0 <= i < rs.len() && probe_success_name(#[trigger] rs[i]) == Some(
                                name,
                            );
                        if i == rs.len() - 1 {
                            assert(name == n);
                        } else {
                            assert(rs.drop_last()[i] == rs[i]);
                            assert(reg_has_name(prev, name));
                        }
                    }
                },
                None => {
                    if reg_has_name(out, name) {
                        let i = choose|i: int|
                            0 <= i < rs.drop_last().len() && probe_success_name(
                                #[trigger] rs.drop_last()[i],
                            ) == Some(name);
                        assert(rs[i] == rs.drop_last()[i]);
                    }
                    if exists|i: int|
                        0 <= i < rs.len() && probe_success_name(#[trigger] rs[i]) == Some(name) {
                        let i = choose|i: int|
                            0 <= i < rs.len() && probe_success_name(#[trigger] rs[i]) == Some(
                                name,
                            );
                        assert(i < rs.len() - 1);
                        assert(rs.drop_last()[i] == rs[i]);
                        assert(reg_has_name(prev, name));
                    }
                },
            }
        }
        match probe_success_name(rs.last()) {
            Some(n) => {
                lemma_insert_unique(prev, n, rs.last().url);
            },
            None => {},
        }
    }
}

/// URL of the last probe outcome that reported the identity `name`,
/// if any did.
pub open spec fn spec_last_success_url(rs: Seq<ProbeResponseV>, name: Seq<char>) -> Option<
    Seq<char>,
>
    decreases rs.len(),
{
    if rs.len() == 0 {
        None
    } else if probe_success_name(rs.last()) == Some(name) {
        Some(rs.last().url)
    } else {
        spec_last_success_url(rs.drop_last(), name)
    }
}

/// Law: looking an identity up in the registry a scan cycle built
/// yields the base URL of the last probe that reported it, and nothing
/// for an identity no probe reported.
pub proof fn lemma_scan_registry_urls(rs: Seq<ProbeResponseV>, name: Seq<char>)
    ensures
        spec_reg_get(spec_collect_scan(rs), name) == spec_last_success_url(rs, name),
    decreases rs.len(),
{
    if rs.len() == 0 {
    } else {
        lemma_scan_registry_urls(rs.drop_last(), name);
        let prev = spec_collect_scan(rs.drop_last());
        match probe_success_name(rs.last()) {
            Some(n) => {
                lemma_reg_insert_get(prev, n, rs.last().url, name);
            },
            None => {},
        }
    }
}

/// Law: a scan cycle is a function of the probe outcomes alone, so two
/// cycles over unchanged live hosts build identical registries.
pub proof fn lemma_scan_idempotent(rs1: Seq<ProbeResponseV>, rs2: Seq<ProbeResponseV>)
    requires
        rs1 == rs2,
    ensures
        spec_collect_scan(rs1) == spec_collect_scan(rs2),
{
}

} // verus!
