//! The synchronization tick's store update.
//!
//! Each tick scans for hosts and rebuilds the debug-hosts record around
//! the fresh registry. The scan itself and the timer live with the
//! caller; this module holds the update rule and its law.

use vstd::prelude::*;

use crate::host::{Host, HostMap, HostV, RegV};
use crate::store::{CostaStoreWrapper, StoreV};

verus! {

/// The selected host a snapshot records, if any.
pub open spec fn spec_selected_of(s: StoreV) -> Option<Seq<char>> {
    match s.debug_hosts {
        Some(h) => h.selected_host,
        None => None,
    }
}

/// Snapshot after one tick: the registry is replaced wholesale by the
/// scan result and the previous selection is kept as it was.
pub open spec fn spec_tick_update(s: StoreV, scanned: RegV) -> StoreV {
    StoreV {
        debug_hosts: Some(HostV { selected_host: spec_selected_of(s), host_map: scanned }),
        ..s
    }
}

/// Writes one scan cycle's registry into the store, preserving the
/// selected host across the wholesale replace.
pub fn process_host_scanner(store: &mut CostaStoreWrapper, scanned: HostMap)
    ensures
        final(store)@ == spec_tick_update(old(store)@, scanned@),
{
    let selected = match &store.debug_hosts {
        Some(h) => h.get_selected_host(),
        None => None,
    };
    store.debug_hosts = Some(Host { selected_host: selected, host_map: scanned });
    proof {
        assert(store@ =~~= spec_tick_update(old(store)@, scanned@));
    }
}

/// Law: the tick preserves the selected host. If `x` was selected, `x`
/// is still selected after the registry replace, whether or not any
/// freshly discovered host still carries it; a selection is never
/// cleared by a scan.
pub proof fn lemma_selected_host_persistence(before: StoreV, scanned: RegV, x: Seq<char>)
    requires
        spec_selected_of(before) == Some(x),
    ensures
        spec_selected_of(spec_tick_update(before, scanned)) == Some(x),
{
}

} // verus!
