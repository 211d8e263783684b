//! The operation dispatcher: from a clicked menu item to the store
//! mutation and the outward actions it triggers.
//!
//! The dispatcher decides; it performs nothing. Each click yields the
//! updated snapshot and the list of effects the caller must carry out:
//! opening a window, posting to the selected host, driving the
//! simulator facility, or quitting. A host-directed operation with no
//! selected host yields no outbound request.

use vstd::prelude::*;
use vstd::string::*;

use crate::clipboard::{ClipboardContent, ClipboardContentV};
use crate::device::{spec_map_find_by_udid, SimCommand};
use crate::host::{
    spec_operation_request, Host, HostRequest, HostV, OperationParams, OperationParamsV,
};
use crate::operation::{parse_operation, spec_parse_operation, OperationId};
use crate::store::{insert_recent_device, spec_insert_recent, CostaStoreWrapper, StoreV};
use crate::window::CostaRouter;

verus! {

/// One outward action a click asks the caller to perform.
#[derive(Debug)]
pub enum DispatchEffect {
    /// Show (or create) the auxiliary window of a route.
    OpenWindow(CostaRouter),
    /// Send one HTTP POST to the selected host.
    Post(HostRequest),
    /// Drive the external simulator facility.
    Sim(SimCommand),
    /// End the process.
    Exit,
}

/// What dispatching one click yields: the snapshot to persist and the
/// outward actions to perform, in order.
#[derive(Debug)]
pub struct DispatchOutcome {
    pub store: CostaStoreWrapper,
    pub effects: Vec<DispatchEffect>,
}

/// The view of the clipboard argument.
pub open spec fn spec_clip_view(clipboard: Option<ClipboardContent>) -> Option<ClipboardContentV> {
    match clipboard {
        Some(c) => Some(c@),
        None => None,
    }
}

/// What the dispatcher owes for one click: the new snapshot and the
/// effect list of every operation, case by case.
pub open spec fn spec_dispatch(
    before: StoreV,
    id: Seq<char>,
    clip: Option<ClipboardContentV>,
    after: StoreV,
    effects: Seq<DispatchEffect>,
) -> bool {
    let sel = spec_parse_operation(id);
    match sel.op {
        OperationId::InstallApp => after == before && effects =~= seq![
            DispatchEffect::OpenWindow(CostaRouter::DownloadApp),
        ],
        OperationId::Quit => after == before && effects =~= seq![DispatchEffect::Exit],
        OperationId::ClipboardSchema => {
            &&& (match clip {
                Some(c) => after == (StoreV { clipboard_content: Some(c), ..before }),
                None => after == before,
            })
            &&& effects =~= seq![DispatchEffect::OpenWindow(CostaRouter::UrlEdit)]
        },
        OperationId::SetEnv => {
            &&& (match clip {
                Some(c) => after == (StoreV { clipboard_content: Some(c), ..before }),
                None => after == before,
            })
            &&& effects =~= seq![DispatchEffect::OpenWindow(CostaRouter::EnvEdit)]
        },
        OperationId::RouteBack => {
            &&& after == before
            &&& (match before.debug_hosts {
                Some(h) => (match spec_operation_request(
                    h,
                    OperationId::RouteBack,
                    OperationParamsV::Text(id),
                ) {
                    Some(req) => effects.len() == 1 && (effects[0] matches DispatchEffect::Post(p)
                        && p@ == req),
                    None => effects =~= Seq::<DispatchEffect>::empty(),
                }),
                None => effects =~= Seq::<DispatchEffect>::empty(),
            })
        },
        OperationId::DebugMenu => {
            &&& after == before
            &&& (match before.debug_hosts {
                Some(h) => (match spec_operation_request(
                    h,
                    OperationId::DebugMenu,
                    OperationParamsV::Empty,
                ) {
                    Some(req) => effects.len() == 1 && (effects[0] matches DispatchEffect::Post(p)
                        && p@ == req),
                    None => effects =~= Seq::<DispatchEffect>::empty(),
                }),
                None => effects =~= Seq::<DispatchEffect>::empty(),
            })
        },
        OperationId::OpenSimulator => (match sel.param {
            Some(udid) => (match spec_map_find_by_udid(before.simulator, udid) {
                Some(_) => {
                    &&& after == (StoreV {
                        recent_devices: spec_insert_recent(before.recent_devices, udid),
                        ..before
                    })
                    &&& effects.len() == 2
                    &&& (effects[0] matches DispatchEffect::Sim(SimCommand::Boot { udid: u })
                        && u@ == udid)
                    &&& (effects[1] matches DispatchEffect::Sim(SimCommand::OpenSimulatorApp))
                },
                None => after == before && effects =~= Seq::<DispatchEffect>::empty(),
            }),
            None => false,
        }),
        OperationId::SelectHost => (match sel.param {
            Some(url) => {
                &&& effects =~= Seq::<DispatchEffect>::empty()
                &&& (match before.debug_hosts {
                    Some(h) => after == (StoreV {
                        debug_hosts: Some(
                            HostV { selected_host: Some(url), host_map: h.host_map },
                        ),
                        ..before
                    }),
                    None => after == before,
                })
            },
            None => false,
        }),
        _ => after == before && effects =~= Seq::<DispatchEffect>::empty(),
    }
}

/// Dispatches one tray-menu click: decodes the item identifier, applies
/// the store mutation the operation asks for, and names the outward
/// actions. `clipboard` is what the caller could read from the
/// clipboard, for the operations that consume it.
pub fn on_system_tray_event(
    store: &CostaStoreWrapper,
    menu_id: &str,
    clipboard: &Option<ClipboardContent>,
) -> (r: DispatchOutcome)
    ensures
        spec_dispatch(
            store@,
            menu_id@,
            (match clipboard {
                Some(c) => Some(c@),
                None => None,
            }),
            r.store@,
            r.effects@,
        ),
        crate::tick::spec_selected_of(store@) is None ==> (forall|k: int|
            0 <= k < r.effects@.len() ==> !(#[trigger] r.effects@[k] is Post)),
{
    let sel = parse_operation(menu_id);
    let mut new_store = store.clone();
    let mut effects: Vec<DispatchEffect> = Vec::new();
    match sel.op {
        OperationId::InstallApp => {
            effects.push(DispatchEffect::OpenWindow(CostaRouter::DownloadApp));
            proof {
                assert(effects@ =~= seq![DispatchEffect::OpenWindow(CostaRouter::DownloadApp)]);
            }
        },
        OperationId::Quit => {
            effects.push(DispatchEffect::Exit);
            proof {
                assert(effects@ =~= seq![DispatchEffect::Exit]);
            }
        },
        OperationId::ClipboardSchema => {
            match clipboard {
                Some(c) => {
                    new_store.clipboard_content = Some(c.clone());
                },
                None => {},
            }
            effects.push(DispatchEffect::OpenWindow(CostaRouter::UrlEdit));
            proof {
                assert(effects@ =~= seq![DispatchEffect::OpenWindow(CostaRouter::UrlEdit)]);
                match clipboard {
                    Some(c) => {
                        assert(new_store@ =~~= (StoreV {
                            clipboard_content: Some(c@),
                            ..store@
                        }));
                    },
                    None => {},
                }
            }
        },
        OperationId::SetEnv => {
            match clipboard {
                Some(c) => {
                    new_store.clipboard_content = Some(c.clone());
                },
                None => {},
            }
            effects.push(DispatchEffect::OpenWindow(CostaRouter::EnvEdit));
            proof {
                assert(effects@ =~= seq![DispatchEffect::OpenWindow(CostaRouter::EnvEdit)]);
                match clipboard {
                    Some(c) => {
                        assert(new_store@ =~~= (StoreV {
                            clipboard_content: Some(c@),
                            ..store@
                        }));
                    },
                    None => {},
                }
            }
        },
        OperationId::RouteBack => {
            match &store.debug_hosts {
                Some(h) => {
                    let params = OperationParams::Text(menu_id.to_owned());
                    match h.exec_operation(OperationId::RouteBack, &params) {
                        Some(req) => {
                            effects.push(DispatchEffect::Post(req));
                        },
                        None => {},
                    }
                },
                None => {},
            }
        },
        OperationId::DebugMenu => {
            match &store.debug_hosts {
                Some(h) => {
                    match h.exec_operation(OperationId::DebugMenu, &OperationParams::Empty) {
                        Some(req) => {
                            effects.push(DispatchEffect::Post(req));
                        },
                        None => {},
                    }
                },
                None => {},
            }
        },
        OperationId::OpenSimulator => {
            match &sel.param {
                Some(udid) => {
                    let found = new_store.simulator.get_device_by_udid(udid.as_str()).is_some();
                    if found {
                        let updated = insert_recent_device(&new_store.recent_devices, udid.as_str());
                        new_store.recent_devices = updated;
                        effects.push(DispatchEffect::Sim(SimCommand::Boot { udid: udid.clone() }));
                        effects.push(DispatchEffect::Sim(SimCommand::OpenSimulatorApp));
                        proof {
                            assert(new_store@ =~~= (StoreV {
                                recent_devices: spec_insert_recent(
                                    store@.recent_devices,
                                    udid@,
                                ),
                                ..store@
                            }));
                        }
                    }
                },
                None => {},
            }
        },
        OperationId::SelectHost => {
            match &sel.param {
                Some(url) => {
                    let hosts = match &store.debug_hosts {
                        Some(h) => {
                            let mut h2 = h.clone();
                            h2.set_selected_host(url.clone());
                            Some(h2)
                        },
                        None => None,
                    };
                    match hosts {
                        Some(h2) => {
                            new_store.debug_hosts = Some(h2);
                            proof {
                                match store@.debug_hosts {
                                    Some(hv) => {
                                        assert(new_store@ =~~= (StoreV {
                                            debug_hosts: Some(
                                                HostV {
                                                    selected_host: Some(url@),
                                                    host_map: hv.host_map,
                                                },
                                            ),
                                            ..store@
                                        }));
                                    },
                                    None => {},
                                }
                            }
                        },
                        None => {},
                    }
                },
                None => {},
            }
        },
        _ => {},
    }
    DispatchOutcome { store: new_store, effects }
}

} // verus!
