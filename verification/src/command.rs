//! The decisions behind the webview-facing commands.
//!
//! Each function here is the computing half of one command: it reads
//! the snapshot and plain arguments and decides what, if anything, the
//! caller must send, open or install. The surrounding I/O — reading
//! the store, listing directories, running processes — is the caller's
//! concern.

use vstd::prelude::*;
use vstd::string::*;

use crate::device::{spec_map_find_booted, SimCommand};
use crate::host::{
    spec_operation_request, HostRequest, OperationParams, OperationParamsV, SetEnvParams,
};
use crate::operation::OperationId;
use crate::store::CostaStoreWrapper;
use crate::strutil::{
    contains, ends_with, replace_all, spec_contains, spec_ends_with, spec_replace, spec_starts_with,
    starts_with,
};

verus! {

/// Text the snapshot's clipboard slot holds, if any.
pub fn get_clipborad_value(store: &CostaStoreWrapper) -> (r: Option<String>)
    ensures
        (match store@.clipboard_content {
            Some(c) => r matches Some(s) && s@ == c.content,
            None => r is None,
        }),
{
    match &store.clipboard_content {
        Some(c) => Some(c.content.clone()),
        None => None,
    }
}

/// The request that pushes `schema` to the selected host: one exists
/// exactly when the snapshot has a debug-hosts record with a selected
/// host.
pub fn goto_schema(store: &CostaStoreWrapper, schema: &str) -> (r: Option<HostRequest>)
    ensures
        (match store@.debug_hosts {
            Some(h) => (match spec_operation_request(
                h,
                OperationId::ClipboardSchema,
                OperationParamsV::Text(schema@),
            ) {
                Some(req) => r matches Some(p) && p@ == req,
                None => r is None,
            }),
            None => r is None,
        }),
{
    match &store.debug_hosts {
        Some(h) => h.exec_operation(
            OperationId::ClipboardSchema,
            &OperationParams::Text(schema.to_owned()),
        ),
        None => None,
    }
}

/// The request that switches the selected host's environment: one
/// exists exactly when a host is selected and the parameters name a
/// test environment (`boe` or `ppe`).
pub fn set_boe(store: &CostaStoreWrapper, params: &SetEnvParams) -> (r: Option<HostRequest>)
    ensures
        (match store@.debug_hosts {
            Some(h) => if spec_starts_with(params@.env_type, "boe"@) || spec_starts_with(
                params@.env_type,
                "ppe"@,
            ) {
                match spec_operation_request(h, OperationId::SetEnv, OperationParamsV::Env(params@)) {
                    Some(req) => r matches Some(p) && p@ == req,
                    None => r is None,
                }
            } else {
                r is None
            },
            None => r is None,
        }),
{
    match &store.debug_hosts {
        Some(h) => {
            if starts_with(params.env_type.as_str(), "boe") || starts_with(
                params.env_type.as_str(),
                "ppe",
            ) {
                h.exec_operation(OperationId::SetEnv, &OperationParams::Env(params.clone()))
            } else {
                None
            }
        },
        None => None,
    }
}

/// The request that switches the selected host's environment; the
/// commands for the two test environments decide identically.
pub fn set_ppe(store: &CostaStoreWrapper, params: &SetEnvParams) -> (r: Option<HostRequest>)
    ensures
        (match store@.debug_hosts {
            Some(h) => if spec_starts_with(params@.env_type, "boe"@) || spec_starts_with(
                params@.env_type,
                "ppe"@,
            ) {
                match spec_operation_request(h, OperationId::SetEnv, OperationParamsV::Env(params@)) {
                    Some(req) => r matches Some(p) && p@ == req,
                    None => r is None,
                }
            } else {
                r is None
            },
            None => r is None,
        }),
{
    set_boe(store, params)
}

/// The command that opens `url` on the first booted device, with the
/// tool's URL scheme rewritten to the one the device understands.
pub fn goto_schema_by_sslocal(store: &CostaStoreWrapper, url: &str) -> (r: Option<SimCommand>)
    ensures
        (match spec_map_find_booted(store@.tray) {
            Some(d) => (r matches Some(SimCommand::OpenUrl { udid, url: u }) && udid@ == d.udid
                && u@ == spec_replace(url@, "sslocal"@, "snssdk36"@)),
            None => r is None,
        }),
{
    match store.tray.simulator.get_first_booted_device() {
        Some(d) => {
            proof {
                reveal_strlit("sslocal");
            }
            let rewritten = replace_all(url, "sslocal", "snssdk36");
            Some(d.open_url(rewritten.as_str()))
        },
        None => None,
    }
}

/// How an application package is installed: whether the archive must
/// be unpacked first, and the install command for the first booted
/// device.
#[derive(Debug)]
pub struct InstallPlan {
    pub unzip: bool,
    pub command: SimCommand,
}

/// Plans the installation of the package at `params` on the first
/// booted device: a zip archive is unpacked and installed from the
/// stripped path; there is no plan when no device is booted.
pub fn plan_install_app(store: &CostaStoreWrapper, params: &str) -> (r: Option<InstallPlan>)
    ensures
        (match spec_map_find_booted(store@.tray) {
            Some(d) => {
                &&& r is Some
                &&& (match r {
                    Some(plan) => {
                        &&& plan.unzip == spec_ends_with(params@, ".zip"@)
                        &&& (plan.command matches SimCommand::InstallApp { udid, app_path }
                            && udid@ == d.udid && app_path@ == (if spec_ends_with(
                            params@,
                            ".zip"@,
                        ) {
                            spec_replace(params@, ".zip"@, ""@)
                        } else {
                            params@
                        }))
                    },
                    None => false,
                })
            },
            None => r is None,
        }),
{
    match store.tray.simulator.get_first_booted_device() {
        Some(d) => {
            proof {
                reveal_strlit(".zip");
            }
            let is_zip = ends_with(params, ".zip");
            let app_path = if is_zip {
                replace_all(params, ".zip", "")
            } else {
                params.to_owned()
            };
            Some(InstallPlan { unzip: is_zip, command: d.install_app(app_path.as_str()) })
        },
        None => None,
    }
}

/// Whether a file name denotes an application package: a bare `.app`
/// bundle or a zipped one.
pub fn is_app_package(name: &str) -> (r: bool)
    ensures
        r == (spec_ends_with(name@, ".app"@) || spec_ends_with(name@, ".app.zip"@)),
{
    ends_with(name, ".app") || ends_with(name, ".app.zip")
}

/// Whether a file name denotes a downloaded simulator runtime image.
pub fn is_simulator_runtime_package(name: &str) -> (r: bool)
    ensures
        r == spec_contains(name@, "Simulator_Runtime.dmg"@),
{
    proof {
        reveal_strlit("Simulator_Runtime.dmg");
    }
    contains(name, "Simulator_Runtime.dmg")
}

} // verus!
