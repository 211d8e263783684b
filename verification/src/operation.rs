//! Tray-menu operation identifiers and their string forms.
//!
//! A menu item's identifier is either a fixed word or a fixed prefix
//! followed by a target value (a device identifier, a host URL). Parsing
//! decodes an identifier once into the operation kind and its parameter.

use vstd::prelude::*;
use vstd::string::*;

use crate::strutil::{spec_starts_with, starts_with, str_eq};

verus! {

/// The closed set of operations a menu item can trigger.
#[derive(PartialEq, Eq, Structural, Clone, Copy, Debug)]
pub enum OperationId {
    NoOp,
    ClipboardSchema,
    Safari,
    InstallApp,
    Quit,
    OpenSimulator,
    SelectHost,
    RouteBack,
    RouteForward,
    RouteRefresh,
    SetEnv,
    Login,
    Logout,
    DebugMenu,
}

impl OperationId {
    /// The fixed string form of this operation.
    pub open spec fn spec_str(self) -> Seq<char> {
        match self {
            OperationId::NoOp => "none"@,
            OperationId::ClipboardSchema => "qr_code"@,
            OperationId::Safari => "safari_dev_tool"@,
            OperationId::InstallApp => "install_app"@,
            OperationId::Quit => "quit"@,
            OperationId::OpenSimulator => "open_simulator"@,
            OperationId::SelectHost => "select_host"@,
            OperationId::RouteBack => "op_route_back"@,
            OperationId::RouteForward => "op_route_forward"@,
            OperationId::RouteRefresh => "op_route_refresh"@,
            OperationId::SetEnv => "op_set_env"@,
            OperationId::Login => "op_login"@,
            OperationId::Logout => "op_logout"@,
            OperationId::DebugMenu => "op_debug_menu"@,
        }
    }

    /// String form of this operation, used as (or as the prefix of) a
    /// menu item identifier.
    pub fn as_str(&self) -> (r: &'static str)
        ensures
            r@ == self.spec_str(),
    {
        match self {
            OperationId::NoOp => "none",
            OperationId::ClipboardSchema => "qr_code",
            OperationId::Safari => "safari_dev_tool",
            OperationId::InstallApp => "install_app",
            OperationId::Quit => "quit",
            OperationId::OpenSimulator => "open_simulator",
            OperationId::SelectHost => "select_host",
            OperationId::RouteBack => "op_route_back",
            OperationId::RouteForward => "op_route_forward",
            OperationId::RouteRefresh => "op_route_refresh",
            OperationId::SetEnv => "op_set_env",
            OperationId::Login => "op_login",
            OperationId::Logout => "op_logout",
            OperationId::DebugMenu => "op_debug_menu",
        }
    }
}

/// Mathematical image of a [`MenuSelection`].
#[verifier::ext_equal]
pub struct MenuSelectionV {
    pub op: OperationId,
    pub param: Option<Seq<char>>,
}

/// A decoded menu item identifier: the operation kind and, for prefixed
/// identifiers, the target value after the prefix.
#[derive(Debug)]
pub struct MenuSelection {
    pub op: OperationId,
    pub param: Option<String>,
}

impl View for MenuSelection {
    type V = MenuSelectionV;

    open spec fn view(&self) -> MenuSelectionV {
        MenuSelectionV { op: self.op, param: self.param.deep_view() }
    }
}

/// What parsing a menu item identifier yields: fixed words first, then the
/// two prefixed forms, then anything else resolves to no operation.
pub open spec fn spec_parse_operation(id: Seq<char>) -> MenuSelectionV {
    if id == "qr_code"@ {
        MenuSelectionV { op: OperationId::ClipboardSchema, param: None }
    } else if id == "safari_dev_tool"@ {
        MenuSelectionV { op: OperationId::Safari, param: None }
    } else if id == "install_app"@ {
        MenuSelectionV { op: OperationId::InstallApp, param: None }
    } else if id == "quit"@ {
        MenuSelectionV { op: OperationId::Quit, param: None }
    } else if spec_starts_with(id, "open_simulator"@) {
        MenuSelectionV {
            op: OperationId::OpenSimulator,
            param: Some(id.skip("open_simulator"@.len() as int)),
        }
    } else if spec_starts_with(id, "select_host"@) {
        MenuSelectionV {
            op: OperationId::SelectHost,
            param: Some(id.skip("select_host"@.len() as int)),
        }
    } else if id == "op_route_back"@ {
        MenuSelectionV { op: OperationId::RouteBack, param: None }
    } else if id == "op_route_forward"@ {
        MenuSelectionV { op: OperationId::RouteForward, param: None }
    } else if id == "op_route_refresh"@ {
        MenuSelectionV { op: OperationId::RouteRefresh, param: None }
    } else if id == "op_set_env"@ {
        MenuSelectionV { op: OperationId::SetEnv, param: None }
    } else if id == "op_login"@ {
        MenuSelectionV { op: OperationId::Login, param: None }
    } else if id == "op_logout"@ {
        MenuSelectionV { op: OperationId::Logout, param: None }
    } else if id == "op_debug_menu"@ {
        MenuSelectionV { op: OperationId::DebugMenu, param: None }
    } else {
        MenuSelectionV { op: OperationId::NoOp, param: None }
    }
}

/// Decodes a menu item identifier into its operation and parameter.
pub fn parse_operation(id: &str) -> (r: MenuSelection)
    ensures
        r@ == spec_parse_operation(id@),
{
    if str_eq(id, "qr_code") {
        MenuSelection { op: OperationId::ClipboardSchema, param: None }
    } else if str_eq(id, "safari_dev_tool") {
        MenuSelection { op: OperationId::Safari, param: None }
    } else if str_eq(id, "install_app") {
        MenuSelection { op: OperationId::InstallApp, param: None }
    } else if str_eq(id, "quit") {
        MenuSelection { op: OperationId::Quit, param: None }
    } else if starts_with(id, "open_simulator") {
        let param = suffix_after_prefix(id, "open_simulator");
        MenuSelection { op: OperationId::OpenSimulator, param: Some(param) }
    } else if starts_with(id, "select_host") {
        let param = suffix_after_prefix(id, "select_host");
        MenuSelection { op: OperationId::SelectHost, param: Some(param) }
    } else if str_eq(id, "op_route_back") {
        MenuSelection { op: OperationId::RouteBack, param: None }
    } else if str_eq(id, "op_route_forward") {
        MenuSelection { op: OperationId::RouteForward, param: None }
    } else if str_eq(id, "op_route_refresh") {
        MenuSelection { op: OperationId::RouteRefresh, param: None }
    } else if str_eq(id, "op_set_env") {
        MenuSelection { op: OperationId::SetEnv, param: None }
    } else if str_eq(id, "op_login") {
        MenuSelection { op: OperationId::Login, param: None }
    } else if str_eq(id, "op_logout") {
        MenuSelection { op: OperationId::Logout, param: None }
    } else if str_eq(id, "op_debug_menu") {
        MenuSelection { op: OperationId::DebugMenu, param: None }
    } else {
        MenuSelection { op: OperationId::NoOp, param: None }
    }
}

/// The text of `id` after the prefix `p`.
fn suffix_after_prefix(id: &str, p: &str) -> (r: String)
    requires
        spec_starts_with(id@, p@),
    ensures
        r@ == id@.skip(p@.len() as int),
{
    let id_len = id.unicode_len();
    let p_len = p.unicode_len();
    let s = id.substring_char(p_len, id_len);
    proof {
        assert(s@ =~= id@.skip(p@.len() as int));
    }
    s.to_owned()
}

} // verus!
