//! Costa: a verified core for a developer-utility tray tool.
//!
//! The library models host discovery (heartbeat probing and scan
//! aggregation), the persisted state store, the tray menu derivation and
//! the operation dispatcher as pure, contract-checked functions. All
//! network, clipboard and process I/O lives outside the library and talks
//! to it through plain values.

use vstd::prelude::*;

pub mod clipboard;
pub mod command;
pub mod device;
pub mod dispatch;
pub mod host;
pub mod menu;
pub mod operation;
pub mod path;
pub mod runtime;
pub mod scanner;
pub mod store;
pub mod strutil;
pub mod tick;
pub mod tray;
pub mod window;

verus! {

/// Number of entries the recent-device list may hold.
pub const MAX_RECENT_DEVICES: usize = 5;

} // verus!
