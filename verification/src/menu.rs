//! The tray-state record the store persists.

use vstd::prelude::*;

use crate::device::{DeviceGroupV, DeviceMap};

verus! {

/// The tray's persisted state: the device catalog it was last rendered
/// from.
#[derive(Debug)]
pub struct TrayMenu {
    pub simulator: DeviceMap,
}

impl View for TrayMenu {
    type V = Seq<DeviceGroupV>;

    open spec fn view(&self) -> Seq<DeviceGroupV> {
        self.simulator@
    }
}

impl Clone for TrayMenu {
    fn clone(&self) -> (r: Self)
        ensures
            r@ == self@,
    {
        TrayMenu { simulator: self.simulator.clone() }
    }
}

impl TrayMenu {
    /// Tray state over an empty catalog.
    pub fn default() -> (r: TrayMenu)
        ensures
            r@ == Seq::<DeviceGroupV>::empty(),
    {
        TrayMenu { simulator: DeviceMap::default() }
    }
}

} // verus!
