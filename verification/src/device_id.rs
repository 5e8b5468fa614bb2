//! Devices and the families that they belong to.

use vstd::prelude::*;

verus! {

/// A family of devices.
#[derive(Clone, Copy, Debug, PartialEq, Eq, Structural)]
pub enum DeviceFamily {
    HydroShift2Lcd,
    HydroShift2OledCurveLcd,
    Lancool207,
    UniversalScreen,
    Vision9p2,
    TlFlexLcd,
    SlInfFlexLcd,
    TlLcd,
    /// Any other family, by its number in the table of known devices.
    Other(u16),
}

/// The screen of a panel.
#[derive(Clone, Copy, Debug, PartialEq, Eq, Structural)]
pub enum ScreenModel {
    HydroShift2,
    HydroShift2OledCurve,
    Lancool207,
    UniversalScreen,
    Vision9p2,
    FlexLcd,
}

/// Vendor and product id of a USB device.
#[derive(Clone, Copy, Debug, PartialEq, Eq, Structural)]
pub struct UsbId {
    pub vid: u16,
    pub pid: u16,
}

} // verus!
