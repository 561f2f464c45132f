//! The rows that popovers hand to their device lists and action menus.
use vstd::prelude::*;

verus! {

/// One row of a device list: a device, an access point, a stream.
#[derive(Debug, Clone, PartialEq, Eq)]
pub struct DeviceListItem<C> {
    /// Identifies the row across updates.
    pub id: String,
    pub icon: String,
    pub label: String,
    /// Short text at the end of the row.
    pub status: String,
    /// Whether an operation on this row is under way.
    pub busy: bool,
    pub tooltip: Option<String>,
    /// Whether the row is highlighted as the one in use.
    pub active: bool,
    pub visible: bool,
    /// What activating the row asks for.
    pub command: Option<C>,
}

/// One entry of an action menu.
#[derive(Debug, Clone, PartialEq, Eq)]
pub struct ActionMenuItem<C> {
    pub label: String,
    pub icon: Option<String>,
    pub visible: bool,
    pub checked: Option<bool>,
    pub selectable: Option<bool>,
    pub command: C,
}

/// The row `item` with only its busy flag set to `busy`.
pub open spec fn with_busy<C>(item: DeviceListItem<C>, busy: bool) -> DeviceListItem<C> {
    DeviceListItem { busy, ..item }
}

} // verus!
