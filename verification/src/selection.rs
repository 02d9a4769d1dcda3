//! The resource-selection vocabulary: which resource kind a page or preview
//! stands for, and which page is currently displayed.

use vstd::prelude::*;

verus! {

/// The closed set of resource kinds the monitor tracks.
#[derive(Debug, Default, Clone, Copy, PartialEq, Eq, Structural)]
pub enum ResourceType {
    #[default]
    Applications,
    Processes,
    Cpu,
    Memory,
    Battery,
    Gpu,
    Disk,
    Wifi,
    Ethernet,
}

/// Identifies exactly one displayed page: a resource kind plus an instance
/// name where the kind has several instances (one page per disk).
#[derive(Debug, Clone)]
pub struct ActivePreview {
    pub resource: ResourceType,
    pub name: Option<String>,
}

} // verus!
