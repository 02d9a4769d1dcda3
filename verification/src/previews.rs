//! Sidebar previews, one per resource: which resource they stand for and
//! whether they are shown. Their live numbers come straight from the
//! snapshot at render time.

use crate::selection::{ActivePreview, ResourceType};
use vstd::prelude::*;

verus! {

/// A preview asks the application to open the page it stands for.
#[derive(Debug, Clone)]
pub enum ResourcePreviewMessage {
    ResourceDetailsFor(ActivePreview),
}

#[derive(Debug, Clone, PartialEq, Eq, Structural)]
pub enum ResourcePreviewDisplayState {
    Shown,
    Hidden,
    Active,
}

/// The sidebar preview of the CPU.
#[derive(Debug)]
pub struct CpuPreview {
    pub resource: ResourceType,
    pub display_state: ResourcePreviewDisplayState,
}

impl Default for CpuPreview {
    fn default() -> (r: Self)
        ensures
            r.resource == ResourceType::Cpu,
            r.display_state == ResourcePreviewDisplayState::Shown,
    {
        CpuPreview { resource: ResourceType::Cpu, display_state: ResourcePreviewDisplayState::Shown }
    }
}

impl CpuPreview {
    pub fn new() -> (r: Self)
        ensures
            r.resource == ResourceType::Cpu,
            r.display_state == ResourcePreviewDisplayState::Shown,
    {
        Self::default()
    }
}

/// The sidebar preview of the memory.
#[derive(Debug)]
pub struct MemoryPreview {
    pub resource: ResourceType,
    pub display_state: ResourcePreviewDisplayState,
}

impl Default for MemoryPreview {
    fn default() -> (r: Self)
        ensures
            r.resource == ResourceType::Memory,
            r.display_state == ResourcePreviewDisplayState::Shown,
    {
        MemoryPreview {
            resource: ResourceType::Memory,
            display_state: ResourcePreviewDisplayState::Shown,
        }
    }
}

impl MemoryPreview {
    pub fn new() -> (r: Self)
        ensures
            r.resource == ResourceType::Memory,
            r.display_state == ResourcePreviewDisplayState::Shown,
    {
        Self::default()
    }
}

/// The sidebar preview of one disk.
#[derive(Debug)]
pub struct DiskPreview {
    pub resource: ResourceType,
    pub display_state: ResourcePreviewDisplayState,
}

impl Default for DiskPreview {
    fn default() -> (r: Self)
        ensures
            r.resource == ResourceType::Disk,
            r.display_state == ResourcePreviewDisplayState::Shown,
    {
        DiskPreview {
            resource: ResourceType::Disk,
            display_state: ResourcePreviewDisplayState::Shown,
        }
    }
}

impl DiskPreview {
    pub fn new() -> (r: Self)
        ensures
            r.resource == ResourceType::Disk,
            r.display_state == ResourcePreviewDisplayState::Shown,
    {
        Self::default()
    }
}

/// The sidebar preview of the battery.
#[derive(Debug)]
pub struct BatteryPreview {
    pub resource: ResourceType,
    pub display_state: ResourcePreviewDisplayState,
}

impl Default for BatteryPreview {
    fn default() -> (r: Self)
        ensures
            r.resource == ResourceType::Battery,
            r.display_state == ResourcePreviewDisplayState::Shown,
    {
        BatteryPreview {
            resource: ResourceType::Battery,
            display_state: ResourcePreviewDisplayState::Shown,
        }
    }
}

impl BatteryPreview {
    pub fn new() -> (r: Self)
        ensures
            r.resource == ResourceType::Battery,
            r.display_state == ResourcePreviewDisplayState::Shown,
    {
        Self::default()
    }
}

/// The sidebar preview of the process table.
#[derive(Debug)]
pub struct ProcessesPreview {
    pub resource: ResourceType,
    pub display_state: ResourcePreviewDisplayState,
}

impl Default for ProcessesPreview {
    fn default() -> (r: Self)
        ensures
            r.resource == ResourceType::Processes,
            r.display_state == ResourcePreviewDisplayState::Shown,
    {
        ProcessesPreview {
            resource: ResourceType::Processes,
            display_state: ResourcePreviewDisplayState::Shown,
        }
    }
}

impl ProcessesPreview {
    pub fn new() -> (r: Self)
        ensures
            r.resource == ResourceType::Processes,
            r.display_state == ResourcePreviewDisplayState::Shown,
    {
        Self::default()
    }
}

} // verus!
