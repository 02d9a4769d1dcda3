//! Page-local state, one kind per resource: the charts a page owns and the
//! messages it handles. Pages only mirror history and snapshot data; the
//! collection of that data never depends on which page is active.

use crate::chart::{ResourceChart, ResourceChartMessage};
use crate::history::{spec_keyed_points, ResourceHistory};
use crate::preferences::Preferences;
use crate::selection::ActivePreview;
use crate::sorter::SortDirection;
use crate::resource_data::ProcessesData;
use vstd::prelude::*;

verus! {

#[derive(Debug, Clone)]
pub enum CpuPageMessage {
    ResourceChartMessage(ResourceChartMessage),
    ToggleLogicalCores(bool),
}

/// The CPU page: one overall chart and, on demand, one chart per logical
/// core.
#[derive(Debug)]
pub struct CpuPage {
    pub cpu_chart: ResourceChart,
    pub logical_core_charts: Vec<ResourceChart>,
    pub show_logical_cores: bool,
}

impl CpuPage {
    pub fn new(preferences: &Preferences) -> (r: Self)
        ensures
            r.cpu_chart.data_points.points@.len() == 0,
            r.logical_core_charts@.len() == 0,
            r.show_logical_cores == preferences.show_logical_core_charts,
    {
        CpuPage {
            cpu_chart: ResourceChart::new(preferences),
            logical_core_charts: Vec::new(),
            show_logical_cores: preferences.show_logical_core_charts,
        }
    }

    pub fn update(&mut self, message: CpuPageMessage)
        ensures
            match message {
                CpuPageMessage::ToggleLogicalCores(new_state) => final(self).show_logical_cores
                    == new_state,
                _ => final(self).show_logical_cores == old(self).show_logical_cores,
            },
            final(self).cpu_chart == old(self).cpu_chart,
            final(self).logical_core_charts == old(self).logical_core_charts,
    {
        match message {
            CpuPageMessage::ToggleLogicalCores(new_state) => {
                self.show_logical_cores = new_state;
            },
            _ => (),
        }
    }

    /// Mirrors the overall CPU series and the per-core series into the
    /// page's charts.
    pub fn update_history(&mut self, resource_history: &ResourceHistory)
        ensures
            final(self).cpu_chart.data_points.points@ == resource_history.cpu.points@,
            final(self).logical_core_charts@.len() == old(self).logical_core_charts@.len(),
            forall|i: int|
                0 <= i < final(self).logical_core_charts@.len()
                    && i < resource_history.logical_cores@.len() ==> (#[trigger] final(self)
                    .logical_core_charts@[i]).data_points.points@
                    == resource_history.logical_cores@[i].points@,
            forall|i: int|
                resource_history.logical_cores@.len() <= i
                    < final(self).logical_core_charts@.len() ==> #[trigger] final(self)
                    .logical_core_charts@[i] == old(self).logical_core_charts@[i],
            final(self).show_logical_cores == old(self).show_logical_cores,
    {
        self.cpu_chart.set_data(&resource_history.cpu);
        let mut i: usize = 0;
        while i < self.logical_core_charts.len() && i < resource_history.logical_cores.len()
            invariant
                i <= self.logical_core_charts@.len(),
                i <= resource_history.logical_cores@.len(),
                self.cpu_chart.data_points.points@ == resource_history.cpu.points@,
                self.show_logical_cores == old(self).show_logical_cores,
                self.logical_core_charts@.len() == old(self).logical_core_charts@.len(),
                forall|j: int|
                    0 <= j < i && j < resource_history.logical_cores@.len() ==> (#[trigger] self
                        .logical_core_charts@[j]).data_points.points@
                        == resource_history.logical_cores@[j].points@,
                forall|j: int|
                    i <= j < self.logical_core_charts@.len() ==> #[trigger] self
                        .logical_core_charts@[j] == old(self).logical_core_charts@[j],
            decreases self.logical_core_charts@.len() - i,
        {
            let series = resource_history.logical_cores[i].duplicate();
            self.logical_core_charts[i].set_data(&series);
            i = i + 1;
        }
    }
}

#[derive(Debug, Clone)]
pub enum MemoryPageMessage {
    ResourceChartMessage(ResourceChartMessage),
    ChangeSwapiness(u32),
}

/// The memory page: one chart for RAM usage and one for swap.
#[derive(Debug)]
pub struct MemoryPage {
    pub ram_chart: ResourceChart,
    pub swap_chart: ResourceChart,
}

impl MemoryPage {
    pub fn new(preferences: &Preferences) -> (r: Self)
        ensures
            r.ram_chart.data_points.points@.len() == 0,
            r.swap_chart.data_points.points@.len() == 0,
    {
        MemoryPage {
            ram_chart: ResourceChart::new(preferences),
            swap_chart: ResourceChart::new(preferences),
        }
    }

    /// Mirrors the RAM and swap series into the page's charts.
    pub fn update_history(&mut self, resource_history: &ResourceHistory)
        ensures
            final(self).ram_chart.data_points.points@ == resource_history.ram.points@,
            final(self).swap_chart.data_points.points@ == resource_history.swap.points@,
    {
        self.ram_chart.set_data(&resource_history.ram);
        self.swap_chart.set_data(&resource_history.swap);
    }

    pub fn update(&mut self, message: MemoryPageMessage)
        ensures
            *final(self) == *old(self),
    {
        let _ = message;
    }
}

#[derive(Debug, Clone)]
pub enum DiskPageMessage {
    ResourceChartMessage(ResourceChartMessage),
}

/// The page of one disk: charts for the bytes written and read.
#[derive(Debug)]
pub struct DiskPage {
    pub written_chart: ResourceChart,
    pub read_chart: ResourceChart,
}

impl DiskPage {
    pub fn new(preferences: &Preferences) -> (r: Self)
        ensures
            r.written_chart.data_points.points@.len() == 0,
            r.read_chart.data_points.points@.len() == 0,
    {
        DiskPage {
            written_chart: ResourceChart::new(preferences),
            read_chart: ResourceChart::new(preferences),
        }
    }

    pub fn update(&mut self, message: DiskPageMessage)
        ensures
            *final(self) == *old(self),
    {
        let _ = message;
    }

    /// Mirrors the selected disk's write and read series into the page's
    /// charts; a disk the sampler has never observed has no series yet and
    /// shows as empty.
    pub fn update_history(&mut self, active_preview: &ActivePreview, resource_history: &ResourceHistory)
        ensures
            match active_preview.name {
                Some(name) => {
                    &&& final(self).written_chart.data_points.points@ == spec_keyed_points(
                        resource_history.disk_write,
                        name@,
                    )
                    &&& final(self).read_chart.data_points.points@ == spec_keyed_points(
                        resource_history.disk_read,
                        name@,
                    )
                },
                None => *final(self) == *old(self),
            },
    {
        match &active_preview.name {
            Some(name) => {
                match resource_history.disk_write.position(name) {
                    Some(i) => self.written_chart.set_data(resource_history.disk_write.value_at(i)),
                    None => self.written_chart.clear_data(),
                }
                match resource_history.disk_read.position(name) {
                    Some(i) => self.read_chart.set_data(resource_history.disk_read.value_at(i)),
                    None => self.read_chart.clear_data(),
                }
            },
            None => (),
        }
    }
}

#[derive(Debug, Clone)]
pub enum BatteryPageMessage {
    ResourceChartMessage(ResourceChartMessage),
}

/// The battery page: one chart for the charge percentage.
#[derive(Debug)]
pub struct BatteryPage {
    pub battery_charge_chart: ResourceChart,
}

impl BatteryPage {
    pub fn new(preferences: &Preferences) -> (r: Self)
        ensures
            r.battery_charge_chart.data_points.points@.len() == 0,
    {
        BatteryPage { battery_charge_chart: ResourceChart::new(preferences) }
    }

    pub fn update(&mut self, message: BatteryPageMessage)
        ensures
            *final(self) == *old(self),
    {
        let _ = message;
    }

    /// Mirrors the battery charge series into the page's chart.
    pub fn update_history(&mut self, resource_history: &ResourceHistory)
        ensures
            final(self).battery_charge_chart.data_points.points@
                == resource_history.battery_charge.points@,
    {
        self.battery_charge_chart.set_data(&resource_history.battery_charge);
    }
}

#[derive(Debug, Clone)]
pub enum ApplicationsPageMessage {
    ResourceChartMessage(ResourceChartMessage),
}

/// The applications page holds no page-local state.
#[derive(Debug)]
pub struct ApplicationsPage {}

impl ApplicationsPage {
    pub fn new(preferences: &Preferences) -> (r: Self) {
        let _ = preferences;
        ApplicationsPage {  }
    }

    pub fn update(&mut self, message: ApplicationsPageMessage)
        ensures
            *final(self) == *old(self),
    {
        let _ = message;
    }
}

/// An action the process page asks the embedding application to perform on
/// its external process-control collaborator.
#[derive(Debug, Clone, Copy, PartialEq, Eq, Structural)]
pub enum ProcessAction {
    Kill(u64),
}

#[derive(Debug, Clone)]
pub enum ProcessesPageMessage {
    ResourceChartMessage(ResourceChartMessage),
    SwitchSortDirection,
    SortByIndex(u32),
    KillProcess(u64),
}

/// The process page: its rows and sort state live in the snapshot's
/// `ProcessesData`; the page itself holds nothing.
#[derive(Debug)]
pub struct ProcessesPage {}

impl ProcessesPage {
    pub fn new(preferences: &Preferences) -> (r: Self) {
        let _ = preferences;
        ProcessesPage {  }
    }

    /// Handles one message against the process table. Selecting an
    /// unselected column resets the direction to descending and re-sorts;
    /// selecting the current column is a no-op; toggling the direction
    /// re-sorts immediately; a kill request becomes an action for the
    /// external process-control collaborator.
    pub fn update(&mut self, message: ProcessesPageMessage, data: &mut ProcessesData) -> (r: Option<
        ProcessAction,
    >)
        ensures
            match message {
                ProcessesPageMessage::SortByIndex(sort_index) => {
                    &&& r is None
                    &&& if old(data).sort_index == sort_index {
                        *final(data) == *old(data)
                    } else {
                        &&& final(data).sort_index == sort_index
                        &&& final(data).sort_direction == SortDirection::Descending
                        &&& final(data).in_depth.processes@
                            == crate::sorter::spec_sorted_view(
                            old(data).in_depth.processes@,
                            sort_index,
                            SortDirection::Descending,
                        )
                    }
                },
                ProcessesPageMessage::SwitchSortDirection => {
                    &&& r is None
                    &&& final(data).sort_index == old(data).sort_index
                    &&& final(data).sort_direction == (match old(data).sort_direction {
                        SortDirection::Ascending => SortDirection::Descending,
                        SortDirection::Descending => SortDirection::Ascending,
                    })
                    &&& final(data).in_depth.processes@ == crate::sorter::spec_sorted_view(
                        old(data).in_depth.processes@,
                        old(data).sort_index,
                        final(data).sort_direction,
                    )
                },
                ProcessesPageMessage::KillProcess(pid) => r == Some(ProcessAction::Kill(pid))
                    && *final(data) == *old(data),
                ProcessesPageMessage::ResourceChartMessage(_) => r is None && *final(data)
                    == *old(data),
            },
    {
        match message {
            ProcessesPageMessage::SortByIndex(sort_index) => {
                if data.sort_index == sort_index {
                    return None;
                }
                data.sort_index = sort_index;
                data.sort_direction = SortDirection::Descending;
                data.sort_by_index();
                None
            },
            ProcessesPageMessage::SwitchSortDirection => {
                data.sort_direction = match data.sort_direction {
                    SortDirection::Descending => SortDirection::Ascending,
                    SortDirection::Ascending => SortDirection::Descending,
                };
                data.sort_by_index();
                None
            },
            ProcessesPageMessage::KillProcess(pid) => Some(ProcessAction::Kill(pid)),
            ProcessesPageMessage::ResourceChartMessage(_) => None,
        }
    }
}

} // verus!
