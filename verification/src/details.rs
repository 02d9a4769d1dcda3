//! Detail-page state per resource kind, and the state machine that lazily
//! constructs it: a page's private state is built fresh on first visit and
//! primed from the history store, which is populated by ongoing ticks no
//! matter which page is active.

use crate::chart::{ResourceChart, ResourceChartMessage};
use crate::history::ResourceHistory;
use crate::pages::{MemoryPage, ProcessAction};
use crate::preferences::Preferences;
use crate::resource_data::{DiskData, DiskKind, ProcessSample};
use crate::selection::ResourceType;
use crate::sorter::{
    lower_of, lowercase, reverse_rows, sort_rows, spec_sorted_view, str_lex_le, RowKey,
    SortDirection, SortRow,
};
use vstd::prelude::*;

verus! {

#[derive(Debug, Clone, Copy)]
pub enum ResourceDetailsMessage {
    KillProcessId(u64),
    SortByIndex(u32),
    SwitchSortDirection,
    ChangeSwapiness,
    ToggleLogicalCores(bool),
    ResourceChartMessage(ResourceChartMessage),
}

#[derive(Debug, Clone)]
pub enum DiskDetailsMessage {
    Mount(String),
    ResourceChartMessage(ResourceChartMessage),
}

#[derive(Debug, Clone)]
pub enum MemoryDetailsMessage {
    State,
}

/// The applications detail page holds no state of its own.
#[derive(Debug)]
pub struct ApplicationsDetails {}

impl ApplicationsDetails {
    pub fn new() -> (r: Self) {
        ApplicationsDetails {  }
    }

    pub fn on_tick(&mut self)
        ensures
            *final(self) == *old(self),
    {
    }
}

/// The memory detail readings, handed in as plain byte counts.
#[derive(Debug)]
pub struct MemoryDetails {
    pub ram_usage: u64,
    pub ram_total: u64,
    pub swap_usage: u64,
    pub swap_total: u64,
}

impl MemoryDetails {
    pub fn new() -> (r: Self)
        ensures
            r.ram_usage == 0,
            r.ram_total == 0,
            r.swap_usage == 0,
            r.swap_total == 0,
    {
        MemoryDetails { ram_usage: 0, ram_total: 0, swap_usage: 0, swap_total: 0 }
    }

    /// Takes over this tick's memory readings.
    pub fn on_tick(&mut self, ram_usage: u64, ram_total: u64, swap_usage: u64, swap_total: u64)
        ensures
            final(self).ram_usage == ram_usage,
            final(self).ram_total == ram_total,
            final(self).swap_usage == swap_usage,
            final(self).swap_total == swap_total,
    {
        self.ram_usage = ram_usage;
        self.ram_total = ram_total;
        self.swap_usage = swap_usage;
        self.swap_total = swap_total;
    }
}

/// One row of the process detail table, usage already normalized by the
/// logical core count.
#[derive(Debug)]
pub struct ProcessDetails {
    pub id: u64,
    pub name: String,
    pub cpu_usage_hundredths: u64,
    pub memory_usage: u64,
    pub disk_read: u64,
    pub disk_written: u64,
}

impl SortRow for ProcessDetails {
    open spec fn sort_key(self, column: u32) -> RowKey {
        if column == 0 {
            RowKey::Text(lower_of(self.name@))
        } else if column == 1 {
            RowKey::Num(self.cpu_usage_hundredths as int)
        } else if column == 2 {
            RowKey::Num(self.memory_usage as int)
        } else if column == 3 {
            RowKey::Num(self.disk_read as int)
        } else {
            RowKey::Num(self.disk_written as int)
        }
    }

    fn le_by(&self, other: &Self, column: u32) -> (r: bool) {
        if column == 0 {
            let la = lowercase(self.name.as_str());
            let lb = lowercase(other.name.as_str());
            str_lex_le(la.as_str(), lb.as_str())
        } else if column == 1 {
            self.cpu_usage_hundredths <= other.cpu_usage_hundredths
        } else if column == 2 {
            self.memory_usage <= other.memory_usage
        } else if column == 3 {
            self.disk_read <= other.disk_read
        } else {
            self.disk_written <= other.disk_written
        }
    }
}

/// A process observation turned into a table row: the raw usage is divided
/// by the logical core count, and a zero core count degrades to no usage
/// rather than a division.
pub open spec fn spec_normalized_row(p: ProcessSample, logical_cpu_count: u32) -> ProcessDetails {
    ProcessDetails {
        id: p.pid,
        name: p.name,
        cpu_usage_hundredths: if logical_cpu_count == 0 {
            0u64
        } else {
            (p.cpu_usage_hundredths as int / logical_cpu_count as int) as u64
        },
        memory_usage: p.memory_usage,
        disk_read: p.disk_read,
        disk_written: p.disk_written,
    }
}

/// The process detail table with its sort state.
#[derive(Debug)]
pub struct ProcessesDetails {
    pub processes: Vec<ProcessDetails>,
    pub sort_index: u32,
    pub sort_direction: SortDirection,
}

/// The sorting procedures of the process detail table.
#[derive(Debug)]
pub struct ProcessesDetailsProcs {}

impl ProcessesDetailsProcs {
    /// Sorts the rows ascending by the column key with a stable sort, then
    /// reverses them for a descending direction; a column index past the
    /// sortable columns leaves the order alone before the direction is
    /// applied.
    pub fn sort_by_index(
        processes: &mut Vec<ProcessDetails>,
        sort_index: u32,
        sort_direction: &SortDirection,
    )
        ensures
            final(processes)@ == spec_sorted_view(old(processes)@, sort_index, *sort_direction),
    {
        if sort_index <= 4 {
            sort_rows(processes, sort_index);
        }
        match sort_direction {
            SortDirection::Descending => reverse_rows(processes),
            SortDirection::Ascending => (),
        }
    }
}

/// The CPU detail page.
#[derive(Debug)]
pub struct CpuDetails {
    pub cpu_usage_percent: Option<u64>,
    pub physical_core_count: u32,
    pub logical_core_count: u32,
    pub cpu_chart: ResourceChart,
    pub brand: String,
    pub frequency: Option<u64>,
    pub logical_core_charts: Vec<ResourceChart>,
    pub logical_cores_usage_percents: Vec<u64>,
    pub logical_cores_frequencies: Vec<u64>,
}

/// The detail page of one disk.
#[derive(Debug)]
pub struct DiskDetails {
    pub read: u64,
    pub written: u64,
    pub space_total: u64,
    pub space_used: u64,
    pub kind: DiskKind,
    pub name: String,
    pub written_chart: ResourceChart,
    pub read_chart: ResourceChart,
    pub is_removable: bool,
}

impl DiskDetails {
    pub fn new(preferences: &Preferences) -> (r: Self)
        ensures
            r.read == 0,
            r.written == 0,
            r.space_total == 0,
            r.space_used == 0,
            r.kind == DiskKind::Unknown(0i64),
            r.name@.len() == 0,
            r.is_removable == false,
            r.written_chart.data_points.points@.len() == 0,
            r.read_chart.data_points.points@.len() == 0,
    {
        DiskDetails {
            read: 0,
            written: 0,
            space_total: 0,
            space_used: 0,
            kind: DiskKind::Unknown(0),
            name: String::new(),
            is_removable: false,
            written_chart: ResourceChart::new(preferences),
            read_chart: ResourceChart::new(preferences),
        }
    }

    /// Mirrors one disk's snapshot data into the page.
    pub fn on_tick(&mut self, disk_data: &DiskData)
        ensures
            final(self).read == disk_data.read,
            final(self).written == disk_data.written,
            final(self).space_total == disk_data.space_total,
            final(self).space_used == disk_data.space_used,
            final(self).kind == disk_data.kind,
            final(self).name@ == disk_data.name@,
            final(self).is_removable == (match disk_data.in_depth {
                Some(d) => d.is_removable,
                None => false,
            }),
            final(self).written_chart == old(self).written_chart,
            final(self).read_chart == old(self).read_chart,
    {
        self.read = disk_data.read;
        self.written = disk_data.written;
        self.space_total = disk_data.space_total;
        self.space_used = disk_data.space_used;
        self.kind = disk_data.kind;
        self.name = disk_data.name.clone();
        self.is_removable = match &disk_data.in_depth {
            Some(d) => d.is_removable,
            None => false,
        };
    }

    pub fn update(&mut self, message: DiskDetailsMessage)
        ensures
            *final(self) == *old(self),
    {
        let _ = message;
    }
}

/// This tick's plain readings for the detail page: CPU aggregates and the
/// raw process observations. The embedding application gathers them; the
/// page only derives and stores.
#[derive(Debug)]
pub struct DetailsTickInput {
    pub cpu_usage_percent: Option<u64>,
    pub physical_cpu_count: u32,
    pub logical_cpu_count: u32,
    pub cpu_brand: String,
    pub cpu_frequency: Option<u64>,
    pub logical_cores_usage_percents: Vec<u64>,
    pub logical_cores_frequencies: Vec<u64>,
    pub processes: Vec<ProcessSample>,
}

/// One detail page, lazily parameterized by the resource it shows. State for
/// a kind is constructed fresh when the kind is applied and primed from the
/// history store on the next tick.
#[derive(Debug)]
pub struct ResourceDetails {
    pub resource: ResourceType,
    pub preview_values: Option<u32>,
    pub memory_details: Option<MemoryPage>,
    pub processes_details: Option<ProcessesDetails>,
    pub cpu_details: Option<CpuDetails>,
    pub show_logical_cores: bool,
    pub disks_details: Vec<Option<DiskDetails>>,
    pub disks_index: usize,
}

impl ResourceDetails {
    /// A fresh detail page for `resource`, with that kind's state
    /// constructed and every other kind's state absent.
    pub fn new(preferences: &Preferences, resource: ResourceType) -> (r: Self)
        ensures
            r.resource == resource,
            r.show_logical_cores == false,
            r.preview_values is None,
            r.disks_index == 0,
            resource != ResourceType::Memory ==> r.memory_details is None,
            resource != ResourceType::Processes ==> r.processes_details is None,
            resource != ResourceType::Cpu ==> r.cpu_details is None,
            r.disks_details@.len() == 0,
            resource == ResourceType::Processes ==> (match r.processes_details {
                Some(pd) => pd.processes@.len() == 0 && pd.sort_index == 0 && pd.sort_direction
                    == SortDirection::Descending,
                None => false,
            }),
            resource == ResourceType::Memory ==> (match r.memory_details {
                Some(md) => md.ram_chart.data_points.points@.len() == 0
                    && md.swap_chart.data_points.points@.len() == 0,
                None => false,
            }),
            resource == ResourceType::Cpu ==> (match r.cpu_details {
                Some(cd) => cd.cpu_usage_percent is None && cd.physical_core_count == 0
                    && cd.logical_core_count == 0 && cd.brand@.len() == 0 && cd.frequency is None
                    && cd.logical_core_charts@.len() == 0 && cd.cpu_chart.data_points.points@.len()
                    == 0,
                None => false,
            }),
    {
        let mut new_self = ResourceDetails {
            resource: ResourceType::Applications,
            preview_values: None,
            memory_details: None,
            processes_details: None,
            cpu_details: None,
            show_logical_cores: false,
            disks_details: Vec::new(),
            disks_index: 0,
        };
        new_self.apply_resource_type(resource, preferences);
        new_self
    }

    /// Switches the page to `resource`, constructing that kind's private
    /// state fresh where the kind carries any; other kinds' state is left
    /// as it is.
    pub fn apply_resource_type(&mut self, resource: ResourceType, preferences: &Preferences)
        ensures
            final(self).resource == resource,
            final(self).show_logical_cores == old(self).show_logical_cores,
            final(self).preview_values == old(self).preview_values,
            final(self).disks_index == old(self).disks_index,
            match resource {
                ResourceType::Processes => {
                    &&& match final(self).processes_details {
                        Some(pd) => pd.processes@.len() == 0 && pd.sort_index == 0
                            && pd.sort_direction == SortDirection::Descending,
                        None => false,
                    }
                    &&& final(self).memory_details == old(self).memory_details
                    &&& final(self).cpu_details == old(self).cpu_details
                    &&& final(self).disks_details == old(self).disks_details
                },
                ResourceType::Memory => {
                    &&& match final(self).memory_details {
                        Some(md) => md.ram_chart.data_points.points@.len() == 0
                            && md.swap_chart.data_points.points@.len() == 0,
                        None => false,
                    }
                    &&& final(self).processes_details == old(self).processes_details
                    &&& final(self).cpu_details == old(self).cpu_details
                    &&& final(self).disks_details == old(self).disks_details
                },
                ResourceType::Cpu => {
                    &&& match final(self).cpu_details {
                        Some(cd) => cd.cpu_usage_percent is None && cd.physical_core_count == 0
                            && cd.logical_core_count == 0 && cd.brand@.len() == 0
                            && cd.frequency is None && cd.logical_core_charts@.len() == 0
                            && cd.cpu_chart.data_points.points@.len() == 0
                            && cd.logical_cores_usage_percents@.len() == 0
                            && cd.logical_cores_frequencies@.len() == 0,
                        None => false,
                    }
                    &&& final(self).processes_details == old(self).processes_details
                    &&& final(self).memory_details == old(self).memory_details
                    &&& final(self).disks_details == old(self).disks_details
                },
                ResourceType::Disk => {
                    &&& final(self).disks_details@.len() == 0
                    &&& final(self).processes_details == old(self).processes_details
                    &&& final(self).memory_details == old(self).memory_details
                    &&& final(self).cpu_details == old(self).cpu_details
                },
                _ => {
                    &&& final(self).processes_details == old(self).processes_details
                    &&& final(self).memory_details == old(self).memory_details
                    &&& final(self).cpu_details == old(self).cpu_details
                    &&& final(self).disks_details == old(self).disks_details
                },
            },
    {
        self.resource = resource;
        match resource {
            ResourceType::Processes => {
                self.processes_details = Some(
                    ProcessesDetails {
                        processes: Vec::new(),
                        sort_index: 0,
                        sort_direction: SortDirection::Descending,
                    },
                );
            },
            ResourceType::Memory => {
                self.memory_details = Some(MemoryPage::new(preferences));
            },
            ResourceType::Cpu => {
                self.cpu_details = Some(
                    CpuDetails {
                        cpu_usage_percent: None,
                        physical_core_count: 0,
                        logical_core_count: 0,
                        brand: String::new(),
                        frequency: None,
                        cpu_chart: ResourceChart::new(preferences),
                        logical_core_charts: Vec::new(),
                        logical_cores_usage_percents: Vec::new(),
                        logical_cores_frequencies: Vec::new(),
                    },
                );
            },
            ResourceType::Disk => {
                self.disks_details = Vec::new();
            },
            _ => (),
        }
    }

    /// Primes the active kind's state with this tick's readings: the process
    /// arm normalizes and sorts the fresh rows, the memory and CPU arms
    /// mirror the relevant history series into their charts.
    pub fn on_tick(
        &mut self,
        input: DetailsTickInput,
        resource_history: &ResourceHistory,
        preferences: &Preferences,
    )
        ensures
            final(self).resource == old(self).resource,
            final(self).show_logical_cores == old(self).show_logical_cores,
            match old(self).resource {
                ResourceType::Processes => match old(self).processes_details {
                    Some(pd) => {
                        &&& match final(self).processes_details {
                            Some(fpd) => {
                                &&& fpd.sort_index == pd.sort_index
                                &&& fpd.sort_direction == pd.sort_direction
                                &&& fpd.processes@ == spec_sorted_view(
                                    input.processes@.map_values(
                                        |p: ProcessSample| spec_normalized_row(
                                            p,
                                            input.logical_cpu_count,
                                        ),
                                    ),
                                    pd.sort_index,
                                    pd.sort_direction,
                                )
                            },
                            None => false,
                        }
                        &&& final(self).memory_details == old(self).memory_details
                        &&& final(self).cpu_details == old(self).cpu_details
                    },
                    None => *final(self) == *old(self),
                },
                ResourceType::Memory => match old(self).memory_details {
                    Some(_) => {
                        &&& match final(self).memory_details {
                            Some(md) => md.ram_chart.data_points.points@
                                == resource_history.ram.points@
                                && md.swap_chart.data_points.points@
                                == resource_history.swap.points@,
                            None => false,
                        }
                        &&& final(self).processes_details == old(self).processes_details
                        &&& final(self).cpu_details == old(self).cpu_details
                    },
                    None => *final(self) == *old(self),
                },
                ResourceType::Cpu => match old(self).cpu_details {
                    Some(cd) => {
                        &&& match final(self).cpu_details {
                            Some(fcd) => {
                                &&& fcd.physical_core_count == input.physical_cpu_count
                                &&& fcd.logical_core_count == input.logical_cpu_count
                                &&& fcd.brand@ == input.cpu_brand@
                                &&& fcd.frequency == input.cpu_frequency
                                &&& if old(self).show_logical_cores {
                                    &&& fcd.logical_core_charts@.len() == (
                                    if cd.logical_core_charts@.len() == 0 {
                                        input.logical_cpu_count as int
                                    } else {
                                        cd.logical_core_charts@.len() as int
                                    })
                                    &&& forall|i: int|
                                        0 <= i < fcd.logical_core_charts@.len() && i
                                            < resource_history.logical_cores@.len() ==> (
                                        #[trigger] fcd.logical_core_charts@[i]).data_points.points@
                                            == resource_history.logical_cores@[i].points@
                                    &&& fcd.logical_cores_usage_percents@
                                        == input.logical_cores_usage_percents@
                                    &&& fcd.logical_cores_frequencies@
                                        == input.logical_cores_frequencies@
                                    &&& fcd.cpu_usage_percent == cd.cpu_usage_percent
                                    &&& fcd.cpu_chart == cd.cpu_chart
                                } else {
                                    &&& fcd.cpu_usage_percent == input.cpu_usage_percent
                                    &&& fcd.cpu_chart.data_points.points@
                                        == resource_history.cpu.points@
                                    &&& fcd.logical_core_charts == cd.logical_core_charts
                                    &&& fcd.logical_cores_usage_percents
                                        == cd.logical_cores_usage_percents
                                    &&& fcd.logical_cores_frequencies
                                        == cd.logical_cores_frequencies
                                }
                            },
                            None => false,
                        }
                        &&& final(self).processes_details == old(self).processes_details
                        &&& final(self).memory_details == old(self).memory_details
                    },
                    None => *final(self) == *old(self),
                },
                _ => *final(self) == *old(self),
            },
    {
        match self.resource {
            ResourceType::Processes => {
                if self.processes_details.is_none() {
                    return ;
                }
                let mut rows: Vec<ProcessDetails> = Vec::new();
                let mut i: usize = 0;
                let ghost mapped = input.processes@.map_values(
                    |p: ProcessSample| spec_normalized_row(p, input.logical_cpu_count),
                );
                while i < input.processes.len()
                    invariant
                        i <= input.processes@.len(),
                        mapped == input.processes@.map_values(
                            |p: ProcessSample| spec_normalized_row(p, input.logical_cpu_count),
                        ),
                        rows@ =~= mapped.take(i as int),
                    decreases input.processes@.len() - i,
                {
                    let p = &input.processes[i];
                    let cpu = if input.logical_cpu_count == 0 {
                        0
                    } else {
                        p.cpu_usage_hundredths / (input.logical_cpu_count as u64)
                    };
                    rows.push(
                        ProcessDetails {
                            id: p.pid,
                            name: p.name.clone(),
                            cpu_usage_hundredths: cpu,
                            memory_usage: p.memory_usage,
                            disk_read: p.disk_read,
                            disk_written: p.disk_written,
                        },
                    );
                    proof {
                        assert(mapped[i as int] == spec_normalized_row(
                            input.processes@[i as int],
                            input.logical_cpu_count,
                        ));
                    }
                    i = i + 1;
                }
                proof {
                    assert(rows@ =~= mapped);
                }
                match &mut self.processes_details {
                    Some(pd) => {
                        ProcessesDetailsProcs::sort_by_index(
                            &mut rows,
                            pd.sort_index,
                            &pd.sort_direction,
                        );
                        pd.processes = rows;
                    },
                    None => (),
                }
            },
            ResourceType::Memory => {
                match &mut self.memory_details {
                    Some(md) => {
                        md.update_history(resource_history);
                    },
                    None => (),
                }
            },
            ResourceType::Cpu => {
                let show = self.show_logical_cores;
                match &mut self.cpu_details {
                    Some(cd) => {
                        cd.physical_core_count = input.physical_cpu_count;
                        cd.logical_core_count = input.logical_cpu_count;
                        cd.brand = input.cpu_brand;
                        cd.frequency = input.cpu_frequency;
                        if show {
                            if cd.logical_core_charts.len() == 0 {
                                let mut charts: Vec<ResourceChart> = Vec::new();
                                let mut j: u32 = 0;
                                while j < input.logical_cpu_count
                                    invariant
                                        j <= input.logical_cpu_count,
                                        charts@.len() == j,
                                    decreases input.logical_cpu_count - j,
                                {
                                    charts.push(ResourceChart::new(preferences));
                                    j = j + 1;
                                }
                                cd.logical_core_charts = charts;
                            }
                            let ghost cd1 = *cd;
                            let mut k: usize = 0;
                            while k < cd.logical_core_charts.len() && k
                                < resource_history.logical_cores.len()
                                invariant
                                    k <= cd.logical_core_charts@.len(),
                                    k <= resource_history.logical_cores@.len(),
                                    cd.logical_core_charts@.len()
                                        == cd1.logical_core_charts@.len(),
                                    cd.cpu_chart == cd1.cpu_chart,
                                    cd.cpu_usage_percent == cd1.cpu_usage_percent,
                                    cd.physical_core_count == cd1.physical_core_count,
                                    cd.logical_core_count == cd1.logical_core_count,
                                    cd.brand == cd1.brand,
                                    cd.frequency == cd1.frequency,
                                    cd.logical_cores_usage_percents
                                        == cd1.logical_cores_usage_percents,
                                    cd.logical_cores_frequencies
                                        == cd1.logical_cores_frequencies,
                                    forall|j: int|
                                        0 <= j < k && j < resource_history.logical_cores@.len()
                                            ==> (#[trigger] cd.logical_core_charts@[j])
                                            .data_points.points@
                                            == resource_history.logical_cores@[j].points@,
                                    forall|j: int|
                                        k <= j < cd.logical_core_charts@.len() ==> #[trigger] cd
                                            .logical_core_charts@[j]
                                            == cd1.logical_core_charts@[j],
                                decreases cd.logical_core_charts@.len() - k,
                            {
                                let series = resource_history.logical_cores[k].duplicate();
                                cd.logical_core_charts[k].set_data(&series);
                                k = k + 1;
                            }
                            cd.logical_cores_usage_percents = clone_u64_vec(
                                &input.logical_cores_usage_percents,
                            );
                            cd.logical_cores_frequencies = clone_u64_vec(
                                &input.logical_cores_frequencies,
                            );
                        } else {
                            cd.cpu_usage_percent = input.cpu_usage_percent;
                            cd.cpu_chart.set_data(&resource_history.cpu);
                        }
                    },
                    None => (),
                }
            },
            _ => (),
        }
    }

    /// Handles one message. A kill request becomes an action for the
    /// external process-control collaborator; selecting a column resets the
    /// direction to descending and re-sorts; toggling the direction
    /// re-sorts immediately.
    pub fn update(&mut self, message: ResourceDetailsMessage) -> (r: Option<ProcessAction>)
        ensures
            final(self).resource == old(self).resource,
            match message {
                ResourceDetailsMessage::KillProcessId(pid) => r == Some(ProcessAction::Kill(pid))
                    && *final(self) == *old(self),
                ResourceDetailsMessage::SortByIndex(sort_index) => {
                    &&& r is None
                    &&& match old(self).processes_details {
                        Some(pd) => match final(self).processes_details {
                            Some(fpd) => {
                                &&& fpd.sort_index == sort_index
                                &&& fpd.sort_direction == SortDirection::Descending
                                &&& fpd.processes@ == spec_sorted_view(
                                    pd.processes@,
                                    sort_index,
                                    SortDirection::Descending,
                                )
                            },
                            None => false,
                        },
                        None => *final(self) == *old(self),
                    }
                },
                ResourceDetailsMessage::SwitchSortDirection => {
                    &&& r is None
                    &&& match old(self).processes_details {
                        Some(pd) => match final(self).processes_details {
                            Some(fpd) => {
                                &&& fpd.sort_index == pd.sort_index
                                &&& fpd.sort_direction == (match pd.sort_direction {
                                    SortDirection::Ascending => SortDirection::Descending,
                                    SortDirection::Descending => SortDirection::Ascending,
                                })
                                &&& fpd.processes@ == spec_sorted_view(
                                    pd.processes@,
                                    pd.sort_index,
                                    fpd.sort_direction,
                                )
                            },
                            None => false,
                        },
                        None => *final(self) == *old(self),
                    }
                },
                ResourceDetailsMessage::ToggleLogicalCores(toggle_state) => r is None
                    && final(self).show_logical_cores == toggle_state,
                _ => r is None && *final(self) == *old(self),
            },
    {
        match message {
            ResourceDetailsMessage::KillProcessId(pid) => Some(ProcessAction::Kill(pid)),
            ResourceDetailsMessage::SortByIndex(sort_index) => {
                match &mut self.processes_details {
                    Some(pd) => {
                        pd.sort_index = sort_index;
                        pd.sort_direction = SortDirection::Descending;
                        ProcessesDetailsProcs::sort_by_index(
                            &mut pd.processes,
                            sort_index,
                            &SortDirection::Descending,
                        );
                    },
                    None => (),
                }
                None
            },
            ResourceDetailsMessage::SwitchSortDirection => {
                match &mut self.processes_details {
                    Some(pd) => {
                        pd.sort_direction = match pd.sort_direction {
                            SortDirection::Descending => SortDirection::Ascending,
                            SortDirection::Ascending => SortDirection::Descending,
                        };
                        let direction = pd.sort_direction;
                        ProcessesDetailsProcs::sort_by_index(
                            &mut pd.processes,
                            pd.sort_index,
                            &direction,
                        );
                    },
                    None => (),
                }
                None
            },
            ResourceDetailsMessage::ToggleLogicalCores(toggle_state) => {
                self.show_logical_cores = toggle_state;
                None
            },
            _ => None,
        }
    }
}

/// Copies a vector of plain values.
pub fn clone_u64_vec(values: &Vec<u64>) -> (r: Vec<u64>)
    ensures
        r@ == values@,
{
    let mut r: Vec<u64> = Vec::new();
    let mut i: usize = 0;
    while i < values.len()
        invariant
            i <= values@.len(),
            r@ =~= values@.take(i as int),
        decreases values@.len() - i,
    {
        r.push(values[i]);
        i = i + 1;
    }
    proof {
        assert(values@.take(values@.len() as int) =~= values@);
    }
    r
}

} // verus!
