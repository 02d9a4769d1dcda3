//! Per-resource aggregate data, rebuilt every tick from the plain counter
//! values handed in by the embedding application: CPU, memory, disks,
//! battery, applications and the process table.
//!
//! Percentages are held in hundredths of a percent so arithmetic stays
//! exact; a degenerate divisor (zero cores, zero total) yields no data
//! instead of a division.

use crate::keyed_map::KeyedMap;
use crate::sorter::{
    lower_of, lowercase, reverse_rows, sort_rows, spec_sorted_view, str_lex_le, RowKey,
    SortDirection, SortRow,
};
use vstd::arithmetic::mul::lemma_mul_inequality;
use vstd::prelude::*;

verus! {

/// The kind of a disk, as the collaborator reports it.
#[derive(Debug, Clone, Copy, PartialEq, Eq, Structural)]
pub enum DiskKind {
    Hdd,
    Ssd,
    Unknown(i64),
}

/// The charge state of a battery.
#[derive(Debug, Clone, Copy, PartialEq, Eq, Structural)]
pub enum BatteryState {
    Unknown,
    Charging,
    Discharging,
    Empty,
    Full,
}

/// One logical core's readings for a tick: usage in hundredths of a percent
/// and frequency in megahertz.
#[derive(Debug, Clone, Copy, PartialEq, Eq, Structural)]
pub struct CoreSample {
    pub usage_hundredths: u64,
    pub frequency: u64,
}

/// One disk's readings for a tick.
#[derive(Debug)]
pub struct DiskSample {
    pub name: String,
    pub read: u64,
    pub written: u64,
    pub total_space: u64,
    pub available_space: u64,
    pub kind: DiskKind,
    pub is_removable: bool,
}

/// One battery reading, already reduced to plain integer magnitudes:
/// milliwatts, milliwatt hours, millivolts, centidegrees, seconds and
/// hundredths of a percent.
#[derive(Debug)]
pub struct BatterySample {
    pub vendor: String,
    pub model: String,
    pub cycles: Option<u32>,
    pub temperature_centi_c: Option<i64>,
    pub energy_rate_mw: u64,
    pub designed_capacity_mwh: u64,
    pub current_capacity_mwh: u64,
    pub energy_mwh: u64,
    pub voltage_mv: u64,
    pub state: BatteryState,
    pub time_to_behaviour_secs: Option<u64>,
    pub state_of_health_hundredths: u64,
    pub state_of_charge_hundredths: u64,
    pub technology: String,
}

/// One process observation for a tick, usage in hundredths of a percent,
/// not yet normalized by the core count.
#[derive(Debug)]
pub struct ProcessSample {
    pub name: String,
    pub pid: u64,
    pub parent_pid: Option<u64>,
    pub memory_usage: u64,
    pub cpu_usage_hundredths: u64,
    pub disk_read: u64,
    pub disk_written: u64,
}

/// The sum of a sequence of values.
pub open spec fn spec_sum(s: Seq<u64>) -> int
    decreases s.len(),
{
    if s.len() == 0 {
        0
    } else {
        spec_sum(s.drop_last()) + s.last()
    }
}

/// `x` clamped into the range of `u64`.
pub open spec fn spec_u64_sat(x: int) -> u64 {
    if x > u64::MAX {
        u64::MAX
    } else if x < 0 {
        0
    } else {
        x as u64
    }
}

/// The arithmetic mean of the per-core usage readings, truncated, or no
/// data when the core count is zero.
pub open spec fn spec_cpu_usage_mean(cores: Seq<CoreSample>, count: u32) -> Option<u64> {
    if count == 0 {
        None
    } else {
        Some(spec_u64_sat(spec_sum(cores.map_values(|c: CoreSample| c.usage_hundredths)) / count as int))
    }
}

/// The arithmetic mean of the per-core frequencies, truncated, or no data
/// when the core count is zero.
pub open spec fn spec_cpu_freq_mean(cores: Seq<CoreSample>, count: u32) -> Option<u64> {
    if count == 0 {
        None
    } else {
        Some(spec_u64_sat(spec_sum(cores.map_values(|c: CoreSample| c.frequency)) / count as int))
    }
}

/// A percentage in hundredths reduced to whole percent for the history
/// store; no data records as zero.
pub open spec fn spec_whole_percent(p: Option<u64>) -> u64 {
    match p {
        Some(v) => v / 100,
        None => 0,
    }
}

/// Reduces a percentage in hundredths to whole percent for the history
/// store; a missing reading records as zero.
pub fn whole_percent(p: &Option<u64>) -> (r: u64)
    ensures
        r == spec_whole_percent(*p),
{
    match p {
        Some(v) => *v / 100,
        None => 0,
    }
}

/// What one disk's aggregate looks like after `update` from sample `d`: the
/// page-local detail is kept from the entry already in the snapshot, or
/// starts fresh for a newly appeared disk.
pub open spec fn spec_disk_updated(old_entry: Option<DiskData>, d: DiskSample) -> DiskData {
    DiskData {
        name: d.name,
        read: d.read,
        written: d.written,
        space_total: d.total_space,
        space_used: if d.available_space <= d.total_space {
            (d.total_space - d.available_space) as u64
        } else {
            0u64
        },
        kind: d.kind,
        in_depth: match old_entry {
            Some(e) => e.in_depth,
            None => Some(DiskDataInDepth { is_removable: false }),
        },
    }
}

/// `used` over `total` in hundredths of a percent, or no data when the total
/// is zero.
pub open spec fn spec_percent_hundredths(used: u64, total: u64) -> Option<u64> {
    if total == 0 {
        None
    } else {
        Some(spec_u64_sat(used * 10000 / total as int))
    }
}

/// Computes `used / total` in hundredths of a percent, guarded against a
/// zero total: the result is no data rather than a division by zero.
pub fn percent_hundredths(used: u64, total: u64) -> (r: Option<u64>)
    ensures
        r == spec_percent_hundredths(used, total),
{
    if total == 0 {
        None
    } else {
        let q = (used as u128) * 10000 / (total as u128);
        if q > u64::MAX as u128 {
            Some(u64::MAX)
        } else {
            Some(q as u64)
        }
    }
}

fn sum_u128(values: &Vec<u64>) -> (s: u128)
    ensures
        s == spec_sum(values@),
{
    let mut s: u128 = 0;
    let mut i: usize = 0;
    proof {
        assert(values@.take(0) =~= Seq::<u64>::empty());
    }
    while i < values.len()
        invariant
            i <= values@.len(),
            s == spec_sum(values@.take(i as int)),
            s <= i * (u64::MAX as int),
        decreases values@.len() - i,
    {
        proof {
            assert(values@.take(i + 1).drop_last() =~= values@.take(i as int));
            assert(values@.take(i + 1).last() == values@[i as int]);
            assert((i + 1) * (u64::MAX as int) == i * (u64::MAX as int) + u64::MAX);
            lemma_mul_inequality(i + 1, usize::MAX as int, u64::MAX as int);
        }
        s = s + values[i] as u128;
        i = i + 1;
    }
    proof {
        assert(values@.take(values@.len() as int) =~= values@);
    }
    s
}

fn div_sat(sum: u128, count: u32) -> (r: u64)
    requires
        count > 0,
    ensures
        r == spec_u64_sat(sum as int / count as int),
{
    let q = sum / count as u128;
    if q > u64::MAX as u128 {
        u64::MAX
    } else {
        q as u64
    }
}

/// One application as the collaborator reports it.
#[derive(Debug)]
pub struct ApplicationData {
    pub name: String,
    pub pid: u64,
    pub parent_pid: Option<u64>,
    pub memory_usage: u64,
    pub cpu_usage_hundredths: u64,
}

#[derive(Debug)]
pub struct InDepthApplicationsData {
    pub applications: Vec<ApplicationData>,
}

impl InDepthApplicationsData {
    pub fn new() -> (r: Self)
        ensures
            r.applications@.len() == 0,
    {
        InDepthApplicationsData { applications: Vec::new() }
    }
}

#[derive(Debug)]
pub struct ApplicationsData {
    pub in_depth: InDepthApplicationsData,
}

impl ApplicationsData {
    pub fn new() -> (r: Self)
        ensures
            r.in_depth.applications@.len() == 0,
    {
        ApplicationsData { in_depth: InDepthApplicationsData::new() }
    }

    pub fn clean_in_depth(&mut self)
        ensures
            final(self).in_depth.applications@.len() == 0,
    {
        self.in_depth = InDepthApplicationsData::new();
    }

    /// Replaces the application list with this tick's observations.
    pub fn update_in_depth(&mut self, applications: Vec<ApplicationData>)
        ensures
            final(self).in_depth.applications@ == applications@,
    {
        self.in_depth.applications = applications;
    }
}

/// One row of the process table: usage already normalized by the logical
/// core count.
#[derive(Debug)]
pub struct ProcessData {
    pub name: String,
    pub pid: u64,
    pub parent_pid: Option<u64>,
    pub memory_usage: u64,
    pub cpu_usage_hundredths: u64,
    pub disk_read: u64,
    pub disk_written: u64,
}

impl SortRow for ProcessData {
    open spec fn sort_key(self, column: u32) -> RowKey {
        if column == 0 {
            RowKey::Text(lower_of(self.name@))
        } else if column == 1 {
            RowKey::Num(self.cpu_usage_hundredths as int)
        } else if column == 2 {
            RowKey::Num(self.memory_usage as int)
        } else if column == 3 {
            RowKey::Num(self.disk_read as int)
        } else {
            RowKey::Num(self.disk_written as int)
        }
    }

    fn le_by(&self, other: &Self, column: u32) -> (r: bool) {
        if column == 0 {
            let la = lowercase(self.name.as_str());
            let lb = lowercase(other.name.as_str());
            str_lex_le(la.as_str(), lb.as_str())
        } else if column == 1 {
            self.cpu_usage_hundredths <= other.cpu_usage_hundredths
        } else if column == 2 {
            self.memory_usage <= other.memory_usage
        } else if column == 3 {
            self.disk_read <= other.disk_read
        } else {
            self.disk_written <= other.disk_written
        }
    }
}

#[derive(Debug)]
pub struct InDepthProcessesData {
    pub processes: Vec<ProcessData>,
}

impl InDepthProcessesData {
    pub fn new() -> (r: Self)
        ensures
            r.processes@.len() == 0,
    {
        InDepthProcessesData { processes: Vec::new() }
    }
}

/// The process table with its current sort column and direction.
#[derive(Debug)]
pub struct ProcessesData {
    pub sort_index: u32,
    pub sort_direction: SortDirection,
    pub in_depth: InDepthProcessesData,
}

impl ProcessesData {
    pub fn new() -> (r: Self)
        ensures
            r.sort_index == 0,
            r.sort_direction == SortDirection::Descending,
            r.in_depth.processes@.len() == 0,
    {
        ProcessesData {
            sort_index: 0,
            sort_direction: SortDirection::Descending,
            in_depth: InDepthProcessesData::new(),
        }
    }

    pub fn clean_in_depth(&mut self)
        ensures
            final(self).in_depth.processes@.len() == 0,
            final(self).sort_index == old(self).sort_index,
            final(self).sort_direction == old(self).sort_direction,
    {
        self.in_depth = InDepthProcessesData::new();
    }

    /// Re-sorts the rows by the current column and direction: a stable
    /// ascending sort, reversed when the direction is descending.
    pub fn sort_by_index(&mut self)
        ensures
            final(self).in_depth.processes@ == spec_sorted_view(
                old(self).in_depth.processes@,
                old(self).sort_index,
                old(self).sort_direction,
            ),
            final(self).sort_index == old(self).sort_index,
            final(self).sort_direction == old(self).sort_direction,
    {
        if self.sort_index <= 4 {
            sort_rows(&mut self.in_depth.processes, self.sort_index);
        }
        match self.sort_direction {
            SortDirection::Descending => reverse_rows(&mut self.in_depth.processes),
            SortDirection::Ascending => (),
        }
    }

    /// Replaces the rows with this tick's observations and re-sorts them.
    pub fn update_in_depth(&mut self, processes: Vec<ProcessData>)
        ensures
            final(self).in_depth.processes@ == spec_sorted_view(
                processes@,
                old(self).sort_index,
                old(self).sort_direction,
            ),
            final(self).sort_index == old(self).sort_index,
            final(self).sort_direction == old(self).sort_direction,
    {
        self.in_depth.processes = processes;
        self.sort_by_index();
    }
}

/// CPU aggregates: the overall percent and frequency are the arithmetic
/// means of the per-core readings, or no data when the core count is zero.
#[derive(Debug)]
pub struct CpuData {
    pub cpu_usage_percent: Option<u64>,
    pub frequency: Option<u64>,
    pub logical_cores_usage_percents: Vec<u64>,
    pub logical_cores_frequencies: Vec<u64>,
    pub show_logical_cores: bool,
}

impl CpuData {
    pub fn new() -> (r: Self)
        ensures
            r.cpu_usage_percent is None,
            r.frequency is None,
            r.logical_cores_usage_percents@.len() == 0,
            r.logical_cores_frequencies@.len() == 0,
            r.show_logical_cores == false,
    {
        CpuData {
            cpu_usage_percent: None,
            frequency: None,
            logical_cores_usage_percents: Vec::new(),
            logical_cores_frequencies: Vec::new(),
            show_logical_cores: false,
        }
    }

    /// Recomputes the aggregates from this tick's per-core readings. A core
    /// count of zero yields no data rather than a division by zero.
    pub fn update(&mut self, cores: &Vec<CoreSample>, logical_core_count: u32)
        ensures
            final(self).logical_cores_usage_percents@ == cores@.map_values(
                |c: CoreSample| c.usage_hundredths,
            ),
            final(self).logical_cores_frequencies@ == cores@.map_values(
                |c: CoreSample| c.frequency,
            ),
            final(self).cpu_usage_percent == spec_cpu_usage_mean(cores@, logical_core_count),
            final(self).frequency == spec_cpu_freq_mean(cores@, logical_core_count),
            final(self).show_logical_cores == old(self).show_logical_cores,
    {
        let ghost usages_spec = cores@.map_values(|c: CoreSample| c.usage_hundredths);
        let ghost freqs_spec = cores@.map_values(|c: CoreSample| c.frequency);
        let mut usages: Vec<u64> = Vec::new();
        let mut freqs: Vec<u64> = Vec::new();
        let mut i: usize = 0;
        while i < cores.len()
            invariant
                i <= cores@.len(),
                usages_spec == cores@.map_values(|c: CoreSample| c.usage_hundredths),
                freqs_spec == cores@.map_values(|c: CoreSample| c.frequency),
                usages@ =~= usages_spec.take(i as int),
                freqs@ =~= freqs_spec.take(i as int),
            decreases cores@.len() - i,
        {
            usages.push(cores[i].usage_hundredths);
            freqs.push(cores[i].frequency);
            i = i + 1;
        }
        proof {
            assert(usages@ =~= usages_spec);
            assert(freqs@ =~= freqs_spec);
        }
        if logical_core_count == 0 {
            self.cpu_usage_percent = None;
            self.frequency = None;
        } else {
            let usage_sum = sum_u128(&usages);
            let freq_sum = sum_u128(&freqs);
            self.cpu_usage_percent = Some(div_sat(usage_sum, logical_core_count));
            self.frequency = Some(div_sat(freq_sum, logical_core_count));
        }
        self.logical_cores_usage_percents = usages;
        self.logical_cores_frequencies = freqs;
    }
}

/// One disk's aggregate data, keyed by its name in the snapshot.
#[derive(Debug)]
pub struct DiskData {
    pub read: u64,
    pub written: u64,
    pub kind: DiskKind,
    pub name: String,
    pub space_total: u64,
    pub space_used: u64,
    pub in_depth: Option<DiskDataInDepth>,
}

impl DiskData {
    pub fn new() -> (r: Self)
        ensures
            r.name@.len() == 0,
            r.read == 0,
            r.written == 0,
            r.space_total == 0,
            r.space_used == 0,
            r.kind == DiskKind::Unknown(0i64),
            r.in_depth == Some(DiskDataInDepth { is_removable: false }),
    {
        DiskData {
            name: String::new(),
            read: 0,
            written: 0,
            space_total: 0,
            space_used: 0,
            kind: DiskKind::Unknown(0),
            in_depth: Some(DiskDataInDepth::new()),
        }
    }

    pub fn clean_in_depth(&mut self)
        ensures
            final(self).in_depth == Some(DiskDataInDepth { is_removable: false }),
            final(self).read == old(self).read,
            final(self).written == old(self).written,
            final(self).kind == old(self).kind,
            final(self).name == old(self).name,
            final(self).space_total == old(self).space_total,
            final(self).space_used == old(self).space_used,
    {
        self.in_depth = Some(DiskDataInDepth::new());
    }

    /// Updates the aggregate from this tick's reading; used space is the
    /// total minus the available space, guarded against an inconsistent
    /// report of more available than total.
    pub fn update(&mut self, sample: &DiskSample)
        ensures
            *final(self) == spec_disk_updated(Some(*old(self)), *sample),
            final(self).name == sample.name,
            final(self).space_total == sample.total_space,
            final(self).space_used == if sample.available_space <= sample.total_space {
                (sample.total_space - sample.available_space) as u64
            } else {
                0u64
            },
            final(self).read == sample.read,
            final(self).written == sample.written,
            final(self).kind == sample.kind,
            final(self).in_depth == old(self).in_depth,
    {
        self.name = sample.name.clone();
        self.space_total = sample.total_space;
        self.space_used = if sample.available_space <= sample.total_space {
            sample.total_space - sample.available_space
        } else {
            0
        };
        self.read = sample.read;
        self.written = sample.written;
        self.kind = sample.kind;
    }

    /// Fills the page-local detail that only the disk page reads.
    pub fn update_in_depth(&mut self, is_removable: bool)
        ensures
            final(self).in_depth == Some(DiskDataInDepth { is_removable }),
            final(self).read == old(self).read,
            final(self).written == old(self).written,
            final(self).kind == old(self).kind,
            final(self).name == old(self).name,
            final(self).space_total == old(self).space_total,
            final(self).space_used == old(self).space_used,
    {
        self.in_depth = Some(DiskDataInDepth { is_removable });
    }
}

/// Detail of a disk shown only on its page.
#[derive(Debug, Clone, Copy, PartialEq, Eq, Structural)]
pub struct DiskDataInDepth {
    pub is_removable: bool,
}

impl DiskDataInDepth {
    pub fn new() -> (r: Self)
        ensures
            r.is_removable == false,
    {
        DiskDataInDepth { is_removable: false }
    }
}

/// Battery aggregates, reduced to plain integer magnitudes.
#[derive(Debug)]
pub struct BatteryData {
    pub vendor: String,
    pub model: String,
    pub cycles: Option<u32>,
    pub temperature_centi_c: Option<i64>,
    pub energy_rate_mw: u64,
    pub designed_capacity_mwh: u64,
    pub current_capacity_mwh: u64,
    pub energy_mwh: u64,
    pub voltage_mv: u64,
    pub state: BatteryState,
    pub time_to_behaviour_secs: Option<u64>,
    pub state_of_health_hundredths: u64,
    pub state_of_charge_hundredths: u64,
    pub technology: String,
}

impl BatteryData {
    pub fn new() -> (r: Self)
        ensures
            r.vendor@.len() == 0,
            r.model@.len() == 0,
            r.cycles is None,
            r.temperature_centi_c is None,
            r.energy_rate_mw == 0,
            r.designed_capacity_mwh == 0,
            r.current_capacity_mwh == 0,
            r.energy_mwh == 0,
            r.voltage_mv == 0,
            r.state == BatteryState::Unknown,
            r.time_to_behaviour_secs is None,
            r.state_of_health_hundredths == 0,
            r.state_of_charge_hundredths == 0,
            r.technology@.len() == 0,
    {
        BatteryData {
            vendor: String::new(),
            model: String::new(),
            cycles: None,
            temperature_centi_c: None,
            energy_rate_mw: 0,
            designed_capacity_mwh: 0,
            current_capacity_mwh: 0,
            energy_mwh: 0,
            voltage_mv: 0,
            state: BatteryState::Unknown,
            time_to_behaviour_secs: None,
            state_of_health_hundredths: 0,
            state_of_charge_hundredths: 0,
            technology: String::new(),
        }
    }

    /// Takes over every field of this tick's battery reading.
    pub fn update(&mut self, sample: &BatterySample)
        ensures
            final(self).vendor@ == sample.vendor@,
            final(self).model@ == sample.model@,
            final(self).cycles == sample.cycles,
            final(self).temperature_centi_c == sample.temperature_centi_c,
            final(self).energy_rate_mw == sample.energy_rate_mw,
            final(self).designed_capacity_mwh == sample.designed_capacity_mwh,
            final(self).current_capacity_mwh == sample.current_capacity_mwh,
            final(self).energy_mwh == sample.energy_mwh,
            final(self).voltage_mv == sample.voltage_mv,
            final(self).state == sample.state,
            final(self).time_to_behaviour_secs == sample.time_to_behaviour_secs,
            final(self).state_of_health_hundredths == sample.state_of_health_hundredths,
            final(self).state_of_charge_hundredths == sample.state_of_charge_hundredths,
            final(self).technology@ == sample.technology@,
    {
        self.vendor = sample.vendor.clone();
        self.model = sample.model.clone();
        self.cycles = sample.cycles;
        self.temperature_centi_c = sample.temperature_centi_c;
        self.energy_rate_mw = sample.energy_rate_mw;
        self.designed_capacity_mwh = sample.designed_capacity_mwh;
        self.current_capacity_mwh = sample.current_capacity_mwh;
        self.energy_mwh = sample.energy_mwh;
        self.voltage_mv = sample.voltage_mv;
        self.state = sample.state;
        self.time_to_behaviour_secs = sample.time_to_behaviour_secs;
        self.state_of_health_hundredths = sample.state_of_health_hundredths;
        self.state_of_charge_hundredths = sample.state_of_charge_hundredths;
        self.technology = sample.technology.clone();
    }
}

/// Detail of the memory page.
#[derive(Debug, Clone, Copy, PartialEq, Eq, Structural)]
pub struct InDepthMemoryData {
    pub is_removable: bool,
}

impl InDepthMemoryData {
    pub fn new() -> (r: Self)
        ensures
            r.is_removable == false,
    {
        InDepthMemoryData { is_removable: false }
    }
}

/// Memory aggregates: usage percentages are guarded against a zero total.
#[derive(Debug)]
pub struct MemoryData {
    pub ram_usage: u64,
    pub ram_total: u64,
    pub ram_usage_percent: Option<u64>,
    pub swap_usage: u64,
    pub swap_total: u64,
    pub swap_usage_percent: Option<u64>,
    pub in_depth: Option<InDepthMemoryData>,
}

impl MemoryData {
    pub fn new() -> (r: Self)
        ensures
            r.ram_usage == 0,
            r.ram_total == 0,
            r.ram_usage_percent is None,
            r.swap_usage == 0,
            r.swap_total == 0,
            r.swap_usage_percent is None,
            r.in_depth == Some(InDepthMemoryData { is_removable: false }),
    {
        MemoryData {
            ram_usage: 0,
            ram_total: 0,
            ram_usage_percent: None,
            swap_usage: 0,
            swap_total: 0,
            swap_usage_percent: None,
            in_depth: Some(InDepthMemoryData::new()),
        }
    }

    /// Recomputes the memory aggregates from this tick's readings; a zero
    /// total yields no percentage rather than a degenerate division.
    pub fn update(&mut self, ram_usage: u64, ram_total: u64, swap_usage: u64, swap_total: u64)
        ensures
            final(self).ram_usage == ram_usage,
            final(self).ram_total == ram_total,
            final(self).ram_usage_percent == spec_percent_hundredths(ram_usage, ram_total),
            final(self).swap_usage == swap_usage,
            final(self).swap_total == swap_total,
            final(self).swap_usage_percent == spec_percent_hundredths(swap_usage, swap_total),
            final(self).in_depth == old(self).in_depth,
    {
        self.ram_usage = ram_usage;
        self.ram_total = ram_total;
        self.ram_usage_percent = percent_hundredths(ram_usage, ram_total);
        self.swap_usage = swap_usage;
        self.swap_total = swap_total;
        self.swap_usage_percent = percent_hundredths(swap_usage, swap_total);
    }
}

/// The per-tick snapshot of every resource: rebuilt every cycle, while the
/// history store is what persists trends.
#[derive(Debug)]
pub struct ResourceData {
    pub applications: ApplicationsData,
    pub processes: ProcessesData,
    pub disks: KeyedMap<DiskData>,
    pub battery: BatteryData,
    pub cpu: CpuData,
    pub memory: MemoryData,
}

impl ResourceData {
    pub fn new() -> (r: Self)
        ensures
            r.applications.in_depth.applications@.len() == 0,
            r.processes.sort_index == 0,
            r.processes.sort_direction == SortDirection::Descending,
            r.processes.in_depth.processes@.len() == 0,
            r.disks.wf(),
            r.disks.entries@.len() == 0,
            forall|k: Seq<char>| #[trigger] r.disks.index(k) is None,
            r.cpu.cpu_usage_percent is None,
            r.memory.ram_usage_percent is None,
    {
        ResourceData {
            applications: ApplicationsData::new(),
            processes: ProcessesData::new(),
            disks: KeyedMap::new(),
            battery: BatteryData::new(),
            cpu: CpuData::new(),
            memory: MemoryData::new(),
        }
    }
}

} // verus!
