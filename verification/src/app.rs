//! The top-level controller: it owns the tick counter, the snapshot, the
//! history store, the previews and the displayed page, and advances them
//! once per timer tick. Sampling and history collection run for every
//! resource on every tick; the active selection only governs which page's
//! view is primed, never which data is collected.

use crate::history::{
    record_keyed, spec_keyed_points, spec_record, wf_keyed, wf_series, ResourceHistory,
};
use crate::keyed_map::{lemma_assoc_none, lemma_wf_index_at, KeyedMap};
use crate::pages::{
    ApplicationsPage, ApplicationsPageMessage, CpuPage, CpuPageMessage, DiskPage, DiskPageMessage,
    MemoryPage, MemoryPageMessage,
};
use crate::preferences::Preferences;
use crate::previews::{CpuPreview, DiskPreview, MemoryPreview};
use crate::resource_data::{
    spec_cpu_freq_mean, spec_cpu_usage_mean, spec_disk_updated, spec_percent_hundredths,
    spec_whole_percent, whole_percent, CoreSample, DiskData, DiskSample, ResourceData,
};
use crate::selection::{ActivePreview, ResourceType};
use crate::sidebar::SidebarItemParent;
use vstd::prelude::*;

verus! {

/// The colour scheme the system asks for.
#[derive(Debug, Clone, Copy, PartialEq, Eq, Structural)]
pub enum CustomThemeChoice {
    Light,
    Dark,
}

impl CustomThemeChoice {
    pub fn from_system() -> (r: Self)
        ensures
            r == CustomThemeChoice::Dark,
    {
        CustomThemeChoice::Dark
    }
}

/// The sidebar previews: one for the CPU, one for the memory, and one per
/// observed disk.
#[derive(Debug)]
pub struct ResourcePreviews {
    pub cpu: CpuPreview,
    pub memory: MemoryPreview,
    pub disks: KeyedMap<DiskPreview>,
}

impl ResourcePreviews {
    pub fn new() -> (r: Self)
        ensures
            r.disks.wf(),
            r.disks.entries@.len() == 0,
            forall|k: Seq<char>| #[trigger] r.disks.index(k) is None,
    {
        ResourcePreviews { cpu: CpuPreview::new(), memory: MemoryPreview::new(), disks: KeyedMap::new() }
    }
}

/// The currently displayed page.
#[derive(Debug)]
pub enum ResourcePage {
    Cpu(CpuPage),
    Disk(DiskPage),
    Memory(MemoryPage),
    Applications(ApplicationsPage),
}

/// Cached per-disk pages.
#[derive(Debug)]
pub struct ResourcePages {
    pub disks: KeyedMap<DiskPage>,
}

impl ResourcePages {
    pub fn new() -> (r: Self)
        ensures
            r.disks.wf(),
            r.disks.entries@.len() == 0,
    {
        ResourcePages { disks: KeyedMap::new() }
    }
}

#[derive(Debug, Clone)]
pub enum ResourcePageMessage {
    DiskPageMessage(DiskPageMessage),
    CpuPageMessage(CpuPageMessage),
    MemoryPageMessage(MemoryPageMessage),
    ApplicationsPageMessage(ApplicationsPageMessage),
}

/// One tick's plain readings, gathered by the embedding application from
/// the operating system collaborator.
#[derive(Debug)]
pub struct TickSample {
    pub cores: Vec<CoreSample>,
    pub ram_usage: u64,
    pub ram_total: u64,
    pub swap_usage: u64,
    pub swap_total: u64,
    pub disks: Vec<DiskSample>,
}

/// The displayed page mirrors the history store: its charts hold exactly
/// the series the store holds for the page's subject.
pub open spec fn spec_page_primed(
    page: ResourcePage,
    history: ResourceHistory,
    active: ActivePreview,
) -> bool {
    match page {
        ResourcePage::Cpu(p) => {
            &&& p.cpu_chart.data_points.points@ == history.cpu.points@
            &&& forall|i: int|
                0 <= i < p.logical_core_charts@.len() && i < history.logical_cores@.len() ==> (
                #[trigger] p.logical_core_charts@[i]).data_points.points@
                    == history.logical_cores@[i].points@
        },
        ResourcePage::Memory(p) => {
            &&& p.ram_chart.data_points.points@ == history.ram.points@
            &&& p.swap_chart.data_points.points@ == history.swap.points@
        },
        ResourcePage::Disk(p) => match active.name {
            Some(name) => {
                &&& p.written_chart.data_points.points@ == spec_keyed_points(
                    history.disk_write,
                    name@,
                )
                &&& p.read_chart.data_points.points@ == spec_keyed_points(
                    history.disk_read,
                    name@,
                )
            },
            None => true,
        },
        ResourcePage::Applications(_) => true,
    }
}

/// The kind of page displayed stays the same, and its non-chart state is
/// untouched.
pub open spec fn spec_same_page_kind(a: ResourcePage, b: ResourcePage) -> bool {
    match (a, b) {
        (ResourcePage::Cpu(x), ResourcePage::Cpu(y)) => {
            &&& x.show_logical_cores == y.show_logical_cores
            &&& x.logical_core_charts@.len() == y.logical_core_charts@.len()
        },
        (ResourcePage::Memory(_), ResourcePage::Memory(_)) => true,
        (ResourcePage::Disk(_), ResourcePage::Disk(_)) => true,
        (ResourcePage::Applications(x), ResourcePage::Applications(y)) => x == y,
        _ => false,
    }
}

/// No other observation in the sample carries the same disk name.
pub open spec fn spec_unique_disk_name(disks: Seq<DiskSample>, j: int) -> bool {
    forall|j2: int|
        0 <= j2 < disks.len() && j2 != j ==> (#[trigger] disks[j2]).name@ != disks[j].name@
}

/// Folds one tick's disk observations into the snapshot map: an entry is
/// updated in place when the name is already known and created otherwise;
/// disks that disappeared stay untouched.
pub(crate) fn update_disks(map: &mut KeyedMap<DiskData>, disks: &Vec<DiskSample>)
    requires
        old(map).wf(),
    ensures
        final(map).wf(),
        forall|j: int|
            0 <= j < disks@.len() ==> final(map).contains_key((#[trigger] disks@[j]).name@),
        forall|q: Seq<char>|
            #[trigger] final(map).index(q) == old(map).index(q) || (exists|j: int|
                0 <= j < disks@.len() && (#[trigger] disks@[j]).name@ == q),
        forall|j: int|
            0 <= j < disks@.len() && spec_unique_disk_name(disks@, j) ==> final(map).index(
                (#[trigger] disks@[j]).name@,
            ) == Some(spec_disk_updated(old(map).index(disks@[j].name@), disks@[j])),
{
    let mut i: usize = 0;
    while i < disks.len()
        invariant
            map.wf(),
            i <= disks@.len(),
            forall|j: int| 0 <= j < i ==> map.contains_key((#[trigger] disks@[j]).name@),
            forall|q: Seq<char>|
                #[trigger] map.index(q) == old(map).index(q) || (exists|j: int|
                    0 <= j < i && (#[trigger] disks@[j]).name@ == q),
            forall|j: int|
                0 <= j < i && spec_unique_disk_name(disks@, j) ==> map.index(
                    (#[trigger] disks@[j]).name@,
                ) == Some(spec_disk_updated(old(map).index(disks@[j].name@), disks@[j])),
        decreases disks@.len() - i,
    {
        let d = &disks[i];
        let found = map.position(&d.name);
        match found {
            Some(pos) => {
                let ghost name = disks@[i as int].name@;
                let ghost pre = map.index(name);
                let mut dd = map.swap_at(pos, DiskData::new());
                dd.update(d);
                map.replace_at(pos, dd);
                proof {
                    assert(map.index(name) == Some(dd));
                    if spec_unique_disk_name(disks@, i as int) {
                        assert(forall|j: int|
                            0 <= j < i ==> (#[trigger] disks@[j]).name@ != name);
                        assert(pre == old(map).index(name));
                    }
                }
            },
            None => {
                let mut nd = DiskData::new();
                nd.update(d);
                let ghost name = disks@[i as int].name@;
                proof {
                    assert(nd == spec_disk_updated(None, disks@[i as int]));
                    if spec_unique_disk_name(disks@, i as int) {
                        assert(forall|j: int|
                            0 <= j < i ==> (#[trigger] disks@[j]).name@ != name);
                        assert(old(map).index(name) is None);
                    }
                }
                map.insert_new(d.name.clone(), nd);
            },
        }
        i = i + 1;
    }
}

/// Creates a preview for every disk of the snapshot that has none yet;
/// existing previews stay as they are.
pub(crate) fn sync_disk_previews(previews: &mut KeyedMap<DiskPreview>, disks: &KeyedMap<DiskData>)
    requires
        old(previews).wf(),
        disks.wf(),
    ensures
        final(previews).wf(),
        forall|k: Seq<char>|
            #[trigger] disks.contains_key(k) ==> final(previews).contains_key(k),
        forall|k: Seq<char>|
            old(previews).index(k) is Some ==> #[trigger] final(previews).index(k) == old(
                previews,
            ).index(k),
{
    let mut i: usize = 0;
    while i < disks.len()
        invariant
            previews.wf(),
            disks.wf(),
            i <= disks.entries@.len(),
            forall|j: int|
                0 <= j < i ==> previews.contains_key((#[trigger] disks.entries@[j].0)@),
            forall|k: Seq<char>|
                old(previews).index(k) is Some ==> #[trigger] previews.index(k) == old(
                    previews,
                ).index(k),
        decreases disks.entries@.len() - i,
    {
        let name = disks.key_at(i);
        let found = previews.position(name);
        match found {
            Some(_) => (),
            None => {
                previews.insert_new(name.clone(), DiskPreview::new());
            },
        }
        i = i + 1;
    }
    proof {
        assert forall|k: Seq<char>| #[trigger] disks.contains_key(k) implies previews.contains_key(
            k,
        ) by {
            lemma_assoc_none(disks.entries@, k);
            let j = choose|j: int| 0 <= j < disks.entries@.len() && (disks.entries@[j].0)@ == k;
            assert(previews.contains_key((disks.entries@[j].0)@));
        }
    }
}

/// Appends this tick's per-core usage percent to each core's series; cores
/// without a fresh reading keep their series unchanged.
pub(crate) fn record_core_history(
    series_vec: &mut Vec<crate::history::TimeSeries>,
    usages: &Vec<u64>,
    tick_delta: u64,
    window: u64,
)
    requires
        tick_delta >= 1,
        forall|i: int|
            0 <= i < old(series_vec)@.len() ==> wf_series(
                (#[trigger] old(series_vec)@[i]).points@,
                window,
            ),
    ensures
        final(series_vec)@.len() == old(series_vec)@.len(),
        forall|i: int|
            0 <= i < final(series_vec)@.len() && i < usages@.len() ==> (#[trigger] final(series_vec)@[i]).points@ == spec_record(
                old(series_vec)@[i].points@,
                usages@[i] / 100,
                tick_delta,
                window,
            ),
        forall|i: int|
            usages@.len() <= i < final(series_vec)@.len() ==> #[trigger] final(series_vec)@[i]
                == old(series_vec)@[i],
        forall|i: int|
            0 <= i < final(series_vec)@.len() ==> wf_series(
                (#[trigger] final(series_vec)@[i]).points@,
                window,
            ),
{
    let mut i: usize = 0;
    while i < series_vec.len() && i < usages.len()
        invariant
            tick_delta >= 1,
            i <= series_vec@.len(),
            i <= usages@.len(),
            series_vec@.len() == old(series_vec)@.len(),
            forall|j: int|
                0 <= j < i ==> (#[trigger] series_vec@[j]).points@ == spec_record(
                    old(series_vec)@[j].points@,
                    usages@[j] / 100,
                    tick_delta,
                    window,
                ),
            forall|j: int|
                i <= j < series_vec@.len() ==> #[trigger] series_vec@[j] == old(series_vec)@[j],
            forall|j: int|
                0 <= j < series_vec@.len() ==> wf_series(
                    (#[trigger] series_vec@[j]).points@,
                    window,
                ),
        decreases series_vec@.len() - i,
    {
        let value = usages[i] / 100;
        series_vec[i].record(value, tick_delta, window);
        i = i + 1;
    }
}

/// Appends one per-disk value (bytes written or read) to the series stored
/// under each disk of the snapshot, creating series for newly appeared
/// disks.
pub(crate) fn record_disk_history(
    map: &mut KeyedMap<crate::history::TimeSeries>,
    disks: &KeyedMap<DiskData>,
    record_written: bool,
    tick_delta: u64,
    window: u64,
)
    requires
        tick_delta >= 1,
        old(map).wf(),
        wf_keyed(*old(map), window),
        disks.wf(),
    ensures
        final(map).wf(),
        wf_keyed(*final(map), window),
        forall|j: int|
            0 <= j < disks.entries@.len() ==> spec_keyed_points(
                *final(map),
                (#[trigger] disks.entries@[j].0)@,
            ) == spec_record(
                spec_keyed_points(*old(map), (disks.entries@[j].0)@),
                if record_written {
                    disks.entries@[j].1.written
                } else {
                    disks.entries@[j].1.read
                },
                tick_delta,
                window,
            ),
        forall|q: Seq<char>|
            !disks.contains_key(q) ==> #[trigger] final(map).index(q) == old(map).index(q),
{
    let mut i: usize = 0;
    while i < disks.len()
        invariant
            tick_delta >= 1,
            map.wf(),
            wf_keyed(*map, window),
            disks.wf(),
            i <= disks.entries@.len(),
            forall|j: int|
                0 <= j < i ==> spec_keyed_points(*map, (#[trigger] disks.entries@[j].0)@)
                    == spec_record(
                    spec_keyed_points(*old(map), (disks.entries@[j].0)@),
                    if record_written {
                        disks.entries@[j].1.written
                    } else {
                        disks.entries@[j].1.read
                    },
                    tick_delta,
                    window,
                ),
            forall|q: Seq<char>|
                #[trigger] map.index(q) == old(map).index(q) || (exists|j: int|
                    0 <= j < i && (#[trigger] disks.entries@[j].0)@ == q),
        decreases disks.entries@.len() - i,
    {
        let name = disks.key_at(i);
        let value = if record_written {
            disks.value_at(i).written
        } else {
            disks.value_at(i).read
        };
        let ghost key = (disks.entries@[i as int].0)@;
        proof {
            assert forall|j: int| 0 <= j < i implies (#[trigger] disks.entries@[j].0)@ != key by {
                assert(disks.wf());
            }
            assert(map.index(key) == old(map).index(key));
        }
        record_keyed(map, name, value, tick_delta, window);
        i = i + 1;
    }
    proof {
        assert forall|q: Seq<char>| !disks.contains_key(q) implies #[trigger] final(map).index(q)
            == old(map).index(q) by {
            if map.index(q) != old(map).index(q) {
                let j = choose|j: int|
                    0 <= j < disks.entries@.len() && (#[trigger] disks.entries@[j].0)@ == q;
                lemma_wf_index_at(disks.entries@, j);
            }
        }
    }
}

/// A disk instance the sampler has never observed has no history series,
/// so the page a selection constructs and primes for it shows empty charts;
/// and since sampling is selection-independent, the series appears as soon
/// as the sampler observes the disk, whatever page is active.
pub proof fn lemma_unseen_disk_page_empty(
    page: ResourcePage,
    history: ResourceHistory,
    active: ActivePreview,
)
    requires
        spec_page_primed(page, history, active),
        page is Disk,
        active.name is Some,
        !history.disk_write.contains_key(active.name->Some_0@),
        !history.disk_read.contains_key(active.name->Some_0@),
    ensures
        page->Disk_0.written_chart.data_points.points@.len() == 0,
        page->Disk_0.read_chart.data_points.points@.len() == 0,
{
    assert(spec_keyed_points(history.disk_write, active.name->Some_0@) =~= Seq::<
        crate::history::SeriesEntry,
    >::empty());
    assert(spec_keyed_points(history.disk_read, active.name->Some_0@) =~= Seq::<
        crate::history::SeriesEntry,
    >::empty());
}

/// The top-level state of the monitor.
#[derive(Debug)]
pub struct AppCore {
    pub preferences: Preferences,
    pub tick: u64,
    pub physical_core_count: u32,
    pub logical_core_count: u32,
    pub cpu_brand: String,
    pub sidebar_items: Vec<SidebarItemParent>,
    pub resource_page: ResourcePage,
    pub resource_history: ResourceHistory,
    pub resource_data: ResourceData,
    pub previews: ResourcePreviews,
    pub resources_details: ResourcePages,
    pub active_preview: ActivePreview,
}

impl AppCore {
    /// Every keyed map has distinct keys, and every history series is well
    /// formed for the preferred window: all remaining ages are at most the
    /// window and strictly increase towards the newest point.
    pub open spec fn wf(self) -> bool {
        let w = self.preferences.history_ticks;
        &&& self.resource_data.disks.wf()
        &&& self.previews.disks.wf()
        &&& self.resources_details.disks.wf()
        &&& self.resource_history.disk_write.wf()
        &&& self.resource_history.disk_read.wf()
        &&& wf_series(self.resource_history.cpu.points@, w)
        &&& wf_series(self.resource_history.ram.points@, w)
        &&& wf_series(self.resource_history.swap.points@, w)
        &&& wf_series(self.resource_history.battery_charge.points@, w)
        &&& forall|i: int|
            0 <= i < self.resource_history.logical_cores@.len() ==> wf_series(
                (#[trigger] self.resource_history.logical_cores@[i]).points@,
                w,
            )
        &&& wf_keyed(self.resource_history.disk_write, w)
        &&& wf_keyed(self.resource_history.disk_read, w)
    }

    /// A fresh monitor: tick zero, empty history sized for the core count,
    /// an empty snapshot, and the CPU page displayed.
    pub fn new(physical_core_count: u32, logical_core_count: u32, cpu_brand: String) -> (r: Self)
        ensures
            r.wf(),
            r.tick == 0,
            r.resource_history.last_tick == 0,
            r.physical_core_count == physical_core_count,
            r.logical_core_count == logical_core_count,
            r.cpu_brand == cpu_brand,
            r.sidebar_items@.len() == 0,
            r.resource_history.logical_cores@.len() == logical_core_count,
            r.active_preview.resource == ResourceType::Applications,
            r.active_preview.name is None,
            r.resource_page is Cpu,
            r.preferences.history_ticks == 30,
    {
        let preferences = Preferences::new();
        AppCore {
            preferences,
            tick: 0,
            physical_core_count,
            logical_core_count,
            cpu_brand,
            sidebar_items: Vec::new(),
            resource_page: ResourcePage::Cpu(CpuPage::new(&preferences)),
            resource_history: ResourceHistory::new(logical_core_count),
            resource_data: ResourceData::new(),
            previews: ResourcePreviews::new(),
            resources_details: ResourcePages::new(),
            active_preview: ActivePreview { resource: ResourceType::Applications, name: None },
        }
    }

    /// Fills the sidebar once loading has finished.
    pub fn on_loaded(&mut self)
        ensures
            final(self).sidebar_items@.len() == 6,
            final(self).sidebar_items@[0].resource == ResourceType::Applications,
            final(self).sidebar_items@[1].resource == ResourceType::Processes,
            final(self).sidebar_items@[2].resource == ResourceType::Memory,
            final(self).sidebar_items@[3].resource == ResourceType::Gpu,
            final(self).sidebar_items@[4].resource == ResourceType::Wifi,
            final(self).sidebar_items@[5].resource == ResourceType::Ethernet,
            final(self).tick == old(self).tick,
            final(self).resource_history == old(self).resource_history,
            final(self).resource_data == old(self).resource_data,
            final(self).preferences == old(self).preferences,
            final(self).wf() == old(self).wf(),
    {
        let mut items: Vec<SidebarItemParent> = Vec::new();
        items.push(SidebarItemParent::new(ResourceType::Applications, "Applications".to_owned()));
        items.push(SidebarItemParent::new(ResourceType::Processes, "Processes".to_owned()));
        items.push(SidebarItemParent::new(ResourceType::Memory, "Memory".to_owned()));
        items.push(SidebarItemParent::new(ResourceType::Gpu, "Gpu".to_owned()));
        items.push(SidebarItemParent::new(ResourceType::Wifi, "Wifi".to_owned()));
        items.push(SidebarItemParent::new(ResourceType::Ethernet, "Ethernet".to_owned()));
        self.sidebar_items = items;
    }

    /// Primes the displayed page from the history store: the page's charts
    /// mirror the series for its subject. The store itself is read, never
    /// changed.
    pub fn update_resource_page(&mut self)
        ensures
            spec_page_primed(
                final(self).resource_page,
                final(self).resource_history,
                final(self).active_preview,
            ),
            spec_same_page_kind(final(self).resource_page, old(self).resource_page),
            final(self).resource_history == old(self).resource_history,
            final(self).resource_data == old(self).resource_data,
            final(self).active_preview == old(self).active_preview,
            final(self).preferences == old(self).preferences,
            final(self).tick == old(self).tick,
            final(self).previews == old(self).previews,
            final(self).resources_details == old(self).resources_details,
            final(self).sidebar_items == old(self).sidebar_items,
            final(self).cpu_brand == old(self).cpu_brand,
            final(self).physical_core_count == old(self).physical_core_count,
            final(self).logical_core_count == old(self).logical_core_count,
            final(self).wf() == old(self).wf(),
    {
        match &mut self.resource_page {
            ResourcePage::Cpu(cpu_page) => {
                cpu_page.update_history(&self.resource_history);
            },
            ResourcePage::Memory(memory_page) => {
                memory_page.update_history(&self.resource_history);
            },
            ResourcePage::Disk(disk_page) => {
                disk_page.update_history(&self.active_preview, &self.resource_history);
            },
            ResourcePage::Applications(_) => (),
        }
    }

    /// One full sampling cycle, fired by the timer: remembers the previous
    /// tick, folds the fresh readings into the snapshot, appends one point
    /// per metric to the history store — aging every series by the elapsed
    /// tick delta, so a stalled timer evicts several points at once — and
    /// primes whichever page is displayed. History collection runs for all
    /// resources regardless of the active selection.
    pub fn on_tick(&mut self, sample: &TickSample, current_tick: u64)
        requires
            old(self).wf(),
            old(self).tick < current_tick,
        ensures
            final(self).wf(),
            final(self).tick == current_tick,
            final(self).resource_history.last_tick == old(self).tick,
            final(self).preferences == old(self).preferences,
            final(self).active_preview == old(self).active_preview,
            final(self).sidebar_items == old(self).sidebar_items,
            final(self).cpu_brand == old(self).cpu_brand,
            final(self).physical_core_count == old(self).physical_core_count,
            final(self).logical_core_count == old(self).logical_core_count,
            final(self).resource_data.cpu.cpu_usage_percent == spec_cpu_usage_mean(
                sample.cores@,
                old(self).logical_core_count,
            ),
            final(self).resource_data.cpu.frequency == spec_cpu_freq_mean(
                sample.cores@,
                old(self).logical_core_count,
            ),
            final(self).resource_data.cpu.logical_cores_usage_percents@ == sample.cores@.map_values(
                |c: CoreSample| c.usage_hundredths,
            ),
            final(self).resource_data.memory.ram_usage == sample.ram_usage,
            final(self).resource_data.memory.ram_total == sample.ram_total,
            final(self).resource_data.memory.ram_usage_percent == spec_percent_hundredths(
                sample.ram_usage,
                sample.ram_total,
            ),
            final(self).resource_data.memory.swap_usage == sample.swap_usage,
            final(self).resource_data.memory.swap_total == sample.swap_total,
            final(self).resource_data.memory.swap_usage_percent == spec_percent_hundredths(
                sample.swap_usage,
                sample.swap_total,
            ),
            forall|j: int|
                0 <= j < sample.disks@.len() ==> final(self).resource_data.disks.contains_key(
                    (#[trigger] sample.disks@[j]).name@,
                ),
            forall|q: Seq<char>|
                #[trigger] final(self).resource_data.disks.index(q) == old(self).resource_data.disks.index(q) || (exists|j: int|
                    0 <= j < sample.disks@.len() && (#[trigger] sample.disks@[j]).name@ == q),
            forall|j: int|
                0 <= j < sample.disks@.len() && spec_unique_disk_name(sample.disks@, j) ==> final(self).resource_data.disks.index((#[trigger] sample.disks@[j]).name@) == Some(
                    spec_disk_updated(
                        old(self).resource_data.disks.index(sample.disks@[j].name@),
                        sample.disks@[j],
                    ),
                ),
            forall|k: Seq<char>|
                #[trigger] final(self).resource_data.disks.contains_key(k) ==> final(self).previews.disks.contains_key(k),
            forall|k: Seq<char>|
                old(self).previews.disks.index(k) is Some ==> #[trigger] final(self).previews.disks.index(k) == old(self).previews.disks.index(k),
            ({
                let d = (current_tick - old(self).tick) as u64;
                let w = old(self).preferences.history_ticks;
                &&& final(self).resource_history.cpu.points@ == spec_record(
                    old(self).resource_history.cpu.points@,
                    spec_whole_percent(final(self).resource_data.cpu.cpu_usage_percent),
                    d,
                    w,
                )
                &&& final(self).resource_history.ram.points@ == spec_record(
                    old(self).resource_history.ram.points@,
                    spec_whole_percent(final(self).resource_data.memory.ram_usage_percent),
                    d,
                    w,
                )
                &&& final(self).resource_history.swap.points@ == spec_record(
                    old(self).resource_history.swap.points@,
                    spec_whole_percent(final(self).resource_data.memory.swap_usage_percent),
                    d,
                    w,
                )
                &&& final(self).resource_history.logical_cores@.len() == old(self).resource_history.logical_cores@.len()
                &&& forall|i: int|
                    0 <= i < final(self).resource_history.logical_cores@.len() && i < final(self).resource_data.cpu.logical_cores_usage_percents@.len() ==> (#[trigger] final(self).resource_history.logical_cores@[i]).points@ == spec_record(
                        old(self).resource_history.logical_cores@[i].points@,
                        final(self).resource_data.cpu.logical_cores_usage_percents@[i] / 100,
                        d,
                        w,
                    )
                &&& forall|j: int|
                    0 <= j < final(self).resource_data.disks.entries@.len() ==> spec_keyed_points(
                        final(self).resource_history.disk_write,
                        (#[trigger] final(self).resource_data.disks.entries@[j].0)@,
                    ) == spec_record(
                        spec_keyed_points(
                            old(self).resource_history.disk_write,
                            (final(self).resource_data.disks.entries@[j].0)@,
                        ),
                        final(self).resource_data.disks.entries@[j].1.written,
                        d,
                        w,
                    )
                &&& forall|j: int|
                    0 <= j < final(self).resource_data.disks.entries@.len() ==> spec_keyed_points(
                        final(self).resource_history.disk_read,
                        (#[trigger] final(self).resource_data.disks.entries@[j].0)@,
                    ) == spec_record(
                        spec_keyed_points(
                            old(self).resource_history.disk_read,
                            (final(self).resource_data.disks.entries@[j].0)@,
                        ),
                        final(self).resource_data.disks.entries@[j].1.read,
                        d,
                        w,
                    )
                &&& forall|q: Seq<char>|
                    !final(self).resource_data.disks.contains_key(q) ==> #[trigger] final(self).resource_history.disk_write.index(q) == old(self).resource_history.disk_write.index(q)
                &&& forall|q: Seq<char>|
                    !final(self).resource_data.disks.contains_key(q) ==> #[trigger] final(self).resource_history.disk_read.index(q) == old(self).resource_history.disk_read.index(q)
            }),
            spec_page_primed(
                final(self).resource_page,
                final(self).resource_history,
                final(self).active_preview,
            ),
            spec_same_page_kind(final(self).resource_page, old(self).resource_page),
    {
        let tick_delta = current_tick - self.tick;
        self.resource_history.last_tick = self.tick;
        self.tick = current_tick;
        update_disks(&mut self.resource_data.disks, &sample.disks);
        sync_disk_previews(&mut self.previews.disks, &self.resource_data.disks);
        self.resource_data.cpu.update(&sample.cores, self.logical_core_count);
        self.resource_data.memory.update(
            sample.ram_usage,
            sample.ram_total,
            sample.swap_usage,
            sample.swap_total,
        );
        let window = self.preferences.history_ticks;
        let cpu_value = whole_percent(&self.resource_data.cpu.cpu_usage_percent);
        self.resource_history.cpu.record(cpu_value, tick_delta, window);
        let ram_value = whole_percent(&self.resource_data.memory.ram_usage_percent);
        self.resource_history.ram.record(ram_value, tick_delta, window);
        let swap_value = whole_percent(&self.resource_data.memory.swap_usage_percent);
        self.resource_history.swap.record(swap_value, tick_delta, window);
        record_core_history(
            &mut self.resource_history.logical_cores,
            &self.resource_data.cpu.logical_cores_usage_percents,
            tick_delta,
            window,
        );
        record_disk_history(
            &mut self.resource_history.disk_write,
            &self.resource_data.disks,
            true,
            tick_delta,
            window,
        );
        record_disk_history(
            &mut self.resource_history.disk_read,
            &self.resource_data.disks,
            false,
            tick_delta,
            window,
        );
        self.update_resource_page();
    }

    /// Routes a page message to the displayed page; a message for a page
    /// that is not displayed falls through without effect.
    pub fn on_page_message(&mut self, message: ResourcePageMessage)
        ensures
            final(self).resource_history == old(self).resource_history,
            final(self).resource_data == old(self).resource_data,
            final(self).active_preview == old(self).active_preview,
            final(self).preferences == old(self).preferences,
            final(self).tick == old(self).tick,
            final(self).previews == old(self).previews,
            final(self).sidebar_items == old(self).sidebar_items,
            final(self).wf() == old(self).wf(),
            match message {
                ResourcePageMessage::CpuPageMessage(m) => match (
                    old(self).resource_page,
                    final(self).resource_page,
                ) {
                    (ResourcePage::Cpu(p0), ResourcePage::Cpu(p1)) => {
                        &&& p1.cpu_chart == p0.cpu_chart
                        &&& p1.logical_core_charts == p0.logical_core_charts
                        &&& p1.show_logical_cores == (match m {
                            CpuPageMessage::ToggleLogicalCores(new_state) => new_state,
                            _ => p0.show_logical_cores,
                        })
                    },
                    _ => final(self).resource_page == old(self).resource_page,
                },
                _ => final(self).resource_page == old(self).resource_page,
            },
    {
        match message {
            ResourcePageMessage::CpuPageMessage(m) => {
                match &mut self.resource_page {
                    ResourcePage::Cpu(page) => page.update(m),
                    _ => (),
                }
            },
            ResourcePageMessage::MemoryPageMessage(m) => {
                match &mut self.resource_page {
                    ResourcePage::Memory(page) => page.update(m),
                    _ => (),
                }
            },
            ResourcePageMessage::DiskPageMessage(m) => {
                match &mut self.resource_page {
                    ResourcePage::Disk(page) => page.update(m),
                    _ => (),
                }
            },
            ResourcePageMessage::ApplicationsPageMessage(m) => {
                match &mut self.resource_page {
                    ResourcePage::Applications(page) => page.update(m),
                    _ => (),
                }
            },
        }
    }

    /// Drives the selection state machine: switches the displayed page to
    /// the selected resource, constructing the page state fresh where the
    /// kind carries any, and primes it from the already accumulated history.
    /// Selection never disturbs the snapshot or the history store, so a
    /// disk the sampler has never observed simply shows an empty chart.
    pub fn select_resource(&mut self, active_preview: ActivePreview)
        ensures
            final(self).active_preview == active_preview,
            final(self).resource_history == old(self).resource_history,
            final(self).resource_data == old(self).resource_data,
            final(self).preferences == old(self).preferences,
            final(self).tick == old(self).tick,
            final(self).wf() == old(self).wf(),
            spec_page_primed(
                final(self).resource_page,
                final(self).resource_history,
                final(self).active_preview,
            ),
            match active_preview.resource {
                ResourceType::Cpu => final(self).resource_page is Cpu,
                ResourceType::Memory => final(self).resource_page is Memory,
                ResourceType::Disk => final(self).resource_page is Disk,
                _ => spec_same_page_kind(final(self).resource_page, old(self).resource_page),
            },
    {
        match active_preview.resource {
            ResourceType::Cpu => {
                self.resource_page = ResourcePage::Cpu(CpuPage::new(&self.preferences));
            },
            ResourceType::Disk => {
                self.resource_page = ResourcePage::Disk(DiskPage::new(&self.preferences));
            },
            ResourceType::Memory => {
                self.resource_page = ResourcePage::Memory(MemoryPage::new(&self.preferences));
            },
            _ => (),
        }
        self.active_preview = active_preview;
        self.update_resource_page();
    }
}

} // verus!
