use ctasks::details::{
    DetailsTickInput, DiskDetails, MemoryDetails, ProcessesDetailsProcs, ProcessDetails,
    ResourceDetails, ResourceDetailsMessage,
};
use ctasks::history::ResourceHistory;
use ctasks::pages::ProcessAction;
use ctasks::preferences::Preferences;
use ctasks::processes_table::TableRow;
use ctasks::resource_data::{DiskData, DiskKind, DiskSample, ProcessSample};
use ctasks::selection::ResourceType;
use ctasks::sorter::SortDirection;

fn process_sample(name: &str, cpu: u64) -> ProcessSample {
    ProcessSample {
        name: name.to_string(),
        pid: 7,
        parent_pid: None,
        memory_usage: 0,
        cpu_usage_hundredths: cpu,
        disk_read: 0,
        disk_written: 0,
    }
}

fn tick_input(processes: Vec<ProcessSample>, logical_cpu_count: u32) -> DetailsTickInput {
    DetailsTickInput {
        cpu_usage_percent: Some(1500),
        physical_cpu_count: 2,
        logical_cpu_count,
        cpu_brand: "test cpu".to_string(),
        cpu_frequency: Some(2400),
        logical_cores_usage_percents: vec![],
        logical_cores_frequencies: vec![],
        processes: processes,
    }
}

#[test]
fn process_usage_is_normalized_by_core_count() {
    let preferences = Preferences::new();
    let mut details = ResourceDetails::new(&preferences, ResourceType::Processes);
    let history = ResourceHistory::new(4);
    details.on_tick(
        tick_input(vec![process_sample("worker", 800)], 4),
        &history,
        &preferences,
    );
    let pd = details.processes_details.as_ref().unwrap();
    assert_eq!(pd.processes.len(), 1);
    assert_eq!(pd.processes[0].cpu_usage_hundredths, 200);
}

#[test]
fn zero_core_count_degrades_to_zero_usage() {
    let preferences = Preferences::new();
    let mut details = ResourceDetails::new(&preferences, ResourceType::Processes);
    let history = ResourceHistory::new(0);
    details.on_tick(
        tick_input(vec![process_sample("worker", 800)], 0),
        &history,
        &preferences,
    );
    let pd = details.processes_details.as_ref().unwrap();
    assert_eq!(pd.processes[0].cpu_usage_hundredths, 0);
}

#[test]
fn fresh_rows_arrive_sorted_by_the_current_spec() {
    let preferences = Preferences::new();
    let mut details = ResourceDetails::new(&preferences, ResourceType::Processes);
    let history = ResourceHistory::new(1);
    // Default sort: column 0 (name), descending.
    details.on_tick(
        tick_input(
            vec![process_sample("alpha", 0), process_sample("zeta", 0), process_sample("mid", 0)],
            1,
        ),
        &history,
        &preferences,
    );
    let names: Vec<String> = details
        .processes_details
        .as_ref()
        .unwrap()
        .processes
        .iter()
        .map(|p| p.name.clone())
        .collect();
    assert_eq!(names, vec!["zeta", "mid", "alpha"]);
}

#[test]
fn sort_message_resets_the_direction() {
    let preferences = Preferences::new();
    let mut details = ResourceDetails::new(&preferences, ResourceType::Processes);
    let r = details.update(ResourceDetailsMessage::SwitchSortDirection);
    assert_eq!(r, None);
    assert_eq!(
        details.processes_details.as_ref().unwrap().sort_direction,
        SortDirection::Ascending
    );
    details.update(ResourceDetailsMessage::SortByIndex(3));
    let pd = details.processes_details.as_ref().unwrap();
    assert_eq!(pd.sort_index, 3);
    assert_eq!(pd.sort_direction, SortDirection::Descending);
}

#[test]
fn kill_message_becomes_an_action() {
    let preferences = Preferences::new();
    let mut details = ResourceDetails::new(&preferences, ResourceType::Processes);
    let r = details.update(ResourceDetailsMessage::KillProcessId(4321));
    assert_eq!(r, Some(ProcessAction::Kill(4321)));
}

#[test]
fn toggling_logical_cores_is_remembered() {
    let preferences = Preferences::new();
    let mut details = ResourceDetails::new(&preferences, ResourceType::Cpu);
    assert!(!details.show_logical_cores);
    details.update(ResourceDetailsMessage::ToggleLogicalCores(true));
    assert!(details.show_logical_cores);
}

#[test]
fn memory_details_take_over_the_readings() {
    let mut md = MemoryDetails::new();
    md.on_tick(1, 2, 3, 4);
    assert_eq!((md.ram_usage, md.ram_total, md.swap_usage, md.swap_total), (1, 2, 3, 4));
}

#[test]
fn disk_details_mirror_the_snapshot() {
    let preferences = Preferences::new();
    let mut dd = DiskData::new();
    dd.update(&DiskSample {
        name: "sda".to_string(),
        read: 5,
        written: 6,
        total_space: 100,
        available_space: 40,
        kind: DiskKind::Hdd,
        is_removable: false,
    });
    dd.update_in_depth(true);
    let mut page = DiskDetails::new(&preferences);
    page.on_tick(&dd);
    assert_eq!(page.name, "sda");
    assert_eq!(page.read, 5);
    assert_eq!(page.written, 6);
    assert_eq!(page.space_used, 60);
    assert!(page.is_removable);
}

#[test]
fn detail_sorter_matches_the_table_sorter() {
    let mut rows = vec![
        ProcessDetails {
            id: 1,
            name: "b".to_string(),
            cpu_usage_hundredths: 100,
            memory_usage: 0,
            disk_read: 0,
            disk_written: 0,
        },
        ProcessDetails {
            id: 2,
            name: "a".to_string(),
            cpu_usage_hundredths: 300,
            memory_usage: 0,
            disk_read: 0,
            disk_written: 0,
        },
    ];
    ProcessesDetailsProcs::sort_by_index(&mut rows, 1, &SortDirection::Descending);
    assert_eq!(rows[0].id, 2);
    ProcessesDetailsProcs::sort_by_index(&mut rows, 1, &SortDirection::Ascending);
    assert_eq!(rows[0].id, 1);
}

#[test]
fn generated_rows_disable_every_fifth() {
    assert!(TableRow::generate(0).is_enabled);
    assert!(TableRow::generate(3).is_enabled);
    assert!(!TableRow::generate(4).is_enabled);
    assert!(!TableRow::generate(9).is_enabled);
    assert_eq!(TableRow::generate(7).notes, "");
}
