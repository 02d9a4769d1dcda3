use ctasks::resource_data::{
    percent_hundredths, CoreSample, CpuData, DiskData, DiskKind, DiskSample, MemoryData,
};

fn core_sample(usage_hundredths: u64, frequency: u64) -> CoreSample {
    CoreSample { usage_hundredths, frequency }
}

fn disk_sample(name: &str, total: u64, available: u64) -> DiskSample {
    DiskSample {
        name: name.to_string(),
        read: 0,
        written: 0,
        total_space: total,
        available_space: available,
        kind: DiskKind::Ssd,
        is_removable: false,
    }
}

#[test]
fn cpu_aggregate_is_the_mean_of_the_cores() {
    let mut cpu = CpuData::new();
    cpu.update(&vec![core_sample(1000, 2400), core_sample(2000, 3600), core_sample(3000, 3000)], 3);
    assert_eq!(cpu.cpu_usage_percent, Some(2000));
    assert_eq!(cpu.frequency, Some(3000));
    assert_eq!(cpu.logical_cores_usage_percents, vec![1000, 2000, 3000]);
    assert_eq!(cpu.logical_cores_frequencies, vec![2400, 3600, 3000]);
}

#[test]
fn zero_cores_yield_no_data() {
    let mut cpu = CpuData::new();
    cpu.update(&vec![], 0);
    assert_eq!(cpu.cpu_usage_percent, None);
    assert_eq!(cpu.frequency, None);
}

#[test]
fn mean_truncates_like_integer_division() {
    let mut cpu = CpuData::new();
    cpu.update(&vec![core_sample(100, 0), core_sample(101, 0)], 2);
    assert_eq!(cpu.cpu_usage_percent, Some(100));
}

#[test]
fn memory_percent_in_hundredths() {
    let mut memory = MemoryData::new();
    memory.update(50, 100, 25, 200);
    assert_eq!(memory.ram_usage_percent, Some(5000));
    assert_eq!(memory.swap_usage_percent, Some(1250));
    assert_eq!(memory.ram_usage, 50);
    assert_eq!(memory.ram_total, 100);
}

#[test]
fn zero_total_memory_yields_no_percent() {
    let mut memory = MemoryData::new();
    memory.update(50, 0, 0, 0);
    assert_eq!(memory.ram_usage_percent, None);
    assert_eq!(memory.swap_usage_percent, None);
}

#[test]
fn percent_helper_exact_value() {
    assert_eq!(percent_hundredths(1, 3), Some(3333));
    assert_eq!(percent_hundredths(0, 7), Some(0));
    assert_eq!(percent_hundredths(7, 7), Some(10000));
    assert_eq!(percent_hundredths(1, 0), None);
}

#[test]
fn disk_update_computes_used_space() {
    let mut d = DiskData::new();
    d.update(&disk_sample("sda", 1000, 400));
    assert_eq!(d.name, "sda");
    assert_eq!(d.space_total, 1000);
    assert_eq!(d.space_used, 600);
    assert_eq!(d.kind, DiskKind::Ssd);
}

#[test]
fn disk_update_guards_inconsistent_space_report() {
    let mut d = DiskData::new();
    // More available than total: used space degrades to zero instead of
    // wrapping around.
    d.update(&disk_sample("sda", 100, 400));
    assert_eq!(d.space_used, 0);
}

#[test]
fn disk_update_keeps_the_page_local_detail() {
    let mut d = DiskData::new();
    d.update_in_depth(true);
    d.update(&disk_sample("sda", 10, 5));
    assert_eq!(d.in_depth.map(|i| i.is_removable), Some(true));
}
