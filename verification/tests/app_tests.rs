use ctasks::app::{AppCore, CustomThemeChoice, ResourcePage, ResourcePageMessage, TickSample};
use ctasks::pages::CpuPageMessage;
use ctasks::history::SeriesEntry;
use ctasks::resource_data::{CoreSample, DiskKind, DiskSample};
use ctasks::selection::{ActivePreview, ResourceType};
use ctasks::sidebar::SidebarItemParent;

fn sample_with_disk(name: &str, written: u64, read: u64) -> TickSample {
    TickSample {
        cores: vec![
            CoreSample { usage_hundredths: 2000, frequency: 2400 },
            CoreSample { usage_hundredths: 4000, frequency: 2600 },
        ],
        ram_usage: 50,
        ram_total: 200,
        swap_usage: 10,
        swap_total: 100,
        disks: vec![DiskSample {
            name: name.to_string(),
            read,
            written,
            total_space: 1000,
            available_space: 600,
            kind: DiskKind::Ssd,
            is_removable: false,
        }],
    }
}

fn disk_selection(name: &str) -> ActivePreview {
    ActivePreview { resource: ResourceType::Disk, name: Some(name.to_string()) }
}

#[test]
fn theme_defaults_to_dark() {
    assert!(matches!(CustomThemeChoice::from_system(), CustomThemeChoice::Dark));
}

#[test]
fn a_tick_populates_every_history_series() {
    let mut app = AppCore::new(2, 2, "test cpu".to_string());
    app.on_tick(&sample_with_disk("sda", 77, 55), 1);

    // Mean usage is 3000 hundredths = 30 percent; history keeps whole
    // percents with the full window as remaining age.
    assert_eq!(app.resource_history.cpu.points, vec![SeriesEntry {
        remaining_age: 30,
        value: 30,
    }]);
    // RAM 50/200 = 25%, swap 10/100 = 10%.
    assert_eq!(app.resource_history.ram.points[0].value, 25);
    assert_eq!(app.resource_history.swap.points[0].value, 10);
    // Per-core series hold each core's own percent.
    assert_eq!(app.resource_history.logical_cores[0].points[0].value, 20);
    assert_eq!(app.resource_history.logical_cores[1].points[0].value, 40);
    // The disk series were created on first observation.
    let pos = app.resource_history.disk_write.position(&"sda".to_string());
    assert!(pos.is_some());
    let series = app.resource_history.disk_write.value_at(pos.unwrap());
    assert_eq!(series.points[0].value, 77);
}

#[test]
fn a_stalled_timer_ages_by_the_full_delta() {
    let mut app = AppCore::new(2, 2, "test cpu".to_string());
    app.on_tick(&sample_with_disk("sda", 0, 0), 1);
    // The next cycle arrives six ticks later: the old point ages by six.
    app.on_tick(&sample_with_disk("sda", 0, 0), 7);
    assert_eq!(app.resource_history.cpu.points.len(), 2);
    assert_eq!(app.resource_history.cpu.points[0].remaining_age, 24);
    assert_eq!(app.resource_history.cpu.points[1].remaining_age, 30);
    assert_eq!(app.resource_history.last_tick, 1);
    assert_eq!(app.tick, 7);
}

#[test]
fn selecting_an_unseen_disk_shows_an_empty_page() {
    let mut app = AppCore::new(2, 2, "test cpu".to_string());
    app.select_resource(disk_selection("ghost-disk"));
    match &app.resource_page {
        ResourcePage::Disk(p) => {
            assert!(p.written_chart.data_points.points.is_empty());
            assert!(p.read_chart.data_points.points.is_empty());
        },
        _ => panic!("expected the disk page"),
    }
}

#[test]
fn history_collects_for_a_disk_while_another_page_is_active() {
    let mut app = AppCore::new(2, 2, "test cpu".to_string());
    app.select_resource(ActivePreview { resource: ResourceType::Cpu, name: None });
    assert!(matches!(app.resource_page, ResourcePage::Cpu(_)));

    // The sampler observes the disk while the CPU page is displayed.
    app.on_tick(&sample_with_disk("sda", 11, 22), 1);
    app.on_tick(&sample_with_disk("sda", 33, 44), 2);

    // Switching to the disk page immediately shows the accumulated history.
    app.select_resource(disk_selection("sda"));
    match &app.resource_page {
        ResourcePage::Disk(p) => {
            let written: Vec<u64> = p.written_chart.data_points.points.iter().map(|e| e.value).collect();
            assert_eq!(written, vec![11, 33]);
            let read: Vec<u64> = p.read_chart.data_points.points.iter().map(|e| e.value).collect();
            assert_eq!(read, vec![22, 44]);
        },
        _ => panic!("expected the disk page"),
    }
}

#[test]
fn a_tick_creates_a_preview_per_disk() {
    let mut app = AppCore::new(2, 2, "test cpu".to_string());
    app.on_tick(&sample_with_disk("sda", 0, 0), 1);
    assert!(app.previews.disks.position(&"sda".to_string()).is_some());
    // The disk snapshot entry carries the sampled values.
    let pos = app.resource_data.disks.position(&"sda".to_string()).unwrap();
    let dd = app.resource_data.disks.value_at(pos);
    assert_eq!(dd.space_total, 1000);
    assert_eq!(dd.space_used, 400);
}

#[test]
fn the_cpu_page_is_primed_on_tick() {
    let mut app = AppCore::new(2, 2, "test cpu".to_string());
    app.select_resource(ActivePreview { resource: ResourceType::Cpu, name: None });
    app.on_tick(&sample_with_disk("sda", 0, 0), 1);
    match &app.resource_page {
        ResourcePage::Cpu(p) => {
            assert_eq!(p.cpu_chart.data_points.points.len(), 1);
            assert_eq!(p.cpu_chart.data_points.points[0].value, 30);
        },
        _ => panic!("expected the cpu page"),
    }
}

#[test]
fn page_messages_reach_the_displayed_page() {
    let mut app = AppCore::new(2, 2, "test cpu".to_string());
    app.select_resource(ActivePreview { resource: ResourceType::Cpu, name: None });
    app.on_page_message(ResourcePageMessage::CpuPageMessage(
        CpuPageMessage::ToggleLogicalCores(true),
    ));
    match &app.resource_page {
        ResourcePage::Cpu(p) => assert!(p.show_logical_cores),
        _ => panic!("expected the cpu page"),
    }
    // A message for a page that is not displayed falls through.
    app.select_resource(ActivePreview { resource: ResourceType::Memory, name: None });
    app.on_page_message(ResourcePageMessage::CpuPageMessage(
        CpuPageMessage::ToggleLogicalCores(true),
    ));
    assert!(matches!(app.resource_page, ResourcePage::Memory(_)));
}

#[test]
fn loaded_sidebar_lists_the_resources() {
    let mut app = AppCore::new(2, 2, "test cpu".to_string());
    app.on_loaded();
    assert_eq!(app.sidebar_items.len(), 6);
    assert_eq!(app.sidebar_items[0].header, "Applications");
    assert_eq!(app.sidebar_items[2].resource, ResourceType::Memory);
}

#[test]
fn sidebar_memory_metric_formats_the_percent() {
    let mut item = SidebarItemParent::new(ResourceType::Memory, "Memory".to_string());
    item.on_tick(0, Some(1234), 0, 0);
    assert_eq!(item.usage_percent, Some(1234));
    assert_eq!(item.metric.as_deref(), Some("12.3%"));
}

#[test]
fn sidebar_memory_metric_degrades_to_no_data() {
    let mut item = SidebarItemParent::new(ResourceType::Memory, "Memory".to_string());
    item.on_tick(0, None, 0, 0);
    assert_eq!(item.usage_percent, None);
    assert_eq!(item.metric, None);
}

#[test]
fn sidebar_process_count_and_network_totals() {
    let mut procs = SidebarItemParent::new(ResourceType::Processes, "Processes".to_string());
    procs.on_tick(42, None, 0, 0);
    assert_eq!(procs.metric.as_deref(), Some("42"));

    let mut wifi = SidebarItemParent::new(ResourceType::Wifi, "Wifi".to_string());
    wifi.on_tick(0, None, 10, 20);
    assert_eq!(wifi.metric.as_deref(), Some("10 20"));
}
