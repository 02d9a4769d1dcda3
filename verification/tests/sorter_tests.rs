use ctasks::pages::{ProcessAction, ProcessesPage, ProcessesPageMessage};
use ctasks::preferences::Preferences;
use ctasks::resource_data::{ProcessData, ProcessesData};
use ctasks::sorter::SortDirection;

fn row(name: &str, cpu: u64, mem: u64, read: u64, written: u64) -> ProcessData {
    ProcessData {
        name: name.to_string(),
        pid: 1,
        parent_pid: None,
        memory_usage: mem,
        cpu_usage_hundredths: cpu,
        disk_read: read,
        disk_written: written,
    }
}

fn names(data: &ProcessesData) -> Vec<String> {
    data.in_depth.processes.iter().map(|p| p.name.clone()).collect()
}

#[test]
fn name_sort_is_case_insensitive() {
    let mut data = ProcessesData::new();
    data.sort_direction = SortDirection::Ascending;
    data.update_in_depth(vec![row("Beta", 0, 0, 0, 0), row("alpha", 0, 0, 0, 0)]);
    // Raw byte order would put "Beta" first; case folding puts "alpha" first.
    assert_eq!(names(&data), vec!["alpha", "Beta"]);
}

#[test]
fn default_direction_is_descending() {
    let mut data = ProcessesData::new();
    data.sort_index = 2;
    data.update_in_depth(vec![
        row("a", 0, 10, 0, 0),
        row("b", 0, 30, 0, 0),
        row("c", 0, 20, 0, 0),
    ]);
    assert_eq!(names(&data), vec!["b", "c", "a"]);
}

#[test]
fn ties_keep_original_order_ascending() {
    let mut data = ProcessesData::new();
    data.sort_index = 1;
    data.sort_direction = SortDirection::Ascending;
    data.update_in_depth(vec![
        row("first", 500, 0, 0, 0),
        row("second", 500, 0, 0, 0),
        row("third", 100, 0, 0, 0),
    ]);
    // The stable sort keeps "first" before "second" on the tie.
    assert_eq!(names(&data), vec!["third", "first", "second"]);
}

#[test]
fn ties_come_out_reversed_when_descending() {
    let mut data = ProcessesData::new();
    data.sort_index = 1;
    data.sort_direction = SortDirection::Descending;
    data.update_in_depth(vec![
        row("first", 500, 0, 0, 0),
        row("second", 500, 0, 0, 0),
        row("third", 100, 0, 0, 0),
    ]);
    // Descending is a full reversal of the ascending result, so the tied
    // rows come out in reverse original order.
    assert_eq!(names(&data), vec!["second", "first", "third"]);
}

#[test]
fn direction_toggle_round_trip_restores_the_first_order() {
    let mut page = ProcessesPage::new(&Preferences::new());
    let mut data = ProcessesData::new();
    data.update_in_depth(vec![
        row("a", 300, 0, 0, 0),
        row("b", 100, 0, 0, 0),
        row("c", 200, 0, 0, 0),
    ]);
    // Select the CPU column: direction resets to descending.
    page.update(ProcessesPageMessage::SortByIndex(1), &mut data);
    let first = names(&data);
    assert_eq!(first, vec!["a", "c", "b"]);
    // Toggle to ascending, then back to descending.
    page.update(ProcessesPageMessage::SwitchSortDirection, &mut data);
    assert_eq!(names(&data), vec!["b", "c", "a"]);
    page.update(ProcessesPageMessage::SwitchSortDirection, &mut data);
    assert_eq!(names(&data), first);
}

#[test]
fn selecting_another_column_resets_the_direction() {
    let mut page = ProcessesPage::new(&Preferences::new());
    let mut data = ProcessesData::new();
    data.update_in_depth(vec![row("a", 300, 5, 0, 0), row("b", 100, 9, 0, 0)]);
    page.update(ProcessesPageMessage::SortByIndex(1), &mut data);
    page.update(ProcessesPageMessage::SwitchSortDirection, &mut data);
    assert_eq!(data.sort_direction, SortDirection::Ascending);
    // Selecting a different column resets to descending, whatever was
    // toggled before.
    page.update(ProcessesPageMessage::SortByIndex(2), &mut data);
    assert_eq!(data.sort_direction, SortDirection::Descending);
    assert_eq!(data.sort_index, 2);
    assert_eq!(names(&data), vec!["b", "a"]);
}

#[test]
fn selecting_the_current_column_is_a_no_op() {
    let mut page = ProcessesPage::new(&Preferences::new());
    let mut data = ProcessesData::new();
    data.update_in_depth(vec![row("a", 300, 0, 0, 0), row("b", 100, 0, 0, 0)]);
    page.update(ProcessesPageMessage::SortByIndex(1), &mut data);
    page.update(ProcessesPageMessage::SwitchSortDirection, &mut data);
    let before = names(&data);
    page.update(ProcessesPageMessage::SortByIndex(1), &mut data);
    assert_eq!(data.sort_direction, SortDirection::Ascending);
    assert_eq!(names(&data), before);
}

#[test]
fn kill_request_becomes_an_action() {
    let mut page = ProcessesPage::new(&Preferences::new());
    let mut data = ProcessesData::new();
    let action = page.update(ProcessesPageMessage::KillProcess(1234), &mut data);
    assert_eq!(action, Some(ProcessAction::Kill(1234)));
}

#[test]
fn disk_columns_sort_numerically() {
    let mut data = ProcessesData::new();
    data.sort_index = 3;
    data.sort_direction = SortDirection::Ascending;
    data.update_in_depth(vec![
        row("a", 0, 0, 900, 1),
        row("b", 0, 0, 100, 2),
        row("c", 0, 0, 500, 3),
    ]);
    assert_eq!(names(&data), vec!["b", "c", "a"]);
    data.sort_index = 4;
    data.sort_by_index();
    assert_eq!(names(&data), vec!["a", "b", "c"]);
}
