use hyprselect::geometry::{Monitor, WindowRecord};
use hyprselect::indexer::{build_regions, find_window, index_client_id};

fn monitor(id: i64, x: i32, y: i32, width: u16, height: u16, active_workspace: i32) -> Monitor {
    Monitor { id, x, y, width, height, active_workspace }
}

fn window(
    address: &str,
    at: (i16, i16),
    size: (i16, i16),
    workspace: i32,
    mapped: bool,
    monitor: Option<i64>,
) -> WindowRecord {
    WindowRecord {
        address: String::from(address),
        at,
        size,
        workspace,
        mapped,
        monitor,
        title: String::from("title"),
        class: String::from("class"),
        initial_title: String::from("initial title"),
        initial_class: String::from("initial class"),
    }
}

#[test]
fn region_is_monitor_relative() {
    let monitors = vec![monitor(7, 100, 50, 1920, 1080, 3)];
    let clients = vec![window("0x1", (150, 80), (400, 300), 3, true, Some(7))];
    let regions = build_regions(&clients, &monitors);
    assert_eq!(regions.len(), 1);
    assert_eq!(regions[0].at, (50, 30));
    assert_eq!(regions[0].size, (400, 300));
    assert_eq!(regions[0].monitor, Some(7));
    assert_eq!(regions[0].client_id, "0x1");
}

#[test]
fn region_size_is_window_size_unchanged() {
    let monitors = vec![monitor(0, 0, 0, 1920, 1080, 1)];
    let clients = vec![window("0x2", (-20, 10), (123, 456), 1, true, Some(0))];
    let regions = build_regions(&clients, &monitors);
    assert_eq!(regions.len(), 1);
    assert_eq!(regions[0].at, (-20, 10));
    assert_eq!(regions[0].size, (123, 456));
}

#[test]
fn unresolvable_monitor_keeps_absolute_coordinates() {
    let monitors = vec![monitor(0, 0, 0, 1920, 1080, 1)];
    let clients = vec![window("0x3", (5, 6), (10, 10), 1, true, Some(99))];
    let regions = build_regions(&clients, &monitors);
    assert_eq!(regions.len(), 1);
    assert_eq!(regions[0].at, (5, 6));
    assert_eq!(regions[0].monitor, None);
}

#[test]
fn window_without_monitor_keeps_absolute_coordinates() {
    let monitors = vec![monitor(0, 0, 0, 1920, 1080, 1)];
    let clients = vec![window("0x4", (5, 6), (10, 10), 1, true, None)];
    let regions = build_regions(&clients, &monitors);
    assert_eq!(regions.len(), 1);
    assert_eq!(regions[0].monitor, None);
}

#[test]
fn unmapped_window_gets_no_region() {
    let monitors = vec![monitor(0, 0, 0, 1920, 1080, 1)];
    let clients = vec![
        window("0x5", (0, 0), (10, 10), 1, false, Some(0)),
        window("0x6", (0, 0), (10, 10), 1, true, Some(0)),
    ];
    let regions = build_regions(&clients, &monitors);
    assert_eq!(regions.len(), 1);
    assert_eq!(regions[0].client_id, "0x6");
}

#[test]
fn inactive_workspace_window_gets_no_region() {
    let monitors = vec![monitor(0, 0, 0, 1920, 1080, 1)];
    let clients = vec![
        window("0x7", (0, 0), (10, 10), 2, true, Some(0)),
        window("0x8", (0, 0), (10, 10), 1, true, Some(0)),
    ];
    let regions = build_regions(&clients, &monitors);
    assert_eq!(regions.len(), 1);
    assert_eq!(regions[0].client_id, "0x8");
}

#[test]
fn index_lookup_finds_record_by_address() {
    let clients = vec![
        window("0xa", (0, 0), (1, 1), 1, true, None),
        window("0xb", (2, 2), (3, 3), 1, true, None),
    ];
    let index = index_client_id(&clients);
    let found = find_window(&index, &String::from("0xb")).expect("record should be found");
    assert_eq!(found.at, (2, 2));
    assert!(find_window(&index, &String::from("0xc")).is_none());
}

#[test]
fn index_keeps_last_record_per_address() {
    let mut first = window("0xdup", (1, 1), (1, 1), 1, true, None);
    first.title = String::from("first");
    let mut second = window("0xdup", (9, 9), (9, 9), 1, true, None);
    second.title = String::from("second");
    let clients = vec![first, second];
    let index = index_client_id(&clients);
    assert_eq!(index.len(), 1);
    let found = find_window(&index, &String::from("0xdup")).expect("record should be found");
    assert_eq!(found.title, "second");
    assert_eq!(found.at, (9, 9));
}
