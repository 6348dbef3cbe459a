//! Tests of grid geometry, scroll state and action-list checks.

use yas_lock::action::{is_sorted_by_target, LockAction, LockActionType};
use yas_lock::config::{AritfactLockConfig, RelicLockConfig};
use yas_lock::geometry::{GridGeometry, ScrollState};

fn geometry(columns: usize, visible_rows: usize, total_items: usize) -> GridGeometry {
    GridGeometry { columns, visible_rows, total_items }
}

#[test]
fn total_rows_is_ceiling() {
    assert_eq!(geometry(8, 5, 37).total_rows(), 5);
    assert_eq!(geometry(8, 5, 40).total_rows(), 5);
    assert_eq!(geometry(8, 5, 41).total_rows(), 6);
    assert_eq!(geometry(8, 5, 0).total_rows(), 0);
    assert_eq!(geometry(1, 1, 7).total_rows(), 7);
}

#[test]
fn page_window_of_unscrolled_grid() {
    let g = geometry(8, 5, 37);
    let s = ScrollState { scrolled_rows: 0, start_row: 0 };
    assert_eq!(s.start_item(&g), 0);
    assert_eq!(s.end_item(&g), 37);
}

#[test]
fn page_window_clamps_at_total_items() {
    let g = geometry(8, 5, 100);
    let s = ScrollState { scrolled_rows: 0, start_row: 0 };
    assert_eq!(s.end_item(&g), 40);
    let s2 = ScrollState { scrolled_rows: 10, start_row: 0 };
    assert_eq!(s2.start_item(&g), 80);
    assert_eq!(s2.end_item(&g), 100);
}

#[test]
fn cell_of_maps_page_offset_to_row_and_column() {
    let g = geometry(8, 5, 100);
    let s = ScrollState { scrolled_rows: 0, start_row: 0 };
    assert_eq!(s.cell_of(&g, 30), (3, 6));
    assert_eq!(s.cell_of(&g, 0), (0, 0));
    let s2 = ScrollState { scrolled_rows: 5, start_row: 0 };
    assert_eq!(s2.cell_of(&g, 70), (3, 6));
    let s3 = ScrollState { scrolled_rows: 5, start_row: 2 };
    // start_item = 8 * 7 = 56; item 60 sits at offset 4 in row 2 + 0
    assert_eq!(s3.cell_of(&g, 60), (2, 4));
}

#[test]
fn sortedness_check_accepts_sorted_and_rejects_unsorted() {
    let sorted = vec![
        LockAction { target: 1, type_: LockActionType::Lock },
        LockAction { target: 1, type_: LockActionType::Unlock },
        LockAction { target: 9, type_: LockActionType::Flip },
    ];
    assert!(is_sorted_by_target(&sorted));
    let unsorted = vec![
        LockAction { target: 9, type_: LockActionType::Lock },
        LockAction { target: 1, type_: LockActionType::Flip },
    ];
    assert!(!is_sorted_by_target(&unsorted));
    assert!(is_sorted_by_target(&vec![]));
}

#[test]
fn config_defaults_match_the_tool_variants() {
    let a = AritfactLockConfig::default();
    assert_eq!(a.select_time, 0);
    assert_eq!(a.click_time, 0);
    assert!(!a.verbose);
    let r = RelicLockConfig::default();
    assert_eq!(r.select_time, 100);
    assert_eq!(r.click_time, 20);
    assert!(!r.verbose);
}
