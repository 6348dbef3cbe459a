//! Scenario tests that drive the pagination-and-toggle engine with scripted
//! driver events.

use yas_lock::action::{LockAction, LockActionType};
use yas_lock::engine::{Command, Engine, Event, Phase, RunOutcome, ScrollResult};
use yas_lock::geometry::GridGeometry;

fn geometry(columns: usize, visible_rows: usize, total_items: usize) -> GridGeometry {
    GridGeometry { columns, visible_rows, total_items }
}

fn action(target: usize, type_: LockActionType) -> LockAction {
    LockAction { target, type_ }
}

#[test]
fn last_valid_target_is_accepted() {
    let g = geometry(8, 5, 37);
    assert!(Engine::new(g, vec![action(36, LockActionType::Flip)], false).is_ok());
}

#[test]
fn target_at_total_items_is_a_configuration_error() {
    let g = geometry(8, 5, 37);
    assert!(Engine::new(g, vec![action(37, LockActionType::Flip)], false).is_err());
}

#[test]
fn unsorted_actions_are_a_configuration_error() {
    let g = geometry(8, 5, 37);
    let actions = vec![action(30, LockActionType::Flip), action(3, LockActionType::Flip)];
    assert!(Engine::new(g, actions, false).is_err());
}

#[test]
fn empty_action_list_finishes_at_once() {
    let g = geometry(8, 5, 37);
    let mut e = Engine::new(g, vec![], false).unwrap();
    assert_eq!(e.step(Event::Start), Command::Finish { outcome: RunOutcome::Success });
}

#[test]
fn flip_then_validate_on_one_page() {
    // 37 items in 8 columns fill 5 rows: the whole grid is one traversal,
    // both actions are processed without a page turn
    let g = geometry(8, 5, 37);
    let actions = vec![
        action(3, LockActionType::Flip),
        action(30, LockActionType::ValidateUnlocked),
    ];
    let mut e = Engine::new(g, actions, false).unwrap();
    assert_eq!(e.step(Event::Start), Command::Prepare);
    assert_eq!(e.step(Event::Performed), Command::Select { row: 0, col: 3 });
    assert_eq!(e.step(Event::Performed), Command::ReadLock);
    assert_eq!(e.step(Event::Lock { locked: false }), Command::Toggle);
    assert_eq!(e.step(Event::Performed), Command::ReadLock);
    // the confirmation poll keeps reading until the state changes
    assert_eq!(e.step(Event::Lock { locked: false }), Command::ReadLock);
    assert_eq!(e.step(Event::Lock { locked: true }), Command::Select { row: 3, col: 6 });
    assert_eq!(e.step(Event::Performed), Command::ReadLock);
    // ValidateUnlocked passes when the item is observed locked
    assert_eq!(
        e.step(Event::Lock { locked: true }),
        Command::Finish { outcome: RunOutcome::Success }
    );
    assert_eq!(e.scroll.scrolled_rows, 0);
    assert_eq!(e.cursor, 2);
}

#[test]
fn page_turn_advances_window_between_actions() {
    // 100 items in 8 columns make 13 rows; the second action sits past the
    // first page and is reached after one full-page scroll
    let g = geometry(8, 5, 100);
    let actions = vec![action(3, LockActionType::Flip), action(70, LockActionType::Flip)];
    let mut e = Engine::new(g, actions, false).unwrap();
    assert_eq!(e.step(Event::Start), Command::Prepare);
    assert_eq!(e.step(Event::Performed), Command::Select { row: 0, col: 3 });
    assert_eq!(e.step(Event::Performed), Command::ReadLock);
    assert_eq!(e.step(Event::Lock { locked: true }), Command::Toggle);
    assert_eq!(e.step(Event::Performed), Command::ReadLock);
    assert_eq!(e.step(Event::Lock { locked: false }), Command::Scroll { rows: 5 });
    assert_eq!(
        e.step(Event::Scrolled { result: ScrollResult::Success }),
        Command::Select { row: 3, col: 6 }
    );
    assert_eq!(e.scroll.scrolled_rows, 5);
    assert_eq!(e.scroll.start_row, 0);
    assert_eq!(e.step(Event::Performed), Command::ReadLock);
    assert_eq!(e.step(Event::Lock { locked: false }), Command::Toggle);
    assert_eq!(e.step(Event::Performed), Command::ReadLock);
    assert_eq!(
        e.step(Event::Lock { locked: true }),
        Command::Finish { outcome: RunOutcome::Success }
    );
}

#[test]
fn partial_page_turn_offsets_start_row() {
    // 8 columns, 5 visible rows, 50 items: 7 rows in all, so the single
    // page turn scrolls only 2 rows and the next window starts at row 3
    let g = geometry(8, 5, 50);
    let actions = vec![action(45, LockActionType::ValidateLocked)];
    let mut e = Engine::new(g, actions, false).unwrap();
    assert_eq!(e.step(Event::Start), Command::Prepare);
    assert_eq!(e.step(Event::Performed), Command::Scroll { rows: 2 });
    // item 45 sits at offset 5 of the new window [40, 50): row 0 + 3, col 5
    assert_eq!(
        e.step(Event::Scrolled { result: ScrollResult::Success }),
        Command::Select { row: 3, col: 5 }
    );
    assert_eq!(e.scroll.scrolled_rows, 2);
    assert_eq!(e.scroll.start_row, 3);
    assert_eq!(e.step(Event::Performed), Command::ReadLock);
    // ValidateLocked passes when the item is observed unlocked
    assert_eq!(
        e.step(Event::Lock { locked: false }),
        Command::Finish { outcome: RunOutcome::Success }
    );
}

#[test]
fn validation_mismatch_names_target_and_observation() {
    let g = geometry(8, 5, 37);
    let actions = vec![action(4, LockActionType::ValidateUnlocked)];
    let mut e = Engine::new(g, actions, false).unwrap();
    assert_eq!(e.step(Event::Start), Command::Prepare);
    assert_eq!(e.step(Event::Performed), Command::Select { row: 0, col: 4 });
    assert_eq!(e.step(Event::Performed), Command::ReadLock);
    // ValidateUnlocked fails when the item is observed unlocked
    assert_eq!(
        e.step(Event::Lock { locked: false }),
        Command::Finish {
            outcome: RunOutcome::ValidationMismatch { target: 4, observed_locked: false }
        }
    );
}

#[test]
fn validation_never_issues_a_toggle() {
    let g = geometry(8, 5, 37);
    let actions = vec![
        action(1, LockActionType::ValidateLocked),
        action(2, LockActionType::ValidateUnlocked),
    ];
    let mut e = Engine::new(g, actions, false).unwrap();
    let mut cmd = e.step(Event::Start);
    let mut toggles = 0;
    let mut guard = 0;
    loop {
        cmd = match cmd {
            Command::Prepare | Command::Select { .. } => e.step(Event::Performed),
            // answer every read with the state its validation expects
            Command::ReadLock => {
                let locked = e.actions[e.cursor].type_ == LockActionType::ValidateUnlocked;
                e.step(Event::Lock { locked })
            },
            Command::Toggle => {
                toggles += 1;
                e.step(Event::Performed)
            },
            Command::Scroll { .. } => e.step(Event::Scrolled { result: ScrollResult::Success }),
            Command::Finish { outcome } => {
                assert_eq!(outcome, RunOutcome::Success);
                break;
            },
        };
        guard += 1;
        assert!(guard < 100);
    }
    assert_eq!(toggles, 0);
}

#[test]
fn interrupt_mid_page_aborts_and_attempts_nothing_more() {
    let g = geometry(8, 5, 37);
    let actions = vec![action(3, LockActionType::Flip), action(9, LockActionType::Flip)];
    let mut e = Engine::new(g, actions, false).unwrap();
    assert_eq!(e.step(Event::Start), Command::Prepare);
    assert_eq!(e.step(Event::Performed), Command::Select { row: 0, col: 3 });
    assert_eq!(e.step(Event::Performed), Command::ReadLock);
    let cursor_at_interrupt = e.cursor;
    assert_eq!(
        e.step(Event::Interrupt),
        Command::Finish { outcome: RunOutcome::UserAbort }
    );
    // the run stays finished; no later action is ever selected
    assert_eq!(
        e.step(Event::Performed),
        Command::Finish { outcome: RunOutcome::UserAbort }
    );
    assert_eq!(e.cursor, cursor_at_interrupt);
    assert!(matches!(e.phase, Phase::Done { outcome: RunOutcome::UserAbort }));
}

#[test]
fn scroll_timeout_is_a_page_turn_malfunction() {
    let g = geometry(8, 5, 100);
    let actions = vec![action(70, LockActionType::Flip)];
    let mut e = Engine::new(g, actions, false).unwrap();
    assert_eq!(e.step(Event::Start), Command::Prepare);
    assert_eq!(e.step(Event::Performed), Command::Scroll { rows: 5 });
    assert_eq!(
        e.step(Event::Scrolled { result: ScrollResult::TimeLimitExceeded }),
        Command::Finish { outcome: RunOutcome::ScrollTimeout }
    );
}

#[test]
fn scroll_interrupt_is_a_user_abort() {
    let g = geometry(8, 5, 100);
    let actions = vec![action(70, LockActionType::Flip)];
    let mut e = Engine::new(g, actions, false).unwrap();
    assert_eq!(e.step(Event::Start), Command::Prepare);
    assert_eq!(e.step(Event::Performed), Command::Scroll { rows: 5 });
    assert_eq!(
        e.step(Event::Scrolled { result: ScrollResult::Interrupted }),
        Command::Finish { outcome: RunOutcome::UserAbort }
    );
}

#[test]
fn flip_twice_restores_the_classified_state() {
    // two full flip pipelines on the same item: the second confirmation
    // accepts exactly the state the first one started from
    let g = geometry(8, 5, 37);
    let actions = vec![action(5, LockActionType::Flip), action(5, LockActionType::Flip)];
    let mut e = Engine::new(g, actions, false).unwrap();
    assert_eq!(e.step(Event::Start), Command::Prepare);
    assert_eq!(e.step(Event::Performed), Command::Select { row: 0, col: 5 });
    assert_eq!(e.step(Event::Performed), Command::ReadLock);
    assert_eq!(e.step(Event::Lock { locked: false }), Command::Toggle);
    assert_eq!(e.step(Event::Performed), Command::ReadLock);
    assert_eq!(e.step(Event::Lock { locked: true }), Command::Select { row: 0, col: 5 });
    assert_eq!(e.step(Event::Performed), Command::ReadLock);
    assert_eq!(e.step(Event::Lock { locked: true }), Command::Toggle);
    assert_eq!(e.step(Event::Performed), Command::ReadLock);
    assert_eq!(
        e.step(Event::Lock { locked: false }),
        Command::Finish { outcome: RunOutcome::Success }
    );
}

#[test]
fn relic_variant_recheck_consumes_shifted_window() {
    // relic-style grids scroll by themselves after a toggle: the acted-on
    // item's row becomes the window's top row, so the next action comes
    // into view without an explicit page turn
    let g = geometry(8, 5, 100);
    let actions = vec![action(35, LockActionType::Flip), action(60, LockActionType::Flip)];
    let mut e = Engine::new(g, actions, true).unwrap();
    assert_eq!(e.step(Event::Start), Command::Prepare);
    // item 35 sits in the last fully visible row of the first window
    assert_eq!(e.step(Event::Performed), Command::Select { row: 4, col: 3 });
    assert_eq!(e.step(Event::Performed), Command::ReadLock);
    assert_eq!(e.step(Event::Lock { locked: false }), Command::Toggle);
    assert_eq!(e.step(Event::Performed), Command::ReadLock);
    // the confirmed toggle shifts the viewport by 4 rows; the window is now
    // [32, 72), so item 60 is selected without a Scroll command
    assert_eq!(e.step(Event::Lock { locked: true }), Command::Select { row: 3, col: 4 });
    assert_eq!(e.scroll.scrolled_rows, 4);
    assert_eq!(e.scroll.start_row, 0);
    assert_eq!(e.step(Event::Performed), Command::ReadLock);
    assert_eq!(e.step(Event::Lock { locked: true }), Command::Toggle);
    assert_eq!(e.step(Event::Performed), Command::ReadLock);
    assert_eq!(
        e.step(Event::Lock { locked: false }),
        Command::Finish { outcome: RunOutcome::Success }
    );
    assert_eq!(e.scroll.scrolled_rows, 7);
}

#[test]
fn artifact_variant_never_shifts_the_window() {
    // with the recheck disabled the same toggles leave the scroll state
    // alone, and the second action needs an explicit page turn
    let g = geometry(8, 5, 100);
    let actions = vec![action(35, LockActionType::Flip), action(60, LockActionType::Flip)];
    let mut e = Engine::new(g, actions, false).unwrap();
    assert_eq!(e.step(Event::Start), Command::Prepare);
    assert_eq!(e.step(Event::Performed), Command::Select { row: 4, col: 3 });
    assert_eq!(e.step(Event::Performed), Command::ReadLock);
    assert_eq!(e.step(Event::Lock { locked: false }), Command::Toggle);
    assert_eq!(e.step(Event::Performed), Command::ReadLock);
    assert_eq!(e.step(Event::Lock { locked: true }), Command::Scroll { rows: 5 });
    assert_eq!(e.scroll.scrolled_rows, 0);
}
