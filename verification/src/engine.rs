//! The pagination-and-toggle orchestrator.
//!
//! The engine is a state machine over pages of the inventory grid.  It never
//! touches the screen itself: each call to [`Engine::step`] consumes the
//! event the driver observed while carrying out the previous command and
//! returns the next command.  The driver performs pointer moves, clicks,
//! scrolls, pixel reads and sleeps, and polls the user-interrupt signal
//! before every step.

use crate::action::{
    needs_toggle, sorted_by_target, spec_is_validation, spec_needs_toggle, spec_validation_fails,
    validation_fails, LockAction,
};
use crate::geometry::{
    lemma_cell_row, lemma_page_turn, lemma_page_window_in_range, lemma_start_item_bounded,
    lemma_total_rows_is_ceil, lemma_viewport_shift, GridGeometry, ScrollState,
};
use vstd::math::min;
use vstd::prelude::*;

verus! {

/// Outcome of one scroll command, as the driver reports it.
#[derive(Clone, Copy, PartialEq, Eq, Structural, Debug)]
pub enum ScrollResult {
    /// The grid scrolled and the screen settled.
    Success,
    /// The screen did not settle within the driver's budget.
    TimeLimitExceeded,
    /// The interrupt signal fired mid-scroll.
    Interrupted,
    /// Nothing had to move.
    NoOp,
}

/// How a run ends.
#[derive(Clone, Copy, PartialEq, Eq, Structural, Debug)]
pub enum RunOutcome {
    /// Every action was processed, or the grid was exhausted.
    Success,
    /// The interrupt signal was observed; work done so far stands.
    UserAbort,
    /// A validation action observed the state it forbids.
    ValidationMismatch { target: usize, observed_locked: bool },
    /// A page turn did not settle within its budget.
    ScrollTimeout,
}

/// Rejected before any input is simulated: an unsorted action list, or a
/// target index outside the inventory.
#[derive(Clone, Copy, PartialEq, Eq, Structural, Debug)]
pub struct ConfigurationError;

/// What the driver must do next.
#[derive(Clone, Copy, PartialEq, Eq, Structural, Debug)]
pub enum Command {
    /// Let the window settle, move the pointer to cell (0, 0), sample the
    /// selection baseline and wait until the selection indicator switches.
    Prepare,
    /// Move the pointer to the cell, click to select it and wait until the
    /// selection indicator switches.
    Select { row: usize, col: usize },
    /// Classify the lock state of the selected item; answer with
    /// [`Event::Lock`].
    ReadLock,
    /// Click the fixed lock-toggle screen position.
    Toggle,
    /// Move the pointer back to cell (0, 0), let the screen settle, scroll
    /// the grid by `rows` rows and wait for it to settle again; answer
    /// with [`Event::Scrolled`].
    Scroll { rows: usize },
    /// The run is over.
    Finish { outcome: RunOutcome },
}

/// What the driver observed while carrying out the last command.
#[derive(Clone, Copy, PartialEq, Eq, Structural, Debug)]
pub enum Event {
    /// Starts the run; only the first call to `step` takes it.
    Start,
    /// The last command was carried out; nothing was read.
    Performed,
    /// The classified lock state a `ReadLock` command asked for.
    Lock { locked: bool },
    /// The outcome of a `Scroll` command.
    Scrolled { result: ScrollResult },
    /// The interrupt signal is asserted; allowed in answer to any command.
    Interrupt,
}

/// Where the engine stands between two commands.
#[derive(Clone, Copy, PartialEq, Eq, Structural, Debug)]
pub enum Phase {
    /// Before the run starts.
    Idle,
    /// `Prepare` was issued.
    Preparing,
    /// `Select` was issued for the action at the cursor.
    Selecting,
    /// `ReadLock` was issued for the action at the cursor, before any toggle.
    Reading,
    /// `Toggle` was issued; `observed` is the state read before it.
    Toggling { observed: bool },
    /// `ReadLock` was issued to confirm the toggle; `observed` is the state
    /// read before the toggle.
    Confirming { observed: bool },
    /// `Scroll` was issued for `rows` rows.
    Scrolling { rows: usize },
    /// `Finish` was issued.
    Done { outcome: RunOutcome },
}

/// The orchestrator state: grid shape, the ordered action list, the scroll
/// position, the cursor into the action list, and the protocol phase.
pub struct Engine {
    pub geometry: GridGeometry,
    pub actions: Vec<LockAction>,
    pub scroll: ScrollState,
    /// First action of the current page.
    pub start_action: usize,
    /// One past the last action of the current page.
    pub end_action: usize,
    /// Next action of the current page to process.
    pub cursor: usize,
    /// Whether a confirmed toggle may itself scroll the grid (the
    /// relic-style variant): after each toggle the page window is
    /// recomputed as if the acted-on item's row had become the window's
    /// top row.
    pub recheck_viewport: bool,
    pub phase: Phase,
}

impl Engine {
    pub open spec fn spec_start_item(self) -> int {
        self.scroll.spec_start_item(self.geometry)
    }

    pub open spec fn spec_end_item(self) -> int {
        self.scroll.spec_end_item(self.geometry)
    }

    /// Rows still to scroll for the next page turn.
    pub open spec fn spec_to_scroll(self) -> int {
        min(
            self.geometry.spec_total_rows() - self.scroll.scrolled_rows
                - self.geometry.visible_rows,
            self.geometry.visible_rows as int,
        )
    }

    /// The grid cannot scroll further: the last row is already visible.
    pub open spec fn spec_grid_exhausted(self) -> bool {
        self.geometry.spec_total_rows() <= self.scroll.scrolled_rows + self.geometry.visible_rows
    }

    /// The action cursor matches the current page window: every action of
    /// the current page lies inside the window, and every action not yet
    /// consumed lies at or beyond its end.
    pub open spec fn page_consumed(self) -> bool {
        &&& forall|i: int|
            self.cursor <= i < self.end_action ==> self.spec_start_item()
                <= #[trigger] self.actions@[i].target < self.spec_end_item()
        &&& forall|i: int|
            self.end_action <= i < self.actions@.len() ==> #[trigger] self.actions@[i].target
                >= self.spec_end_item()
    }

    /// Phases that process one action of the current page.
    pub open spec fn in_page(self) -> bool {
        self.phase is Selecting || self.phase is Reading || self.phase is Toggling
            || self.phase is Confirming
    }

    /// Well-formedness, established by [`Engine::new`] and kept by every
    /// step.
    pub open spec fn wf(self) -> bool {
        &&& self.geometry.wf()
        &&& self.scroll.wf(self.geometry)
        &&& sorted_by_target(self.actions@)
        &&& forall|i: int|
            0 <= i < self.actions@.len() ==> #[trigger] self.actions@[i].target
                < self.geometry.total_items
        &&& self.start_action <= self.cursor <= self.end_action <= self.actions@.len()
        &&& (self.phase is Idle || self.phase is Preparing ==> self.scroll.scrolled_rows == 0
            && self.scroll.start_row == 0 && self.start_action == 0 && self.end_action == 0)
        &&& (self.in_page() ==> self.page_consumed() && self.cursor < self.end_action)
        &&& (self.phase matches Phase::Scrolling { rows } ==> self.page_consumed()
            && self.cursor == self.end_action && self.end_action < self.actions@.len()
            && !self.spec_grid_exhausted() && rows == self.spec_to_scroll())
    }

    /// The one command the engine has outstanding in each phase.
    pub open spec fn spec_command(self) -> Command {
        match self.phase {
            Phase::Idle => Command::Prepare,
            Phase::Preparing => Command::Prepare,
            Phase::Selecting => Command::Select {
                row: self.scroll.spec_cell_row(
                    self.geometry,
                    self.actions@[self.cursor as int].target as int,
                ) as usize,
                col: self.scroll.spec_cell_col(
                    self.geometry,
                    self.actions@[self.cursor as int].target as int,
                ) as usize,
            },
            Phase::Reading => Command::ReadLock,
            Phase::Toggling { .. } => Command::Toggle,
            Phase::Confirming { .. } => Command::ReadLock,
            Phase::Scrolling { rows } => Command::Scroll { rows },
            Phase::Done { outcome } => Command::Finish { outcome },
        }
    }

    /// The phase the engine enters once the cursor stands at the next
    /// unprocessed action of the page, or at the page's end: select that
    /// action, finish the run, or turn the page.
    pub open spec fn spec_dispatch_phase(self) -> Phase {
        if self.cursor < self.end_action {
            Phase::Selecting
        } else if self.end_action >= self.actions@.len() || self.spec_grid_exhausted() {
            Phase::Done { outcome: RunOutcome::Success }
        } else {
            Phase::Scrolling { rows: self.spec_to_scroll() as usize }
        }
    }

    /// Which events answer the outstanding command of each phase.  The
    /// interrupt signal may answer any of them.
    pub open spec fn expects(self, ev: Event) -> bool {
        ||| ev is Interrupt
        ||| match self.phase {
            Phase::Idle => ev is Start,
            Phase::Preparing | Phase::Selecting | Phase::Toggling { .. } => ev is Performed,
            Phase::Reading | Phase::Confirming { .. } => ev is Lock,
            Phase::Scrolling { .. } => ev is Scrolled,
            Phase::Done { .. } => true,
        }
    }

    /// Builds an engine for one run, or rejects the configuration before
    /// any input is simulated: the action list must be sorted ascending by
    /// target and every target must lie inside the inventory.  An empty
    /// list makes a run that finishes at once.  `recheck_viewport` selects
    /// the relic-style variant, whose toggles may scroll the grid.
    pub fn new(geometry: GridGeometry, actions: Vec<LockAction>, recheck_viewport: bool) -> (r:
        Result<Engine, ConfigurationError>)
        requires
            geometry.wf(),
        ensures
            match r {
                Ok(e) => {
                    &&& e.wf()
                    &&& e.geometry == geometry
                    &&& e.actions@ == actions@
                    &&& e.recheck_viewport == recheck_viewport
                    &&& e.scroll.scrolled_rows == 0 && e.scroll.start_row == 0
                    &&& e.start_action == 0 && e.end_action == 0 && e.cursor == 0
                    &&& sorted_by_target(actions@)
                    &&& (actions@.len() == 0 ==> e.phase == (Phase::Done {
                        outcome: RunOutcome::Success,
                    }))
                    &&& (actions@.len() > 0 ==> e.phase is Idle && actions@[actions@.len()
                        - 1].target < geometry.total_items)
                },
                Err(_) => !sorted_by_target(actions@) || (actions@.len() > 0
                    && actions@[actions@.len() - 1].target >= geometry.total_items),
            },
    {
        if !crate::action::is_sorted_by_target(&actions) {
            return Err(ConfigurationError);
        }
        if actions.len() > 0 && actions[actions.len() - 1].target >= geometry.total_items {
            return Err(ConfigurationError);
        }
        let phase = if actions.len() == 0 {
            Phase::Done { outcome: RunOutcome::Success }
        } else {
            Phase::Idle
        };
        let e = Engine {
            geometry,
            actions,
            scroll: ScrollState { scrolled_rows: 0, start_row: 0 },
            start_action: 0,
            end_action: 0,
            cursor: 0,
            recheck_viewport,
            phase,
        };
        proof {
            lemma_total_rows_is_ceil(geometry);
            assert forall|i: int| 0 <= i < e.actions@.len() implies #[trigger] e.actions@[i].target
                < geometry.total_items by {
                if i < e.actions@.len() - 1 {
                    assert(e.actions@[i].target <= e.actions@[e.actions@.len() - 1].target);
                }
            }
        }
        Ok(e)
    }

    /// Advances `end_action` over every action whose target lies before the
    /// end of the current page window.
    fn consume_page(&mut self)
        requires
            old(self).geometry.wf(),
            old(self).scroll.wf(old(self).geometry),
            sorted_by_target(old(self).actions@),
            old(self).cursor <= old(self).end_action <= old(self).actions@.len(),
            forall|i: int|
                old(self).cursor <= i < old(self).end_action ==> old(self).spec_start_item()
                    <= #[trigger] old(self).actions@[i].target < old(self).spec_end_item(),
            forall|i: int|
                old(self).end_action <= i < old(self).actions@.len() ==> #[trigger] old(self).actions@[i].target >= old(self).spec_start_item(),
        ensures
            final(self).geometry == old(self).geometry,
            final(self).actions@ == old(self).actions@,
            final(self).scroll == old(self).scroll,
            final(self).start_action == old(self).start_action,
            final(self).cursor == old(self).cursor,
            final(self).recheck_viewport == old(self).recheck_viewport,
            final(self).phase == old(self).phase,
            old(self).end_action <= final(self).end_action <= final(self).actions@.len(),
            final(self).page_consumed(),
    {
        let end_item = self.scroll.end_item(&self.geometry);
        proof {
            lemma_page_window_in_range(self.scroll, self.geometry);
        }
        while self.end_action < self.actions.len() && self.actions[self.end_action].target
            < end_item
            invariant
                self.geometry == old(self).geometry,
                self.actions@ == old(self).actions@,
                self.scroll == old(self).scroll,
                self.start_action == old(self).start_action,
                self.cursor == old(self).cursor,
                self.recheck_viewport == old(self).recheck_viewport,
                self.phase == old(self).phase,
                sorted_by_target(self.actions@),
                end_item == self.spec_end_item(),
                old(self).end_action <= self.end_action <= self.actions@.len(),
                self.spec_start_item() <= self.spec_end_item(),
                forall|i: int|
                    self.cursor <= i < old(self).end_action ==> self.spec_start_item()
                        <= #[trigger] self.actions@[i].target < self.spec_end_item(),
                forall|i: int|
                    old(self).end_action <= i < self.actions@.len() ==> #[trigger] self.actions@[i].target
                        >= self.spec_start_item(),
                forall|i: int|
                    old(self).end_action <= i < self.end_action ==> #[trigger] self.actions@[i].target
                        < self.spec_end_item(),
            decreases self.actions@.len() - self.end_action,
        {
            self.end_action = self.end_action + 1;
        }
        proof {
            assert forall|i: int|
                self.end_action <= i < self.actions@.len() implies #[trigger] self.actions@[i].target
                >= self.spec_end_item() by {
                assert(self.actions@[self.end_action as int].target <= self.actions@[i].target);
            }
        }
    }

    /// Chooses the next command once the cursor stands at the next
    /// unprocessed action or at the page's end.
    fn dispatch(&mut self) -> (cmd: Command)
        requires
            old(self).geometry.wf(),
            old(self).scroll.wf(old(self).geometry),
            sorted_by_target(old(self).actions@),
            forall|i: int|
                0 <= i < old(self).actions@.len() ==> #[trigger] old(self).actions@[i].target
                    < old(self).geometry.total_items,
            old(self).start_action <= old(self).cursor <= old(self).end_action <= old(self).actions@.len(),
            old(self).page_consumed(),
        ensures
            final(self).geometry == old(self).geometry,
            final(self).actions@ == old(self).actions@,
            final(self).scroll == old(self).scroll,
            final(self).start_action == old(self).start_action,
            final(self).end_action == old(self).end_action,
            final(self).cursor == old(self).cursor,
            final(self).recheck_viewport == old(self).recheck_viewport,
            final(self).phase == old(self).spec_dispatch_phase(),
            final(self).wf(),
            cmd == final(self).spec_command(),
    {
        proof {
            lemma_total_rows_is_ceil(self.geometry);
            lemma_page_window_in_range(self.scroll, self.geometry);
        }
        if self.cursor < self.end_action {
            let target = self.actions[self.cursor].target;
            assert(self.spec_start_item() <= target < self.spec_end_item());
            let (row, col) = self.scroll.cell_of(&self.geometry, target);
            self.phase = Phase::Selecting;
            Command::Select { row, col }
        } else {
            let total_rows = self.geometry.total_rows();
            if self.end_action >= self.actions.len() || total_rows <= self.scroll.scrolled_rows
                + self.geometry.visible_rows {
                self.phase = Phase::Done { outcome: RunOutcome::Success };
                Command::Finish { outcome: RunOutcome::Success }
            } else {
                let room = total_rows - self.scroll.scrolled_rows - self.geometry.visible_rows;
                let rows = if room < self.geometry.visible_rows {
                    room
                } else {
                    self.geometry.visible_rows
                };
                self.phase = Phase::Scrolling { rows };
                Command::Scroll { rows }
            }
        }
    }

    /// After a confirmed toggle in the relic-style variant, the grid may
    /// have scrolled by itself so that the acted-on item's row became the
    /// window's top row.  Mirrors that shift, clamped by the remaining
    /// scroll room, and consumes what the larger window now shows.  The
    /// acted-on item (still under the cursor) stays inside the window, and
    /// so does everything after it that was already consumed.
    fn viewport_recheck(&mut self)
        requires
            old(self).geometry.wf(),
            old(self).scroll.wf(old(self).geometry),
            sorted_by_target(old(self).actions@),
            forall|i: int|
                0 <= i < old(self).actions@.len() ==> #[trigger] old(self).actions@[i].target
                    < old(self).geometry.total_items,
            old(self).start_action <= old(self).cursor < old(self).end_action <= old(self).actions@.len(),
            old(self).page_consumed(),
        ensures
            final(self).geometry == old(self).geometry,
            final(self).actions@ == old(self).actions@,
            final(self).start_action == old(self).start_action,
            final(self).cursor == old(self).cursor,
            final(self).recheck_viewport == old(self).recheck_viewport,
            final(self).phase == old(self).phase,
            old(self).end_action <= final(self).end_action <= final(self).actions@.len(),
            final(self).scroll.wf(final(self).geometry),
            old(self).scroll.scrolled_rows <= final(self).scroll.scrolled_rows,
            final(self).page_consumed(),
            final(self).cursor < final(self).end_action,
    {
        let a = self.actions[self.cursor];
        proof {
            assert(self.spec_start_item() <= a.target < self.spec_end_item());
            lemma_cell_row(self.geometry, self.scroll, a.target as int);
            lemma_total_rows_is_ceil(self.geometry);
        }
        let start = self.scroll.start_item(&self.geometry);
        let p = a.target - start;
        let r = p / self.geometry.columns + self.scroll.start_row;
        let total_rows = self.geometry.total_rows();
        let room = if total_rows > self.scroll.scrolled_rows + self.geometry.visible_rows {
            total_rows - self.scroll.scrolled_rows - self.geometry.visible_rows
        } else {
            0
        };
        let shift = if room < r {
            room
        } else {
            r
        };
        if shift > 0 {
            proof {
                lemma_viewport_shift(self.geometry, self.scroll, a.target as int, shift as int);
            }
            let ghost pre = *self;
            self.scroll = ScrollState {
                scrolled_rows: self.scroll.scrolled_rows + shift,
                start_row: r - shift,
            };
            proof {
                assert forall|i: int| self.cursor <= i < self.end_action implies self.spec_start_item()
                    <= #[trigger] self.actions@[i].target < self.spec_end_item() by {
                    assert(self.actions@[self.cursor as int].target <= self.actions@[i].target);
                    assert(pre.spec_start_item() <= self.actions@[i].target < pre.spec_end_item());
                }
                assert forall|i: int| self.end_action <= i < self.actions@.len()
                    implies #[trigger] self.actions@[i].target >= self.spec_start_item() by {
                    assert(self.actions@[i].target >= pre.spec_end_item());
                }
            }
            self.consume_page();
        }
    }

    /// One transition of the protocol: takes the event that answers the
    /// outstanding command and returns the next command.
    ///
    /// The contract pins every part of the transition.  In particular:
    /// the interrupt ends the run at once with `UserAbort` and no later
    /// action is attempted; a finished run stays finished; a validation
    /// action never issues the toggle command and leaves the scroll state
    /// untouched; a toggle is confirmed only by a read that differs from
    /// the state observed before the press; and the cursor and the consumed
    /// prefix of the action list only ever move forward, so no action is
    /// attempted twice.
    pub fn step(&mut self, ev: Event) -> (cmd: Command)
        requires
            old(self).wf(),
            old(self).expects(ev),
        ensures
            final(self).wf(),
            final(self).geometry == old(self).geometry,
            final(self).actions@ == old(self).actions@,
            final(self).recheck_viewport == old(self).recheck_viewport,
            old(self).start_action <= final(self).start_action,
            old(self).cursor <= final(self).cursor,
            old(self).end_action <= final(self).end_action,
            old(self).scroll.scrolled_rows <= final(self).scroll.scrolled_rows,
            cmd == final(self).spec_command(),
            // a finished run stays finished and unchanged
            old(self).phase matches Phase::Done { outcome } ==> final(self).phase == old(self).phase
                && final(self).scroll == old(self).scroll
                && final(self).cursor == old(self).cursor
                && final(self).end_action == old(self).end_action
                && cmd == (Command::Finish { outcome }),
            // the interrupt ends the run at once; nothing after the
            // interrupted action is attempted
            !(old(self).phase is Done) && ev is Interrupt ==> final(self).phase == (Phase::Done {
                outcome: RunOutcome::UserAbort,
            }) && final(self).scroll == old(self).scroll
                && final(self).cursor == old(self).cursor
                && final(self).end_action == old(self).end_action,
            // the run begins by preparing the window
            old(self).phase is Idle && ev is Start ==> final(self).phase is Preparing
                && final(self).scroll == old(self).scroll
                && final(self).cursor == old(self).cursor,
            // the prepared window shows the first page; consume and dispatch
            old(self).phase is Preparing && ev is Performed ==> final(self).scroll == old(self).scroll
                && final(self).start_action == 0
                && final(self).cursor == 0
                && final(self).page_consumed()
                && final(self).phase == final(self).spec_dispatch_phase(),
            // a selected item is read before anything else happens
            old(self).phase is Selecting && ev is Performed ==> final(self).phase is Reading
                && final(self).scroll == old(self).scroll
                && final(self).cursor == old(self).cursor
                && final(self).end_action == old(self).end_action,
            // a validation action never toggles: it either fails the run or
            // only advances the cursor
            ev matches Event::Lock { locked } ==> (old(self).phase is Reading
                && spec_is_validation(old(self).actions@[old(self).cursor as int].type_)
                ==> !(cmd is Toggle) && !(final(self).phase is Toggling)
                    && final(self).scroll == old(self).scroll
                    && (if spec_validation_fails(
                        old(self).actions@[old(self).cursor as int].type_,
                        locked,
                    ) {
                        final(self).phase == (Phase::Done {
                            outcome: RunOutcome::ValidationMismatch {
                                target: old(self).actions@[old(self).cursor as int].target,
                                observed_locked: locked,
                            },
                        }) && final(self).cursor == old(self).cursor
                    } else {
                        final(self).cursor == old(self).cursor + 1
                            && final(self).phase == final(self).spec_dispatch_phase()
                            && final(self).end_action == old(self).end_action
                    })),
            // a toggling action presses the toggle control once
            ev matches Event::Lock { locked } ==> (old(self).phase is Reading
                && spec_needs_toggle(old(self).actions@[old(self).cursor as int].type_)
                ==> final(self).phase == (Phase::Toggling { observed: locked })
                    && final(self).scroll == old(self).scroll
                    && final(self).cursor == old(self).cursor
                    && final(self).end_action == old(self).end_action),
            // after the press, poll the lock state
            old(self).phase matches Phase::Toggling { observed } ==> (ev is Performed
                ==> final(self).phase == (Phase::Confirming { observed })
                    && final(self).scroll == old(self).scroll
                    && final(self).cursor == old(self).cursor
                    && final(self).end_action == old(self).end_action),
            // the confirmation poll accepts exactly a read that differs
            // from the state observed before the press
            old(self).phase matches Phase::Confirming { observed } ==> (ev matches Event::Lock {
                locked,
            } ==> (if locked == observed {
                final(self).phase == old(self).phase
                    && final(self).scroll == old(self).scroll
                    && final(self).cursor == old(self).cursor
                    && cmd == Command::ReadLock
            } else {
                locked == crate::action::flipped(observed)
                    && final(self).cursor == old(self).cursor + 1
                    && final(self).phase == final(self).spec_dispatch_phase()
                    && (!old(self).recheck_viewport ==> final(self).scroll == old(self).scroll
                        && final(self).end_action == old(self).end_action)
            })),
            // a failed page turn is a malfunction; an interrupted one an
            // abort; a successful one advances the window to exactly where
            // the previous one ended and consumes the next page
            old(self).phase matches Phase::Scrolling { rows } ==> (ev matches Event::Scrolled {
                result,
            } ==> (match result {
                ScrollResult::TimeLimitExceeded => final(self).phase == (Phase::Done {
                    outcome: RunOutcome::ScrollTimeout,
                }) && final(self).scroll == old(self).scroll
                    && final(self).cursor == old(self).cursor,
                ScrollResult::Interrupted => final(self).phase == (Phase::Done {
                    outcome: RunOutcome::UserAbort,
                }) && final(self).scroll == old(self).scroll
                    && final(self).cursor == old(self).cursor,
                ScrollResult::Success | ScrollResult::NoOp => final(self).scroll.scrolled_rows
                    == old(self).scroll.scrolled_rows + rows
                    && final(self).scroll.start_row == old(self).geometry.visible_rows - rows
                    && final(self).start_action == old(self).end_action
                    && final(self).cursor == old(self).end_action
                    && final(self).page_consumed()
                    && final(self).phase == final(self).spec_dispatch_phase()
                    && final(self).spec_start_item() == old(self).spec_end_item(),
            })),
    {
        if let Phase::Done { outcome } = self.phase {
            return Command::Finish { outcome };
        }
        if let Event::Interrupt = ev {
            let outcome = RunOutcome::UserAbort;
            self.phase = Phase::Done { outcome };
            return Command::Finish { outcome };
        }
        match self.phase {
            Phase::Idle => {
                self.phase = Phase::Preparing;
                Command::Prepare
            },
            Phase::Preparing => {
                proof {
                    lemma_start_item_bounded(self.scroll, self.geometry);
                }
                self.consume_page();
                self.dispatch()
            },
            Phase::Selecting => {
                self.phase = Phase::Reading;
                Command::ReadLock
            },
            Phase::Reading => {
                let locked = match ev {
                    Event::Lock { locked } => locked,
                    _ => { return Command::ReadLock; },
                };
                let a = self.actions[self.cursor];
                if needs_toggle(a.type_) {
                    self.phase = Phase::Toggling { observed: locked };
                    Command::Toggle
                } else {
                    if validation_fails(a.type_, locked) {
                        let outcome = RunOutcome::ValidationMismatch {
                            target: a.target,
                            observed_locked: locked,
                        };
                        self.phase = Phase::Done { outcome };
                        Command::Finish { outcome }
                    } else {
                        self.cursor = self.cursor + 1;
                        self.dispatch()
                    }
                }
            },
            Phase::Toggling { observed } => {
                self.phase = Phase::Confirming { observed };
                Command::ReadLock
            },
            Phase::Confirming { observed } => {
                let locked = match ev {
                    Event::Lock { locked } => locked,
                    _ => { return Command::ReadLock; },
                };
                if locked == observed {
                    Command::ReadLock
                } else {
                    if self.recheck_viewport {
                        self.viewport_recheck();
                    }
                    self.cursor = self.cursor + 1;
                    self.dispatch()
                }
            },
            Phase::Scrolling { rows } => {
                let result = match ev {
                    Event::Scrolled { result } => result,
                    _ => { return Command::Scroll { rows }; },
                };
                match result {
                    ScrollResult::TimeLimitExceeded => {
                        let outcome = RunOutcome::ScrollTimeout;
                        self.phase = Phase::Done { outcome };
                        Command::Finish { outcome }
                    },
                    ScrollResult::Interrupted => {
                        let outcome = RunOutcome::UserAbort;
                        self.phase = Phase::Done { outcome };
                        Command::Finish { outcome }
                    },
                    _ => {
                        proof {
                            lemma_page_turn(self.geometry, self.scroll, rows as int);
                        }
                        self.scroll = ScrollState {
                            scrolled_rows: self.scroll.scrolled_rows + rows,
                            start_row: self.geometry.visible_rows - rows,
                        };
                        self.start_action = self.end_action;
                        self.cursor = self.end_action;
                        self.consume_page();
                        self.dispatch()
                    },
                }
            },
            Phase::Done { .. } => {
                // handled before the match
                assert(false);
                Command::Prepare
            },
        }
    }
}

/// Law: the action under the cursor is processed inside the current page
/// window — its target lies in `[start_item, end_item)`.
pub proof fn lemma_action_in_current_window(e: Engine)
    requires
        e.wf(),
        e.in_page(),
    ensures
        e.spec_start_item() <= e.actions@[e.cursor as int].target < e.spec_end_item(),
{
    assert(e.page_consumed());
    assert(e.spec_start_item() <= e.actions@[e.cursor as int].target < e.spec_end_item());
}

/// Law: a run that the engine finishes with `Success` has consumed the
/// whole action list.  Together with the step contract — the cursor walks
/// each consumed index once, consecutive page windows abut exactly
/// ([`crate::geometry::lemma_page_turn`]) and every consumed action lies
/// inside the window of its own page — the page windows of a full run
/// partition the action list: no action is skipped and none is processed
/// twice.
pub proof fn lemma_success_consumes_all(e: Engine)
    requires
        e.wf(),
        e.page_consumed(),
        e.cursor == e.end_action,
        e.spec_dispatch_phase() == (Phase::Done { outcome: RunOutcome::Success }),
    ensures
        e.end_action == e.actions@.len(),
{
    if e.end_action < e.actions@.len() {
        assert(e.spec_grid_exhausted());
        lemma_total_rows_is_ceil(e.geometry);
        let c = e.geometry.columns as int;
        let tr = e.geometry.spec_total_rows();
        let sv = e.scroll.scrolled_rows + e.geometry.visible_rows;
        vstd::arithmetic::mul::lemma_mul_inequality(tr, sv, c);
        assert(tr * c == c * tr) by (nonlinear_arith);
        assert(sv * c == c * sv) by (nonlinear_arith);
        assert(c * sv >= e.geometry.total_items);
        assert(e.spec_end_item() == e.geometry.total_items as int);
        assert(e.actions@[e.end_action as int].target >= e.spec_end_item());
        assert(e.actions@[e.end_action as int].target < e.geometry.total_items);
        assert(false);
    }
}

} // verus!
