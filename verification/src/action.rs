//! Per-item actions: state changes and assertions requested on single grid
//! items, identified by their linear index.

use vstd::prelude::*;

verus! {

/// What one action asks of its target item.
#[derive(Clone, Copy, PartialEq, Eq, Structural, Debug)]
pub enum LockActionType {
    /// Press the toggle control so the item ends up locked.
    Lock,
    /// Press the toggle control so the item ends up unlocked.
    Unlock,
    /// Press the toggle control regardless of the observed state.
    Flip,
    /// Assert only; fails the run when the item is observed locked.
    ValidateLocked,
    /// Assert only; fails the run when the item is observed unlocked.
    ValidateUnlocked,
}

/// One requested state change or assertion on the item at linear index
/// `target`.
#[derive(Clone, Copy, PartialEq, Eq, Structural, Debug)]
pub struct LockAction {
    pub target: usize,
    pub type_: LockActionType,
}

/// The action list must be ordered ascending by target index: the engine
/// scans it once against monotonically increasing page boundaries.
pub open spec fn sorted_by_target(s: Seq<LockAction>) -> bool {
    forall|i: int, j: int|
        0 <= i < j < s.len() ==> #[trigger] s[i].target <= #[trigger] s[j].target
}

/// Kinds that press the toggle control.
pub open spec fn spec_needs_toggle(t: LockActionType) -> bool {
    t == LockActionType::Lock || t == LockActionType::Unlock || t == LockActionType::Flip
}

pub fn needs_toggle(t: LockActionType) -> (r: bool)
    ensures
        r == spec_needs_toggle(t),
{
    match t {
        LockActionType::Lock | LockActionType::Unlock | LockActionType::Flip => true,
        _ => false,
    }
}

/// Kinds that only assert and never press the toggle control.
pub open spec fn spec_is_validation(t: LockActionType) -> bool {
    t == LockActionType::ValidateLocked || t == LockActionType::ValidateUnlocked
}

/// When a validation action fails: `ValidateLocked` on an item observed
/// locked, or `ValidateUnlocked` on an item observed unlocked.
pub open spec fn spec_validation_fails(t: LockActionType, observed_locked: bool) -> bool {
    ||| t == LockActionType::ValidateLocked && observed_locked
    ||| t == LockActionType::ValidateUnlocked && !observed_locked
}

pub fn validation_fails(t: LockActionType, observed_locked: bool) -> (r: bool)
    ensures
        r == spec_validation_fails(t, observed_locked),
{
    match t {
        LockActionType::ValidateLocked => observed_locked,
        LockActionType::ValidateUnlocked => !observed_locked,
        _ => false,
    }
}

/// Classified lock state after one confirmed press of the toggle control:
/// the confirmation poll only accepts a read that differs from the state
/// observed before the press, and a classification is binary.
pub open spec fn flipped(observed_locked: bool) -> bool {
    !observed_locked
}

/// Law: the flip pipeline is an involution on the classified lock state.
/// Two confirmed presses of the toggle control in a row return an item to
/// its original classification.
pub proof fn lemma_flip_twice_restores(observed_locked: bool)
    ensures
        flipped(flipped(observed_locked)) == observed_locked,
{
}

/// Checks the ordering requirement on a loaded action list.
pub fn is_sorted_by_target(actions: &Vec<LockAction>) -> (r: bool)
    ensures
        r == sorted_by_target(actions@),
{
    if actions.len() == 0 {
        return true;
    }
    let mut i: usize = 1;
    while i < actions.len()
        invariant
            1 <= i <= actions.len(),
            forall|a: int, b: int|
                0 <= a < b < i ==> #[trigger] actions@[a].target <= #[trigger] actions@[b].target,
        decreases actions.len() - i,
    {
        if actions[i - 1].target > actions[i].target {
            assert(!sorted_by_target(actions@)) by {
                assert(actions@[i - 1].target > actions@[i as int].target);
            }
            return false;
        }
        assert forall|a: int, b: int| 0 <= a < b < i + 1 implies #[trigger] actions@[a].target
            <= #[trigger] actions@[b].target by {
            if b < i {
            } else {
                assert(actions@[i - 1].target <= actions@[i as int].target);
                if a < i - 1 {
                    assert(actions@[a].target <= actions@[i - 1].target);
                }
            }
        }
        i += 1;
    }
    true
}

} // verus!
