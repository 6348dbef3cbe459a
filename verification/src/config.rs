//! Timing and verbosity settings of the two tool variants.  The delays are
//! consumed by the unverified driver between issued input events; the
//! verified engine itself never sleeps.

use vstd::prelude::*;

verus! {

/// Settings of the artifact-inventory variant.
#[derive(Clone, Copy, PartialEq, Eq, Structural, Debug)]
pub struct AritfactLockConfig {
    /// Milliseconds to wait after switching the selected item.
    pub select_time: i32,
    /// Milliseconds to wait between moving the pointer and clicking.
    pub click_time: i32,
    /// Whether to persist diagnostic captures of classified regions.
    pub verbose: bool,
}

impl Default for AritfactLockConfig {
    fn default() -> (r: Self)
        ensures
            r.select_time == 0,
            r.click_time == 0,
            !r.verbose,
    {
        AritfactLockConfig { select_time: 0, click_time: 0, verbose: false }
    }
}

/// Settings of the relic-inventory variant.
#[derive(Clone, Copy, PartialEq, Eq, Structural, Debug)]
pub struct RelicLockConfig {
    /// Milliseconds to wait after switching the selected item.
    pub select_time: i32,
    /// Milliseconds to wait between moving the pointer and clicking.
    pub click_time: i32,
    /// Whether to log where a lock marker was found.
    pub verbose: bool,
}

impl Default for RelicLockConfig {
    fn default() -> (r: Self)
        ensures
            r.select_time == 100,
            r.click_time == 20,
            !r.verbose,
    {
        RelicLockConfig { select_time: 100, click_time: 20, verbose: false }
    }
}

} // verus!
