//! The stability rule: a file is stable when its size has not changed over
//! the wait.

use vstd::prelude::*;

verus! {

/// Whether a file's size held still.
#[derive(Debug, Clone, Copy, PartialEq, Eq, Structural)]
pub enum StabilityResult {
    /// The size did not change.
    Stable,
    /// The size changed; both sizes are reported.
    Unstable { initial_size: u64, current_size: u64 },
}

/// Stable exactly when the two sizes are equal.
pub open spec fn stability_of(initial_size: u64, current_size: u64) -> StabilityResult {
    if initial_size == current_size {
        StabilityResult::Stable
    } else {
        StabilityResult::Unstable { initial_size, current_size }
    }
}

/// Compares the size at discovery with the size after the wait.
pub fn compare_sizes(initial_size: u64, current_size: u64) -> (r: StabilityResult)
    ensures
        r == stability_of(initial_size, current_size),
{
    if initial_size == current_size {
        StabilityResult::Stable
    } else {
        StabilityResult::Unstable { initial_size, current_size }
    }
}

} // verus!
