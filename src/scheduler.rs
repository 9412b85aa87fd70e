//! Scheduler.

use vstd::prelude::*;

verus! {

/// Prepares the scheduler. Nothing is required of it yet.
pub fn init() {
}

/// Handles one timer tick. Nothing is required of it yet.
pub fn tick() {
}

} // verus!
