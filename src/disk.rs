//! Disk driver.

use vstd::prelude::*;

verus! {

/// Prepares the disk driver. Nothing is required of it yet.
pub fn init() {
}

} // verus!
