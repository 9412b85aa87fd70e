//! Interrupt descriptor table.

use vstd::prelude::*;

verus! {

/// Installs the interrupt descriptor table. Nothing is required of it yet.
pub fn init() {
}

} // verus!
