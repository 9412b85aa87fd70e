//! Paging.

use vstd::prelude::*;

verus! {

/// Builds and enables the page tables. Nothing is required of it yet.
pub fn init() {
}

} // verus!
