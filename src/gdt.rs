//! Global descriptor table.

use vstd::prelude::*;

verus! {

/// Loads the global descriptor table. Nothing is required of it yet.
pub fn init() {
}

} // verus!
