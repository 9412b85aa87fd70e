//! Keyboard driver.

use vstd::prelude::*;

verus! {

/// Prepares the keyboard driver. Nothing is required of it yet.
pub fn init() {
}

} // verus!
