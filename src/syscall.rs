//! System call interface.

use vstd::prelude::*;

verus! {

/// Installs the system call entry. Nothing is required of it yet.
pub fn init() {
}

} // verus!
