//! Programmable interval timer.

use vstd::prelude::*;

verus! {

/// Programs the timer to tick `freq_hz` times a second. Nothing is required of it yet.
pub fn init(freq_hz: u32) {
}

} // verus!
