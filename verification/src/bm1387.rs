//! Constants of the BM1387 chip family that the timing math depends on.

use vstd::prelude::*;

verus! {

/// The BM1387 derives its baud clock by dividing the oscillator by this base
/// divisor before the programmable divisor register is applied.
pub const CHIP_OSC_CLK_BASE_BAUD_DIV: usize = 8;

/// How many midstates one BM1387 can search in parallel.
pub open spec fn valid_midstate_count(count: usize) -> bool {
    count == 1 || count == 2 || count == 4
}

} // verus!
