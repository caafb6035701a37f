//! Configuration constants of the reference S9 deployment. The core performs
//! no file or environment access: everything configurable arrives as a plain
//! parameter, and these are the values the reference hardware uses.

use vstd::prelude::*;

verus! {

/// Number of midstates searched per work item unless configured otherwise.
pub const MIDSTATE_COUNT: usize = 1;

/// Connector index of the hashboard the reference rig is populated with.
pub const S9_HASHBOARD_INDEX: usize = 8;

/// Difficulty target the ASICs filter solutions against before reporting.
pub const ASIC_DIFFICULTY: usize = 64;

} // verus!
