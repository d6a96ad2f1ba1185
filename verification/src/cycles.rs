//! Time, counted in cycles of the double-speed (CGB) clock.
use vstd::prelude::*;

verus! {

/// A number of CGB clock cycles.
pub type CycleCount = u64;

/// Cycles in one second.
pub const SECOND: u64 = 2097152;

/// Cycles taken by one machine cycle at normal speed.
pub const GB: u64 = 2;

/// Cycles taken by one machine cycle at double speed.
pub const CGB: u64 = 1;

} // verus!
