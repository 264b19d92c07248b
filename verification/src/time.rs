//! Footprint accounting for fixed-width timestamps.

use crate::size::{clamp_usize, Size};
use vstd::prelude::*;

verus! {

/// A fixed-width instant in coordinated universal time: whole seconds
/// since the epoch and a subsecond in nanoseconds. It stands in for the
/// timestamp values whose footprint the crate accounts for; being a plain
/// pair of integers, it owns nothing out of line.
pub struct Timestamp {
    pub seconds: i64,
    pub nanos: u32,
}

impl Size for Timestamp {
    /// A timestamp is a fixed-width scalar: it owns nothing out of line.
    open spec fn is_indirect_size(&self, n: nat) -> bool {
        n == 0
    }

    fn indirect_size(&self) -> (r: usize)
        ensures
            r == 0,
    {
        proof {
            assert(self.is_indirect_size(0) && 0 as nat == clamp_usize(0));
        }
        0
    }
}

} // verus!
