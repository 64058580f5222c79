//! Percentage scaling shared by enemy stats and shop prices.

use vstd::prelude::*;

verus! {

/// `base` scaled by a percentage factor: `base * percent / 100`.
pub open spec fn spec_scaled(base: u32, percent: u32) -> u32 {
    ((base * percent) / 100) as u32
}

/// Executable mirror of `spec_scaled`.
pub fn scaled_by_percent(base: u32, percent: u32) -> (r: u32)
    requires
        base * percent <= u32::MAX,
    ensures
        r == spec_scaled(base, percent),
{
    (base * percent) / 100
}

} // verus!
