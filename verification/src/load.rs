//! Load as an exact fraction.
//!
//! A load is the share of a capacity that is in use. It is kept as two
//! integers so that nothing is rounded; whoever needs a decimal number
//! divides the two parts.

use vstd::prelude::*;

verus! {

/// Occupancy over capacity, with a denominator that is never zero.
#[derive(Debug, Clone, Copy, PartialEq, Eq, Structural)]
pub struct LoadFactor {
    pub numerator: u32,
    pub denominator: u32,
}

impl LoadFactor {
    /// The load of `used` out of `capacity`: zero out of one where there is
    /// no capacity, `used` out of `capacity` otherwise.
    pub open spec fn ratio(used: u32, capacity: u32) -> LoadFactor {
        if capacity == 0 {
            LoadFactor { numerator: 0, denominator: 1 }
        } else {
            LoadFactor { numerator: used, denominator: capacity }
        }
    }

    /// A load can be divided out: its denominator is positive.
    pub open spec fn well_formed(self) -> bool {
        self.denominator > 0
    }

    /// Computes the load of `used` out of `capacity`. A capacity of zero
    /// gives a load of zero, never a division by zero.
    pub fn of(used: u32, capacity: u32) -> (load: Self)
        ensures
            load == Self::ratio(used, capacity),
            load.well_formed(),
            capacity == 0 ==> load.numerator == 0,
    {
        if capacity == 0 {
            LoadFactor { numerator: 0, denominator: 1 }
        } else {
            LoadFactor { numerator: used, denominator: capacity }
        }
    }
}

} // verus!
