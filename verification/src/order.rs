use core::cmp::Ordering;
use vstd::prelude::*;
use vstd::std_specs::cmp::PartialOrdSpec;

use crate::time::{TimeAdd, WrappedInstant};

verus! {

/// How two points in time compare, by their positions on the time line.
pub open spec fn compare_positions(a: int, b: int) -> Option<Ordering> {
    if a < b {
        Some(Ordering::Less)
    } else if a == b {
        Some(Ordering::Equal)
    } else {
        Some(Ordering::Greater)
    }
}

/// Points in time are totally ordered: every two are comparable, and
/// swapping them reverses the comparison.
pub proof fn lemma_time_order_is_total(a: int, b: int)
    ensures
        compare_positions(a, b) is Some,
        compare_positions(a, b) == Some(Ordering::Less) <==> compare_positions(b, a) == Some(
            Ordering::Greater,
        ),
        compare_positions(a, b) == Some(Ordering::Equal) <==> a == b,
{
}

/// Two readings compare `Equal` exactly when they are the same reading, so
/// the order agrees with `==`.
pub proof fn lemma_instants_equal_iff_compare_equal(a: WrappedInstant, b: WrappedInstant)
    ensures
        a.partial_cmp_spec(&b) == Some(Ordering::Equal) <==> a == b,
{
    crate::time::lemma_equal_position_is_equal_instant(a, b);
}

impl PartialOrd for WrappedInstant {
    fn partial_cmp(&self, other: &WrappedInstant) -> (r: Option<Ordering>) {
        let a: u128 = self.as_nanos();
        let b: u128 = other.as_nanos();
        if a < b {
            Some(Ordering::Less)
        } else if a == b {
            Some(Ordering::Equal)
        } else {
            Some(Ordering::Greater)
        }
    }
}

impl vstd::std_specs::cmp::PartialOrdSpecImpl for WrappedInstant {
    open spec fn obeys_partial_cmp_spec() -> bool {
        true
    }

    open spec fn partial_cmp_spec(&self, other: &WrappedInstant) -> Option<Ordering> {
        compare_positions(self.position(), other.position())
    }
}

} // verus!
