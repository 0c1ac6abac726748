use vstd::prelude::*;
use vstd::std_specs::cmp::PartialOrdSpec;

use crate::order::compare_positions;

verus! {

/// Nanoseconds in one millisecond.
pub const NANOS_PER_MILLI: u128 = 1_000_000;

/// Nanoseconds in one second.
pub const NANOS_PER_SEC: u128 = 1_000_000_000;

/// The error of a schedule whose next point in time lies past the last point
/// that its clock can represent.
#[derive(Clone, Copy, PartialEq, Eq, Structural, Debug)]
pub enum TimeError {
    /// Adding a duration overflowed the clock.
    Overflow,
}

/// A span of time, counted in nanoseconds.
#[derive(Clone, Copy, PartialEq, Eq, Structural, Debug)]
pub struct Duration {
    nanos: u128,
}

impl View for Duration {
    type V = nat;

    /// The length of the span in nanoseconds.
    closed spec fn view(&self) -> nat {
        self.nanos as nat
    }
}

impl Duration {
    /// A span of the given number of nanoseconds.
    pub fn from_nanos(nanos: u128) -> (d: Duration)
        ensures
            d@ == nanos,
    {
        Duration { nanos }
    }

    /// A span of the given number of milliseconds.
    pub fn from_millis(millis: u64) -> (d: Duration)
        ensures
            d@ == millis * NANOS_PER_MILLI,
    {
        Duration { nanos: (millis as u128) * NANOS_PER_MILLI }
    }

    /// A span of the given number of seconds.
    pub fn from_secs(secs: u64) -> (d: Duration)
        ensures
            d@ == secs * NANOS_PER_SEC,
    {
        Duration { nanos: (secs as u128) * NANOS_PER_SEC }
    }

    /// The length of the span in nanoseconds.
    pub fn as_nanos(&self) -> (n: u128)
        ensures
            n == self@,
    {
        self.nanos
    }
}

/// Points in time that can be moved forward by a `Duration`, ordered by
/// their position on their clock's time line.
///
/// Adding a duration, when it succeeds, moves the point exactly that far;
/// `PartialOrd` compares two points by their positions.
pub trait TimeAdd: Sized + PartialOrd {
    /// The position of this point on its clock's time line, in nanoseconds.
    spec fn position(&self) -> int;

    /// Whether the point `duration` nanoseconds later can be represented.
    spec fn can_add(&self, duration: nat) -> bool;

    /// The point `duration` later, or `None` where that point cannot be represented.
    fn checked_add(&self, duration: Duration) -> (later: Option<Self>)
        ensures
            later is Some <==> self.can_add(duration@),
            later matches Some(t) ==> t.position() == self.position() + duration@,
    ;

    /// Comparing two points compares their positions.
    proof fn lemma_ordered_by_position(a: &Self, b: &Self)
        ensures
            Self::obeys_partial_cmp_spec(),
            a.partial_cmp_spec(b) == compare_positions(a.position(), b.position()),
    ;
}

/// A point on a clock, counted in nanoseconds from the clock's origin.
#[derive(Clone, Copy, PartialEq, Eq, Structural, Debug)]
pub struct WrappedInstant {
    nanos: u128,
}

impl View for WrappedInstant {
    type V = nat;

    /// Nanoseconds from the clock's origin.
    closed spec fn view(&self) -> nat {
        self.nanos as nat
    }
}

impl WrappedInstant {
    /// The point `nanos` nanoseconds after the clock's origin.
    pub fn from_nanos(nanos: u128) -> (t: WrappedInstant)
        ensures
            t@ == nanos,
    {
        WrappedInstant { nanos }
    }

    /// Nanoseconds from the clock's origin.
    pub fn as_nanos(&self) -> (n: u128)
        ensures
            n == self@,
    {
        self.nanos
    }
}

/// A reading is determined by its position: two readings at the same
/// position are the same reading, so an `Equal` comparison means equality.
pub proof fn lemma_equal_position_is_equal_instant(a: WrappedInstant, b: WrappedInstant)
    ensures
        a.position() == b.position() <==> a == b,
        a@ == b@ <==> a == b,
{
}

/// Whether `start + duration` is a point that a `WrappedInstant` can hold.
pub open spec fn fits_after(start: nat, duration: nat) -> bool {
    start + duration <= u128::MAX
}

impl TimeAdd for WrappedInstant {
    open spec fn position(&self) -> int {
        self@ as int
    }

    open spec fn can_add(&self, duration: nat) -> bool {
        fits_after(self@, duration)
    }

    /// The point `duration` later; `None` exactly where it lies past the last
    /// representable point.
    fn checked_add(&self, duration: Duration) -> (later: Option<WrappedInstant>)
        ensures
            later matches Some(t) ==> t@ == self@ + duration@,
    {
        match self.nanos.checked_add(duration.as_nanos()) {
            Some(nanos) => Some(WrappedInstant { nanos }),
            None => None,
        }
    }

    proof fn lemma_ordered_by_position(a: &WrappedInstant, b: &WrappedInstant) {
    }
}

} // verus!
