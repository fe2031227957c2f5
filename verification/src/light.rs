//! The phases of the diorama's day, by the height of its sun.
use vstd::prelude::*;
use crate::scalar::Scalar;

verus! {

/// The height above which it is day: the binary32 number nearest to seven
/// tenths.
pub const DAY_HEIGHT_BITS: u32 = 0x3f33_3333;

/// The height up to which it is night: the binary32 number nearest to three
/// tenths.
pub const NIGHT_HEIGHT_BITS: u32 = 0x3e99_999a;

/// A phase of the day. Each has a light of its own: white by day, warm at
/// dawn and dusk, dim and blue by night.
#[derive(Clone, Copy, Debug, PartialEq, Eq, Structural)]
pub enum Phase {
    Day,
    Twilight,
    Night,
}

/// The phase of the day, by the height of the sun on a scale from zero, at
/// midnight, to one, at noon.
pub open spec fn spec_day_phase(height: Scalar) -> Phase {
    if height.gt(Scalar { bits: DAY_HEIGHT_BITS }) {
        Phase::Day
    } else if height.gt(Scalar { bits: NIGHT_HEIGHT_BITS }) {
        Phase::Twilight
    } else {
        Phase::Night
    }
}

#[verifier::when_used_as_spec(spec_day_phase)]
pub fn day_phase(height: Scalar) -> (phase: Phase)
    ensures
        phase == spec_day_phase(height),
{
    if height.gt(Scalar::from_bits(DAY_HEIGHT_BITS)) {
        Phase::Day
    } else if height.gt(Scalar::from_bits(NIGHT_HEIGHT_BITS)) {
        Phase::Twilight
    } else {
        Phase::Night
    }
}

/// The day is in one piece: a sun that stands higher never brings an earlier
/// phase. Night lies below twilight, and twilight below day.
pub proof fn lemma_phases_follow_the_height(lower: Scalar, higher: Scalar)
    requires
        !lower.is_nan(),
        !higher.is_nan(),
        lower.rank() <= higher.rank(),
    ensures
        spec_day_phase(lower) == Phase::Day ==> spec_day_phase(higher) == Phase::Day,
        spec_day_phase(higher) == Phase::Night ==> spec_day_phase(lower) == Phase::Night,
{
}

} // verus!
