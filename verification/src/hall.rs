//! Decoding of the three hall-effect rotor sensors.

use vstd::prelude::*;

verus! {

/// The 60-degree electrical sector of a hall state (bit 0 sensor U, bit 1
/// V, bit 2 W); all-low and all-high are not valid states.
pub open spec fn sector_of(state: u8) -> Option<u8> {
    if state == 1 {
        Some(0)
    } else if state == 2 {
        Some(4)
    } else if state == 3 {
        Some(5)
    } else if state == 4 {
        Some(2)
    } else if state == 5 {
        Some(1)
    } else if state == 6 {
        Some(3)
    } else {
        None
    }
}

/// The electrical sector of a hall state.
pub fn hall_sector(state: u8) -> (sector: Option<u8>)
    ensures
        sector == sector_of(state),
        sector matches Some(s) ==> s < 6,
{
    match state {
        1 => Some(0),
        2 => Some(4),
        3 => Some(5),
        4 => Some(2),
        5 => Some(1),
        6 => Some(3),
        _ => None,
    }
}

/// How the rotor moved between two sectors.
#[derive(Clone, Copy, Debug, PartialEq, Eq, Structural)]
pub enum HallStep {
    /// One sector forward.
    Forward,
    /// One sector back.
    Backward,
    /// No neighbouring sector: a skipped or repeated sector.
    Invalid,
}

/// How the rotor moved from `previous` to `sector`.
pub open spec fn step_of(previous: u8, sector: u8) -> HallStep {
    let step = (sector + 6 - previous) % 6;
    if step == 1 {
        HallStep::Forward
    } else if step == 5 {
        HallStep::Backward
    } else {
        HallStep::Invalid
    }
}

/// How the rotor moved between two valid sectors.
pub fn hall_step(previous: u8, sector: u8) -> (step: HallStep)
    requires
        previous < 6,
        sector < 6,
    ensures
        step == step_of(previous, sector),
{
    match (sector + 6 - previous) % 6 {
        1 => HallStep::Forward,
        5 => HallStep::Backward,
        _ => HallStep::Invalid,
    }
}

/// The six valid states visit the six sectors once each, and stepping
/// through the states in the commutation order U, UW, W, VW, V, UV moves
/// forward one sector at a time.
pub proof fn lemma_hall_states_cover_sectors()
    ensures
        forall|s: u8| 1 <= s <= 6 ==> #[trigger] sector_of(s) is Some,
        sector_of(0) is None,
        sector_of(7) is None,
        forall|a: u8, b: u8| 1 <= a <= 6 && 1 <= b <= 6 && a != b ==> #[trigger] sector_of(a) != #[trigger] sector_of(b),
        step_of(sector_of(1)->0, sector_of(5)->0) == HallStep::Forward,
        step_of(sector_of(5)->0, sector_of(4)->0) == HallStep::Forward,
        step_of(sector_of(4)->0, sector_of(6)->0) == HallStep::Forward,
        step_of(sector_of(6)->0, sector_of(2)->0) == HallStep::Forward,
        step_of(sector_of(2)->0, sector_of(3)->0) == HallStep::Forward,
        step_of(sector_of(3)->0, sector_of(1)->0) == HallStep::Forward,
        step_of(sector_of(1)->0, sector_of(3)->0) == HallStep::Backward,
{
}

} // verus!
