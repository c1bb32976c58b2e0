//! The snapshot of the aircraft's state that the hazard functions look at.

use vstd::prelude::*;

verus! {

/// The state of the aircraft at one tick, in whole numbers.
#[derive(Copy, Clone, Debug, PartialEq, Eq)]
pub struct AircraftState {
    /// Time at which the state was taken, in milliseconds.
    pub timestamp: u64,
    /// Altitude above ground, in feet.
    pub altitude_ground: i32,
    /// Vertical rate in feet per minute, positive when the aircraft climbs.
    pub climb_rate: i32,
    /// Whether a steep approach is selected.
    pub steep_approach: bool,
}

} // verus!
