//! Lane geometry: the arena is split into six fixed 60-degree sectors
//! (lanes), one per hexagon edge. This module maps angles to lane indices
//! and lane indices to their polar placement angle.

use vstd::prelude::*;

verus! {

/// Number of lanes, one per hexagon edge.
pub const LANE_COUNT: u32 = 6;

/// Angular width of one lane, in degrees.
pub const DEG_PER_LANE: u32 = 60;

/// One full turn, in degrees.
pub const FULL_TURN: u32 = 360;

/// Lane that an angle in degrees falls in: `floor(angle / 60) mod 6`.
pub open spec fn lane_of_angle(angle: int) -> int {
    (angle / 60) % 6
}

/// Polar placement angle of a lane's center line: `30 + 60 * lane` degrees.
pub open spec fn lane_center_angle(lane: int) -> int {
    30 + 60 * lane
}

/// Lane index of a position given as an angle in degrees.
pub fn lane_for_angle(angle: u32) -> (lane: u8)
    requires
        angle < FULL_TURN,
    ensures
        lane as int == lane_of_angle(angle as int),
        lane < LANE_COUNT,
{
    (angle / DEG_PER_LANE) as u8
}

/// Polar placement angle, in degrees, of a lane's center line.
pub fn lane_center_deg(lane: u8) -> (a: u32)
    requires
        lane < LANE_COUNT,
    ensures
        a as int == lane_center_angle(lane as int),
        a < FULL_TURN,
{
    30 + 60 * (lane as u32)
}

} // verus!
