//! Collision detection: a wall hits the player when it shares the player's
//! lane and its radial distance lies inside an asymmetric tolerance band
//! around the fixed orbit radius. The test is deliberately coarse — a
//! radius band, not exact geometric overlap.

use vstd::prelude::*;

use crate::wall::Wall;

verus! {

/// Fixed radial distance at which the player orbits.
pub const ORBIT_RADIUS: u32 = 60;

/// How far inside the orbit radius a wall still counts as a hit.
pub const HIT_TOL_BELOW: u32 = 10;

/// How far outside the orbit radius a wall already counts as a hit.
pub const HIT_TOL_ABOVE: u32 = 3;

/// The open tolerance band around the orbit radius in which contact counts.
pub open spec fn in_hit_band(distance: int) -> bool {
    ORBIT_RADIUS - HIT_TOL_BELOW < distance < ORBIT_RADIUS + HIT_TOL_ABOVE
}

/// A wall hits the player exactly when it occupies the player's lane and
/// its distance lies in the tolerance band.
pub open spec fn hits(w: Wall, player_lane: int) -> bool {
    w.lane == player_lane && in_hit_band(w.distance as int)
}

/// Some wall in the sequence hits the player.
pub open spec fn any_hit(s: Seq<Wall>, player_lane: int) -> bool {
    exists|i: int| 0 <= i < s.len() && hits(#[trigger] s[i], player_lane)
}

/// Scans the walls for contact with the player's lane, stopping at the
/// first hit found.
pub fn detect_collision(walls: &Vec<Wall>, player_lane: u8) -> (hit: bool)
    ensures
        hit == any_hit(walls@, player_lane as int),
{
    let n = walls.len();
    let mut i: usize = 0;
    while i < n
        invariant
            i <= n,
            n == walls@.len(),
            forall|j: int| 0 <= j < i ==> !hits(#[trigger] walls@[j], player_lane as int),
        decreases n - i,
    {
        let w = walls[i];
        if w.lane == player_lane && w.distance as u64 + HIT_TOL_BELOW as u64 > ORBIT_RADIUS as u64
            && w.distance < ORBIT_RADIUS + HIT_TOL_ABOVE {
            assert(hits(walls@[i as int], player_lane as int));
            return true;
        }
        i = i + 1;
    }
    false
}

} // verus!
