//! Wall spawner: on each firing of the slow spawn timer, while unpaused, it
//! draws a wave size uniformly from 1 to 4 and then that many distinct lane
//! indices by rejection sampling — redrawing on a duplicate — and creates
//! one wall per chosen lane at the rim. A wave therefore never holds two
//! walls in the same lane.

use vstd::prelude::*;

use crate::geometry::LANE_COUNT;
use crate::wall::Wall;
use crate::wall::RIM_DISTANCE;

verus! {

/// Smallest number of walls in one wave.
pub const MIN_WAVE: u32 = 1;

/// Largest number of walls in one wave.
pub const MAX_WAVE: u32 = 4;

/// No two entries of the sequence are equal.
pub open spec fn distinct_lanes(s: Seq<u8>) -> bool {
    forall|i: int, j: int| 0 <= i < j < s.len() ==> s[i] != s[j]
}

/// Relies on `fastrand::u32`: a pseudo-random draw from the thread-local
/// generator, landing in the half-open range, which panics only on an
/// empty range.
#[verifier::external_body]
fn draw_in_range(low: u32, high: u32) -> (r: u32)
    requires
        low < high,
    ensures
        low <= r < high,
{
    fastrand::u32(low..high)
}

/// How many redraws one slot of a wave may spend before the draw falls
/// back to the lowest free lane. The bound makes termination of the
/// rejection loop provable; with at most four of six lanes taken, the
/// chance of ever reaching it is below (2/3) to the thousandth power.
const REDRAW_TRIES: u32 = 1000;

/// Whether a lane index already occurs in the draws so far.
fn contains_lane(lanes: &Vec<u8>, lane: u8) -> (found: bool)
    ensures
        found == lanes@.contains(lane),
{
    let n = lanes.len();
    let mut i: usize = 0;
    while i < n
        invariant
            i <= n,
            n == lanes@.len(),
            forall|j: int| 0 <= j < i ==> lanes@[j] != lane,
        decreases n - i,
    {
        if lanes[i] == lane {
            assert(lanes@[i as int] == lane);
            return true;
        }
        i = i + 1;
    }
    false
}

/// Fewer than six distinct lanes always leave one free: were every lane
/// taken, the draws would hold six different values at six different
/// positions, more positions than the sequence has.
proof fn lemma_free_lane_exists(s: Seq<u8>)
    requires
        s.len() < LANE_COUNT,
        distinct_lanes(s),
    ensures
        exists|v: u8| v < LANE_COUNT && !s.contains(v),
{
    if !(exists|v: u8| v < LANE_COUNT && !s.contains(v)) {
        assert(s.contains(0u8));
        assert(s.contains(1u8));
        assert(s.contains(2u8));
        assert(s.contains(3u8));
        assert(s.contains(4u8));
        assert(s.contains(5u8));
        let i0 = choose|i: int| 0 <= i < s.len() && s[i] == 0u8;
        let i1 = choose|i: int| 0 <= i < s.len() && s[i] == 1u8;
        let i2 = choose|i: int| 0 <= i < s.len() && s[i] == 2u8;
        let i3 = choose|i: int| 0 <= i < s.len() && s[i] == 3u8;
        let i4 = choose|i: int| 0 <= i < s.len() && s[i] == 4u8;
        let i5 = choose|i: int| 0 <= i < s.len() && s[i] == 5u8;
        assert(false);
    }
}

/// The lowest lane index that the draws so far do not hold.
fn first_free_lane(lanes: &Vec<u8>) -> (lane: u8)
    requires
        lanes@.len() < LANE_COUNT,
        distinct_lanes(lanes@),
    ensures
        lane < LANE_COUNT,
        !lanes@.contains(lane),
{
    let mut cand: u8 = 0;
    while cand < 6
        invariant
            cand <= 6,
            forall|v: u8| v < cand ==> lanes@.contains(v),
            lanes@.len() < LANE_COUNT,
            distinct_lanes(lanes@),
        decreases 6 - cand,
    {
        if !contains_lane(lanes, cand) {
            return cand;
        }
        cand = cand + 1;
    }
    proof {
        lemma_free_lane_exists(lanes@);
        assert(false);
    }
    0
}

/// Draws the lanes of one wave: a random count between 1 and 4, then that
/// many distinct lane indices by rejection sampling — redrawing
/// on a duplicate, up to the retry budget, after which the lowest free
/// lane stands in. A free lane always exists, since six lanes exceed the
/// largest wave.
pub fn pick_wave_lanes() -> (lanes: Vec<u8>)
    ensures
        MIN_WAVE <= lanes@.len() <= MAX_WAVE,
        forall|i: int| 0 <= i < lanes@.len() ==> #[trigger] lanes@[i] < LANE_COUNT,
        distinct_lanes(lanes@),
{
    let count = draw_in_range(MIN_WAVE, MAX_WAVE + 1);
    let mut lanes: Vec<u8> = Vec::new();
    let mut c: u32 = 0;
    while c < count
        invariant
            c <= count,
            MIN_WAVE <= count <= MAX_WAVE,
            lanes@.len() == c,
            forall|i: int| 0 <= i < lanes@.len() ==> #[trigger] lanes@[i] < LANE_COUNT,
            distinct_lanes(lanes@),
        decreases count - c,
    {
        let mut lane = draw_in_range(0, LANE_COUNT) as u8;
        let mut duplicate = contains_lane(&lanes, lane);
        let mut tries: u32 = REDRAW_TRIES;
        while duplicate && tries > 0
            invariant
                lane < LANE_COUNT,
                duplicate == lanes@.contains(lane),
            decreases tries,
        {
            lane = draw_in_range(0, LANE_COUNT) as u8;
            duplicate = contains_lane(&lanes, lane);
            tries = tries - 1;
        }
        if duplicate {
            proof {
                assert(lanes@.len() < LANE_COUNT);
            }
            lane = first_free_lane(&lanes);
        }
        proof {
            assert forall|i: int| 0 <= i < lanes@.len() implies lanes@[i] != lane by {
                assert(!lanes@.contains(lane));
            }
        }
        lanes.push(lane);
        c = c + 1;
    }
    lanes
}

/// One firing of the spawn timer: appends one wave of fresh walls at the
/// rim, between one and four of them, each in its own lane — never two
/// walls of a wave in the same lane — and leaves the walls already live
/// untouched, in place.
pub fn spawn_wave(walls: &mut Vec<Wall>)
    ensures
        final(walls)@.len() > old(walls)@.len(),
        final(walls)@.subrange(0, old(walls)@.len() as int) == old(walls)@,
        MIN_WAVE <= final(walls)@.len() - old(walls)@.len() <= MAX_WAVE,
        forall|i: int|
            old(walls)@.len() <= i < final(walls)@.len() ==> (#[trigger] final(walls)@[i]).distance
                == RIM_DISTANCE && final(walls)@[i].lane < LANE_COUNT,
        forall|i: int, j: int|
            old(walls)@.len() <= i < j < final(walls)@.len() ==> (#[trigger] final(walls)@[i]).lane
                != (#[trigger] final(walls)@[j]).lane,
{
    let lanes = pick_wave_lanes();
    let base = walls.len();
    let k = lanes.len();
    let mut i: usize = 0;
    while i < k
        invariant
            i <= k,
            k == lanes@.len(),
            MIN_WAVE <= k <= MAX_WAVE,
            forall|m: int| 0 <= m < lanes@.len() ==> #[trigger] lanes@[m] < LANE_COUNT,
            distinct_lanes(lanes@),
            base == old(walls)@.len(),
            walls@.len() == base + i,
            walls@.subrange(0, base as int) == old(walls)@,
            forall|m: int|
                base <= m < walls@.len() ==> #[trigger] walls@[m] == (Wall {
                    distance: RIM_DISTANCE,
                    lane: lanes@[m - base],
                }),
        decreases k - i,
    {
        let lane = lanes[i];
        walls.push(Wall { distance: RIM_DISTANCE, lane });
        proof {
            assert(walls@.subrange(0, base as int) =~= old(walls)@);
        }
        i = i + 1;
    }
}

} // verus!
