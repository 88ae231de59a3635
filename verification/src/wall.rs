//! Obstacle walls: each wall occupies one lane and carries a radial distance
//! from the arena center, in whole units. On every fast tick the wall mover
//! advances each wall inward by a fixed step and removes the walls whose new
//! distance falls below the despawn threshold — the sole removal path.

use vstd::prelude::*;

use crate::geometry::LANE_COUNT;

verus! {

/// Radial distance at which a wall is created, at the arena rim.
pub const RIM_DISTANCE: u32 = 450;

/// Radial step of a wall per fast tick, in units, moving inward.
pub const WALL_STEP: u32 = 4;

/// Radial distance below which a wall is removed, near the arena center.
pub const DESPAWN_DISTANCE: u32 = 28;

/// An obstacle wall: its lane is fixed for its lifetime, its distance only
/// ever shrinks.
#[derive(Clone, Copy, Debug, PartialEq, Eq, Structural)]
pub struct Wall {
    pub distance: u32,
    pub lane: u8,
}

/// A live wall sits in a valid lane, no farther out than the rim and no
/// closer in than the despawn threshold.
pub open spec fn wall_wf(w: Wall) -> bool {
    &&& w.lane < LANE_COUNT
    &&& DESPAWN_DISTANCE <= w.distance <= RIM_DISTANCE
}

/// A wall after one inward step.
pub open spec fn stepped(w: Wall) -> Wall {
    Wall {
        distance: if w.distance >= WALL_STEP {
            (w.distance - WALL_STEP) as u32
        } else {
            0
        },
        lane: w.lane,
    }
}

/// A wall survives a tick when its stepped distance is still at or above
/// the despawn threshold.
pub open spec fn survives(w: Wall) -> bool {
    stepped(w).distance >= DESPAWN_DISTANCE
}

/// The walls left after one fast tick: every wall steps inward, and the
/// walls whose new distance falls below the despawn threshold drop out;
/// the order of the survivors is kept.
pub open spec fn moved_walls(s: Seq<Wall>) -> Seq<Wall>
    decreases s.len(),
{
    if s.len() == 0 {
        Seq::empty()
    } else if survives(s.last()) {
        moved_walls(s.drop_last()).push(stepped(s.last()))
    } else {
        moved_walls(s.drop_last())
    }
}

/// Well-formedness is preserved by a tick: every survivor is a live wall.
pub proof fn lemma_moved_walls_wf(s: Seq<Wall>)
    requires
        forall|i: int| 0 <= i < s.len() ==> wall_wf(#[trigger] s[i]),
    ensures
        forall|i: int| 0 <= i < moved_walls(s).len() ==> wall_wf(#[trigger] moved_walls(s)[i]),
    decreases s.len(),
{
    if s.len() > 0 {
        assert forall|i: int| 0 <= i < s.drop_last().len() implies wall_wf(
            #[trigger] s.drop_last()[i],
        ) by {
            assert(s.drop_last()[i] == s[i]);
        }
        lemma_moved_walls_wf(s.drop_last());
        assert forall|i: int| 0 <= i < moved_walls(s).len() implies wall_wf(
            #[trigger] moved_walls(s)[i],
        ) by {
            if survives(s.last()) && i == moved_walls(s).len() - 1 {
                assert(wall_wf(s[s.len() - 1]));
            } else {
                assert(moved_walls(s)[i] == moved_walls(s.drop_last())[i]);
            }
        }
    }
}

/// Walls only ever move inward: every wall left after a tick is some input
/// wall stepped one unit of speed closer to the center, so its distance is
/// no larger than it was. (While paused the mover does not run at all, so
/// distances are then unchanged.)
pub proof fn lemma_wall_distance_non_increasing(s: Seq<Wall>)
    ensures
        forall|j: int|
            0 <= j < moved_walls(s).len() ==> exists|i: int|
                0 <= i < s.len() && #[trigger] moved_walls(s)[j] == stepped(s[i]) && stepped(
                    s[i],
                ).distance <= s[i].distance,
    decreases s.len(),
{
    if s.len() > 0 {
        lemma_wall_distance_non_increasing(s.drop_last());
        assert forall|j: int| 0 <= j < moved_walls(s).len() implies exists|i: int|
            0 <= i < s.len() && #[trigger] moved_walls(s)[j] == stepped(s[i]) && stepped(
                s[i],
            ).distance <= s[i].distance by {
            if j < moved_walls(s.drop_last()).len() {
                let i = choose|i: int|
                    0 <= i < s.drop_last().len() && #[trigger] moved_walls(s.drop_last())[j]
                        == stepped(s.drop_last()[i]) && stepped(s.drop_last()[i]).distance
                        <= s.drop_last()[i].distance;
                assert(moved_walls(s)[j] == stepped(s[i]) && stepped(s[i]).distance
                    <= s[i].distance);
            } else {
                let i = s.len() - 1;
                assert(moved_walls(s)[j] == stepped(s[i]) && stepped(s[i]).distance
                    <= s[i].distance);
            }
        }
    }
}

/// Removal happens exactly at the despawn threshold: a wall value is among
/// the survivors of a tick if and only if it is some input wall stepped
/// inward and its new distance is still at or above the threshold. A wall
/// whose stepped distance drops below the threshold is gone entirely — no
/// survivor carries a distance below the threshold — and, since live walls
/// always sit at or above the threshold, a wall can cross it only once.
pub proof fn lemma_despawn_at_threshold(s: Seq<Wall>, w: Wall)
    ensures
        moved_walls(s).contains(w) <==> ((exists|i: int|
            0 <= i < s.len() && w == stepped(#[trigger] s[i])) && w.distance >= DESPAWN_DISTANCE),
    decreases s.len(),
{
    if s.len() > 0 {
        lemma_despawn_at_threshold(s.drop_last(), w);
        let last = s.last();
        if moved_walls(s).contains(w) {
            if survives(last) && w == stepped(last) {
                assert(w == stepped(s[s.len() - 1]));
            } else {
                assert(moved_walls(s.drop_last()).contains(w)) by {
                    let j = choose|j: int|
                        0 <= j < moved_walls(s).len() && moved_walls(s)[j] == w;
                    if survives(last) {
                        assert(moved_walls(s)[j] == moved_walls(s.drop_last()).push(
                            stepped(last),
                        )[j]);
                    }
                }
                let i = choose|i: int|
                    0 <= i < s.drop_last().len() && w == stepped(#[trigger] s.drop_last()[i]);
                assert(w == stepped(s[i]));
            }
        }
        if (exists|i: int| 0 <= i < s.len() && w == stepped(#[trigger] s[i])) && w.distance
            >= DESPAWN_DISTANCE {
            let i = choose|i: int| 0 <= i < s.len() && w == stepped(#[trigger] s[i]);
            if i < s.len() - 1 {
                assert(w == stepped(s.drop_last()[i]));
                assert(moved_walls(s.drop_last()).contains(w));
                let j = choose|j: int|
                    0 <= j < moved_walls(s.drop_last()).len() && moved_walls(s.drop_last())[j]
                        == w;
                if survives(last) {
                    assert(moved_walls(s)[j] == w);
                } else {
                    assert(moved_walls(s)[j] == w);
                }
            } else {
                assert(survives(last));
                assert(moved_walls(s).last() == w);
            }
        }
    }
}

/// One fast tick of the wall mover: advances every wall inward by the wall
/// speed and removes the walls whose new distance falls below the despawn
/// threshold, keeping the order of the survivors.
pub fn move_walls(walls: &mut Vec<Wall>)
    ensures
        final(walls)@ == moved_walls(old(walls)@),
{
    let n = walls.len();
    let mut out: Vec<Wall> = Vec::new();
    let mut i: usize = 0;
    while i < n
        invariant
            i <= n,
            n == walls@.len(),
            walls@ == old(walls)@,
            out@ == moved_walls(walls@.subrange(0, i as int)),
        decreases n - i,
    {
        let w = walls[i];
        let new_distance = if w.distance >= WALL_STEP {
            w.distance - WALL_STEP
        } else {
            0
        };
        proof {
            assert(walls@.subrange(0, i + 1 as int).drop_last() =~= walls@.subrange(0, i as int));
            assert(walls@.subrange(0, i + 1 as int).last() == w);
        }
        if new_distance >= DESPAWN_DISTANCE {
            out.push(Wall { distance: new_distance, lane: w.lane });
        }
        i = i + 1;
    }
    proof {
        assert(walls@.subrange(0, n as int) =~= walls@);
    }
    *walls = out;
}

} // verus!
