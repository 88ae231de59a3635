//! The whole simulation: one state set holding the player, the live walls,
//! the score, the pause flag and the two timers, advanced one frame at a
//! time in a fixed order — spawn, move walls, move player, detect
//! collision, update score — each part gated by its own timer and by the
//! pause flag. While paused everything is frozen until a reset action
//! arrives; the reset restores the initial state.

use vstd::prelude::*;

use crate::collision::any_hit;
use crate::collision::detect_collision;
use crate::geometry::lane_of_angle;
use crate::geometry::LANE_COUNT;
use crate::player::player_step_angle;
use crate::player::Intent;
use crate::player::Player;
use crate::score::score_wf;
use crate::score::ticked_score;
use crate::score::Score;
use crate::spawner::spawn_wave;
use crate::spawner::MAX_WAVE;
use crate::spawner::MIN_WAVE;
use crate::timer::ticked_timer;
use crate::timer::timer_fires;
use crate::timer::timer_wf;
use crate::timer::TickTimer;
use crate::wall::lemma_moved_walls_wf;
use crate::wall::move_walls;
use crate::wall::moved_walls;
use crate::wall::wall_wf;
use crate::wall::Wall;
use crate::wall::RIM_DISTANCE;

verus! {

/// Interval of the fast timer that gates movement, collision and scoring.
pub const FAST_INTERVAL_MS: u32 = 10;

/// Interval of the slower, independent timer that gates wave spawning.
pub const SPAWN_INTERVAL_MS: u32 = 1500;

/// One wave as a sequence of fresh walls: between one and four of them,
/// every one at the rim, each in its own valid lane.
pub open spec fn wave_wf(wave: Seq<Wall>) -> bool {
    &&& MIN_WAVE <= wave.len() <= MAX_WAVE
    &&& forall|i: int|
        0 <= i < wave.len() ==> (#[trigger] wave[i]).distance == RIM_DISTANCE && wave[i].lane
            < LANE_COUNT
    &&& forall|i: int, j: int| 0 <= i < j < wave.len() ==> wave[i].lane != wave[j].lane
}

/// The whole simulation state.
pub struct GameState {
    pub player: Player,
    pub walls: Vec<Wall>,
    pub score: Score,
    pub paused: bool,
    pub fast_timer: TickTimer,
    pub spawn_timer: TickTimer,
}

impl GameState {
    /// Every piece of the state is well formed: the player's angle is a
    /// valid bearing, every live wall sits between despawn threshold and
    /// rim in a valid lane, the sub-units are below the roll-over point,
    /// and the timers hold less than one interval.
    pub open spec fn wf(self) -> bool {
        &&& self.player.wf()
        &&& score_wf(self.score)
        &&& timer_wf(self.fast_timer)
        &&& timer_wf(self.spawn_timer)
        &&& forall|i: int| 0 <= i < self.walls@.len() ==> wall_wf(#[trigger] self.walls@[i])
    }

    /// The initial state: player at the top, no walls, zero score, running,
    /// both timers empty.
    pub open spec fn is_initial(self, fast_interval_ms: u32, spawn_interval_ms: u32) -> bool {
        &&& self.player.angle == 0
        &&& self.walls@.len() == 0
        &&& self.score.whole == 0 && self.score.sub == 0
        &&& !self.paused
        &&& self.fast_timer == (TickTimer { interval_ms: fast_interval_ms, elapsed_ms: 0 })
        &&& self.spawn_timer == (TickTimer { interval_ms: spawn_interval_ms, elapsed_ms: 0 })
    }

    /// A fresh simulation with the given timer intervals.
    pub fn new(fast_interval_ms: u32, spawn_interval_ms: u32) -> (g: GameState)
        requires
            fast_interval_ms >= 1,
            spawn_interval_ms >= 1,
        ensures
            g.wf(),
            g.is_initial(fast_interval_ms, spawn_interval_ms),
    {
        GameState {
            player: Player::new(),
            walls: Vec::new(),
            score: Score::new(),
            paused: false,
            fast_timer: TickTimer::new(fast_interval_ms),
            spawn_timer: TickTimer::new(spawn_interval_ms),
        }
    }

    /// Restores the initial state, keeping the timer intervals.
    fn reset(&mut self)
        requires
            old(self).wf(),
        ensures
            final(self).wf(),
            final(self).is_initial(
                old(self).fast_timer.interval_ms,
                old(self).spawn_timer.interval_ms,
            ),
    {
        self.player = Player::new();
        self.walls = Vec::new();
        self.score = Score::new();
        self.paused = false;
        self.fast_timer.restart();
        self.spawn_timer.restart();
    }

    /// One frame of the simulation. The frame driver hands in the real time
    /// elapsed since the last frame, the directional intent sampled for this
    /// frame, and whether the reset control was activated. The result says
    /// whether this frame paused the game — the one-shot signal on which the
    /// UI collaborator shows the reset control.
    ///
    /// While paused, the whole state is frozen; a reset action, effective
    /// only from the paused state, restores the initial state. While
    /// running, the reset action plays no part; the two timers accumulate
    /// the elapsed time, and on a fast tick the walls move inward and drop
    /// out at the despawn threshold, the player steers one step, a wall in
    /// the player's lane within the tolerance band pauses the game, and
    /// otherwise the score counts one sub-unit. On a spawn tick a wave of
    /// fresh walls appears at the rim first.
    pub fn frame(&mut self, delta_ms: u32, intent: Intent, reset_action: bool) -> (just_paused:
        bool)
        requires
            old(self).wf(),
        ensures
            final(self).wf(),
            old(self).paused && !reset_action ==> *final(self) == *old(self) && !just_paused,
            old(self).paused && reset_action ==> final(self).is_initial(
                old(self).fast_timer.interval_ms,
                old(self).spawn_timer.interval_ms,
            ) && !just_paused,
            !old(self).paused ==> {
                let fast = timer_fires(old(self).fast_timer, delta_ms);
                let spawn = timer_fires(old(self).spawn_timer, delta_ms);
                &&& final(self).fast_timer == ticked_timer(old(self).fast_timer, delta_ms)
                &&& final(self).spawn_timer == ticked_timer(old(self).spawn_timer, delta_ms)
                &&& final(self).player.angle as int == (if fast {
                    player_step_angle(old(self).player.angle as int, intent)
                } else {
                    old(self).player.angle as int
                })
                &&& (!spawn ==> final(self).walls@ == (if fast {
                    moved_walls(old(self).walls@)
                } else {
                    old(self).walls@
                }))
                &&& (spawn ==> exists|wave: Seq<Wall>|
                    #[trigger] wave_wf(wave) && final(self).walls@ == (if fast {
                        moved_walls(old(self).walls@ + wave)
                    } else {
                        old(self).walls@ + wave
                    }))
                &&& final(self).paused == (fast && any_hit(
                    final(self).walls@,
                    lane_of_angle(final(self).player.angle as int),
                ))
                &&& just_paused == final(self).paused
                &&& final(self).score == (if fast && !final(self).paused {
                    ticked_score(old(self).score)
                } else {
                    old(self).score
                })
            },
    {
        if self.paused {
            if reset_action {
                self.reset();
            }
            return false;
        }
        let fast_due = self.fast_timer.tick(delta_ms);
        let spawn_due = self.spawn_timer.tick(delta_ms);
        let ghost walls_before = self.walls@;
        if spawn_due {
            spawn_wave(&mut self.walls);
        }
        let ghost walls_spawned = self.walls@;
        let ghost wave = walls_spawned.subrange(walls_before.len() as int, walls_spawned.len() as int);
        proof {
            if spawn_due {
                assert(walls_spawned =~= walls_before + wave);
                assert(wave_wf(wave));
            } else {
                assert(walls_spawned == walls_before);
            }
            assert(forall|i: int|
                0 <= i < walls_spawned.len() ==> wall_wf(#[trigger] walls_spawned[i]));
        }
        if fast_due {
            move_walls(&mut self.walls);
            proof {
                lemma_moved_walls_wf(walls_spawned);
            }
        }
        self.player.advance(intent, false, fast_due);
        let mut just_paused = false;
        if fast_due {
            let player_lane = self.player.lane();
            if detect_collision(&self.walls, player_lane) {
                self.paused = true;
                just_paused = true;
            }
        }
        if fast_due && !self.paused {
            self.score.tick();
        }
        just_paused
    }
}

} // verus!
