use hexdodge::player::Intent;
use hexdodge::player::Player;
use hexdodge::score::Score;
use hexdodge::sim::GameState;
use hexdodge::spawner::spawn_wave;
use hexdodge::timer::TickTimer;
use hexdodge::wall::Wall;

/// A spawn interval so long that no wave appears during a short scenario.
const NO_SPAWN_MS: u32 = 1_000_000_000;

#[test]
fn waves_hold_one_to_four_distinct_lanes() {
    fastrand::seed(0x5eed_0001);
    for _ in 0..300 {
        let mut walls: Vec<Wall> = Vec::new();
        spawn_wave(&mut walls);
        assert!((1..=4).contains(&walls.len()));
        for w in &walls {
            assert_eq!(w.distance, 450);
            assert!(w.lane < 6);
        }
        for i in 0..walls.len() {
            for j in (i + 1)..walls.len() {
                assert_ne!(walls[i].lane, walls[j].lane);
            }
        }
    }
}

#[test]
fn wave_lanes_cover_all_six_roughly_evenly() {
    fastrand::seed(0x5eed_0002);
    let mut counts = [0u32; 6];
    let mut picks = 0u32;
    for _ in 0..600 {
        let mut walls: Vec<Wall> = Vec::new();
        spawn_wave(&mut walls);
        for w in &walls {
            counts[w.lane as usize] += 1;
            picks += 1;
        }
    }
    // Around 1500 picks in all; a uniform draw over lane identity puts each
    // lane far above a tenth of its expected share.
    for c in counts {
        assert!(c * 6 * 10 > picks, "lane badly under-represented: {counts:?}");
    }
}

#[test]
fn wave_appends_after_live_walls() {
    fastrand::seed(0x5eed_0003);
    let mut walls = vec![Wall { distance: 200, lane: 0 }];
    spawn_wave(&mut walls);
    assert_eq!(walls[0], Wall { distance: 200, lane: 0 });
    assert!((2..=5).contains(&walls.len()));
}

#[test]
fn collision_fires_on_the_exact_tick() {
    // Player at angle 0 (lane 0); a wall in lane 0 starts at the rim, 450,
    // and moves inward 4 units per tick. Its distance first enters the open
    // band (50, 63) at tick 97, when it reaches 62 — so that tick, and no
    // earlier one, must pause the game.
    let mut g = GameState::new(10, NO_SPAWN_MS);
    g.walls.push(Wall { distance: 450, lane: 0 });
    for tick in 1..=96u32 {
        let just_paused = g.frame(10, Intent::Neutral, false);
        assert!(!just_paused, "paused too early, at tick {tick}");
        assert!(!g.paused);
    }
    assert_eq!(g.walls[0].distance, 66);
    let just_paused = g.frame(10, Intent::Neutral, false);
    assert!(just_paused, "collision missed at tick 97");
    assert!(g.paused);
    assert_eq!(g.walls[0].distance, 62);
    // The score counted the 96 survived ticks, not the tick of the hit.
    assert_eq!((g.score.whole, g.score.sub), (0, 96));
}

#[test]
fn reset_while_running_is_a_no_op() {
    let mut g = GameState::new(10, NO_SPAWN_MS);
    g.walls.push(Wall { distance: 300, lane: 2 });
    g.player = Player { angle: 120 };
    g.score = Score { whole: 1, sub: 5 };
    let just_paused = g.frame(0, Intent::Neutral, true);
    assert!(!just_paused);
    assert!(!g.paused);
    assert_eq!(g.player.angle, 120);
    assert_eq!(g.walls, vec![Wall { distance: 300, lane: 2 }]);
    assert_eq!((g.score.whole, g.score.sub), (1, 5));
}

#[test]
fn pause_freezes_everything_until_reset() {
    let mut g = GameState::new(10, NO_SPAWN_MS);
    g.walls.push(Wall { distance: 450, lane: 0 });
    for _ in 0..97 {
        g.frame(10, Intent::Neutral, false);
    }
    assert!(g.paused);
    // Frames keep coming, with steering intent and elapsed time, but the
    // paused state is frozen: no movement, no scoring, no timer progress.
    for _ in 0..50 {
        let just_paused = g.frame(10, Intent::Right, false);
        assert!(!just_paused);
    }
    assert!(g.paused);
    assert_eq!(g.player.angle, 0);
    assert_eq!(g.walls, vec![Wall { distance: 62, lane: 0 }]);
    assert_eq!((g.score.whole, g.score.sub), (0, 96));
    assert_eq!(g.fast_timer.elapsed_ms, 0);
    // The reset action, effective only from the paused state, restores the
    // initial state: player at the top, no walls, zero score, running.
    let just_paused = g.frame(10, Intent::Right, true);
    assert!(!just_paused);
    assert!(!g.paused);
    assert_eq!(g.player.angle, 0);
    assert!(g.walls.is_empty());
    assert_eq!((g.score.whole, g.score.sub), (0, 0));
    assert_eq!(g.fast_timer, TickTimer { interval_ms: 10, elapsed_ms: 0 });
    assert_eq!(g.spawn_timer, TickTimer { interval_ms: NO_SPAWN_MS, elapsed_ms: 0 });
}

#[test]
fn frame_steers_the_player_on_fast_ticks_only() {
    let mut g = GameState::new(10, NO_SPAWN_MS);
    g.frame(10, Intent::Right, false);
    assert_eq!(g.player.angle, 4);
    // Too little elapsed time: the fast timer holds, so no movement.
    g.frame(4, Intent::Right, false);
    assert_eq!(g.player.angle, 4);
    // The rest of the interval arrives: the timer fires once.
    g.frame(6, Intent::Left, false);
    assert_eq!(g.player.angle, 0);
    g.frame(10, Intent::Left, false);
    assert_eq!(g.player.angle, 356);
}

#[test]
fn frame_spawns_a_wave_on_the_spawn_tick() {
    fastrand::seed(0x5eed_0004);
    // A slow fast timer keeps the walls still, so the fresh wave is intact.
    let mut g = GameState::new(NO_SPAWN_MS, 1500);
    g.frame(1499, Intent::Neutral, false);
    assert!(g.walls.is_empty());
    g.frame(1, Intent::Neutral, false);
    assert!((1..=4).contains(&g.walls.len()));
    for w in &g.walls {
        assert_eq!(w.distance, 450);
    }
}

#[test]
fn frame_moves_spawned_walls_on_fast_ticks() {
    fastrand::seed(0x5eed_0005);
    let mut g = GameState::new(10, 1500);
    for _ in 0..150 {
        g.frame(10, Intent::Neutral, false);
    }
    // The wave appeared on the 150th frame and moved inward on that same
    // frame's fast tick: spawning comes first in the frame order.
    assert!(!g.walls.is_empty());
    for w in &g.walls {
        assert_eq!(w.distance, 446);
    }
}
