use hexdodge::collision::detect_collision;
use hexdodge::geometry::lane_center_deg;
use hexdodge::geometry::lane_for_angle;
use hexdodge::player::intent_from_sign;
use hexdodge::player::Intent;
use hexdodge::player::Player;
use hexdodge::score::Score;
use hexdodge::timer::TickTimer;
use hexdodge::wall::move_walls;
use hexdodge::wall::Wall;

#[test]
fn player_starts_at_top() {
    let p = Player::new();
    assert_eq!(p.angle, 0);
    assert_eq!(p.lane(), 0);
}

#[test]
fn player_wraps_right_at_full_turn() {
    let mut p = Player { angle: 356 };
    p.advance(Intent::Right, false, true);
    assert_eq!(p.angle, 0);
}

#[test]
fn player_wraps_left_at_zero() {
    let mut p = Player { angle: 0 };
    p.advance(Intent::Left, false, true);
    assert_eq!(p.angle, 356);
}

#[test]
fn player_steps_by_speed() {
    let mut p = Player { angle: 100 };
    p.advance(Intent::Right, false, true);
    assert_eq!(p.angle, 104);
    p.advance(Intent::Left, false, true);
    assert_eq!(p.angle, 100);
}

#[test]
fn player_holds_still_without_intent_or_tick_or_while_paused() {
    let mut p = Player { angle: 100 };
    p.advance(Intent::Neutral, false, true);
    assert_eq!(p.angle, 100);
    p.advance(Intent::Right, false, false);
    assert_eq!(p.angle, 100);
    p.advance(Intent::Right, true, true);
    assert_eq!(p.angle, 100);
}

#[test]
fn lane_boundaries() {
    assert_eq!(lane_for_angle(0), 0);
    assert_eq!(lane_for_angle(59), 0);
    assert_eq!(lane_for_angle(60), 1);
    assert_eq!(lane_for_angle(119), 1);
    assert_eq!(lane_for_angle(300), 5);
    assert_eq!(lane_for_angle(359), 5);
}

#[test]
fn lane_center_angles() {
    assert_eq!(lane_center_deg(0), 30);
    assert_eq!(lane_center_deg(1), 90);
    assert_eq!(lane_center_deg(5), 330);
}

#[test]
fn intent_from_raw_sign() {
    assert_eq!(intent_from_sign(-1), Intent::Left);
    assert_eq!(intent_from_sign(1), Intent::Right);
    assert_eq!(intent_from_sign(0), Intent::Neutral);
    assert_eq!(intent_from_sign(7), Intent::Neutral);
    assert_eq!(intent_from_sign(-9), Intent::Neutral);
}

#[test]
fn walls_step_inward_and_keep_order() {
    let mut walls = vec![
        Wall { distance: 450, lane: 0 },
        Wall { distance: 100, lane: 3 },
        Wall { distance: 64, lane: 5 },
    ];
    move_walls(&mut walls);
    assert_eq!(
        walls,
        vec![
            Wall { distance: 446, lane: 0 },
            Wall { distance: 96, lane: 3 },
            Wall { distance: 60, lane: 5 },
        ]
    );
}

#[test]
fn wall_despawns_below_threshold() {
    // A wall at 32 steps to 28, exactly the threshold, and stays; a wall at
    // 31 steps to 27 and is removed on that tick.
    let mut walls = vec![Wall { distance: 32, lane: 1 }, Wall { distance: 31, lane: 2 }];
    move_walls(&mut walls);
    assert_eq!(walls, vec![Wall { distance: 28, lane: 1 }]);
    move_walls(&mut walls);
    assert!(walls.is_empty());
}

#[test]
fn collision_band_edges() {
    // The band around the orbit radius 60 is open: (50, 63).
    let at = |d: u32| vec![Wall { distance: d, lane: 2 }];
    assert!(!detect_collision(&at(50), 2));
    assert!(detect_collision(&at(51), 2));
    assert!(detect_collision(&at(60), 2));
    assert!(detect_collision(&at(62), 2));
    assert!(!detect_collision(&at(63), 2));
}

#[test]
fn collision_needs_matching_lane() {
    let walls = vec![Wall { distance: 60, lane: 2 }];
    assert!(!detect_collision(&walls, 3));
    assert!(detect_collision(&walls, 2));
}

#[test]
fn collision_scans_every_wall() {
    let walls = vec![
        Wall { distance: 400, lane: 0 },
        Wall { distance: 55, lane: 4 },
    ];
    assert!(detect_collision(&walls, 4));
    assert!(!detect_collision(&walls, 0));
}

#[test]
fn score_counts_single_sub_units() {
    let mut s = Score::new();
    s.tick();
    assert_eq!((s.whole, s.sub), (0, 1));
    s.tick();
    assert_eq!((s.whole, s.sub), (0, 2));
}

#[test]
fn score_rolls_over_exactly_at_100() {
    let mut s = Score { whole: 1, sub: 98 };
    s.tick();
    assert_eq!((s.whole, s.sub), (1, 99));
    s.tick();
    assert_eq!((s.whole, s.sub), (2, 0));
    s.tick();
    assert_eq!((s.whole, s.sub), (2, 1));
}

#[test]
fn score_text_display() {
    assert_eq!(Score::new().text(), "0.0s");
    assert_eq!(Score { whole: 3, sub: 7 }.text(), "3.7s");
    assert_eq!(Score { whole: 12, sub: 40 }.text(), "12.40s");
    let mut s = Score { whole: 0, sub: 99 };
    s.tick();
    assert_eq!(s.text(), "1.0s");
}

#[test]
fn timer_fires_once_per_interval() {
    let mut t = TickTimer::new(10);
    assert!(!t.tick(5));
    assert!(t.tick(5));
    assert_eq!(t.elapsed_ms, 0);
    assert!(!t.tick(9));
    assert!(t.tick(1));
}

#[test]
fn timer_never_fires_twice_for_one_frame() {
    // However much time one frame brings, the timer fires once and restarts.
    let mut t = TickTimer::new(10);
    assert!(t.tick(35));
    assert_eq!(t.elapsed_ms, 0);
    assert!(!t.tick(0));
}
