//! Player state machine: the player token sits at a fixed orbit radius and
//! owns only its angular position, in whole degrees. Each fast tick it may
//! step left or right by a fixed angular speed, wrapping around the full
//! turn; its lane is derived from the angle.

use vstd::prelude::*;

use crate::geometry::lane_for_angle;
use crate::geometry::lane_of_angle;
use crate::geometry::FULL_TURN;
use crate::geometry::LANE_COUNT;

verus! {

/// Angular step of the player per fast tick, in degrees.
pub const PLAYER_STEP: u32 = 4;

/// Directional intent for one fast-tick window, sampled live from the input
/// collaborator: steer left, steer right, or stay.
#[derive(Clone, Copy, Debug, PartialEq, Eq, Structural)]
pub enum Intent {
    Left,
    Neutral,
    Right,
}

/// Signed angular step that an intent asks for, in degrees.
pub open spec fn intent_step(intent: Intent) -> int {
    match intent {
        Intent::Left => -(PLAYER_STEP as int),
        Intent::Neutral => 0,
        Intent::Right => PLAYER_STEP as int,
    }
}

/// Wraps an angle that is at most one step outside `[0, 360)` back into it:
/// values at or above 360 lose a turn, negative values gain one.
pub open spec fn wrap_turn(a: int) -> int {
    if a >= FULL_TURN {
        a - FULL_TURN
    } else if a < 0 {
        a + FULL_TURN
    } else {
        a
    }
}

/// Angle after one fast tick of steering with the given intent.
pub open spec fn player_step_angle(a: int, intent: Intent) -> int {
    wrap_turn(a + intent_step(intent))
}

/// Wrap-around law: one step from any valid angle lands back in `[0, 360)`,
/// whatever the intent. With the initial angle valid, every angle reached by
/// any sequence of intents therefore stays in `[0, 360)`.
pub proof fn lemma_player_angle_wraps(a: int, intent: Intent)
    requires
        0 <= a < FULL_TURN,
    ensures
        0 <= player_step_angle(a, intent) < FULL_TURN,
{
}

/// The angle reached from a starting angle by a whole run of steered
/// ticks, one intent per tick.
pub open spec fn angle_after_run(a: int, intents: Seq<Intent>) -> int
    decreases intents.len(),
{
    if intents.len() == 0 {
        a
    } else {
        player_step_angle(angle_after_run(a, intents.drop_last()), intents.last())
    }
}

/// Wrap-around law over whole runs: starting from a valid angle, the angle
/// stays in `[0, 360)` under every sequence of intents — and so after every
/// tick of a run, each prefix being such a sequence.
pub proof fn lemma_angle_valid_after_any_run(a: int, intents: Seq<Intent>)
    requires
        0 <= a < FULL_TURN,
    ensures
        0 <= angle_after_run(a, intents) < FULL_TURN,
    decreases intents.len(),
{
    if intents.len() > 0 {
        lemma_angle_valid_after_any_run(a, intents.drop_last());
        lemma_player_angle_wraps(angle_after_run(a, intents.drop_last()), intents.last());
    }
}

/// Directional intent read from a raw sign: `-1` steers left, `+1` steers
/// right, and any other value is treated as no intent.
pub fn intent_from_sign(sign: i64) -> (intent: Intent)
    ensures
        intent == (if sign == -1 {
            Intent::Left
        } else if sign == 1 {
            Intent::Right
        } else {
            Intent::Neutral
        }),
{
    if sign == -1 {
        Intent::Left
    } else if sign == 1 {
        Intent::Right
    } else {
        Intent::Neutral
    }
}

/// The player token: its angular position in whole degrees. The lane is
/// derived from the angle on demand.
#[derive(Clone, Copy, Debug, PartialEq, Eq, Structural)]
pub struct Player {
    pub angle: u32,
}

impl Player {
    /// A valid player angle lies in `[0, 360)`.
    pub open spec fn wf(self) -> bool {
        self.angle < FULL_TURN
    }

    /// A fresh player at the top of the arena.
    pub fn new() -> (p: Player)
        ensures
            p.wf(),
            p.angle == 0,
    {
        Player { angle: 0 }
    }

    /// Lane the player currently occupies.
    pub fn lane(&self) -> (lane: u8)
        requires
            self.wf(),
        ensures
            lane as int == lane_of_angle(self.angle as int),
            lane < LANE_COUNT,
    {
        lane_for_angle(self.angle)
    }

    /// One fast-tick window of steering. While paused, or between fast
    /// ticks, the angle is untouched; otherwise it moves one step in the
    /// direction of the intent and wraps around the full turn.
    pub fn advance(&mut self, intent: Intent, paused: bool, fast_due: bool)
        requires
            old(self).wf(),
        ensures
            final(self).wf(),
            final(self).angle as int == (if paused || !fast_due {
                old(self).angle as int
            } else {
                player_step_angle(old(self).angle as int, intent)
            }),
    {
        if paused || !fast_due {
            return;
        }
        match intent {
            Intent::Neutral => {},
            Intent::Left => {
                if self.angle < PLAYER_STEP {
                    self.angle = self.angle + (FULL_TURN - PLAYER_STEP);
                } else {
                    self.angle = self.angle - PLAYER_STEP;
                }
            },
            Intent::Right => {
                let next = self.angle + PLAYER_STEP;
                if next >= FULL_TURN {
                    self.angle = next - FULL_TURN;
                } else {
                    self.angle = next;
                }
            },
        }
    }
}

} // verus!
