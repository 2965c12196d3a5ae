//! Entities of the game and the systems that need no module of their own: key
//! input and the game-over evaluation.
use vstd::prelude::*;

use crate::pong::{Game, GameState, GameWinner};

verus! {

/// Field units per screen pixel: coordinates carry sub-pixel precision so that
/// a frame's travel loses at most a thousandth of a pixel to rounding.
pub const UNITS_PER_PIXEL: i64 = 1000;

/// The speed factor that stands for 1.0; factors are stored in thousandths.
pub const SPEED_FACTOR_ONE: u64 = 1000;

/// Microseconds in a second: elapsed frame time is given in microseconds.
pub const MICROS_PER_SECOND: u64 = 1_000_000;

/// A point or an extent in field units; `z` is carried along but unused.
#[derive(Clone, Copy, Debug, PartialEq, Eq, Structural)]
pub struct Vector3 {
    pub x: i64,
    pub y: i64,
    pub z: i64,
}

/// Where an entity stands (`translation`, its centre) and how large it is
/// (`scale`: width, height, depth).
#[derive(Clone, Copy, Debug, PartialEq, Eq, Structural)]
pub struct Transform {
    pub translation: Vector3,
    pub scale: Vector3,
}

/// The sign of an entity's velocity on each axis.
#[derive(Clone, Copy, Debug, PartialEq, Eq, Structural)]
pub struct Direction {
    pub value: Vector3,
}

/// A magnitude of velocity, in field units per second.
#[derive(Clone, Copy, Debug, PartialEq, Eq, Structural)]
pub struct Speed(pub u32);

/// The ball's cumulative acceleration, in thousandths (1000 is 1.0).
#[derive(Clone, Copy, Debug, PartialEq, Eq, Structural)]
pub struct SpeedFactor {
    pub value: u64,
}

/// A paddle's recorded clamp margin. The restrictor keeps a paddle inside
/// the field by the paddle's height alone and does not read it.
#[derive(Clone, Copy, Debug, PartialEq, Eq, Structural)]
pub struct BorderRestriction {
    pub border_offset: i64,
}

/// A paddle's collision surface: which direction components a hit flips,
/// and whether a hit is worth a point.
#[derive(Clone, Copy, Debug, PartialEq, Eq, Structural)]
pub struct DirectionInverter {
    pub axis_x: bool,
    pub axis_y: bool,
    pub axis_z: bool,
    pub awards_points: bool,
}

pub open spec fn is_unit_sign(v: int) -> bool {
    -1 <= v <= 1
}

impl Direction {
    /// Every component is -1, 0 or 1.
    pub open spec fn wf(&self) -> bool {
        is_unit_sign(self.value.x as int) && is_unit_sign(self.value.y as int)
            && is_unit_sign(self.value.z as int)
    }
}

/// The play-field, centred on the origin, in field units.
#[derive(Clone, Copy, Debug, PartialEq, Eq, Structural)]
pub struct Field {
    pub width: i64,
    pub height: i64,
}

impl Field {
    pub open spec fn wf(&self) -> bool {
        0 < self.width && 0 < self.height
    }
}

/// How far the centre of something `size` tall may stand from the middle of
/// a span `total` tall, rounded down to whole units (exact for the integer
/// positions compared against it).
pub open spec fn half_span(total: int, size: int) -> int {
    (total - size) / 2
}

/// Negative when `size` exceeds `total`: then no position lies within it.
pub(crate) fn half_span_exec(total: i64, size: i64) -> (r: i64)
    requires
        0 <= size,
        0 <= total,
    ensures
        r == half_span(total as int, size as int),
        size <= total ==> 0 <= r,
        2 * r <= total - size,
        total - size <= 2 * r + 1,
{
    let d = total - size;
    if d >= 0 {
        d / 2
    } else {
        let m = -d;
        -(m / 2 + m % 2)
    }
}

/// How an AI paddle picks its target height while the ball approaches.
#[derive(Clone, Copy, Debug, PartialEq, Eq, Structural)]
pub enum AiStrategy {
    /// Trace the ball's path, with its bounces off the walls, to this
    /// paddle's plane.
    FullPrediction,
    /// Follow the ball's current height.
    DirectTracking,
}

/// What moves a paddle.
#[derive(Clone, Copy, Debug, PartialEq, Eq, Structural)]
pub enum Control {
    HumanControlled,
    AiControlled(AiStrategy),
}

/// The ball.
#[derive(Clone, Copy, Debug, PartialEq, Eq, Structural)]
pub struct Ball {
    pub transform: Transform,
    pub direction: Direction,
    pub speed: Speed,
    pub speed_factor: SpeedFactor,
}

/// A paddle on either side of the field.
#[derive(Clone, Copy, Debug, PartialEq, Eq, Structural)]
pub struct Paddle {
    pub transform: Transform,
    pub direction: Direction,
    pub speed: Speed,
    pub border: BorderRestriction,
    pub inverter: DirectionInverter,
    pub control: Control,
}

/// An entity's size is non-negative and fits in the field's height.
pub open spec fn fits(t: Transform, field: Field) -> bool {
    &&& 0 <= t.scale.x
    &&& 0 <= t.scale.y <= field.height
}

impl Ball {
    /// A direction of signs, a non-negative size (which may exceed the
    /// field's height), and a speed factor of at least 1.0: it starts there
    /// and only grows.
    pub open spec fn wf(&self, field: Field) -> bool {
        &&& self.direction.wf()
        &&& 0 <= self.transform.scale.x
        &&& 0 <= self.transform.scale.y
        &&& self.speed_factor.value >= SPEED_FACTOR_ONE
    }
}

impl Paddle {
    /// A paddle moves vertically only, and fits in the field.
    pub open spec fn wf(&self, field: Field) -> bool {
        &&& self.direction.wf()
        &&& self.direction.value.x == 0
        &&& self.direction.value.z == 0
        &&& fits(self.transform, field)
    }
}

/// `v` with its `y` replaced.
pub open spec fn with_y(v: Vector3, y: int) -> Vector3 {
    Vector3 { y: y as i64, ..v }
}

/// A human paddle after reading the keys: up wins over down, and with
/// neither pressed the paddle keeps its direction.
pub open spec fn steered_by_keys(d: Direction, up: bool, down: bool) -> Direction {
    if up {
        Direction { value: with_y(d.value, 1) }
    } else if down {
        Direction { value: with_y(d.value, -1) }
    } else {
        d
    }
}

/// Sets a human paddle's vertical direction from the up and down keys.
pub fn update_player_paddle(direction: &mut Direction, up_pressed: bool, down_pressed: bool)
    ensures
        *final(direction) == steered_by_keys(*old(direction), up_pressed, down_pressed),
        old(direction).wf() ==> final(direction).wf(),
{
    if up_pressed {
        direction.value.y = 1;
    } else if down_pressed {
        direction.value.y = -1;
    }
}

/// The ball is beyond the left paddle's plane: by its centre, or with
/// `at_edge` by its leading (left) edge.
pub open spec fn passed_left(ball: Ball, player: Paddle, at_edge: bool) -> bool {
    let bx = ball.transform.translation.x as int;
    let px = player.transform.translation.x as int;
    if at_edge {
        2 * bx - ball.transform.scale.x < 2 * px
    } else {
        bx < px
    }
}

/// The ball is beyond the right paddle's plane: by its centre, or with
/// `at_edge` by its leading (right) edge.
pub open spec fn passed_right(ball: Ball, opponent: Paddle, at_edge: bool) -> bool {
    let bx = ball.transform.translation.x as int;
    let ox = opponent.transform.translation.x as int;
    if at_edge {
        2 * bx + ball.transform.scale.x > 2 * ox
    } else {
        bx > ox
    }
}

/// The state and the game after the ball's position was checked: while
/// playing, a ball past the left plane ends the game for the right side, one
/// past the right plane for the left side.
pub open spec fn evaluated(
    state: GameState,
    g: Game,
    ball: Ball,
    player: Paddle,
    opponent: Paddle,
    at_edge: bool,
) -> (GameState, Game) {
    if state != GameState::Playing {
        (state, g)
    } else if passed_left(ball, player, at_edge) {
        (GameState::GameOver, Game { winner: GameWinner::Player2, ..g })
    } else if passed_right(ball, opponent, at_edge) {
        (GameState::GameOver, Game { winner: GameWinner::Player1, ..g })
    } else {
        (state, g)
    }
}

/// Ends the game once the ball has passed a paddle.
pub fn check_game_over(
    ball: &Ball,
    player: &Paddle,
    opponent: &Paddle,
    at_ball_edge: bool,
    state: &mut GameState,
    game: &mut Game,
)
    ensures
        (*final(state), *final(game)) == evaluated(
            *old(state),
            *old(game),
            *ball,
            *player,
            *opponent,
            at_ball_edge,
        ),
{
    match state {
        GameState::Playing => {},
        GameState::GameOver => {
            return ;
        },
    }
    let bx = ball.transform.translation.x as i128;
    let width = ball.transform.scale.x as i128;
    let px = player.transform.translation.x as i128;
    let ox = opponent.transform.translation.x as i128;
    let past_left = if at_ball_edge {
        2 * bx - width < 2 * px
    } else {
        bx < px
    };
    let past_right = if at_ball_edge {
        2 * bx + width > 2 * ox
    } else {
        bx > ox
    };
    if past_left {
        *state = GameState::GameOver;
        game.winner = GameWinner::Player2;
    } else if past_right {
        *state = GameState::GameOver;
        game.winner = GameWinner::Player1;
    }
}

} // verus!
