//! AI paddle control: a target height per strategy and a dead-zone controller
//! towards it.
use vstd::prelude::*;

use crate::game::{
    half_span, half_span_exec, with_y, AiStrategy, Ball, Control, Direction, Field, Paddle,
    Transform, UNITS_PER_PIXEL,
};
use crate::predictor::{find_ball_hitpoint, predicted_y};

verus! {

/// Dead zone around an AI paddle's target height.
pub const AI_TOLERANCE: i64 = 10 * UNITS_PER_PIXEL;

/// The vertical sign that takes a paddle at `current` towards `target`.
pub open spec fn steer(current: int, target: int) -> int {
    if current < target - AI_TOLERANCE {
        1
    } else if current > target + AI_TOLERANCE {
        -1
    } else {
        0
    }
}

/// The ball moves away from a paddle at `paddle_x` (or does not move
/// sideways at all).
pub open spec fn moving_away(paddle_x: int, ball_dx: int) -> bool {
    ||| ball_dx == 0
    ||| paddle_x > 0 && ball_dx < 0
    ||| paddle_x < 0 && ball_dx > 0
}

/// The height an AI paddle at `paddle_x` aims for: the centre while the ball
/// moves away, else where its strategy expects the ball. The paddle planes
/// are at `left_x` and `right_x`.
pub open spec fn ai_target(
    strategy: AiStrategy,
    paddle_x: int,
    ball: Ball,
    field: Field,
    left_x: int,
    right_x: int,
) -> int {
    let p = ball.transform.translation;
    let d = ball.direction.value;
    if moving_away(paddle_x, d.x as int) {
        0
    } else {
        match strategy {
            AiStrategy::DirectTracking => p.y as int,
            AiStrategy::FullPrediction => {
                let upper = half_span(field.height as int, ball.transform.scale.y as int);
                predicted_y(p, d, upper, -upper, left_x, right_x)
            },
        }
    }
}

/// The vertical direction an AI paddle takes.
pub fn ai_direction_y(
    strategy: AiStrategy,
    paddle: &Transform,
    ball: &Ball,
    field: &Field,
    left_x: i64,
    right_x: i64,
) -> (r: i64)
    requires
        field.wf(),
        ball.wf(*field),
    ensures
        r == steer(
            paddle.translation.y as int,
            ai_target(strategy, paddle.translation.x as int, *ball, *field, left_x as int, right_x as int),
        ),
{
    let p = ball.transform.translation;
    let d = ball.direction.value;
    let px = paddle.translation.x;
    let target: i128 = if d.x == 0 || (px > 0 && d.x < 0) || (px < 0 && d.x > 0) {
        0
    } else {
        match strategy {
            AiStrategy::DirectTracking => p.y as i128,
            AiStrategy::FullPrediction => {
                let upper = half_span_exec(field.height, ball.transform.scale.y);
                find_ball_hitpoint(p, d, upper, -upper, left_x, right_x)
            },
        }
    };
    let y = paddle.translation.y as i128;
    let tolerance = AI_TOLERANCE as i128;
    if y < target - tolerance {
        1
    } else if y > target + tolerance {
        -1
    } else {
        0
    }
}

/// A paddle after its AI (if it has one) chose its vertical direction.
pub open spec fn ai_steered(p: Paddle, ball: Ball, field: Field, left_x: int, right_x: int) -> Paddle {
    match p.control {
        Control::AiControlled(strategy) => {
            let t = p.transform.translation;
            let y = steer(t.y as int, ai_target(strategy, t.x as int, ball, field, left_x, right_x));
            Paddle { direction: Direction { value: with_y(p.direction.value, y) }, ..p }
        },
        Control::HumanControlled => p,
    }
}

/// Both paddles after their AIs chose; the paddle planes are where the two
/// paddles stand.
pub open spec fn ai_paddles_steered(player: Paddle, opponent: Paddle, ball: Ball, field: Field) -> (
    Paddle,
    Paddle,
) {
    let left_x = player.transform.translation.x as int;
    let right_x = opponent.transform.translation.x as int;
    (
        ai_steered(player, ball, field, left_x, right_x),
        ai_steered(opponent, ball, field, left_x, right_x),
    )
}

fn steer_paddle(paddle: &mut Paddle, ball: &Ball, field: &Field, left_x: i64, right_x: i64)
    requires
        field.wf(),
        ball.wf(*field),
    ensures
        *final(paddle) == ai_steered(*old(paddle), *ball, *field, left_x as int, right_x as int),
{
    match paddle.control {
        Control::AiControlled(strategy) => {
            let y = ai_direction_y(strategy, &paddle.transform, ball, field, left_x, right_x);
            paddle.direction.value.y = y;
        },
        Control::HumanControlled => {},
    }
}

/// Lets every AI paddle choose its vertical direction.
pub fn update_ai_paddles(player: &mut Paddle, opponent: &mut Paddle, ball: &Ball, field: &Field)
    requires
        field.wf(),
        ball.wf(*field),
    ensures
        (*final(player), *final(opponent)) == ai_paddles_steered(
            *old(player),
            *old(opponent),
            *ball,
            *field,
        ),
{
    let left_x = player.transform.translation.x;
    let right_x = opponent.transform.translation.x;
    steer_paddle(player, ball, field, left_x, right_x);
    steer_paddle(opponent, ball, field, left_x, right_x);
}

/// Choosing twice, with the ball unchanged, chooses as choosing once: the
/// AI's target depends on the ball and the paddle planes alone.
pub proof fn lemma_ai_idempotent(player: Paddle, opponent: Paddle, ball: Ball, field: Field)
    ensures
        ({
            let (once_p, once_o) = ai_paddles_steered(player, opponent, ball, field);
            ai_paddles_steered(once_p, once_o, ball, field) == (once_p, once_o)
        }),
{
    let (once_p, once_o) = ai_paddles_steered(player, opponent, ball, field);
    assert(ai_paddles_steered(once_p, once_o, ball, field).0 == once_p);
    assert(ai_paddles_steered(once_p, once_o, ball, field).1 == once_o);
}

} // verus!
