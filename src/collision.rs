//! Ball collisions with the walls and the paddles, and the scoring and speed-
//! up they bring.
use vstd::prelude::*;

use crate::game::{
    half_span, half_span_exec, is_unit_sign, with_y, Ball, Direction, DirectionInverter, Field,
    Paddle, SpeedFactor, Vector3,
};
use crate::pong::Game;

verus! {

/// Two intervals, given by centre and length, overlap with positive length:
/// touching ends do not count.
pub open spec fn overlaps_1d(a: int, a_len: int, b: int, b_len: int) -> bool {
    2 * a - a_len < 2 * b + b_len && 2 * a + a_len > 2 * b - b_len
}

/// Two axis-aligned boxes, given by centre, width and height, overlap.
pub open spec fn boxes_overlap(a: Vector3, a_w: int, a_h: int, b: Vector3, b_w: int, b_h: int) -> bool {
    overlaps_1d(a.x as int, a_w, b.x as int, b_w) && overlaps_1d(a.y as int, a_h, b.y as int, b_h)
}

fn overlaps_1d_exec(a: i64, a_len: i128, b: i64, b_len: i128) -> (r: bool)
    requires
        0 <= a_len < 0x1_0000_0000_0000_0000_0000_0000i128,
        0 <= b_len < 0x1_0000_0000_0000_0000_0000_0000i128,
    ensures
        r == overlaps_1d(a as int, a_len as int, b as int, b_len as int),
{
    let a2 = 2 * (a as i128);
    let b2 = 2 * (b as i128);
    a2 - a_len < b2 + b_len && a2 + a_len > b2 - b_len
}

/// The ball's vertical extent reaches past the top or the bottom wall.
pub open spec fn hits_wall(ball: Ball, field: Field) -> bool {
    let hs = half_span(field.height as int, ball.transform.scale.y as int);
    let y = ball.transform.translation.y as int;
    y < -hs || y > hs
}

/// The ball, its width widened `width_factor` times, overlaps the paddle.
pub open spec fn hits_paddle(ball: Ball, paddle: Paddle, width_factor: nat) -> bool {
    let bt = ball.transform;
    let pt = paddle.transform;
    boxes_overlap(
        pt.translation,
        pt.scale.x as int,
        pt.scale.y as int,
        bt.translation,
        bt.scale.x * width_factor,
        bt.scale.y as int,
    )
}

pub open spec fn flip_if(v: i64, flag: bool) -> i64 {
    if flag {
        (-v) as i64
    } else {
        v
    }
}

/// A direction after an inverter flipped the components its mask selects.
pub open spec fn inverted(d: Vector3, inv: DirectionInverter) -> Vector3 {
    Vector3 { x: flip_if(d.x, inv.axis_x), y: flip_if(d.y, inv.axis_y), z: flip_if(d.z, inv.axis_z) }
}

/// A speed factor after a paddle hit: times 1.1, rounded down, and held at
/// the largest `u64` once it would pass it.
pub open spec fn grown_factor(f: nat) -> nat {
    if f * 11 / 10 > u64::MAX {
        u64::MAX as nat
    } else {
        f * 11 / 10
    }
}

/// A score after a hit on `inv`: one more if it awards points (held at the
/// largest `u64`).
pub open spec fn awarded(score: nat, inv: DirectionInverter) -> nat {
    if inv.awards_points && score < u64::MAX {
        score + 1
    } else {
        score
    }
}

/// The ball after bouncing off a wall it reaches past.
pub open spec fn after_wall(b: Ball, field: Field) -> Ball {
    if hits_wall(b, field) {
        Ball { direction: Direction { value: with_y(b.direction.value, -b.direction.value.y) }, ..b }
    } else {
        b
    }
}

/// The ball and the game after the ball is checked against one paddle.
pub open spec fn after_paddle(b: Ball, g: Game, p: Paddle, width_factor: nat) -> (Ball, Game) {
    if hits_paddle(b, p, width_factor) {
        (
            Ball {
                direction: Direction { value: inverted(b.direction.value, p.inverter) },
                speed_factor: SpeedFactor { value: grown_factor(b.speed_factor.value as nat) as u64 },
                ..b
            },
            Game { score: awarded(g.score as nat, p.inverter) as u64, ..g },
        )
    } else {
        (b, g)
    }
}

/// The ball and the game after the walls, then the player's paddle, then the
/// opponent's paddle acted on the ball.
pub open spec fn collided(
    b: Ball,
    player: Paddle,
    opponent: Paddle,
    field: Field,
    g: Game,
    width_factor: nat,
) -> (Ball, Game) {
    let b1 = after_wall(b, field);
    let (b2, g2) = after_paddle(b1, g, player, width_factor);
    after_paddle(b2, g2, opponent, width_factor)
}

fn flip_exec(v: i64, flag: bool) -> (r: i64)
    requires
        is_unit_sign(v as int),
    ensures
        r == flip_if(v, flag),
        is_unit_sign(r as int),
{
    if flag {
        -v
    } else {
        v
    }
}

fn grow_factor_exec(f: u64) -> (r: u64)
    ensures
        r == grown_factor(f as nat),
{
    let g = (f as u128) * 11 / 10;
    if g > u64::MAX as u128 {
        u64::MAX
    } else {
        g as u64
    }
}

fn hit_paddle(ball: &mut Ball, game: &mut Game, paddle: &Paddle, width_factor: u32)
    requires
        old(ball).direction.wf(),
        0 <= old(ball).transform.scale.x,
        0 <= paddle.transform.scale.x,
        0 <= paddle.transform.scale.y,
        0 <= old(ball).transform.scale.y,
    ensures
        (*final(ball), *final(game)) == after_paddle(*old(ball), *old(game), *paddle, width_factor as nat),
        final(ball).direction.wf(),
{
    let bt = ball.transform;
    let pt = paddle.transform;
    let w = bt.scale.x as i128;
    let k = width_factor as i128;
    assert(0 <= w * k < 0x1_0000_0000_0000_0000_0000_0000i128) by (nonlinear_arith)
        requires
            0 <= w <= i64::MAX,
            0 <= k <= u32::MAX,
    ;
    let wide = w * k;
    let hit = overlaps_1d_exec(pt.translation.x, pt.scale.x as i128, bt.translation.x, wide)
        && overlaps_1d_exec(pt.translation.y, pt.scale.y as i128, bt.translation.y, bt.scale.y as i128);
    if hit {
        let inv = paddle.inverter;
        let d = ball.direction.value;
        ball.direction.value = Vector3 {
            x: flip_exec(d.x, inv.axis_x),
            y: flip_exec(d.y, inv.axis_y),
            z: flip_exec(d.z, inv.axis_z),
        };
        if inv.awards_points && game.score < u64::MAX {
            game.score = game.score + 1;
        }
        ball.speed_factor.value = grow_factor_exec(ball.speed_factor.value);
    }
}

/// Bounces the ball off the walls and the paddles: a wall the ball reaches
/// past flips its vertical direction; a paddle it overlaps (with the ball's
/// width widened `hit_width_factor` times) flips the components its inverter
/// selects, awards a point if the inverter does, and speeds the ball up by
/// 1.1 (rounded down, held at the largest `u64`): on a valid ball the factor
/// strictly grows on any paddle hit until it reaches that limit.
pub fn update_ball_collision(
    ball: &mut Ball,
    player: &Paddle,
    opponent: &Paddle,
    field: &Field,
    game: &mut Game,
    hit_width_factor: u32,
)
    requires
        old(ball).wf(*field),
        player.wf(*field),
        opponent.wf(*field),
    ensures
        (*final(ball), *final(game)) == collided(
            *old(ball),
            *player,
            *opponent,
            *field,
            *old(game),
            hit_width_factor as nat,
        ),
        final(ball).wf(*field),
        (hits_paddle(*old(ball), *player, hit_width_factor as nat) || hits_paddle(
            *old(ball),
            *opponent,
            hit_width_factor as nat,
        )) && old(ball).speed_factor.value < u64::MAX ==> final(ball).speed_factor.value
            > old(ball).speed_factor.value,
        !hits_paddle(*old(ball), *player, hit_width_factor as nat) && !hits_paddle(
            *old(ball),
            *opponent,
            hit_width_factor as nat,
        ) ==> final(ball).speed_factor == old(ball).speed_factor,
{
    proof {
        let f = old(ball).speed_factor.value as nat;
        if f < u64::MAX {
            lemma_factor_grows(f);
            if grown_factor(f) < u64::MAX {
                lemma_factor_grows(grown_factor(f));
            }
        }
    }
    let hs = half_span_exec(field.height, ball.transform.scale.y);
    let y = ball.transform.translation.y;
    if y < -hs || y > hs {
        ball.direction.value.y = -ball.direction.value.y;
    }
    hit_paddle(ball, game, player, hit_width_factor);
    hit_paddle(ball, game, opponent, hit_width_factor);
}

/// A hit on an inverter that selects the horizontal axis alone, with no wall
/// and no other paddle involved, flips the ball's horizontal direction and
/// leaves the vertical and depth components as they were.
pub proof fn lemma_horizontal_inverter(
    b: Ball,
    player: Paddle,
    opponent: Paddle,
    field: Field,
    g: Game,
    width_factor: nat,
)
    requires
        b.direction.wf(),
        player.inverter.axis_x,
        !player.inverter.axis_y,
        !player.inverter.axis_z,
        hits_paddle(b, player, width_factor),
        !hits_paddle(b, opponent, width_factor),
        !hits_wall(b, field),
    ensures
        collided(b, player, opponent, field, g, width_factor).0.direction.value == (Vector3 {
            x: (-b.direction.value.x) as i64,
            ..b.direction.value
        }),
{
}

/// A ball that reaches past a wall and touches no paddle bounces: its
/// vertical direction flips, while its horizontal and depth directions, its
/// speed factor and the game stay as they were.
pub proof fn lemma_wall_bounce(
    b: Ball,
    player: Paddle,
    opponent: Paddle,
    field: Field,
    g: Game,
    width_factor: nat,
)
    requires
        hits_wall(b, field),
        !hits_paddle(b, player, width_factor),
        !hits_paddle(b, opponent, width_factor),
    ensures
        ({
            let (b2, g2) = collided(b, player, opponent, field, g, width_factor);
            &&& b2.direction.value == (Vector3 {
                y: (-b.direction.value.y) as i64,
                ..b.direction.value
            })
            &&& b2.speed_factor == b.speed_factor
            &&& g2 == g
        }),
{
}

/// A speed factor of at least ten thousandths, below the largest `u64`,
/// strictly grows on a hit.
pub proof fn lemma_factor_grows(f: nat)
    requires
        10 <= f < u64::MAX,
    ensures
        grown_factor(f) > f,
{
    assert(f * 11 / 10 > f) by (nonlinear_arith)
        requires
            10 <= f,
    ;
}

/// Scoring: each overlapped paddle whose inverter awards points adds exactly
/// one point; the speed factor grows by 1.1 (rounded down) on a single paddle
/// hit, and grows strictly on any paddle hit when it is at least 10
/// thousandths (every valid ball has at least 1000) and below the largest
/// `u64`; a frame that touches no paddle (a wall bounce alone, or nothing)
/// changes neither the score nor the factor.
pub proof fn lemma_scoring(
    b: Ball,
    player: Paddle,
    opponent: Paddle,
    field: Field,
    g: Game,
    width_factor: nat,
)
    requires
        g.score + 2 <= u64::MAX,
    ensures
        ({
            let (b2, g2) = collided(b, player, opponent, field, g, width_factor);
            let hp = hits_paddle(b, player, width_factor);
            let ho = hits_paddle(b, opponent, width_factor);
            let f = b.speed_factor.value as nat;
            &&& g2.score == g.score + (if hp && player.inverter.awards_points {
                1int
            } else {
                0int
            }) + (if ho && opponent.inverter.awards_points {
                1int
            } else {
                0int
            })
            &&& g2.winner == g.winner
            &&& (!hp && !ho) ==> b2.speed_factor == b.speed_factor
            &&& (hp != ho) ==> b2.speed_factor.value == grown_factor(f)
            &&& ((hp || ho) && 10 <= f < u64::MAX) ==> b2.speed_factor.value > f
        }),
{
    let f = b.speed_factor.value as nat;
    if 10 <= f < u64::MAX {
        lemma_factor_grows(f);
        let f1 = grown_factor(f);
        if f1 < u64::MAX {
            lemma_factor_grows(f1);
        }
    }
}

} // verus!
