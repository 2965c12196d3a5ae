//! The motion integrator and the boundary restrictor.
use vstd::prelude::*;

use crate::game::{
    is_unit_sign, half_span, half_span_exec, fits, with_y, Ball, Direction, Field, Paddle, Speed,
    Transform, Vector3, MICROS_PER_SECOND, SPEED_FACTOR_ONE,
};

verus! {

/// `v` cut into the range of `i64`.
pub open spec fn saturate_i64(v: int) -> int {
    if v < i64::MIN {
        i64::MIN as int
    } else if v > i64::MAX {
        i64::MAX as int
    } else {
        v
    }
}

/// Distance covered in `elapsed` microseconds at `speed` units per second
/// scaled by `factor` thousandths, rounded down to whole units.
pub open spec fn travel(speed: nat, factor: nat, elapsed: nat) -> nat {
    (speed * factor * elapsed) / (SPEED_FACTOR_ONE * MICROS_PER_SECOND) as nat
}

/// One coordinate after moving `dist` units in sign `d`.
pub open spec fn moved(p: int, d: int, dist: nat) -> int {
    saturate_i64(p + d * dist)
}

/// A translation after one integration step.
pub open spec fn moved_vector(p: Vector3, d: Vector3, dist: nat) -> Vector3 {
    Vector3 {
        x: moved(p.x as int, d.x as int, dist) as i64,
        y: moved(p.y as int, d.y as int, dist) as i64,
        z: moved(p.z as int, d.z as int, dist) as i64,
    }
}

/// Computes `travel` without overflow.
fn travel_exec(speed: u32, factor: u64, elapsed: u32) -> (r: u128)
    ensures
        r as nat == travel(speed as nat, factor as nat, elapsed as nat),
        r < 0x10_0000_0000_0000_0000_0000_0000u128,
{
    let s = speed as u128;
    let f = factor as u128;
    let e = elapsed as u128;
    assert(s * f <= 0xffff_ffff * 0xffff_ffff_ffff_ffffu128) by (nonlinear_arith)
        requires
            s <= 0xffff_ffffu128,
            f <= 0xffff_ffff_ffff_ffffu128,
    ;
    let sf = s * f;
    assert(sf * e <= 0xffff_ffff * 0xffff_ffff_ffff_ffffu128 * 0xffff_ffff) by (nonlinear_arith)
        requires
            sf <= 0xffff_ffff * 0xffff_ffff_ffff_ffffu128,
            e <= 0xffff_ffffu128,
    ;
    let x = sf * e;
    let r = x / 1_000_000_000u128;
    assert(r < 0x10_0000_0000_0000_0000_0000_0000u128) by (nonlinear_arith)
        requires
            r == x / 1_000_000_000u128,
            x <= 0xffff_ffff * 0xffff_ffff_ffff_ffffu128 * 0xffff_ffff,
    ;
    r
}

/// Moves one coordinate, saturating at the range of `i64`.
fn advance(p: i64, d: i64, dist: u128) -> (r: i64)
    requires
        is_unit_sign(d as int),
        dist < 0x10_0000_0000_0000_0000_0000_0000u128,
    ensures
        r as int == moved(p as int, d as int, dist as nat),
{
    let step: i128 = if d > 0 {
        assert(d == 1);
        dist as i128
    } else if d < 0 {
        assert(d == -1);
        -(dist as i128)
    } else {
        0
    };
    assert(step == d as int * dist as int) by (nonlinear_arith)
        requires
            d == 1 ==> step == dist,
            d == -1 ==> step == -dist,
            d == 0 ==> step == 0,
            -1 <= d <= 1,
    ;
    let v: i128 = p as i128 + step;
    if v < i64::MIN as i128 {
        i64::MIN
    } else if v > i64::MAX as i128 {
        i64::MAX
    } else {
        v as i64
    }
}

/// Moves `transform` along `direction` for `elapsed` microseconds at `speed`
/// scaled by `factor` thousandths.
pub fn move_transform(
    transform: &mut Transform,
    direction: &Direction,
    speed: Speed,
    factor: u64,
    elapsed: u32,
)
    requires
        direction.wf(),
    ensures
        final(transform).scale == old(transform).scale,
        final(transform).translation == moved_vector(
            old(transform).translation,
            direction.value,
            travel(speed.0 as nat, factor as nat, elapsed as nat),
        ),
{
    let dist = travel_exec(speed.0, factor, elapsed);
    let d = direction.value;
    transform.translation = Vector3 {
        x: advance(transform.translation.x, d.x, dist),
        y: advance(transform.translation.y, d.y, dist),
        z: advance(transform.translation.z, d.z, dist),
    };
}


/// A step in which the travel stays within the range of `i64` moves a
/// coordinate by exactly `d * dist`.
pub proof fn lemma_motion_exact(p: int, d: int, dist: nat)
    requires
        i64::MIN <= p + d * dist <= i64::MAX,
    ensures
        moved(p, d, dist) == p + d * dist,
{
}

/// Where the product of speed, factor and time is a whole number of units,
/// travel is that product exactly: distance = speed × (factor / 1000) ×
/// (elapsed / 1e6), with no rounding.
pub proof fn lemma_travel_exact(speed: nat, factor: nat, elapsed: nat)
    requires
        (speed * factor * elapsed) as int % (SPEED_FACTOR_ONE * MICROS_PER_SECOND) as int == 0,
    ensures
        travel(speed, factor, elapsed) * (SPEED_FACTOR_ONE * MICROS_PER_SECOND) as int == (speed
            * factor * elapsed) as int,
{
    let x = (speed * factor * elapsed) as int;
    let q = (SPEED_FACTOR_ONE * MICROS_PER_SECOND) as int;
    assert(q == 1_000_000_000);
    assert(travel(speed, factor, elapsed) == x / q);
    vstd::arithmetic::div_mod::lemma_fundamental_div_mod(x, q);
    assert(x == q * (x / q));
    assert(q * (x / q) == (x / q) * q) by (nonlinear_arith);
}

pub open spec fn clamp(v: int, lo: int, hi: int) -> int {
    if v < lo {
        lo
    } else if v > hi {
        hi
    } else {
        v
    }
}

/// A paddle with its centre moved back into the field.
pub open spec fn restricted(p: Paddle, field: Field) -> Paddle {
    let t = p.transform.translation;
    let hs = half_span(field.height as int, p.transform.scale.y as int);
    Paddle {
        transform: Transform {
            translation: with_y(t, clamp(t.y as int, -hs, hs)),
            ..p.transform
        },
        ..p
    }
}

/// Clamps the paddle's height so that it lies wholly inside the field.
pub fn update_paddle_restrictor(paddle: &mut Paddle, field: &Field)
    requires
        fits(old(paddle).transform, *field),
    ensures
        *final(paddle) == restricted(*old(paddle), *field),
        -(field.height - final(paddle).transform.scale.y) <= 2 * final(paddle).transform.translation.y
            <= field.height - final(paddle).transform.scale.y,
{
    let hs = half_span_exec(field.height, paddle.transform.scale.y);
    let y = paddle.transform.translation.y;
    paddle.transform.translation.y = if y < -hs {
        -hs
    } else if y > hs {
        hs
    } else {
        y
    };
}

/// The ball after one integration step.
pub open spec fn moved_ball(b: Ball, elapsed: nat) -> Ball {
    let dist = travel(b.speed.0 as nat, b.speed_factor.value as nat, elapsed);
    Ball {
        transform: Transform {
            translation: moved_vector(b.transform.translation, b.direction.value, dist),
            ..b.transform
        },
        ..b
    }
}

/// A paddle after one integration step; paddles have no speed factor and
/// move at 1.0.
pub open spec fn moved_paddle(p: Paddle, elapsed: nat) -> Paddle {
    let dist = travel(p.speed.0 as nat, SPEED_FACTOR_ONE as nat, elapsed);
    Paddle {
        transform: Transform {
            translation: moved_vector(p.transform.translation, p.direction.value, dist),
            ..p.transform
        },
        ..p
    }
}

/// Moves the ball and both paddles along their directions for `elapsed`
/// microseconds.
pub fn update_directional_movement(
    ball: &mut Ball,
    player: &mut Paddle,
    opponent: &mut Paddle,
    elapsed: u32,
)
    requires
        old(ball).direction.wf(),
        old(player).direction.wf(),
        old(opponent).direction.wf(),
    ensures
        *final(ball) == moved_ball(*old(ball), elapsed as nat),
        *final(player) == moved_paddle(*old(player), elapsed as nat),
        *final(opponent) == moved_paddle(*old(opponent), elapsed as nat),
{
    let factor = ball.speed_factor.value;
    move_transform(&mut ball.transform, &ball.direction, ball.speed, factor, elapsed);
    move_transform(&mut player.transform, &player.direction, player.speed, SPEED_FACTOR_ONE, elapsed);
    move_transform(
        &mut opponent.transform,
        &opponent.direction,
        opponent.speed,
        SPEED_FACTOR_ONE,
        elapsed,
    );
}

} // verus!
