//! Ball hitpoint prediction by tracing reflections off the top and bottom
//! walls.
use vstd::prelude::*;
use vstd::arithmetic::div_mod::{lemma_div_is_ordered, lemma_div_minus_one};

use crate::game::{is_unit_sign, Vector3};

verus! {

/// A ball's straight path: a point and the signs of its motion. With `dx` of
/// ±1 the slope `dy / dx` is `dy * dx`.
pub struct Ray {
    pub x: int,
    pub y: int,
    pub dx: int,
    pub dy: int,
}

pub open spec fn slope(r: Ray) -> int {
    r.dy * r.dx
}

/// The x at which the ray's line reaches height `wall`.
pub open spec fn wall_crossing(r: Ray, wall: int) -> int {
    r.x + slope(r) * (wall - r.y)
}

pub open spec fn strictly_between(a: int, lo: int, hi: int) -> bool {
    lo < a && a < hi
}

/// The ray after it bounces off the wall it is heading for, when it meets
/// that wall strictly between the two paddle planes.
pub open spec fn bounce(r: Ray, upper: int, lower: int, left: int, right: int) -> Option<Ray> {
    if r.dy > 0 && strictly_between(wall_crossing(r, upper), left, right) {
        Some(Ray { x: wall_crossing(r, upper), y: upper, dx: r.dx, dy: -r.dy })
    } else if r.dy < 0 && strictly_between(wall_crossing(r, lower), left, right) {
        Some(Ray { x: wall_crossing(r, lower), y: lower, dx: r.dx, dy: -r.dy })
    } else {
        None
    }
}

/// The ray after at most `n` bounces.
pub open spec fn trace(r: Ray, upper: int, lower: int, left: int, right: int, n: nat) -> Ray
    decreases n,
{
    if n == 0 {
        r
    } else {
        match bounce(r, upper, lower, left, right) {
            Some(b) => trace(b, upper, lower, left, right, (n - 1) as nat),
            None => r,
        }
    }
}

/// Where the ray's line meets the paddle plane it is heading for.
pub open spec fn landing_y(r: Ray, left: int, right: int) -> int {
    let plane = if r.dx > 0 {
        right
    } else {
        left
    };
    r.y + slope(r) * (plane - r.x)
}

/// How many bounces tracing allows: enough for the path across the field
/// when the walls are apart, one otherwise.
pub open spec fn reflection_cap(upper: int, lower: int, left: int, right: int) -> nat {
    if lower < upper && left < right {
        ((right - left) / (upper - lower) + 2) as nat
    } else {
        1
    }
}

pub open spec fn ray_of(position: Vector3, direction: Vector3) -> Ray {
    Ray {
        x: position.x as int,
        y: position.y as int,
        dx: direction.x as int,
        dy: direction.y as int,
    }
}

/// The height at which a ball at `position` moving along `direction` reaches
/// the paddle plane it is heading for, bouncing off the walls on its way.
pub open spec fn predicted_y(
    position: Vector3,
    direction: Vector3,
    upper: int,
    lower: int,
    left: int,
    right: int,
) -> int {
    let cap = reflection_cap(upper, lower, left, right);
    landing_y(trace(ray_of(position, direction), upper, lower, left, right, cap), left, right)
}

/// A ray that has just bounced: strictly between the paddle planes, on one
/// wall, heading for the other.
pub open spec fn leaves_wall(r: Ray, upper: int, lower: int, left: int, right: int) -> bool {
    &&& r.dx == 1 || r.dx == -1
    &&& strictly_between(r.x, left, right)
    &&& (r.y == upper && r.dy == -1) || (r.y == lower && r.dy == 1)
}

/// How many more full crossings between the walls fit before the paddle
/// plane that the ray heads for.
pub open spec fn crossings_left(r: Ray, upper: int, lower: int, left: int, right: int) -> int {
    if r.dx > 0 {
        (right - r.x) / (upper - lower)
    } else {
        (r.x - left) / (upper - lower)
    }
}

/// From a wall, the next bounce lies one wall-to-wall crossing further on.
proof fn lemma_bounce_from_wall(r: Ray, upper: int, lower: int, left: int, right: int)
    requires
        leaves_wall(r, upper, lower, left, right),
        lower < upper,
    ensures
        crossings_left(r, upper, lower, left, right) >= 0,
        bounce(r, upper, lower, left, right) matches Some(b) ==> {
            &&& leaves_wall(b, upper, lower, left, right)
            &&& crossings_left(b, upper, lower, left, right) == crossings_left(
                r,
                upper,
                lower,
                left,
                right,
            ) - 1
        },
{
    let g = upper - lower;
    lemma_div_is_ordered(0, right - r.x, g);
    lemma_div_is_ordered(0, r.x - left, g);
    assert(r.dy == -1 ==> wall_crossing(r, lower) == r.x + r.dx * g) by (nonlinear_arith)
        requires
            r.dy == -1 ==> r.y == upper,
            g == upper - lower,
            slope(r) == r.dy * r.dx,
            wall_crossing(r, lower) == r.x + slope(r) * (lower - r.y),
    ;
    assert(r.dy == 1 ==> wall_crossing(r, upper) == r.x + r.dx * g) by (nonlinear_arith)
        requires
            r.dy == 1 ==> r.y == lower,
            g == upper - lower,
            slope(r) == r.dy * r.dx,
            wall_crossing(r, upper) == r.x + slope(r) * (upper - r.y),
    ;
    if r.dx == 1 {
        assert(r.dx * g == g) by (nonlinear_arith)
            requires
                r.dx == 1,
        ;
        lemma_div_minus_one(right - r.x, g);
        if let Some(b) = bounce(r, upper, lower, left, right) {
            assert(b.x == r.x + g);
            assert(right - b.x == -g + (right - r.x));
        }
    } else {
        assert(r.dx * g == -g) by (nonlinear_arith)
            requires
                r.dx == -1,
        ;
        lemma_div_minus_one(r.x - left, g);
        if let Some(b) = bounce(r, upper, lower, left, right) {
            assert(b.x == r.x - g);
            assert(b.x - left == -g + (r.x - left));
        }
    }
}

/// Tracing from a wall comes to rest once it has had as many bounces as
/// crossings are left.
proof fn lemma_wall_trace_rests(r: Ray, upper: int, lower: int, left: int, right: int, n: nat)
    requires
        leaves_wall(r, upper, lower, left, right),
        lower < upper,
        n >= crossings_left(r, upper, lower, left, right),
    ensures
        bounce(trace(r, upper, lower, left, right, n), upper, lower, left, right) is None,
    decreases n,
{
    lemma_bounce_from_wall(r, upper, lower, left, right);
    if let Some(b) = bounce(r, upper, lower, left, right) {
        lemma_bounce_from_wall(b, upper, lower, left, right);
        lemma_wall_trace_rests(b, upper, lower, left, right, (n - 1) as nat);
    }
}

/// Once a trace has come to rest, allowing it more bounces changes nothing.
proof fn lemma_trace_stays(r: Ray, upper: int, lower: int, left: int, right: int, n: nat, m: nat)
    requires
        bounce(trace(r, upper, lower, left, right, n), upper, lower, left, right) is None,
        n <= m,
    ensures
        trace(r, upper, lower, left, right, m) == trace(r, upper, lower, left, right, n),
    decreases n,
{
    if n > 0 {
        if let Some(b) = bounce(r, upper, lower, left, right) {
            lemma_trace_stays(b, upper, lower, left, right, (n - 1) as nat, (m - 1) as nat);
        }
    }
}

/// Reflection tracing of a ball with a horizontal component terminates
/// between walls that stand apart: after `reflection_cap` bounces no further
/// bounce is possible, so allowing any more leaves the trace as it is.
pub proof fn lemma_reflections_bounded(
    r: Ray,
    upper: int,
    lower: int,
    left: int,
    right: int,
    m: nat,
)
    requires
        r.dx == 1 || r.dx == -1,
        is_unit_sign(r.dy),
        lower < upper,
        left < right,
        m >= reflection_cap(upper, lower, left, right),
    ensures
        bounce(
            trace(r, upper, lower, left, right, reflection_cap(upper, lower, left, right)),
            upper,
            lower,
            left,
            right,
        ) is None,
        trace(r, upper, lower, left, right, m) == trace(
            r,
            upper,
            lower,
            left,
            right,
            reflection_cap(upper, lower, left, right),
        ),
{
    let cap = reflection_cap(upper, lower, left, right);
    let g = upper - lower;
    if let Some(b) = bounce(r, upper, lower, left, right) {
        assert(leaves_wall(b, upper, lower, left, right));
        lemma_div_is_ordered(right - b.x, right - left, g);
        lemma_div_is_ordered(b.x - left, right - left, g);
        lemma_wall_trace_rests(b, upper, lower, left, right, (cap - 1) as nat);
    }
    lemma_trace_stays(r, upper, lower, left, right, cap, m);
}

/// `k * v` for a sign `k`.
fn times_sign(k: i128, v: i128) -> (r: i128)
    requires
        is_unit_sign(k as int),
        -0x1_0000_0000_0000_0000_0000i128 < v < 0x1_0000_0000_0000_0000_0000i128,
    ensures
        r == k * v,
        v >= 0 ==> -v <= r <= v,
        v < 0 ==> v <= r <= -v,
{
    if k > 0 {
        assert(k == 1);
        v
    } else if k < 0 {
        assert(k == -1);
        -v
    } else {
        assert(k == 0);
        0
    }
}

/// Traces the ball from `ball_position` along `ball_direction`, bouncing
/// off the walls at `upper_limit_y` and `lower_limit_y`, to the paddle plane
/// at `left_limit_x` or `right_limit_x` it heads for, and returns the height
/// at which it arrives there.
pub fn find_ball_hitpoint(
    ball_position: Vector3,
    ball_direction: Vector3,
    upper_limit_y: i64,
    lower_limit_y: i64,
    left_limit_x: i64,
    right_limit_x: i64,
) -> (r: i128)
    requires
        ball_direction.x == 1 || ball_direction.x == -1,
        is_unit_sign(ball_direction.y as int),
    ensures
        r == predicted_y(
            ball_position,
            ball_direction,
            upper_limit_y as int,
            lower_limit_y as int,
            left_limit_x as int,
            right_limit_x as int,
        ),
        -0x4_0000_0000_0000_0000i128 < r < 0x4_0000_0000_0000_0000i128,
{
    let upper = upper_limit_y as i128;
    let lower = lower_limit_y as i128;
    let left = left_limit_x as i128;
    let right = right_limit_x as i128;
    let cap: u128 = if lower < upper && left < right {
        ((right - left) as u128) / ((upper - lower) as u128) + 2
    } else {
        1
    };
    let ghost start = ray_of(ball_position, ball_direction);
    let ghost (u, l, lx, rx) = (upper as int, lower as int, left as int, right as int);
    assert(cap as nat == reflection_cap(u, l, lx, rx));
    let dx = ball_direction.x as i128;
    let mut x = ball_position.x as i128;
    let mut y = ball_position.y as i128;
    let mut dy = ball_direction.y as i128;
    let mut n: u128 = 0;
    let mut resting = false;
    while n < cap && !resting
        invariant
            n <= cap,
            cap as nat == reflection_cap(u, l, lx, rx),
            u == upper,
            l == lower,
            lx == left,
            rx == right,
            i64::MIN <= x <= i64::MAX,
            i64::MIN <= y <= i64::MAX,
            i64::MIN <= upper <= i64::MAX,
            i64::MIN <= lower <= i64::MAX,
            i64::MIN <= left <= i64::MAX,
            i64::MIN <= right <= i64::MAX,
            dx == 1 || dx == -1,
            is_unit_sign(dy as int),
            trace(start, u, l, lx, rx, cap as nat) == trace(
                Ray { x: x as int, y: y as int, dx: dx as int, dy: dy as int },
                u,
                l,
                lx,
                rx,
                (cap - n) as nat,
            ),
            resting ==> bounce(
                Ray { x: x as int, y: y as int, dx: dx as int, dy: dy as int },
                u,
                l,
                lx,
                rx,
            ) is None,
        decreases cap - n + (if resting {
            0int
        } else {
            1int
        }),
    {
        let ghost cur = Ray { x: x as int, y: y as int, dx: dx as int, dy: dy as int };
        let k = times_sign(dy, dx);
        if dy > 0 {
            let cross = x + times_sign(k, upper - y);
            assert(cross == wall_crossing(cur, u));
            if left < cross && cross < right {
                x = cross;
                y = upper;
                dy = -dy;
                n = n + 1;
            } else {
                resting = true;
            }
        } else if dy < 0 {
            let cross = x + times_sign(k, lower - y);
            assert(cross == wall_crossing(cur, l));
            if left < cross && cross < right {
                x = cross;
                y = lower;
                dy = -dy;
                n = n + 1;
            } else {
                resting = true;
            }
        } else {
            resting = true;
        }
    }
    let k = times_sign(dy, dx);
    let plane = if dx > 0 {
        right
    } else {
        left
    };
    y + times_sign(k, plane - x)
}

} // verus!
