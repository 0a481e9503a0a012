//! Collision response: reflects ball velocity off the top and bottom walls
//! and off the two paddles, counting one bounce cue per reflection.

use vstd::prelude::*;
use crate::pong::{ARENA_HEIGHT, Side, Paddle, Ball, Vec2, ball_sound, paddle_wf};
use crate::fixed::half_i64;

verus! {

/// Reflects balls off the walls and the paddles, once per tick.
pub struct BounceSystem;

/// The ball is at or past a horizontal wall and still moving toward it.
/// Gating on the velocity sign keeps a ball resting on the boundary from
/// reflecting again on every following tick.
pub open spec fn wall_hit(b: Ball) -> bool {
    ||| (b.position.y <= b.radius && b.velocity.y < 0)
    ||| (b.position.y >= ARENA_HEIGHT - b.radius && b.velocity.y > 0)
}

/// The ball after the wall check: vertical velocity reflected when the
/// ball is moving into a wall, untouched otherwise. Position is never
/// corrected.
pub open spec fn wall_step(b: Ball) -> Ball {
    if wall_hit(b) {
        Ball {
            position: b.position,
            velocity: Vec2 { x: b.velocity.x, y: (-b.velocity.y) as i64 },
            radius: b.radius,
        }
    } else {
        b
    }
}

/// The ball's center lies in the paddle's rectangle expanded by the ball
/// radius on all four sides, bounds inclusive.
pub open spec fn in_paddle_zone(p: Paddle, b: Ball) -> bool {
    let left = p.position.x - p.width as int / 2 - b.radius;
    let bottom = p.position.y - p.height as int / 2 - b.radius;
    let right = p.position.x - p.width as int / 2 + p.width + b.radius;
    let top = p.position.y - p.height as int / 2 + p.height + b.radius;
    &&& left <= b.position.x <= right
    &&& bottom <= b.position.y <= top
}

/// The ball is moving toward the side the paddle defends.
pub open spec fn moving_toward(p: Paddle, b: Ball) -> bool {
    ||| (p.side == Side::Left && b.velocity.x < 0)
    ||| (p.side == Side::Right && b.velocity.x > 0)
}

/// The paddle reflects the ball: the ball is in the expanded rectangle and
/// moving toward the paddle's side.
pub open spec fn paddle_hit(p: Paddle, b: Ball) -> bool {
    in_paddle_zone(p, b) && moving_toward(p, b)
}

/// The ball after one paddle's check: horizontal velocity reflected on a
/// hit, untouched otherwise.
pub open spec fn paddle_step(p: Paddle, b: Ball) -> Ball {
    if paddle_hit(p, b) {
        Ball {
            position: b.position,
            velocity: Vec2 { x: (-b.velocity.x) as i64, y: b.velocity.y },
            radius: b.radius,
        }
    } else {
        b
    }
}

/// One ball after the whole collision pass: the wall check first, then the
/// two paddles in order, each against the velocity the previous check left.
pub open spec fn bounce_ball(b: Ball, l: Paddle, r: Paddle) -> Ball {
    paddle_step(r, paddle_step(l, wall_step(b)))
}

/// How many bounce cues one ball emits in a collision pass (0 to 3: the
/// wall and each paddle reflect independently in the same tick).
pub open spec fn ball_bounce_count(b: Ball, l: Paddle, r: Paddle) -> nat {
    (if wall_hit(b) { 1 as nat } else { 0 as nat })
        + (if paddle_hit(l, wall_step(b)) { 1 as nat } else { 0 as nat })
        + (if paddle_hit(r, paddle_step(l, wall_step(b))) { 1 as nat } else { 0 as nat })
}

/// Total bounce cues of a collision pass over a sequence of balls.
pub open spec fn total_bounces(balls: Seq<Ball>, l: Paddle, r: Paddle) -> nat
    decreases balls.len(),
{
    if balls.len() == 0 {
        0
    } else {
        total_bounces(balls.drop_last(), l, r) + ball_bounce_count(balls.last(), l, r)
    }
}

pub proof fn lemma_total_bounces_bound(balls: Seq<Ball>, l: Paddle, r: Paddle)
    ensures
        total_bounces(balls, l, r) <= 3 * balls.len(),
    decreases balls.len(),
{
    if balls.len() > 0 {
        lemma_total_bounces_bound(balls.drop_last(), l, r);
    }
}

pub proof fn lemma_total_bounces_take_step(balls: Seq<Ball>, l: Paddle, r: Paddle, i: int)
    requires
        0 <= i < balls.len(),
    ensures
        total_bounces(balls.take(i + 1), l, r)
            == total_bounces(balls.take(i), l, r) + ball_bounce_count(balls[i], l, r),
{
    assert(balls.take(i + 1).drop_last() =~= balls.take(i));
    assert(balls.take(i + 1).last() == balls[i]);
}

/// The ball's center lies in the box `[left, right] x [bottom, top]`,
/// bounds inclusive on all four sides.
pub fn point_in_rect(x: i64, y: i64, left: i64, bottom: i64, right: i64, top: i64) -> (r: bool)
    ensures
        r == (left <= x <= right && bottom <= y <= top),
{
    x >= left && x <= right && y >= bottom && y <= top
}

/// Whether the ball's center is inside the paddle's expanded rectangle.
pub fn ball_in_paddle_zone(p: &Paddle, b: &Ball) -> (r: bool)
    requires
        paddle_wf(*p),
        ball_sound(*b),
    ensures
        r == in_paddle_zone(*p, *b),
{
    let paddle_x: i64 = p.position.x - half_i64(p.width);
    let paddle_y: i64 = p.position.y - half_i64(p.height);
    point_in_rect(
        b.position.x,
        b.position.y,
        paddle_x - b.radius,
        paddle_y - b.radius,
        paddle_x + p.width + b.radius,
        paddle_y + p.height + b.radius,
    )
}

impl BounceSystem {
    /// One collision pass over every ball: the wall first, then the left
    /// and the right paddle, each check against the velocity the previous
    /// one left. Positions are never corrected — a ball that tunnels past
    /// a paddle between two ticks is accepted behavior. Returns how many
    /// bounce cues to emit.
    pub fn run(balls: &mut Vec<Ball>, left: &Paddle, right: &Paddle) -> (cues: u64)
        requires
            paddle_wf(*left),
            paddle_wf(*right),
            forall|i: int| 0 <= i < old(balls)@.len() ==> ball_sound(#[trigger] old(balls)@[i]),
            3 * old(balls)@.len() <= u64::MAX,
        ensures
            final(balls)@.len() == old(balls)@.len(),
            forall|i: int| 0 <= i < old(balls)@.len()
                ==> final(balls)@[i] == bounce_ball(#[trigger] old(balls)@[i], *left, *right),
            forall|i: int| 0 <= i < old(balls)@.len() ==> ball_sound(#[trigger] final(balls)@[i]),
            cues == total_bounces(old(balls)@, *left, *right),
    {
        let ghost balls0 = balls@;
        let mut cues: u64 = 0;
        let mut i: usize = 0;
        while i < balls.len()
            invariant
                paddle_wf(*left),
                paddle_wf(*right),
                i <= balls@.len(),
                balls@.len() == balls0.len(),
                3 * balls0.len() <= u64::MAX,
                forall|j: int| 0 <= j < balls0.len() ==> ball_sound(#[trigger] balls0[j]),
                forall|j: int| i <= j < balls0.len() ==> balls@[j] == balls0[j],
                forall|j: int| 0 <= j < i
                    ==> balls@[j] == bounce_ball(#[trigger] balls0[j], *left, *right),
                forall|j: int| 0 <= j < i ==> ball_sound(#[trigger] balls@[j]),
                cues == total_bounces(balls0.take(i as int), *left, *right),
            decreases balls@.len() - i,
        {
            let b: Ball = balls[i];
            proof {
                assert(balls@[i as int] == balls0[i as int]);
                assert(ball_sound(balls0[i as int]));
            }
            let mut vx: i64 = b.velocity.x;
            let mut vy: i64 = b.velocity.y;
            let mut n: u64 = 0;
            if (b.position.y <= b.radius && vy < 0)
                || (b.position.y >= ARENA_HEIGHT - b.radius && vy > 0) {
                vy = -vy;
                n = n + 1;
            }
            proof {
                assert(Ball { position: b.position, velocity: Vec2 { x: vx, y: vy }, radius: b.radius }
                    == wall_step(b));
            }
            if ball_in_paddle_zone(left, &b)
                && ((left.side == Side::Left && vx < 0) || (left.side == Side::Right && vx > 0)) {
                vx = -vx;
                n = n + 1;
            }
            proof {
                assert(Ball { position: b.position, velocity: Vec2 { x: vx, y: vy }, radius: b.radius }
                    == paddle_step(*left, wall_step(b)));
            }
            if ball_in_paddle_zone(right, &b)
                && ((right.side == Side::Left && vx < 0) || (right.side == Side::Right && vx > 0)) {
                vx = -vx;
                n = n + 1;
            }
            let nb = Ball { position: b.position, velocity: Vec2 { x: vx, y: vy }, radius: b.radius };
            proof {
                assert(nb == bounce_ball(b, *left, *right));
                assert(n == ball_bounce_count(b, *left, *right));
                lemma_total_bounces_take_step(balls0, *left, *right, i as int);
                lemma_total_bounces_bound(balls0.take(i + 1), *left, *right);
            }
            balls[i] = nb;
            cues = cues + n;
            i = i + 1;
        }
        proof {
            assert(balls0.take(balls0.len() as int) =~= balls0);
        }
        cues
    }
}

/// The wall-reflection law: reflecting off a wall is velocity-sign gated,
/// so a second collision pass on the same positions does not reflect
/// again — one reflection per approach, however many ticks the ball rests
/// at the boundary.
pub proof fn lemma_wall_reflection_once(b: Ball)
    requires
        2 * b.radius < ARENA_HEIGHT,
        crate::fixed::fx_ok(b.velocity.y as int),
    ensures
        wall_step(wall_step(b)) == wall_step(b),
        b.position.y <= b.radius && b.velocity.y < 0
            ==> wall_step(b).velocity.y == -b.velocity.y,
{
}

} // verus!
