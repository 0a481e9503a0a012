//! Paddle movement: one paddle per input axis per tick, clamped to the
//! arena.

use vstd::prelude::*;
use crate::fixed::{SCALE, FX_LIMIT, fx_ok, fx_mul, dt_clamped, clamped, fx_mul_i64, clamp_i64,
    half_i64};
use crate::pong::{ARENA_HEIGHT, PADDLE_SPEED, Paddle, Vec2, paddle_wf};

verus! {

/// Moves a paddle by an input axis value and an elapsed time, clamped so
/// the paddle stays inside the arena.
pub struct PaddleSystem;

/// The paddle after one tick of input: the axis is first pulled into
/// `[-1, 1]` (that is, `[-SCALE, SCALE]` in counts) and a negative elapsed
/// time counts as zero; the paddle then moves by `axis * PADDLE_SPEED * dt`
/// and its center is clamped so its half-height stays within `[0, height]`
/// of the arena. Everything but the vertical position is kept.
pub open spec fn paddle_moved(p: Paddle, axis: int, dt: int) -> Paddle {
    let a = clamped(axis, -SCALE as int, SCALE as int);
    let delta = fx_mul(fx_mul(a, PADDLE_SPEED as int), dt_clamped(dt));
    let y = clamped(
        p.position.y + delta,
        p.height as int / 2,
        ARENA_HEIGHT as int - p.height as int / 2,
    );
    Paddle {
        side: p.side,
        width: p.width,
        height: p.height,
        position: Vec2 { x: p.position.x, y: y as i64 },
    }
}

impl PaddleSystem {
    /// One tick of paddle movement. `axis` is the input axis in counts
    /// (`SCALE` stands for 1.0); out-of-range axis values and a negative
    /// `dt` are pulled into range silently rather than rejected.
    pub fn run(paddle: &mut Paddle, axis: i64, dt: i64)
        requires
            paddle_wf(*old(paddle)),
            dt <= FX_LIMIT,
        ensures
            *final(paddle) == paddle_moved(*old(paddle), axis as int, dt as int),
            paddle_wf(*final(paddle)),
    {
        let a: i64 = clamp_i64(axis, -SCALE, SCALE);
        let d: i64 = if dt < 0 {
            0
        } else {
            dt
        };
        let v: i64 = fx_mul_i64(a, PADDLE_SPEED);
        proof {
            assert(fx_ok(v as int));
        }
        let delta: i64 = fx_mul_i64(v, d);
        let half_height: i64 = half_i64(paddle.height);
        let y: i64 = clamp_i64(
            paddle.position.y + delta,
            half_height,
            ARENA_HEIGHT - half_height,
        );
        paddle.position = Vec2 { x: paddle.position.x, y };
    }
}

/// The paddle-clamp law: whatever the starting position, the axis and the
/// elapsed time, one tick of movement leaves the paddle's center within
/// `[height / 2, ARENA_HEIGHT - height / 2]`; repeated ticks therefore
/// never drive it outside that band.
pub proof fn lemma_paddle_clamp(p: Paddle, axis: int, dt: int)
    requires
        paddle_wf(p),
    ensures
        p.height as int / 2 <= paddle_moved(p, axis, dt).position.y as int
            <= ARENA_HEIGHT as int - p.height as int / 2,
        paddle_wf(paddle_moved(p, axis, dt)),
{
    assert(0 <= p.height as int / 2 <= ARENA_HEIGHT as int / 2);
}

} // verus!
