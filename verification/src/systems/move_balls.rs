//! Ball integration and spawning: while the match waits, the respawn
//! countdown runs; once it expires a ball appears at the arena center, and
//! from then on every ball advances by its velocity each tick.

use vstd::prelude::*;
use crate::fixed::{FX_LIMIT, fx_mul, dt_clamped, fx_mul_i64};
use crate::pong::{Ball, Vec2, SpawnState, ball_sound, ball_wf, spawn_wf, initial_ball,
    initialize_ball};

verus! {

/// Advances every live ball and runs the respawn countdown.
pub struct MoveBallsSystem;

/// One ball after one integration step: its position advanced by
/// `velocity * dt`, velocity and radius untouched. A negative elapsed time
/// counts as zero, and a zero elapsed time moves nothing.
pub open spec fn moved_ball(b: Ball, dt: int) -> Ball {
    Ball {
        position: Vec2 {
            x: (b.position.x + fx_mul(b.velocity.x as int, dt_clamped(dt))) as i64,
            y: (b.position.y + fx_mul(b.velocity.y as int, dt_clamped(dt))) as i64,
        },
        velocity: b.velocity,
        radius: b.radius,
    }
}

/// The spawn state machine after one tick: a running countdown loses the
/// elapsed time and, on reaching zero or below, the match goes active; an
/// active match stays active.
pub open spec fn spawn_step(s: SpawnState, dt: int) -> SpawnState {
    match s {
        SpawnState::WaitingToSpawn { remaining } => {
            if remaining - dt_clamped(dt) <= 0 {
                SpawnState::Active
            } else {
                SpawnState::WaitingToSpawn { remaining: (remaining - dt_clamped(dt)) as i64 }
            }
        },
        SpawnState::Active => SpawnState::Active,
    }
}

/// The balls after one mover tick: while the countdown runs they rest; on
/// the tick it expires the new center ball is appended; in an active match
/// every ball advances by its velocity.
pub open spec fn move_step(balls: Seq<Ball>, s: SpawnState, dt: int) -> Seq<Ball> {
    match s {
        SpawnState::WaitingToSpawn { remaining } => {
            if remaining - dt_clamped(dt) <= 0 {
                balls.push(initial_ball())
            } else {
                balls
            }
        },
        SpawnState::Active => balls.map_values(|b: Ball| moved_ball(b, dt)),
    }
}

impl MoveBallsSystem {
    /// One mover tick: runs the countdown or advances every ball, as
    /// `move_step` and `spawn_step` state. A negative `dt` is ignored.
    pub fn run(balls: &mut Vec<Ball>, spawn: &mut SpawnState, dt: i64)
        requires
            forall|i: int| 0 <= i < old(balls)@.len() ==> ball_wf(#[trigger] old(balls)@[i]),
            spawn_wf(*old(spawn)),
            dt <= FX_LIMIT,
        ensures
            final(balls)@ == move_step(old(balls)@, *old(spawn), dt as int),
            *final(spawn) == spawn_step(*old(spawn), dt as int),
            forall|i: int| 0 <= i < final(balls)@.len() ==> ball_sound(#[trigger] final(balls)@[i]),
    {
        let d: i64 = if dt < 0 {
            0
        } else {
            dt
        };
        match *spawn {
            SpawnState::WaitingToSpawn { remaining } => {
                let rest: i64 = remaining - d;
                if rest <= 0 {
                    *spawn = SpawnState::Active;
                    let nb = initialize_ball();
                    balls.push(nb);
                } else {
                    *spawn = SpawnState::WaitingToSpawn { remaining: rest };
                }
            },
            SpawnState::Active => {
                let ghost balls0 = balls@;
                let mut i: usize = 0;
                while i < balls.len()
                    invariant
                        i <= balls@.len(),
                        balls@.len() == balls0.len(),
                        0 <= d <= FX_LIMIT,
                        d == dt_clamped(dt as int),
                        forall|j: int| 0 <= j < balls0.len() ==> ball_wf(#[trigger] balls0[j]),
                        forall|j: int| i <= j < balls0.len() ==> balls@[j] == balls0[j],
                        forall|j: int| 0 <= j < i
                            ==> balls@[j] == moved_ball(#[trigger] balls0[j], dt as int),
                        forall|j: int| 0 <= j < i ==> ball_sound(#[trigger] balls@[j]),
                    decreases balls@.len() - i,
                {
                    let b: Ball = balls[i];
                    proof {
                        assert(balls@[i as int] == balls0[i as int]);
                        assert(ball_wf(balls0[i as int]));
                    }
                    let dx: i64 = fx_mul_i64(b.velocity.x, d);
                    let dy: i64 = fx_mul_i64(b.velocity.y, d);
                    let nb = Ball {
                        position: Vec2 { x: b.position.x + dx, y: b.position.y + dy },
                        velocity: b.velocity,
                        radius: b.radius,
                    };
                    proof {
                        assert(nb == moved_ball(balls0[i as int], dt as int));
                    }
                    balls[i] = nb;
                    i = i + 1;
                }
                proof {
                    assert(balls@ =~= balls0.map_values(|b: Ball| moved_ball(b, dt as int)));
                }
            },
        }
    }
}

/// The spawn-once law: the tick on which the countdown runs out appends
/// exactly one ball — the center ball — and ends the countdown for good;
/// an active match never adds a ball, whatever the elapsed time.
pub proof fn lemma_spawn_exactly_once(balls: Seq<Ball>, remaining: i64, dt: int)
    requires
        remaining - dt_clamped(dt) <= 0,
    ensures
        move_step(balls, SpawnState::WaitingToSpawn { remaining }, dt)
            == balls.push(initial_ball()),
        spawn_step(SpawnState::WaitingToSpawn { remaining }, dt) == SpawnState::Active,
        forall|later: Seq<Ball>, dt2: int|
            #[trigger] move_step(later, SpawnState::Active, dt2).len() == later.len(),
{
    assert forall|later: Seq<Ball>, dt2: int|
        #[trigger] move_step(later, SpawnState::Active, dt2).len() == later.len() by {
        assert(move_step(later, SpawnState::Active, dt2)
            == later.map_values(|b: Ball| moved_ball(b, dt2)));
    }
}

} // verus!
