//! Shared state of a match: arena constants, paddles, balls, the score
//! board and the spawn state machine.

use vstd::prelude::*;
use crate::fixed::{SCALE, FX_LIMIT, fx_ok};
use crate::systems::paddle::{PaddleSystem, paddle_moved};
use crate::systems::move_balls::{MoveBallsSystem, move_step, spawn_step};
use crate::systems::bounce::{BounceSystem, bounce_ball, total_bounces, wall_hit, paddle_hit};
use crate::systems::winner::{WinnerSystem, judged_ball, count_left, count_right,
    right_score_after, scores_left, scores_right};

verus! {

/// Arena width in fixed-point counts (100 units).
pub const ARENA_WIDTH: i64 = 100 * SCALE;

/// Arena height in fixed-point counts (100 units).
pub const ARENA_HEIGHT: i64 = 100 * SCALE;

/// Horizontal midpoint of the arena, where balls appear and reappear.
pub const ARENA_MID_X: i64 = 50 * SCALE;

/// Vertical midpoint of the arena.
pub const ARENA_MID_Y: i64 = 50 * SCALE;

/// Paddle width in fixed-point counts (4 units).
pub const PADDLE_WIDTH: i64 = 4 * SCALE;

/// Paddle height in fixed-point counts (16 units).
pub const PADDLE_HEIGHT: i64 = 16 * SCALE;

/// Half the paddle width; the left paddle's center sits this far from the wall.
pub const PADDLE_HALF_WIDTH: i64 = 2 * SCALE;

/// Vertical paddle speed in fixed-point counts per second (72 units/s).
pub const PADDLE_SPEED: i64 = 72 * SCALE;

/// Horizontal speed of a freshly spawned ball (75 units/s).
pub const BALL_VELOCITY_X: i64 = 75 * SCALE;

/// Vertical speed of a freshly spawned ball (50 units/s).
pub const BALL_VELOCITY_Y: i64 = 50 * SCALE;

/// Ball radius in fixed-point counts (2 units).
pub const BALL_RADIUS: i64 = 2 * SCALE;

/// Seconds between match start and the first ball, in fixed-point counts.
pub const SPAWN_DELAY: i64 = 1 * SCALE;

/// Positions handed to the simulation stay within this magnitude, so that
/// one integration step away from it still fits in 64 bits.
pub const POS_LIMIT: i64 = 9_000_000_000_000_000;

/// The side of the arena a paddle defends.
#[derive(Clone, Copy, PartialEq, Eq, Structural, Debug)]
pub enum Side {
    Left,
    Right,
}

/// A point or vector of the plane, in fixed-point counts.
#[derive(Clone, Copy, PartialEq, Eq, Structural, Debug)]
pub struct Vec2 {
    pub x: i64,
    pub y: i64,
}

/// One of the two paddles; `position` is the center of its rectangle.
#[derive(Clone, Copy, PartialEq, Eq, Structural, Debug)]
pub struct Paddle {
    pub side: Side,
    pub width: i64,
    pub height: i64,
    pub position: Vec2,
}

/// A ball in flight; `position` is its center.
#[derive(Clone, Copy, PartialEq, Eq, Structural, Debug)]
pub struct Ball {
    pub position: Vec2,
    pub velocity: Vec2,
    pub radius: i64,
}

/// The two score counters of a match.
#[derive(Clone, Copy, PartialEq, Eq, Structural, Debug)]
pub struct ScoreBoard {
    pub score_left: u32,
    pub score_right: u32,
}

/// The per-match spawn state machine: either counting down to the next
/// ball, or running with the balls it has.
#[derive(Clone, Copy, PartialEq, Eq, Structural, Debug)]
pub enum SpawnState {
    WaitingToSpawn { remaining: i64 },
    Active,
}

/// Both coordinates stay within the magnitude the integration step accepts.
pub open spec fn vec2_bounded(v: Vec2) -> bool {
    &&& -POS_LIMIT <= v.x <= POS_LIMIT
    &&& -POS_LIMIT <= v.y <= POS_LIMIT
}

/// What the collision and scoring rules need of a ball: a radius that fits
/// the arena and velocities small enough for fixed-point products.
pub open spec fn ball_sound(b: Ball) -> bool {
    &&& 0 <= b.radius <= ARENA_HEIGHT
    &&& b.radius <= ARENA_WIDTH
    &&& fx_ok(b.velocity.x as int)
    &&& fx_ok(b.velocity.y as int)
}

/// A ball the whole tick accepts: sound, with bounded coordinates.
pub open spec fn ball_wf(b: Ball) -> bool {
    &&& ball_sound(b)
    &&& vec2_bounded(b.position)
}

/// A paddle the movement and collision rules accept.
pub open spec fn paddle_wf(p: Paddle) -> bool {
    &&& 0 <= p.width <= ARENA_WIDTH
    &&& 0 <= p.height <= ARENA_HEIGHT
    &&& vec2_bounded(p.position)
}

/// A countdown small enough that subtracting a tick from it cannot overflow.
pub open spec fn spawn_wf(s: SpawnState) -> bool {
    match s {
        SpawnState::WaitingToSpawn { remaining } => fx_ok(remaining as int),
        SpawnState::Active => true,
    }
}

impl Paddle {
    /// A paddle of the default size, centered vertically and resting
    /// against its own side of the arena.
    pub fn new(side: Side) -> (p: Paddle)
        ensures
            p.side == side,
            p.width == PADDLE_WIDTH,
            p.height == PADDLE_HEIGHT,
            p.position.y == ARENA_MID_Y,
            p.position.x == if side == Side::Left {
                PADDLE_HALF_WIDTH as int
            } else {
                ARENA_WIDTH - PADDLE_HALF_WIDTH
            },
    {
        let x: i64 = match side {
            Side::Left => PADDLE_HALF_WIDTH,
            Side::Right => ARENA_WIDTH - PADDLE_HALF_WIDTH,
        };
        Paddle {
            side,
            width: PADDLE_WIDTH,
            height: PADDLE_HEIGHT,
            position: Vec2 { x, y: ARENA_MID_Y },
        }
    }
}

/// The ball every spawn produces: at the arena center, moving toward the
/// right paddle and upward at the configured break speeds.
pub open spec fn initial_ball() -> Ball {
    Ball {
        position: Vec2 { x: ARENA_MID_X, y: ARENA_MID_Y },
        velocity: Vec2 { x: BALL_VELOCITY_X, y: BALL_VELOCITY_Y },
        radius: BALL_RADIUS,
    }
}

/// Builds the ball a spawn puts in the middle of the arena.
pub fn initialize_ball() -> (b: Ball)
    ensures
        b == initial_ball(),
        ball_wf(b),
{
    Ball {
        position: Vec2 { x: ARENA_MID_X, y: ARENA_MID_Y },
        velocity: Vec2 { x: BALL_VELOCITY_X, y: BALL_VELOCITY_Y },
        radius: BALL_RADIUS,
    }
}

/// Builds the two paddles of a fresh match, left then right.
pub fn initialize_paddles() -> (ps: (Paddle, Paddle))
    ensures
        ps.0 == (Paddle {
            side: Side::Left,
            width: PADDLE_WIDTH,
            height: PADDLE_HEIGHT,
            position: Vec2 { x: PADDLE_HALF_WIDTH, y: ARENA_MID_Y },
        }),
        ps.1 == (Paddle {
            side: Side::Right,
            width: PADDLE_WIDTH,
            height: PADDLE_HEIGHT,
            position: Vec2 { x: (ARENA_WIDTH - PADDLE_HALF_WIDTH) as i64, y: ARENA_MID_Y },
        }),
        paddle_wf(ps.0) && paddle_wf(ps.1),
{
    (Paddle::new(Side::Left), Paddle::new(Side::Right))
}

/// The whole state of a match: the two paddles, the live balls, the score
/// board and the spawn state machine.
pub struct Pong {
    pub left_paddle: Paddle,
    pub right_paddle: Paddle,
    pub balls: Vec<Ball>,
    pub scores: ScoreBoard,
    pub spawn: SpawnState,
}

/// The mathematical image of a match state.
#[verifier::ext_equal]
pub struct PongView {
    pub left_paddle: Paddle,
    pub right_paddle: Paddle,
    pub balls: Seq<Ball>,
    pub scores: ScoreBoard,
    pub spawn: SpawnState,
}

impl View for Pong {
    type V = PongView;

    open spec fn view(&self) -> PongView {
        PongView {
            left_paddle: self.left_paddle,
            right_paddle: self.right_paddle,
            balls: self.balls@,
            scores: self.scores,
            spawn: self.spawn,
        }
    }
}

/// A match state every part of the tick accepts.
pub open spec fn pong_wf(v: PongView) -> bool {
    &&& paddle_wf(v.left_paddle)
    &&& paddle_wf(v.right_paddle)
    &&& spawn_wf(v.spawn)
    &&& forall|i: int| 0 <= i < v.balls.len() ==> ball_wf(#[trigger] v.balls[i])
}

/// The state a fresh match starts in: both paddles centered against their
/// sides, no ball yet, a zeroed score board, and the respawn countdown at
/// its full delay.
pub open spec fn initial_pong() -> PongView {
    PongView {
        left_paddle: Paddle {
            side: Side::Left,
            width: PADDLE_WIDTH,
            height: PADDLE_HEIGHT,
            position: Vec2 { x: PADDLE_HALF_WIDTH, y: ARENA_MID_Y },
        },
        right_paddle: Paddle {
            side: Side::Right,
            width: PADDLE_WIDTH,
            height: PADDLE_HEIGHT,
            position: Vec2 { x: (ARENA_WIDTH - PADDLE_HALF_WIDTH) as i64, y: ARENA_MID_Y },
        },
        balls: Seq::empty(),
        scores: ScoreBoard { score_left: 0, score_right: 0 },
        spawn: SpawnState::WaitingToSpawn { remaining: SPAWN_DELAY },
    }
}

/// The match state after one whole tick: paddles move first, then the
/// balls advance (or the countdown runs), then collisions reflect against
/// the already-moved paddles and positions, and the scoring judge runs
/// last — all against the one `dt` of the tick.
pub open spec fn tick_transition(pre: PongView, left_axis: int, right_axis: int, dt: int)
    -> PongView {
    let lp = paddle_moved(pre.left_paddle, left_axis, dt);
    let rp = paddle_moved(pre.right_paddle, right_axis, dt);
    let moved = move_step(pre.balls, pre.spawn, dt);
    let bounced = moved.map_values(|b: Ball| bounce_ball(b, lp, rp));
    PongView {
        left_paddle: lp,
        right_paddle: rp,
        balls: bounced.map_values(|b: Ball| judged_ball(b)),
        scores: ScoreBoard {
            score_left: (pre.scores.score_left + count_left(bounced)) as u32,
            score_right: right_score_after(pre.scores.score_right as int, count_right(bounced))
                as u32,
        },
        spawn: spawn_step(pre.spawn, dt),
    }
}

/// How many bounce cues one whole tick emits.
pub open spec fn tick_bounce_cues(pre: PongView, left_axis: int, right_axis: int, dt: int)
    -> nat {
    total_bounces(
        move_step(pre.balls, pre.spawn, dt),
        paddle_moved(pre.left_paddle, left_axis, dt),
        paddle_moved(pre.right_paddle, right_axis, dt),
    )
}

/// How many score cues one whole tick emits.
pub open spec fn tick_score_cues(pre: PongView, left_axis: int, right_axis: int, dt: int)
    -> nat {
    let bounced = move_step(pre.balls, pre.spawn, dt).map_values(
        |b: Ball| bounce_ball(
            b,
            paddle_moved(pre.left_paddle, left_axis, dt),
            paddle_moved(pre.right_paddle, right_axis, dt),
        ),
    );
    count_right(bounced) + count_left(bounced)
}

/// The audio cues one tick asks for: fire-and-forget, loss-tolerant.
#[derive(Clone, Copy, PartialEq, Eq, Structural, Debug)]
pub struct TickEvents {
    pub bounces: u64,
    pub scores: u64,
}

impl Pong {
    /// A fresh match, about to count down to its first ball.
    pub fn new() -> (p: Pong)
        ensures
            p@ == initial_pong(),
            pong_wf(p@),
    {
        let (lp, rp) = initialize_paddles();
        let p = Pong {
            left_paddle: lp,
            right_paddle: rp,
            balls: Vec::new(),
            scores: ScoreBoard { score_left: 0, score_right: 0 },
            spawn: SpawnState::WaitingToSpawn { remaining: SPAWN_DELAY },
        };
        proof {
            assert(p@ =~= initial_pong());
        }
        p
    }

    /// One whole simulation tick, in the fixed order paddle movement, ball
    /// integration, collision response, scoring — each part consuming the
    /// state the previous one left and the one `dt` of the tick.
    /// Out-of-range axis values and a negative `dt` are clamped silently.
    pub fn tick(&mut self, left_axis: i64, right_axis: i64, dt: i64) -> (cues: TickEvents)
        requires
            pong_wf(old(self)@),
            dt <= FX_LIMIT,
            old(self)@.scores.score_left + old(self)@.balls.len() + 1 <= u32::MAX,
            3 * (old(self)@.balls.len() + 1) <= u64::MAX,
        ensures
            final(self)@ == tick_transition(old(self)@, left_axis as int, right_axis as int,
                dt as int),
            cues.bounces == tick_bounce_cues(old(self)@, left_axis as int, right_axis as int,
                dt as int),
            cues.scores == tick_score_cues(old(self)@, left_axis as int, right_axis as int,
                dt as int),
    {
        PaddleSystem::run(&mut self.left_paddle, left_axis, dt);
        PaddleSystem::run(&mut self.right_paddle, right_axis, dt);
        MoveBallsSystem::run(&mut self.balls, &mut self.spawn, dt);
        let ghost lp = self.left_paddle;
        let ghost rp = self.right_paddle;
        let ghost moved = self.balls@;
        let bounces: u64 = BounceSystem::run(&mut self.balls, &self.left_paddle,
            &self.right_paddle);
        let ghost bounced = self.balls@;
        proof {
            assert(bounced =~= moved.map_values(|b: Ball| bounce_ball(b, lp, rp)));
        }
        let score_cues: u64 = WinnerSystem::run(&mut self.balls, &mut self.scores);
        proof {
            assert(self.balls@ =~= bounced.map_values(|b: Ball| judged_ball(b)));
            assert(self@ =~= tick_transition(old(self)@, left_axis as int, right_axis as int,
                dt as int));
        }
        TickEvents { bounces, scores: score_cues }
    }
}

/// The free-flight law: a ball that touches no wall, no paddle and
/// neither end of the arena passes through the collision pass and the
/// scoring judge unchanged — between contacts, a tick is nothing but
/// straight-line integration of the ball.
pub proof fn lemma_free_flight(b: Ball, l: Paddle, r: Paddle)
    requires
        !wall_hit(b),
        !paddle_hit(l, b),
        !paddle_hit(r, b),
        !scores_right(b),
        !scores_left(b),
    ensures
        bounce_ball(b, l, r) == b,
        judged_ball(b) == b,
{
}

} // verus!
