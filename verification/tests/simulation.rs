// Scenario tests for the simulation core. All coordinates are fixed-point
// counts: one arena unit (and one second) is 600 counts.

use pong::fixed::{clamp_i64, fx_mul_i64, half_i64, SCALE};
use pong::pong::{
    Ball, Paddle, Pong, ScoreBoard, Side, SpawnState, Vec2, ARENA_MID_X, ARENA_MID_Y,
    BALL_RADIUS, BALL_VELOCITY_X, BALL_VELOCITY_Y, PADDLE_HEIGHT, PADDLE_WIDTH, SPAWN_DELAY,
};
use pong::systems::bounce::BounceSystem;
use pong::systems::move_balls::MoveBallsSystem;
use pong::systems::paddle::PaddleSystem;
use pong::systems::winner::WinnerSystem;

fn ball_at(x: i64, y: i64, vx: i64, vy: i64) -> Ball {
    Ball {
        position: Vec2 { x, y },
        velocity: Vec2 { x: vx, y: vy },
        radius: BALL_RADIUS,
    }
}

#[test]
fn fixed_point_products() {
    assert_eq!(fx_mul_i64(42_000, 10), 700); // 70 units/s over 1/60 s
    assert_eq!(fx_mul_i64(45_000, 18_000), 1_350_000); // 75 units/s over 30 s
    assert_eq!(fx_mul_i64(0, 1_000_000), 0);
    // rounding is toward zero on both signs
    assert_eq!(fx_mul_i64(-100, 7), -1);
    assert_eq!(fx_mul_i64(100, 7), 1);
}

#[test]
fn fixed_point_helpers() {
    assert_eq!(half_i64(PADDLE_HEIGHT), 4_800);
    assert_eq!(clamp_i64(7, 0, 5), 5);
    assert_eq!(clamp_i64(-7, 0, 5), 0);
    assert_eq!(clamp_i64(3, 0, 5), 3);
}

#[test]
fn paddle_moves_with_the_axis() {
    let mut p = Paddle::new(Side::Left);
    // full axis up for 1/6 s at 72 units/s: 12 units = 7200 counts
    PaddleSystem::run(&mut p, SCALE, 100);
    assert_eq!(p.position.y, ARENA_MID_Y + 7_200);
    // the horizontal position and the size never move
    assert_eq!(p.position.x, PADDLE_WIDTH / 2);
    assert_eq!(p.height, PADDLE_HEIGHT);
}

#[test]
fn paddle_axis_is_clamped() {
    let mut fast = Paddle::new(Side::Left);
    let mut full = Paddle::new(Side::Left);
    // an axis of 2.0 moves no faster than an axis of 1.0
    PaddleSystem::run(&mut fast, 2 * SCALE, 100);
    PaddleSystem::run(&mut full, SCALE, 100);
    assert_eq!(fast.position.y, full.position.y);
}

#[test]
fn paddle_stays_inside_the_arena() {
    let mut p = Paddle::new(Side::Right);
    // a full second of full axis overshoots the top: clamped to H - h/2
    PaddleSystem::run(&mut p, SCALE, SCALE);
    assert_eq!(p.position.y, 60_000 - 4_800);
    // a full second down moves freely, the next one hits the floor clamp
    PaddleSystem::run(&mut p, -SCALE, SCALE);
    assert_eq!(p.position.y, 12_000);
    PaddleSystem::run(&mut p, -SCALE, SCALE);
    assert_eq!(p.position.y, 4_800);
    // negative dt is ignored, not integrated backwards
    PaddleSystem::run(&mut p, SCALE, -600);
    assert_eq!(p.position.y, 4_800);
}

#[test]
fn wall_reflection_fires_once_per_approach() {
    let left = Paddle::new(Side::Left);
    let right = Paddle::new(Side::Right);
    // resting exactly at y = radius, still moving downward
    let mut balls = vec![ball_at(30_000, BALL_RADIUS, 100, -500)];
    let cues = BounceSystem::run(&mut balls, &left, &right);
    assert_eq!(cues, 1);
    assert_eq!(balls[0].velocity.y, 500);
    // a second pass on the same position must not reflect again
    let cues = BounceSystem::run(&mut balls, &left, &right);
    assert_eq!(cues, 0);
    assert_eq!(balls[0].velocity.y, 500);
    assert_eq!(balls[0].velocity.x, 100);
}

#[test]
fn paddle_reflection_geometry() {
    let left = Paddle::new(Side::Left);
    let right = Paddle::new(Side::Right);
    assert_eq!(left.position, Vec2 { x: 1_200, y: 30_000 }); // (2, 50)
    // ball at (4, 50) moving left: inside the expanded rectangle, reflects
    let mut balls = vec![ball_at(2_400, 30_000, -45_000, 0)];
    let cues = BounceSystem::run(&mut balls, &left, &right);
    assert_eq!(cues, 1);
    assert_eq!(balls[0].velocity.x, 45_000);
    // ball at (10, 50) moving left: outside the rectangle, goes through
    let mut balls = vec![ball_at(6_000, 30_000, -45_000, 0)];
    let cues = BounceSystem::run(&mut balls, &left, &right);
    assert_eq!(cues, 0);
    assert_eq!(balls[0].velocity.x, -45_000);
}

#[test]
fn paddle_reflection_needs_matching_direction() {
    let left = Paddle::new(Side::Left);
    let right = Paddle::new(Side::Right);
    // in the left paddle's zone but already moving right: no reflection
    let mut balls = vec![ball_at(2_400, 30_000, 45_000, 0)];
    let cues = BounceSystem::run(&mut balls, &left, &right);
    assert_eq!(cues, 0);
    assert_eq!(balls[0].velocity.x, 45_000);
}

#[test]
fn wall_and_paddle_reflect_in_the_same_tick() {
    // a paddle lowered to the floor: the ball meets its corner and the
    // wall at once, and both axes flip independently
    let left = Paddle {
        side: Side::Left,
        width: PADDLE_WIDTH,
        height: PADDLE_HEIGHT,
        position: Vec2 { x: 1_200, y: 2_400 },
    };
    let right = Paddle::new(Side::Right);
    let mut balls = vec![ball_at(2_000, 1_000, -300, -600)];
    let cues = BounceSystem::run(&mut balls, &left, &right);
    assert_eq!(cues, 2);
    assert_eq!(balls[0].velocity, Vec2 { x: 300, y: 600 });
    assert_eq!(balls[0].position, Vec2 { x: 2_000, y: 1_000 }); // never corrected
}

#[test]
fn scoring_resets_the_ball() {
    let mut scores = ScoreBoard { score_left: 7, score_right: 41 };
    let mut balls = vec![ball_at(1_000, 7_777, -45_000, 30_000)];
    let cues = WinnerSystem::run(&mut balls, &mut scores);
    assert_eq!(cues, 1);
    assert_eq!(scores.score_right, 42);
    assert_eq!(scores.score_left, 7);
    assert_eq!(balls[0].position, Vec2 { x: ARENA_MID_X, y: 7_777 });
    assert_eq!(balls[0].velocity, Vec2 { x: 45_000, y: 30_000 });
    assert_eq!(balls[0].radius, BALL_RADIUS);
}

#[test]
fn right_score_is_capped_at_999() {
    let mut scores = ScoreBoard { score_left: 0, score_right: 999 };
    let mut balls = vec![ball_at(1_000, 30_000, -45_000, 0)];
    let cues = WinnerSystem::run(&mut balls, &mut scores);
    assert_eq!(cues, 1);
    assert_eq!(scores.score_right, 999); // stays at the cap
    assert_eq!(balls[0].position.x, ARENA_MID_X); // the ball still resets
}

#[test]
fn cap_asymmetry_under_repeated_scoring() {
    let mut scores = ScoreBoard { score_left: 0, score_right: 0 };
    for _ in 0..1_005 {
        let mut balls = vec![ball_at(1_000, 30_000, -45_000, 0)];
        WinnerSystem::run(&mut balls, &mut scores);
    }
    assert_eq!(scores.score_right, 999); // capped
    for _ in 0..1_005 {
        let mut balls = vec![ball_at(59_000, 30_000, 45_000, 0)];
        WinnerSystem::run(&mut balls, &mut scores);
    }
    assert_eq!(scores.score_left, 1_005); // uncapped
}

#[test]
fn ball_in_the_middle_scores_nowhere() {
    let mut scores = ScoreBoard { score_left: 3, score_right: 4 };
    let mut balls = vec![ball_at(30_000, 30_000, 45_000, 0)];
    let cues = WinnerSystem::run(&mut balls, &mut scores);
    assert_eq!(cues, 0);
    assert_eq!(scores, ScoreBoard { score_left: 3, score_right: 4 });
    assert_eq!(balls[0], ball_at(30_000, 30_000, 45_000, 0));
}

#[test]
fn respawn_delay_spawns_exactly_one_ball() {
    // a 1.0 s timer, dt = 0.3 s four times: the ball appears on the 4th
    // tick, when the elapsed time first exceeds the delay
    let mut balls: Vec<Ball> = Vec::new();
    let mut spawn = SpawnState::WaitingToSpawn { remaining: SPAWN_DELAY };
    let dt = 180; // 0.3 s
    for _ in 0..3 {
        MoveBallsSystem::run(&mut balls, &mut spawn, dt);
        assert_eq!(balls.len(), 0);
    }
    MoveBallsSystem::run(&mut balls, &mut spawn, dt);
    assert_eq!(balls.len(), 1);
    assert_eq!(spawn, SpawnState::Active);
    assert_eq!(balls[0].position, Vec2 { x: ARENA_MID_X, y: ARENA_MID_Y });
    assert_eq!(balls[0].velocity, Vec2 { x: BALL_VELOCITY_X, y: BALL_VELOCITY_Y });
    // and no second ball on later ticks
    MoveBallsSystem::run(&mut balls, &mut spawn, dt);
    assert_eq!(balls.len(), 1);
}

#[test]
fn zero_dt_moves_nothing() {
    let mut balls = vec![ball_at(30_000, 30_000, 42_000, 30_000)];
    let mut spawn = SpawnState::Active;
    MoveBallsSystem::run(&mut balls, &mut spawn, 0);
    assert_eq!(balls[0], ball_at(30_000, 30_000, 42_000, 30_000));
}

#[test]
fn new_match_starts_centered_and_counting_down() {
    let p = Pong::new();
    assert_eq!(p.left_paddle.side, Side::Left);
    assert_eq!(p.left_paddle.position, Vec2 { x: 1_200, y: 30_000 });
    assert_eq!(p.right_paddle.side, Side::Right);
    assert_eq!(p.right_paddle.position, Vec2 { x: 58_800, y: 30_000 });
    assert_eq!(p.balls.len(), 0);
    assert_eq!(p.scores, ScoreBoard { score_left: 0, score_right: 0 });
    assert_eq!(p.spawn, SpawnState::WaitingToSpawn { remaining: SPAWN_DELAY });
}

#[test]
fn straight_line_flight_until_the_first_contact() {
    // arena 100x100, one ball at (50, 50) with velocity (70, 50), paddles
    // at x = 2 and x = 98, dt = 1/60 s: straight-line integration holds
    // until the ball crosses the right end on tick 42, where it resets
    // with its horizontal velocity flipped
    let mut p = Pong::new();
    p.spawn = SpawnState::Active;
    p.balls.push(ball_at(30_000, 30_000, 42_000, 30_000));
    let dt = 10; // 1/60 s: 700 counts of x and 500 counts of y per tick
    for n in 1i64..=41 {
        let cues = p.tick(0, 0, dt);
        assert_eq!(cues.bounces, 0);
        assert_eq!(cues.scores, 0);
        assert_eq!(p.balls[0].position, Vec2 { x: 30_000 + 700 * n, y: 30_000 + 500 * n });
        assert_eq!(p.balls[0].velocity, Vec2 { x: 42_000, y: 30_000 });
    }
    let cues = p.tick(0, 0, dt);
    assert_eq!(cues.bounces, 0);
    assert_eq!(cues.scores, 1);
    assert_eq!(p.scores, ScoreBoard { score_left: 1, score_right: 0 });
    assert_eq!(p.balls[0].position, Vec2 { x: ARENA_MID_X, y: 30_000 + 500 * 42 });
    assert_eq!(p.balls[0].velocity, Vec2 { x: -42_000, y: 30_000 });
}

#[test]
fn full_tick_spawns_after_the_countdown() {
    let mut p = Pong::new();
    // 0.5 s, then 0.6 s: the second tick crosses the 1.0 s delay
    let cues = p.tick(0, 0, 300);
    assert_eq!(cues.bounces + cues.scores, 0);
    assert_eq!(p.balls.len(), 0);
    p.tick(0, 0, 360);
    assert_eq!(p.balls.len(), 1);
    assert_eq!(p.spawn, SpawnState::Active);
}
