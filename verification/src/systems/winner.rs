//! Scoring: a ball reaching either end of the arena scores for the other
//! side, is reset to the horizontal midpoint, and emits a score cue.

use vstd::prelude::*;
use crate::pong::{ARENA_WIDTH, ARENA_MID_X, Ball, Vec2, ScoreBoard, ball_sound};

verus! {

/// Judges every ball against the two end walls and keeps the score board.
pub struct WinnerSystem;

/// The ball has crossed the left end: the right side scores.
pub open spec fn scores_right(b: Ball) -> bool {
    b.position.x <= b.radius
}

/// The ball has crossed the right end: the left side scores. The two end
/// conditions are checked in this order, so a ball can score on one side
/// only per tick.
pub open spec fn scores_left(b: Ball) -> bool {
    !scores_right(b) && b.position.x >= ARENA_WIDTH - b.radius
}

/// The ball after the scoring check: on a score its horizontal position
/// goes back to the arena midpoint and its horizontal velocity flips;
/// vertical position and velocity and the radius are left untouched.
pub open spec fn judged_ball(b: Ball) -> Ball {
    if scores_right(b) || scores_left(b) {
        Ball {
            position: Vec2 { x: ARENA_MID_X, y: b.position.y },
            velocity: Vec2 { x: (-b.velocity.x) as i64, y: b.velocity.y },
            radius: b.radius,
        }
    } else {
        b
    }
}

/// How many balls of the sequence score for the right side this tick.
pub open spec fn count_right(balls: Seq<Ball>) -> nat
    decreases balls.len(),
{
    if balls.len() == 0 {
        0
    } else {
        count_right(balls.drop_last()) + (if scores_right(balls.last()) { 1 as nat } else { 0 as nat })
    }
}

/// How many balls of the sequence score for the left side this tick.
pub open spec fn count_left(balls: Seq<Ball>) -> nat
    decreases balls.len(),
{
    if balls.len() == 0 {
        0
    } else {
        count_left(balls.drop_last()) + (if scores_left(balls.last()) { 1 as nat } else { 0 as nat })
    }
}

/// One right-side score: up by one, capped at 999. The cap is a
/// deliberate safeguard on the counter, not a gameplay rule.
pub open spec fn capped_inc(s: int) -> int {
    if s >= 999 {
        999
    } else {
        s + 1
    }
}

/// The right score after `n` of its balls scored, each increment capped.
pub open spec fn right_score_after(s: int, n: nat) -> int
    decreases n,
{
    if n == 0 {
        s
    } else {
        capped_inc(right_score_after(s, (n - 1) as nat))
    }
}

pub proof fn lemma_count_bounds(balls: Seq<Ball>)
    ensures
        count_right(balls) + count_left(balls) <= balls.len(),
    decreases balls.len(),
{
    if balls.len() > 0 {
        lemma_count_bounds(balls.drop_last());
    }
}

pub proof fn lemma_count_take_step(balls: Seq<Ball>, i: int)
    requires
        0 <= i < balls.len(),
    ensures
        count_right(balls.take(i + 1))
            == count_right(balls.take(i)) + (if scores_right(balls[i]) { 1 as nat } else { 0 as nat }),
        count_left(balls.take(i + 1))
            == count_left(balls.take(i)) + (if scores_left(balls[i]) { 1 as nat } else { 0 as nat }),
{
    assert(balls.take(i + 1).drop_last() =~= balls.take(i));
    assert(balls.take(i + 1).last() == balls[i]);
}

impl WinnerSystem {
    /// One scoring pass over every ball. Scored balls are reset in place;
    /// the right counter is capped at 999 on each increment while the left
    /// counter is not — a deliberate asymmetry of the scoring rules.
    /// Returns how many score cues to emit; the caller shows
    /// `scores.score_left` and `scores.score_right` as plain decimal text.
    pub fn run(balls: &mut Vec<Ball>, scores: &mut ScoreBoard) -> (cues: u64)
        requires
            forall|i: int| 0 <= i < old(balls)@.len() ==> ball_sound(#[trigger] old(balls)@[i]),
            old(scores).score_left + old(balls)@.len() <= u32::MAX,
            old(balls)@.len() <= u64::MAX,
        ensures
            final(balls)@.len() == old(balls)@.len(),
            forall|i: int| 0 <= i < old(balls)@.len()
                ==> final(balls)@[i] == judged_ball(#[trigger] old(balls)@[i]),
            forall|i: int| 0 <= i < old(balls)@.len() ==> ball_sound(#[trigger] final(balls)@[i]),
            final(scores).score_right
                == right_score_after(old(scores).score_right as int, count_right(old(balls)@)),
            final(scores).score_left
                == old(scores).score_left + count_left(old(balls)@),
            cues == count_right(old(balls)@) + count_left(old(balls)@),
    {
        let ghost balls0 = balls@;
        let ghost scores0 = *scores;
        let mut cues: u64 = 0;
        let mut i: usize = 0;
        while i < balls.len()
            invariant
                i <= balls@.len(),
                balls@.len() == balls0.len(),
                balls0.len() <= u64::MAX,
                scores0.score_left + balls0.len() <= u32::MAX,
                forall|j: int| 0 <= j < balls0.len() ==> ball_sound(#[trigger] balls0[j]),
                forall|j: int| i <= j < balls0.len() ==> balls@[j] == balls0[j],
                forall|j: int| 0 <= j < i ==> balls@[j] == judged_ball(#[trigger] balls0[j]),
                forall|j: int| 0 <= j < i ==> ball_sound(#[trigger] balls@[j]),
                scores.score_right
                    == right_score_after(scores0.score_right as int, count_right(balls0.take(i as int))),
                scores.score_left
                    == scores0.score_left + count_left(balls0.take(i as int)),
                cues == count_right(balls0.take(i as int)) + count_left(balls0.take(i as int)),
            decreases balls@.len() - i,
        {
            let b: Ball = balls[i];
            proof {
                assert(balls@[i as int] == balls0[i as int]);
                assert(ball_sound(balls0[i as int]));
                lemma_count_bounds(balls0.take(i as int));
                lemma_count_take_step(balls0, i as int);
            }
            let did_hit: bool = if b.position.x <= b.radius {
                scores.score_right = if scores.score_right >= 999 {
                    999
                } else {
                    scores.score_right + 1
                };
                true
            } else if b.position.x >= ARENA_WIDTH - b.radius {
                scores.score_left = scores.score_left + 1;
                true
            } else {
                false
            };
            if did_hit {
                balls[i] = Ball {
                    position: Vec2 { x: ARENA_MID_X, y: b.position.y },
                    velocity: Vec2 { x: -b.velocity.x, y: b.velocity.y },
                    radius: b.radius,
                };
                cues = cues + 1;
            }
            i = i + 1;
        }
        proof {
            assert(balls0.take(balls0.len() as int) =~= balls0);
        }
        cues
    }
}

/// The scoring-reset law: a ball that crossed the left end is put back at
/// the arena's horizontal midpoint with its horizontal velocity flipped,
/// its vertical position, vertical velocity and radius untouched, and it
/// counts exactly one right-side score and no left-side score; the
/// counter itself goes up by exactly one unless it already stands at 999,
/// where it stays.
pub proof fn lemma_scoring_reset(b: Ball, s: int)
    requires
        ball_sound(b),
        scores_right(b),
        0 <= s,
    ensures
        judged_ball(b).position.x == ARENA_MID_X,
        judged_ball(b).velocity.x == -b.velocity.x,
        judged_ball(b).position.y == b.position.y,
        judged_ball(b).velocity.y == b.velocity.y,
        judged_ball(b).radius == b.radius,
        count_right(seq![b]) == 1,
        count_left(seq![b]) == 0,
        right_score_after(s, count_right(seq![b])) == if s >= 999 { 999 as int } else { s + 1 },
{
    let s1 = seq![b];
    assert(s1.drop_last() =~= Seq::<Ball>::empty());
    assert(count_right(s1.drop_last()) == 0);
    assert(count_left(s1.drop_last()) == 0);
    assert(s1.last() == b);
    assert(count_right(s1) == 1);
    assert(count_left(s1) == 0);
    assert(right_score_after(s, 0) == s);
    assert(right_score_after(s, 1) == capped_inc(s));
}

/// The cap-asymmetry law, right half: starting at or under 999, no number
/// of capped increments drives the right score above 999. (The left
/// counter has no cap: `WinnerSystem::run` adds every left score in full.)
pub proof fn lemma_score_cap(s: int, n: nat)
    requires
        s <= 999,
    ensures
        right_score_after(s, n) <= 999,
    decreases n,
{
    if n > 0 {
        lemma_score_cap(s, (n - 1) as nat);
    }
}

} // verus!
