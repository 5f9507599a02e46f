//! The food system: spawning at a random margin-respecting position,
//! proximity and consumption resolution, and the food blink animation.

use vstd::prelude::*;
use rand::Rng;

verus! {

use crate::constants::{
    COORD_LIMIT, COORD_MIN, FOOD_EAT_RANGE, FOOD_FRAME_INTERVAL_MS, FOOD_PROXIMITY_RANGE,
    FOOD_SCORE_INCREMENT, FOOD_SPAWN_MARGIN, LOWER_BOUND_X, LOWER_BOUND_Y, SNAKE_BODY_HEIGHT,
    SNAKE_BODY_WIDTH, UPPER_BOUND_X, UPPER_BOUND_Y,
};
use crate::structs::{
    clamp_coord_spec, coord_add, Direction, elapsed_ms, elapsed_since, Food, GameModel, GameState,
    SnakeModel, state_wf, Vector2D,
};

/// Relies on `rand::Rng::random_range` over a `Range<i64>`: the result is
/// uniform in `[lo, hi)`. It panics only on an empty range, which the
/// precondition excludes; nothing more than the bounds is assumed of it.
/// (`rand::rng()` itself can abort if the operating system's entropy
/// source fails at first use — an environment failure of the same kind as
/// running out of memory, not dependent on any input.)
#[verifier::external_body]
fn random_in_range(lo: i64, hi: i64) -> (r: i64)
    requires
        lo < hi,
    ensures
        lo <= r < hi,
{
    rand::rng().random_range(lo..hi)
}

/// True when a spawn position respects the margin from the world bounds on
/// both axes.
pub open spec fn spawn_range_ok(fx: i64, fy: i64) -> bool {
    &&& LOWER_BOUND_X + FOOD_SPAWN_MARGIN <= fx < UPPER_BOUND_X - FOOD_SPAWN_MARGIN
    &&& LOWER_BOUND_Y + FOOD_SPAWN_MARGIN <= fy < UPPER_BOUND_Y - FOOD_SPAWN_MARGIN
}

/// The gameplay state after a spawn at a given position: a fresh active
/// food item with its animation state reset.
pub open spec fn spawn_food_spec(m: GameModel, now: u64, fx: i64, fy: i64) -> GameModel {
    if m.food.is_active {
        m
    } else {
        GameModel {
            food: Food {
                position: Vector2D { x: fx, y: fy },
                is_active: true,
                sprite_frame_index: 0,
                last_sprite_frame_index_update_time: now,
            },
            ..m
        }
    }
}

/// Spawns the food at a uniformly random margin-respecting position when no
/// food is active.
pub struct SpawnFood;

impl SpawnFood {
    /// A no-op while food is active; otherwise activates the food at a
    /// random in-bounds position. The position is the one thing chance
    /// decides: everything else of the result is pinned for every outcome.
    pub fn execute(&self, game_state: &mut GameState, now: u64)
        requires
            state_wf(old(game_state)@),
        ensures
            exists|fx: i64, fy: i64|
                spawn_range_ok(fx, fy) && final(game_state)@ == spawn_food_spec(
                    old(game_state)@,
                    now,
                    fx,
                    fy,
                ),
            state_wf(final(game_state)@),
            old(game_state)@.food.is_active ==> final(game_state)@ == old(game_state)@,
            final(game_state).sprites == old(game_state).sprites,
            final(game_state).window_buffer == old(game_state).window_buffer,
            final(game_state).window_width == old(game_state).window_width,
            final(game_state).window_height == old(game_state).window_height,
    {
        if game_state.food.is_active {
            proof {
                let fx: i64 = (LOWER_BOUND_X + FOOD_SPAWN_MARGIN) as i64;
                let fy: i64 = (LOWER_BOUND_Y + FOOD_SPAWN_MARGIN) as i64;
                assert(spawn_range_ok(fx, fy) && game_state@ == spawn_food_spec(
                    old(game_state)@,
                    now,
                    fx,
                    fy,
                ));
            }
            return ;
        }
        let fx = random_in_range(LOWER_BOUND_X + FOOD_SPAWN_MARGIN, UPPER_BOUND_X
            - FOOD_SPAWN_MARGIN);
        let fy = random_in_range(LOWER_BOUND_Y + FOOD_SPAWN_MARGIN, UPPER_BOUND_Y
            - FOOD_SPAWN_MARGIN);
        game_state.food = Food {
            position: Vector2D { x: fx, y: fy },
            is_active: true,
            sprite_frame_index: 0,
            last_sprite_frame_index_update_time: now,
        };
        proof {
            assert(spawn_range_ok(fx, fy) && game_state@ =~= spawn_food_spec(
                old(game_state)@,
                now,
                fx,
                fy,
            ));
        }
    }
}

/// The score after one food item, saturating at the counter's ceiling.
pub open spec fn add_score(score: u32) -> u32 {
    if score <= u32::MAX - FOOD_SCORE_INCREMENT {
        (score + FOOD_SCORE_INCREMENT) as u32
    } else {
        u32::MAX
    }
}

/// The new tail segment grown after a meal: one sprite dimension beyond the
/// current tail, opposite the direction of travel.
pub open spec fn grown_segment(tail: Vector2D, dir: Direction) -> Vector2D {
    match dir {
        Direction::Left => Vector2D { x: clamp_coord_spec(tail.x + SNAKE_BODY_WIDTH), y: tail.y },
        Direction::Right => Vector2D { x: clamp_coord_spec(tail.x - SNAKE_BODY_WIDTH), y: tail.y },
        Direction::Up => Vector2D { x: tail.x, y: clamp_coord_spec(tail.y + SNAKE_BODY_HEIGHT) },
        Direction::Down => Vector2D { x: tail.x, y: clamp_coord_spec(tail.y - SNAKE_BODY_HEIGHT) },
    }
}

/// Away from the coordinate clamp's edge — the tail at least one sprite
/// dimension inside the representable range, a machine limit no play
/// reaches — the grown segment is exactly one sprite dimension from the
/// tail, opposite the direction of travel.
pub proof fn lemma_grown_segment_exact(tail: Vector2D, dir: Direction)
    requires
        COORD_MIN + SNAKE_BODY_WIDTH <= tail.x <= COORD_LIMIT - SNAKE_BODY_WIDTH,
        COORD_MIN + SNAKE_BODY_HEIGHT <= tail.y <= COORD_LIMIT - SNAKE_BODY_HEIGHT,
    ensures
        grown_segment(tail, dir) == (match dir {
            Direction::Left => Vector2D { x: (tail.x + SNAKE_BODY_WIDTH) as i64, y: tail.y },
            Direction::Right => Vector2D { x: (tail.x - SNAKE_BODY_WIDTH) as i64, y: tail.y },
            Direction::Up => Vector2D { x: tail.x, y: (tail.y + SNAKE_BODY_HEIGHT) as i64 },
            Direction::Down => Vector2D { x: tail.x, y: (tail.y - SNAKE_BODY_HEIGHT) as i64 },
        }),
{
}

/// Axis distance between two fixed-point coordinates.
pub open spec fn axis_delta(a: i64, b: i64) -> int {
    if a >= b {
        a - b
    } else {
        b - a
    }
}

/// The gameplay state after the consumption pass. Within the wider
/// proximity threshold the cosmetic near-food flag is set; within the
/// tighter eaten threshold the food deactivates, the score grows by the
/// fixed increment, and a new tail segment is appended opposite the
/// direction of travel. Outside the proximity threshold the flag clears.
pub open spec fn food_eaten_spec(m: GameModel) -> GameModel {
    if !m.food.is_active {
        m
    } else {
        let head = m.player.body[0];
        let dx = axis_delta(head.x, m.food.position.x);
        let dy = axis_delta(head.y, m.food.position.y);
        if dx < FOOD_PROXIMITY_RANGE && dy < FOOD_PROXIMITY_RANGE {
            if dx < FOOD_EAT_RANGE && dy < FOOD_EAT_RANGE {
                GameModel {
                    player: SnakeModel {
                        proximity_to_food: true,
                        body: m.player.body.push(
                            grown_segment(m.player.body[m.player.body.len() - 1], m.player.direction),
                        ),
                        ..m.player
                    },
                    food: Food { is_active: false, ..m.food },
                    score: add_score(m.score),
                    ..m
                }
            } else {
                GameModel { player: SnakeModel { proximity_to_food: true, ..m.player }, ..m }
            }
        } else {
            GameModel { player: SnakeModel { proximity_to_food: false, ..m.player }, ..m }
        }
    }
}

/// Food growth, spelled out: when active food lies within the eaten
/// threshold of the head, the consumption pass grows the body by exactly
/// one segment — placed one sprite dimension beyond the prior tail,
/// opposite the direction of travel — raises the score by the fixed
/// increment, and deactivates the food.
pub proof fn lemma_food_growth(m: GameModel)
    requires
        m.player.body.len() >= 1,
        m.food.is_active,
        axis_delta(m.player.body[0].x, m.food.position.x) < FOOD_EAT_RANGE,
        axis_delta(m.player.body[0].y, m.food.position.y) < FOOD_EAT_RANGE,
    ensures
        food_eaten_spec(m).player.body.len() == m.player.body.len() + 1,
        m.score <= u32::MAX - FOOD_SCORE_INCREMENT ==> food_eaten_spec(m).score as int
            == m.score + FOOD_SCORE_INCREMENT,
        food_eaten_spec(m).player.body.last() == grown_segment(
            m.player.body.last(),
            m.player.direction,
        ),
        forall|i: int|
            0 <= i < m.player.body.len() ==> food_eaten_spec(m).player.body[i]
                == #[trigger] m.player.body[i],
        food_eaten_spec(m).score == add_score(m.score),
        !food_eaten_spec(m).food.is_active,
{
    assert(FOOD_EAT_RANGE < FOOD_PROXIMITY_RANGE);
}

/// Resolves head-to-food proximity and consumption.
pub struct CheckIfFoodWasEaten;

impl CheckIfFoodWasEaten {
    /// Sets the near-food flag within the proximity threshold; within the
    /// eaten threshold deactivates the food, raises the score by the fixed
    /// increment and grows the body by exactly one segment behind the tail.
    pub fn execute(&self, game_state: &mut GameState)
        requires
            state_wf(old(game_state)@),
        ensures
            final(game_state)@ == food_eaten_spec(old(game_state)@),
            state_wf(final(game_state)@),
            final(game_state).sprites == old(game_state).sprites,
            final(game_state).window_buffer == old(game_state).window_buffer,
            final(game_state).window_width == old(game_state).window_width,
            final(game_state).window_height == old(game_state).window_height,
    {
        if !game_state.food.is_active {
            proof {
                assert(game_state@ =~= food_eaten_spec(old(game_state)@));
            }
            return ;
        }
        let head = game_state.player.body[0];
        let food_position = game_state.food.position;
        let dx = if head.x >= food_position.x {
            head.x - food_position.x
        } else {
            food_position.x - head.x
        };
        let dy = if head.y >= food_position.y {
            head.y - food_position.y
        } else {
            food_position.y - head.y
        };
        if dx < FOOD_PROXIMITY_RANGE && dy < FOOD_PROXIMITY_RANGE {
            game_state.player.proximity_to_food = true;
            if dx < FOOD_EAT_RANGE && dy < FOOD_EAT_RANGE {
                game_state.food.is_active = false;
                if game_state.score <= u32::MAX - FOOD_SCORE_INCREMENT {
                    game_state.score = game_state.score + FOOD_SCORE_INCREMENT;
                } else {
                    game_state.score = u32::MAX;
                }
                let tail_position = game_state.player.body[game_state.player.body.len() - 1];
                let new_segment = match game_state.player.direction {
                    Direction::Left => Vector2D {
                        x: coord_add(tail_position.x, SNAKE_BODY_WIDTH),
                        y: tail_position.y,
                    },
                    Direction::Right => Vector2D {
                        x: coord_add(tail_position.x, -SNAKE_BODY_WIDTH),
                        y: tail_position.y,
                    },
                    Direction::Up => Vector2D {
                        x: tail_position.x,
                        y: coord_add(tail_position.y, SNAKE_BODY_HEIGHT),
                    },
                    Direction::Down => Vector2D {
                        x: tail_position.x,
                        y: coord_add(tail_position.y, -SNAKE_BODY_HEIGHT),
                    },
                };
                game_state.player.body.push(new_segment);
            }
        } else {
            game_state.player.proximity_to_food = false;
        }
        proof {
            assert(game_state@ =~= food_eaten_spec(old(game_state)@));
        }
    }
}

/// The gameplay state after the food blink pass: while active and past its
/// interval, the food frame flips between its two frames.
pub open spec fn food_frame_spec(m: GameModel, now: u64) -> GameModel {
    if !m.food.is_active {
        m
    } else if elapsed_ms(now, m.food.last_sprite_frame_index_update_time)
        >= FOOD_FRAME_INTERVAL_MS {
        GameModel {
            food: Food {
                sprite_frame_index: (1 - m.food.sprite_frame_index as int) as usize,
                last_sprite_frame_index_update_time: now,
                ..m.food
            },
            ..m
        }
    } else {
        m
    }
}

/// Alternates the food blink frame on its fixed interval.
pub struct AlternateBetweenFoodSpriteFrames;

impl AlternateBetweenFoodSpriteFrames {
    /// Flips the food frame between its two frames once the blink interval
    /// has elapsed, while the food is active.
    pub fn execute(&self, game_state: &mut GameState, now: u64)
        requires
            state_wf(old(game_state)@),
        ensures
            final(game_state)@ == food_frame_spec(old(game_state)@, now),
            state_wf(final(game_state)@),
            final(game_state).sprites == old(game_state).sprites,
            final(game_state).window_buffer == old(game_state).window_buffer,
            final(game_state).window_width == old(game_state).window_width,
            final(game_state).window_height == old(game_state).window_height,
    {
        if !game_state.food.is_active {
            proof {
                assert(game_state@ =~= food_frame_spec(old(game_state)@, now));
            }
            return ;
        }
        let elapsed = elapsed_since(now, game_state.food.last_sprite_frame_index_update_time);
        if elapsed >= FOOD_FRAME_INTERVAL_MS {
            game_state.food.sprite_frame_index = 1 - game_state.food.sprite_frame_index;
            game_state.food.last_sprite_frame_index_update_time = now;
        }
        proof {
            assert(game_state@ =~= food_frame_spec(old(game_state)@, now));
        }
    }
}

} // verus!
