//! Grid locomotion of the body chain: when the move accumulator reaches the
//! move interval, every trailing segment takes its predecessor's prior
//! position and the head advances one sprite dimension along the current
//! direction.

use vstd::prelude::*;

verus! {

use crate::constants::{COORD_LIMIT, COORD_MIN, SNAKE_BODY_HEIGHT, SNAKE_BODY_WIDTH};
use crate::structs::{
    clamp_coord_spec, coord_add, Direction, GameModel, GameState, SnakeModel, state_wf, Vector2D,
};

/// The head position advanced one sprite dimension along a direction.
pub open spec fn advanced_head(head: Vector2D, dir: Direction) -> Vector2D {
    match dir {
        Direction::Left => Vector2D { x: clamp_coord_spec(head.x - SNAKE_BODY_WIDTH), y: head.y },
        Direction::Right => Vector2D { x: clamp_coord_spec(head.x + SNAKE_BODY_WIDTH), y: head.y },
        Direction::Up => Vector2D { x: head.x, y: clamp_coord_spec(head.y - SNAKE_BODY_HEIGHT) },
        Direction::Down => Vector2D { x: head.x, y: clamp_coord_spec(head.y + SNAKE_BODY_HEIGHT) },
    }
}

/// Away from the coordinate clamp's edge — the head at least one sprite
/// dimension inside the representable range, a machine limit no play
/// reaches — the advanced head is exactly one sprite dimension along the
/// direction of travel.
pub proof fn lemma_advanced_head_exact(head: Vector2D, dir: Direction)
    requires
        COORD_MIN + SNAKE_BODY_WIDTH <= head.x <= COORD_LIMIT - SNAKE_BODY_WIDTH,
        COORD_MIN + SNAKE_BODY_HEIGHT <= head.y <= COORD_LIMIT - SNAKE_BODY_HEIGHT,
    ensures
        advanced_head(head, dir) == (match dir {
            Direction::Left => Vector2D { x: (head.x - SNAKE_BODY_WIDTH) as i64, y: head.y },
            Direction::Right => Vector2D { x: (head.x + SNAKE_BODY_WIDTH) as i64, y: head.y },
            Direction::Up => Vector2D { x: head.x, y: (head.y - SNAKE_BODY_HEIGHT) as i64 },
            Direction::Down => Vector2D { x: head.x, y: (head.y + SNAKE_BODY_HEIGHT) as i64 },
        }),
{
}

/// The body chain after one grid move: the head advances, and every
/// trailing segment is the position its predecessor held before the move.
pub open spec fn moved_body(body: Seq<Vector2D>, dir: Direction) -> Seq<Vector2D> {
    Seq::new(
        body.len(),
        |i: int|
            if i == 0 {
                advanced_head(body[0], dir)
            } else {
                body[i - 1]
            },
    )
}

/// The gameplay state after the grid movement pass: the tick delta feeds
/// the move accumulator; once it reaches the move interval, the body moves
/// and the accumulator resets.
pub open spec fn move_body_spec(m: GameModel) -> GameModel {
    let timer = m.player.move_timer + m.delta_time;
    if timer >= m.player.move_interval {
        GameModel {
            player: SnakeModel {
                move_timer: 0,
                body: moved_body(m.player.body, m.player.direction),
                ..m.player
            },
            ..m
        }
    } else {
        GameModel { player: SnakeModel { move_timer: timer as u64, ..m.player }, ..m }
    }
}

/// Grid locomotion, segment by segment: after a move, the head has advanced
/// one sprite dimension along the direction of travel, and every trailing
/// segment holds exactly the position its predecessor held before the move
/// — the propagation works on pre-move positions, never on already-moved
/// ones.
pub proof fn lemma_grid_locomotion(body: Seq<Vector2D>, dir: Direction)
    requires
        body.len() >= 1,
    ensures
        moved_body(body, dir).len() == body.len(),
        moved_body(body, dir)[0] == advanced_head(body[0], dir),
        forall|i: int| 1 <= i < body.len() ==> moved_body(body, dir)[i] == body[i - 1],
{
}

/// Moves the body chain on the grid once the move interval has elapsed.
pub struct ModifyCoordinatesOfBodyParts;

impl ModifyCoordinatesOfBodyParts {
    /// Accumulates the tick delta; on reaching the move interval, shifts
    /// every trailing segment to its predecessor's prior position — working
    /// from the tail end forward so no unread value is clobbered — and then
    /// advances the head one sprite dimension along the current direction.
    #[verifier::loop_isolation(false)]
    pub fn execute(&self, game_state: &mut GameState)
        requires
            state_wf(old(game_state)@),
        ensures
            final(game_state)@ == move_body_spec(old(game_state)@),
            state_wf(final(game_state)@),
            final(game_state).sprites == old(game_state).sprites,
            final(game_state).window_buffer == old(game_state).window_buffer,
            final(game_state).window_width == old(game_state).window_width,
            final(game_state).window_height == old(game_state).window_height,
    {
        let timer_sum: u128 = game_state.player.move_timer as u128 + game_state.delta_time as u128;
        if timer_sum >= game_state.player.move_interval as u128 {
            game_state.player.move_timer = 0;
            let ghost body0 = game_state.player.body@;
            let body_size = game_state.player.body.len();
            let mut j: usize = body_size - 1;
            while j >= 1
                invariant
                    j <= body_size - 1,
                    game_state.player.body@.len() == body0.len(),
                    forall|k: int| 0 <= k <= j ==> game_state.player.body@[k] == body0[k],
                    forall|k: int|
                        j < k < body0.len() ==> game_state.player.body@[k] == body0[k - 1],
                    game_state@ == (GameModel {
                        player: SnakeModel {
                            move_timer: 0,
                            body: game_state.player.body@,
                            ..old(game_state)@.player
                        },
                        ..old(game_state)@
                    }),
                    game_state.sprites == old(game_state).sprites,
                    game_state.window_buffer == old(game_state).window_buffer,
                    game_state.window_width == old(game_state).window_width,
                    game_state.window_height == old(game_state).window_height,
                decreases j,
            {
                let prev = game_state.player.body[j - 1];
                game_state.player.body.set(j, prev);
                j -= 1;
            }
            let head = game_state.player.body[0];
            let new_head = match game_state.player.direction {
                Direction::Left => Vector2D { x: coord_add(head.x, -SNAKE_BODY_WIDTH), y: head.y },
                Direction::Right => Vector2D { x: coord_add(head.x, SNAKE_BODY_WIDTH), y: head.y },
                Direction::Up => Vector2D { x: head.x, y: coord_add(head.y, -SNAKE_BODY_HEIGHT) },
                Direction::Down => Vector2D { x: head.x, y: coord_add(head.y, SNAKE_BODY_HEIGHT) },
            };
            game_state.player.body.set(0, new_head);
            proof {
                assert(game_state.player.body@ =~= moved_body(
                    body0,
                    old(game_state)@.player.direction,
                ));
                assert(game_state@ =~= move_body_spec(old(game_state)@));
            }
        } else {
            game_state.player.move_timer = game_state.player.move_timer + game_state.delta_time;
            proof {
                assert(game_state@ =~= move_body_spec(old(game_state)@));
            }
        }
    }
}

} // verus!
