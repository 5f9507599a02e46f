//! Creature animation operations: the body gait frames alternate on a fixed
//! interval, and the head frame is a deterministic function of elapsed time
//! and the near-food flag.

use vstd::prelude::*;

verus! {

use crate::constants::{
    BODY_FRAME_INTERVAL_MS, HEAD_ALERT_FRAME, HEAD_BLINK_FRAME, HEAD_BLINK_MS, HEAD_CYCLE_MS,
};
use crate::structs::{elapsed_ms, elapsed_since, GameModel, GameState, SnakeModel, state_wf};

/// The gameplay state after the body gait pass: once its interval has
/// elapsed, the gait frame flips between its two frames and the timestamp
/// resets.
pub open spec fn body_frame_spec(m: GameModel, now: u64) -> GameModel {
    if elapsed_ms(now, m.player.body_last_sprite_frame_index_update_time)
        >= BODY_FRAME_INTERVAL_MS {
        GameModel {
            player: SnakeModel {
                body_sprite_frame_index: ((m.player.body_sprite_frame_index + 1) % 2) as usize,
                body_last_sprite_frame_index_update_time: now,
                ..m.player
            },
            ..m
        }
    } else {
        m
    }
}

/// The head frame for an elapsed time and the near-food flag: the alert
/// frame while near food; otherwise a blink frame for the first half second
/// of each five-second cycle, then alternation between the two gait frames
/// every half second.
pub open spec fn head_frame_of(proximity: bool, elapsed: u64) -> usize {
    if proximity {
        HEAD_ALERT_FRAME
    } else {
        let cycle_position = elapsed as int % (HEAD_CYCLE_MS as int);
        if cycle_position < HEAD_BLINK_MS {
            HEAD_BLINK_FRAME
        } else {
            let sub_cycle = (cycle_position - HEAD_BLINK_MS) / (HEAD_BLINK_MS as int);
            if sub_cycle % 2 == 0 {
                0
            } else {
                1
            }
        }
    }
}

/// The gameplay state after the head animation pass: the head frame is
/// recomputed from the clock; the head timestamp is left alone, so the
/// selection is idempotent within a tick.
pub open spec fn head_frame_spec(m: GameModel, now: u64) -> GameModel {
    GameModel {
        player: SnakeModel {
            head_sprite_frame_index: head_frame_of(
                m.player.proximity_to_food,
                elapsed_ms(now, m.player.head_last_sprite_frame_index_update_time),
            ),
            ..m.player
        },
        ..m
    }
}

/// Alternates the body gait frame on its fixed interval.
pub struct AlternateBodySpriteFrameIndex;

impl AlternateBodySpriteFrameIndex {
    /// Flips the gait frame between its two frames once the body interval
    /// has elapsed.
    pub fn execute(&self, game_state: &mut GameState, now: u64)
        requires
            state_wf(old(game_state)@),
        ensures
            final(game_state)@ == body_frame_spec(old(game_state)@, now),
            state_wf(final(game_state)@),
            final(game_state).sprites == old(game_state).sprites,
            final(game_state).window_buffer == old(game_state).window_buffer,
            final(game_state).window_width == old(game_state).window_width,
            final(game_state).window_height == old(game_state).window_height,
    {
        let elapsed = elapsed_since(
            now,
            game_state.player.body_last_sprite_frame_index_update_time,
        );
        if elapsed >= BODY_FRAME_INTERVAL_MS {
            game_state.player.body_sprite_frame_index = (game_state.player.body_sprite_frame_index
                + 1) % 2;
            game_state.player.body_last_sprite_frame_index_update_time = now;
        }
        proof {
            assert(game_state@ =~= body_frame_spec(old(game_state)@, now));
        }
    }
}

/// Selects the head frame from the clock and the near-food flag.
pub struct AlternateHeadSpriteFrameIndex;

impl AlternateHeadSpriteFrameIndex {
    /// Forces the alert frame while near food; otherwise selects the blink
    /// or gait frame from elapsed time modulo the cycle length.
    pub fn execute(&self, game_state: &mut GameState, now: u64)
        requires
            state_wf(old(game_state)@),
        ensures
            final(game_state)@ == head_frame_spec(old(game_state)@, now),
            state_wf(final(game_state)@),
            final(game_state).sprites == old(game_state).sprites,
            final(game_state).window_buffer == old(game_state).window_buffer,
            final(game_state).window_width == old(game_state).window_width,
            final(game_state).window_height == old(game_state).window_height,
    {
        if game_state.player.proximity_to_food {
            game_state.player.head_sprite_frame_index = HEAD_ALERT_FRAME;
        } else {
            let elapsed_time = elapsed_since(
                now,
                game_state.player.head_last_sprite_frame_index_update_time,
            );
            let cycle_position = elapsed_time % HEAD_CYCLE_MS;
            if cycle_position < HEAD_BLINK_MS {
                game_state.player.head_sprite_frame_index = HEAD_BLINK_FRAME;
            } else {
                let remaining_time = cycle_position - HEAD_BLINK_MS;
                let sub_cycle = remaining_time / HEAD_BLINK_MS;
                game_state.player.head_sprite_frame_index = if sub_cycle % 2 == 0 {
                    0
                } else {
                    1
                };
            }
        }
        proof {
            assert(game_state@ =~= head_frame_spec(old(game_state)@, now));
        }
    }
}

} // verus!
