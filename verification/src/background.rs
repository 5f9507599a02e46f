//! Background animation operations: the globe and star layers advance their
//! sprite frame indices on fixed wall-clock intervals.

use vstd::prelude::*;

verus! {

use crate::constants::{BACKGROUND_FRAME_COUNT, GLOBE_FRAME_INTERVAL_MS, STARS_FRAME_INTERVAL_MS};
use crate::structs::{elapsed_ms, elapsed_since, GameModel, GameState, state_wf};

/// The gameplay state after the globe animation pass: once its interval has
/// elapsed, the frame index advances modulo the frame count and the
/// timestamp resets.
pub open spec fn globe_frame_spec(m: GameModel, now: u64) -> GameModel {
    if elapsed_ms(now, m.background_last_sprite_frame_update_time) >= GLOBE_FRAME_INTERVAL_MS {
        GameModel {
            background_sprite_frame_index: ((m.background_sprite_frame_index + 1) % (
            BACKGROUND_FRAME_COUNT as int)) as usize,
            background_last_sprite_frame_update_time: now,
            ..m
        }
    } else {
        m
    }
}

/// The gameplay state after the stars animation pass.
pub open spec fn stars_frame_spec(m: GameModel, now: u64) -> GameModel {
    if elapsed_ms(now, m.stars_last_sprite_frame_update_time) >= STARS_FRAME_INTERVAL_MS {
        GameModel {
            stars_sprite_frame_index: ((m.stars_sprite_frame_index + 1) % (
            BACKGROUND_FRAME_COUNT as int)) as usize,
            stars_last_sprite_frame_update_time: now,
            ..m
        }
    } else {
        m
    }
}

/// Advances the globe background frame on its fixed interval.
pub struct AlternateGlobeSpriteFrame;

impl AlternateGlobeSpriteFrame {
    /// Advances the globe frame index, wrapping modulo the frame count,
    /// once its interval has elapsed.
    pub fn execute(&self, game_state: &mut GameState, now: u64)
        requires
            state_wf(old(game_state)@),
        ensures
            final(game_state)@ == globe_frame_spec(old(game_state)@, now),
            state_wf(final(game_state)@),
            final(game_state).sprites == old(game_state).sprites,
            final(game_state).window_buffer == old(game_state).window_buffer,
            final(game_state).window_width == old(game_state).window_width,
            final(game_state).window_height == old(game_state).window_height,
    {
        let elapsed = elapsed_since(now, game_state.background_last_sprite_frame_update_time);
        if elapsed >= GLOBE_FRAME_INTERVAL_MS {
            game_state.background_sprite_frame_index = (game_state.background_sprite_frame_index
                + 1) % BACKGROUND_FRAME_COUNT;
            game_state.background_last_sprite_frame_update_time = now;
        }
        proof {
            assert(game_state@ =~= globe_frame_spec(old(game_state)@, now));
        }
    }
}

/// Advances the stars background frame on its fixed interval.
pub struct AlternateStarsSpriteFrame;

impl AlternateStarsSpriteFrame {
    /// Advances the stars frame index, wrapping modulo the frame count,
    /// once its interval has elapsed.
    pub fn execute(&self, game_state: &mut GameState, now: u64)
        requires
            state_wf(old(game_state)@),
        ensures
            final(game_state)@ == stars_frame_spec(old(game_state)@, now),
            state_wf(final(game_state)@),
            final(game_state).sprites == old(game_state).sprites,
            final(game_state).window_buffer == old(game_state).window_buffer,
            final(game_state).window_width == old(game_state).window_width,
            final(game_state).window_height == old(game_state).window_height,
    {
        let elapsed = elapsed_since(now, game_state.stars_last_sprite_frame_update_time);
        if elapsed >= STARS_FRAME_INTERVAL_MS {
            game_state.stars_sprite_frame_index = (game_state.stars_sprite_frame_index + 1)
                % BACKGROUND_FRAME_COUNT;
            game_state.stars_last_sprite_frame_update_time = now;
        }
        proof {
            assert(game_state@ =~= stars_frame_spec(old(game_state)@, now));
        }
    }
}

} // verus!
