//! The game-over pass: once the flag is raised, the whole gameplay state is
//! reset to initial conditions.
//!
//! The blocking presentation of the game-over frames — drawing each frame
//! with `draw_game_over_screen`, presenting it and pausing — happens in the
//! surrounding program before this operation runs; the library holds the
//! decision and the reset.

use vstd::prelude::*;

verus! {

use crate::constants::{PLAYER_START_X, PLAYER_START_Y};
use crate::structs::{
    Direction, GameModel, GameState, initial_model, snake_new_model, state_wf,
};

/// The gameplay state after the game-over pass: a terminal state becomes a
/// fresh initial state; any other state is untouched.
pub open spec fn check_game_over_spec(m: GameModel, now: u64) -> GameModel {
    if m.game_over {
        initial_model(snake_new_model(PLAYER_START_X, PLAYER_START_Y, Direction::Right, now), now)
    } else {
        m
    }
}

/// Restart lands on one and the same state from every terminal state: the
/// result is the fresh initial state around a fresh creature, independent
/// of anything the terminal state held.
pub proof fn lemma_restart_uniform(m1: GameModel, m2: GameModel, now: u64)
    requires
        m1.game_over,
        m2.game_over,
    ensures
        check_game_over_spec(m1, now) == check_game_over_spec(m2, now),
        check_game_over_spec(m1, now) == initial_model(
            snake_new_model(PLAYER_START_X, PLAYER_START_Y, Direction::Right, now),
            now,
        ),
{
}

/// Restarts the level when the game-over flag is set.
pub struct CheckGameOver;

impl CheckGameOver {
    /// Resets the gameplay state to initial conditions when the game-over
    /// flag is set; a designed terminal state with an automatic recovery,
    /// not an error.
    pub fn execute(&self, game_state: &mut GameState, now: u64)
        requires
            state_wf(old(game_state)@),
        ensures
            final(game_state)@ == check_game_over_spec(old(game_state)@, now),
            state_wf(final(game_state)@),
            final(game_state).sprites == old(game_state).sprites,
            final(game_state).window_buffer == old(game_state).window_buffer,
            final(game_state).window_width == old(game_state).window_width,
            final(game_state).window_height == old(game_state).window_height,
    {
        if game_state.game_over {
            game_state.restart_level(now);
        }
    }
}

} // verus!
