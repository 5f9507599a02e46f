//! One whole frame of the orchestrator: input intent, the core-logic pass,
//! and the render pass, in that fixed sequence.
//!
//! The surrounding program owns only what a library cannot: polling the
//! window for held keys, presenting the finished buffer, the blocking
//! game-over presentation, and sleeping out the frame budget.

use vstd::prelude::*;

verus! {

use crate::core_logic::{core_logic_spec, CoreLogicOp, core_logic_order, execute_core_logic};
use crate::food::spawn_range_ok;
use crate::input::{handle_input_spec, handle_user_input};
use crate::sprites::sprite_maps_wf;
use crate::structs::{GameState, state_wf};
use crate::update_graphics::{
    background_scroll_spec, draw_background_spec, draw_food_spec, draw_player_spec,
    draw_score_spec, update_pixel_buffer,
};

/// Advances the simulation by one frame: the held keys become movement
/// intents, every core-logic operation runs once in the reference order,
/// and the pixel buffer is redrawn from the resulting state. The whole
/// frame is a deterministic function of the prior state, the keys and the
/// clock, up to the one position chance hands a food spawn.
#[verifier::rlimit(100)]
pub fn advance_frame(
    game_state: &mut GameState,
    core_logic_operations: &Vec<CoreLogicOp>,
    now: u64,
    up: bool,
    left: bool,
    down: bool,
    right: bool,
)
    requires
        state_wf(old(game_state)@),
        sprite_maps_wf(old(game_state).sprites),
        core_logic_operations@ == core_logic_order(),
    ensures
        state_wf(final(game_state)@),
        exists|fx: i64, fy: i64|
            #[trigger] spawn_range_ok(fx, fy) && {
                let ticked = core_logic_spec(
                    handle_input_spec(old(game_state)@, up, left, down, right),
                    now,
                    fx,
                    fy,
                );
                &&& final(game_state)@ == background_scroll_spec(ticked)
                &&& final(game_state).window_buffer@ == draw_score_spec(
                    draw_player_spec(
                        draw_food_spec(
                            draw_background_spec(
                                old(game_state).window_buffer@,
                                ticked.background_offset_x,
                                old(game_state).sprites,
                            ),
                            ticked.food,
                            old(game_state).sprites,
                        ),
                        ticked.player,
                        old(game_state).sprites,
                    ),
                    ticked.score,
                )
            },
        final(game_state).sprites == old(game_state).sprites,
        final(game_state).window_width == old(game_state).window_width,
        final(game_state).window_height == old(game_state).window_height,
{
    handle_user_input(game_state, up, left, down, right);
    execute_core_logic(game_state, core_logic_operations, now);
    update_pixel_buffer(game_state);
}

} // verus!
