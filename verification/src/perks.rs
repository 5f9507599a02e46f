//! Perk selection: stepping the highlighted choice and applying the chosen
//! perk to the simulation state.
//!
//! The interactive selection loop — polling keys, drawing the choice screen
//! and pausing — runs in the surrounding program; the library holds the
//! highlight stepping rule and the effect of each perk.

use vstd::prelude::*;

verus! {

use crate::structs::{GameModel, GameState, SnakeModel, state_wf};

/// The speed-boost perk: the grid move interval shrinks by ten
/// milliseconds, stopping at zero.
pub const PERK_SPEED_BOOST: usize = 1;
/// The double-points perk: the score doubles, saturating at the counter's
/// ceiling.
pub const PERK_DOUBLE_POINTS: usize = 2;

/// The highlighted perk after one step: moved by the direction and held
/// inside the two perk slots; with nothing highlighted yet, the first perk.
pub open spec fn step_highlight_spec(highlighted: Option<usize>, direction: i64) -> usize {
    match highlighted {
        Some(current) => {
            let moved = current + direction;
            if moved < 1 {
                1
            } else if moved > 2 {
                2
            } else {
                moved as usize
            }
        },
        None => 1,
    }
}

/// The gameplay state after a perk is applied: the choice is recorded, the
/// offer is consumed, and the perk's effect lands.
pub open spec fn apply_perk_spec(m: GameModel, perk: usize) -> GameModel {
    let base = GameModel { perk_available: false, selected_perk: Some(perk), ..m };
    if perk == PERK_SPEED_BOOST {
        GameModel {
            player: SnakeModel {
                move_interval: if m.player.move_interval >= 10 {
                    (m.player.move_interval - 10) as u64
                } else {
                    0
                },
                ..m.player
            },
            ..base
        }
    } else if perk == PERK_DOUBLE_POINTS {
        GameModel {
            score: if m.score <= u32::MAX / 2 {
                (2 * m.score) as u32
            } else {
                u32::MAX
            },
            ..base
        }
    } else {
        base
    }
}

/// Offers a perk choice and applies the selection.
pub struct CheckNewPerk;

impl CheckNewPerk {
    /// Steps the highlighted perk by a direction, holding it inside the two
    /// perk slots; with nothing highlighted yet, highlights the first perk.
    pub fn step_highlight(highlighted: Option<usize>, direction: i64) -> (r: usize)
        ensures
            r == step_highlight_spec(highlighted, direction),
    {
        match highlighted {
            Some(current) => {
                let moved: i128 = current as i128 + direction as i128;
                if moved < 1 {
                    1
                } else if moved > 2 {
                    2
                } else {
                    moved as usize
                }
            },
            None => 1,
        }
    }

    /// Records the chosen perk, consumes the offer, and applies the perk's
    /// effect: a smaller move interval or a doubled score.
    pub fn apply_selection(&self, game_state: &mut GameState, perk: usize)
        requires
            state_wf(old(game_state)@),
        ensures
            final(game_state)@ == apply_perk_spec(old(game_state)@, perk),
            state_wf(final(game_state)@),
            final(game_state).sprites == old(game_state).sprites,
            final(game_state).window_buffer == old(game_state).window_buffer,
            final(game_state).window_width == old(game_state).window_width,
            final(game_state).window_height == old(game_state).window_height,
    {
        game_state.selected_perk = Some(perk);
        game_state.perk_available = false;
        if perk == PERK_SPEED_BOOST {
            game_state.player.move_interval = if game_state.player.move_interval >= 10 {
                game_state.player.move_interval - 10
            } else {
                0
            };
        } else if perk == PERK_DOUBLE_POINTS {
            game_state.score = if game_state.score <= u32::MAX / 2 {
                2 * game_state.score
            } else {
                u32::MAX
            };
        }
        proof {
            assert(game_state@ =~= apply_perk_spec(old(game_state)@, perk));
        }
    }
}

} // verus!
