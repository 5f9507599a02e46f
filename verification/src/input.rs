//! Directional input intents: each held key raises the matching velocity
//! component and makes its direction the exclusive direction of travel.
//!
//! The surrounding program polls the four directional keys once per tick
//! and hands their held state in as booleans; the core produces no
//! acknowledgment back. Idle deceleration is deliberately not wired into
//! the tick, matching the shipped behaviour; the decay operations stand on
//! their own.

use vstd::prelude::*;

verus! {

use crate::core_logic::{
    increase_velocity_spec, increase_x_velocity, increase_y_velocity,
};
use crate::structs::{Direction, GameModel, GameState, SnakeModel, state_wf};

/// The gameplay state after an upward intent: vertical velocity raised,
/// direction and last key set to up.
pub open spec fn move_up_spec(m: GameModel) -> GameModel {
    GameModel {
        player: SnakeModel {
            vy: increase_velocity_spec(m.player.vy),
            last_key: Some(Direction::Up),
            direction: Direction::Up,
            ..m.player
        },
        ..m
    }
}

/// The gameplay state after a leftward intent.
pub open spec fn move_left_spec(m: GameModel) -> GameModel {
    GameModel {
        player: SnakeModel {
            vx: increase_velocity_spec(m.player.vx),
            last_key: Some(Direction::Left),
            direction: Direction::Left,
            ..m.player
        },
        ..m
    }
}

/// The gameplay state after a downward intent.
pub open spec fn move_down_spec(m: GameModel) -> GameModel {
    GameModel {
        player: SnakeModel {
            vy: increase_velocity_spec(m.player.vy),
            last_key: Some(Direction::Down),
            direction: Direction::Down,
            ..m.player
        },
        ..m
    }
}

/// The gameplay state after a rightward intent.
pub open spec fn move_right_spec(m: GameModel) -> GameModel {
    GameModel {
        player: SnakeModel {
            vx: increase_velocity_spec(m.player.vx),
            last_key: Some(Direction::Right),
            direction: Direction::Right,
            ..m.player
        },
        ..m
    }
}

/// The upward movement intent.
pub struct MoveUp;

impl MoveUp {
    /// Raises the vertical velocity and turns the creature upward.
    pub fn execute(&self, game_state: &mut GameState)
        requires
            state_wf(old(game_state)@),
        ensures
            final(game_state)@ == move_up_spec(old(game_state)@),
            state_wf(final(game_state)@),
            final(game_state).sprites == old(game_state).sprites,
            final(game_state).window_buffer == old(game_state).window_buffer,
            final(game_state).window_width == old(game_state).window_width,
            final(game_state).window_height == old(game_state).window_height,
    {
        increase_y_velocity(game_state);
        game_state.player.last_key = Some(Direction::Up);
        game_state.player.direction = Direction::Up;
        proof {
            assert(game_state@ =~= move_up_spec(old(game_state)@));
        }
    }
}

/// The leftward movement intent.
pub struct MoveLeft;

impl MoveLeft {
    /// Raises the horizontal velocity and turns the creature leftward.
    pub fn execute(&self, game_state: &mut GameState)
        requires
            state_wf(old(game_state)@),
        ensures
            final(game_state)@ == move_left_spec(old(game_state)@),
            state_wf(final(game_state)@),
            final(game_state).sprites == old(game_state).sprites,
            final(game_state).window_buffer == old(game_state).window_buffer,
            final(game_state).window_width == old(game_state).window_width,
            final(game_state).window_height == old(game_state).window_height,
    {
        increase_x_velocity(game_state);
        game_state.player.last_key = Some(Direction::Left);
        game_state.player.direction = Direction::Left;
        proof {
            assert(game_state@ =~= move_left_spec(old(game_state)@));
        }
    }
}

/// The downward movement intent.
pub struct MoveDown;

impl MoveDown {
    /// Raises the vertical velocity and turns the creature downward.
    pub fn execute(&self, game_state: &mut GameState)
        requires
            state_wf(old(game_state)@),
        ensures
            final(game_state)@ == move_down_spec(old(game_state)@),
            state_wf(final(game_state)@),
            final(game_state).sprites == old(game_state).sprites,
            final(game_state).window_buffer == old(game_state).window_buffer,
            final(game_state).window_width == old(game_state).window_width,
            final(game_state).window_height == old(game_state).window_height,
    {
        increase_y_velocity(game_state);
        game_state.player.last_key = Some(Direction::Down);
        game_state.player.direction = Direction::Down;
        proof {
            assert(game_state@ =~= move_down_spec(old(game_state)@));
        }
    }
}

/// The rightward movement intent.
pub struct MoveRight;

impl MoveRight {
    /// Raises the horizontal velocity and turns the creature rightward.
    pub fn execute(&self, game_state: &mut GameState)
        requires
            state_wf(old(game_state)@),
        ensures
            final(game_state)@ == move_right_spec(old(game_state)@),
            state_wf(final(game_state)@),
            final(game_state).sprites == old(game_state).sprites,
            final(game_state).window_buffer == old(game_state).window_buffer,
            final(game_state).window_width == old(game_state).window_width,
            final(game_state).window_height == old(game_state).window_height,
    {
        increase_x_velocity(game_state);
        game_state.player.last_key = Some(Direction::Right);
        game_state.player.direction = Direction::Right;
        proof {
            assert(game_state@ =~= move_right_spec(old(game_state)@));
        }
    }
}

/// The gameplay state after one input pass: each held key applies its
/// intent, in the fixed up, left, down, right order.
pub open spec fn handle_input_spec(
    m: GameModel,
    up: bool,
    left: bool,
    down: bool,
    right: bool,
) -> GameModel {
    let m1 = if up {
        move_up_spec(m)
    } else {
        m
    };
    let m2 = if left {
        move_left_spec(m1)
    } else {
        m1
    };
    let m3 = if down {
        move_down_spec(m2)
    } else {
        m2
    };
    if right {
        move_right_spec(m3)
    } else {
        m3
    }
}

/// Applies the held directional keys to the simulation state, in the fixed
/// up, left, down, right order.
pub fn handle_user_input(game_state: &mut GameState, up: bool, left: bool, down: bool, right: bool)
    requires
        state_wf(old(game_state)@),
    ensures
        final(game_state)@ == handle_input_spec(old(game_state)@, up, left, down, right),
        state_wf(final(game_state)@),
        final(game_state).sprites == old(game_state).sprites,
        final(game_state).window_buffer == old(game_state).window_buffer,
        final(game_state).window_width == old(game_state).window_width,
        final(game_state).window_height == old(game_state).window_height,
{
    if up {
        MoveUp.execute(game_state);
    }
    if left {
        MoveLeft.execute(game_state);
    }
    if down {
        MoveDown.execute(game_state);
    }
    if right {
        MoveRight.execute(game_state);
    }
}

} // verus!
