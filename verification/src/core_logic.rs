//! The per-tick core-logic pass: velocity accumulation and decay, free
//! movement, bounds reflection, and the fixed, explicitly ordered sequence
//! of operations that every tick runs over the shared simulation state.
//!
//! The reference order is: game-over recovery, clock sampling, grid and
//! free movement, bounds, collision, food, then animation. Rendering is a
//! separate pass.

use vstd::prelude::*;

verus! {

use crate::background::{
    AlternateGlobeSpriteFrame, AlternateStarsSpriteFrame, globe_frame_spec, stars_frame_spec,
};
use crate::collision::{CheckSelfCollision, self_collision_spec};
use crate::constants::{
    ACCELERATION, BOUND_EDGE, LOWER_BOUND_X, LOWER_BOUND_Y, MAX_VELOCITY,
    UPPER_BOUND_X, UPPER_BOUND_Y, VELOCITY_STOP_THRESHOLD,
};
use crate::food::{
    AlternateBetweenFoodSpriteFrames, CheckIfFoodWasEaten, food_eaten_spec, food_frame_spec,
    SpawnFood, spawn_food_spec, spawn_range_ok,
};
use crate::game_over::check_game_over_spec;
use crate::movement::{ModifyCoordinatesOfBodyParts, move_body_spec};
use crate::snake::{
    AlternateBodySpriteFrameIndex, AlternateHeadSpriteFrameIndex, body_frame_spec,
    head_frame_spec,
};
use crate::structs::{
    clamp_coord, clamp_coord_spec, Direction, GameModel, GameState, SnakeModel, state_wf,
    update_timing_spec,
};

/// A velocity component after one directional press: raised by the fixed
/// acceleration, damped, and saturated at the maximum.
pub open spec fn increase_velocity_spec(v: i64) -> i64 {
    if v + ACCELERATION > MAX_VELOCITY {
        MAX_VELOCITY
    } else {
        let damped = (v + ACCELERATION) * 98 / 100;
        if damped > MAX_VELOCITY {
            MAX_VELOCITY
        } else {
            damped as i64
        }
    }
}

/// A velocity component after one decay step: damped, and snapped to zero
/// below the stop threshold.
pub open spec fn decrease_velocity_spec(v: i64) -> i64 {
    let damped = v * 95 / 100;
    let magnitude = if damped < 0 {
        -damped
    } else {
        damped
    };
    if magnitude < VELOCITY_STOP_THRESHOLD {
        0
    } else {
        damped as i64
    }
}

/// Raises the horizontal velocity by the fixed acceleration, with damping
/// and saturation.
pub fn increase_x_velocity(game_state: &mut GameState)
    requires
        state_wf(old(game_state)@),
    ensures
        final(game_state)@ == (GameModel {
            player: SnakeModel {
                vx: increase_velocity_spec(old(game_state)@.player.vx),
                ..old(game_state)@.player
            },
            ..old(game_state)@
        }),
        state_wf(final(game_state)@),
        final(game_state).sprites == old(game_state).sprites,
        final(game_state).window_buffer == old(game_state).window_buffer,
        final(game_state).window_width == old(game_state).window_width,
        final(game_state).window_height == old(game_state).window_height,
{
    let raised = game_state.player.vx + ACCELERATION;
    if raised > MAX_VELOCITY {
        game_state.player.vx = MAX_VELOCITY;
    } else {
        let damped = raised * 98 / 100;
        game_state.player.vx = if damped > MAX_VELOCITY {
            MAX_VELOCITY
        } else {
            damped
        };
    }
    proof {
        assert(game_state@ =~= (GameModel {
            player: SnakeModel {
                vx: increase_velocity_spec(old(game_state)@.player.vx),
                ..old(game_state)@.player
            },
            ..old(game_state)@
        }));
    }
}

/// Decays the horizontal velocity, snapping it to zero below the stop
/// threshold.
pub fn decrease_x_velocity(game_state: &mut GameState)
    requires
        state_wf(old(game_state)@),
    ensures
        final(game_state)@ == (GameModel {
            player: SnakeModel {
                vx: decrease_velocity_spec(old(game_state)@.player.vx),
                ..old(game_state)@.player
            },
            ..old(game_state)@
        }),
        state_wf(final(game_state)@),
        final(game_state).sprites == old(game_state).sprites,
        final(game_state).window_buffer == old(game_state).window_buffer,
        final(game_state).window_width == old(game_state).window_width,
        final(game_state).window_height == old(game_state).window_height,
{
    let damped = game_state.player.vx * 95 / 100;
    let magnitude = if damped < 0 {
        -damped
    } else {
        damped
    };
    game_state.player.vx = if magnitude < VELOCITY_STOP_THRESHOLD {
        0
    } else {
        damped
    };
    proof {
        assert(game_state@ =~= (GameModel {
            player: SnakeModel {
                vx: decrease_velocity_spec(old(game_state)@.player.vx),
                ..old(game_state)@.player
            },
            ..old(game_state)@
        }));
    }
}

/// Raises the vertical velocity by the fixed acceleration, with damping
/// and saturation.
pub fn increase_y_velocity(game_state: &mut GameState)
    requires
        state_wf(old(game_state)@),
    ensures
        final(game_state)@ == (GameModel {
            player: SnakeModel {
                vy: increase_velocity_spec(old(game_state)@.player.vy),
                ..old(game_state)@.player
            },
            ..old(game_state)@
        }),
        state_wf(final(game_state)@),
        final(game_state).sprites == old(game_state).sprites,
        final(game_state).window_buffer == old(game_state).window_buffer,
        final(game_state).window_width == old(game_state).window_width,
        final(game_state).window_height == old(game_state).window_height,
{
    let raised = game_state.player.vy + ACCELERATION;
    if raised > MAX_VELOCITY {
        game_state.player.vy = MAX_VELOCITY;
    } else {
        let damped = raised * 98 / 100;
        game_state.player.vy = if damped > MAX_VELOCITY {
            MAX_VELOCITY
        } else {
            damped
        };
    }
    proof {
        assert(game_state@ =~= (GameModel {
            player: SnakeModel {
                vy: increase_velocity_spec(old(game_state)@.player.vy),
                ..old(game_state)@.player
            },
            ..old(game_state)@
        }));
    }
}

/// Decays the vertical velocity, snapping it to zero below the stop
/// threshold.
pub fn decrease_y_velocity(game_state: &mut GameState)
    requires
        state_wf(old(game_state)@),
    ensures
        final(game_state)@ == (GameModel {
            player: SnakeModel {
                vy: decrease_velocity_spec(old(game_state)@.player.vy),
                ..old(game_state)@.player
            },
            ..old(game_state)@
        }),
        state_wf(final(game_state)@),
        final(game_state).sprites == old(game_state).sprites,
        final(game_state).window_buffer == old(game_state).window_buffer,
        final(game_state).window_width == old(game_state).window_width,
        final(game_state).window_height == old(game_state).window_height,
{
    let damped = game_state.player.vy * 95 / 100;
    let magnitude = if damped < 0 {
        -damped
    } else {
        damped
    };
    game_state.player.vy = if magnitude < VELOCITY_STOP_THRESHOLD {
        0
    } else {
        damped
    };
    proof {
        assert(game_state@ =~= (GameModel {
            player: SnakeModel {
                vy: decrease_velocity_spec(old(game_state)@.player.vy),
                ..old(game_state)@.player
            },
            ..old(game_state)@
        }));
    }
}

/// A coordinate reflected back in bounds: the offset result's absolute
/// value, clamped into the representable range.
pub open spec fn reflect_abs(c: int) -> i64 {
    clamp_coord_spec(
        if c < 0 {
            -c
        } else {
            c
        },
    )
}

/// The gameplay state after the vertical bounds pass: a bounding box that
/// crosses the lower or upper y bound is reflected back in, and the
/// vertical velocity is zeroed.
pub open spec fn vertical_bounds_spec(m: GameModel) -> GameModel {
    let y = m.player.y;
    if y + BOUND_EDGE <= LOWER_BOUND_Y {
        GameModel {
            player: SnakeModel { y: reflect_abs(y + BOUND_EDGE), vy: 0, ..m.player },
            ..m
        }
    } else if y + BOUND_EDGE >= UPPER_BOUND_Y {
        GameModel {
            player: SnakeModel { y: reflect_abs(y - BOUND_EDGE), vy: 0, ..m.player },
            ..m
        }
    } else {
        m
    }
}

/// Reflects the player back inside the vertical world bounds.
pub struct VerticalBounds;

impl VerticalBounds {
    /// When the bounding box's leading edge crosses a vertical bound, the
    /// position is mirrored back in bounds and the vertical velocity is
    /// zeroed.
    pub fn execute(&self, game_state: &mut GameState)
        requires
            state_wf(old(game_state)@),
        ensures
            final(game_state)@ == vertical_bounds_spec(old(game_state)@),
            state_wf(final(game_state)@),
            final(game_state).sprites == old(game_state).sprites,
            final(game_state).window_buffer == old(game_state).window_buffer,
            final(game_state).window_width == old(game_state).window_width,
            final(game_state).window_height == old(game_state).window_height,
    {
        let y = game_state.player.y;
        if y + BOUND_EDGE <= LOWER_BOUND_Y {
            let t = y + BOUND_EDGE;
            let a = if t < 0 {
                -t
            } else {
                t
            };
            game_state.player.y = clamp_coord(a);
            game_state.player.vy = 0;
        } else if y + BOUND_EDGE >= UPPER_BOUND_Y {
            let t = y - BOUND_EDGE;
            let a = if t < 0 {
                -t
            } else {
                t
            };
            game_state.player.y = clamp_coord(a);
            game_state.player.vy = 0;
        }
        proof {
            assert(game_state@ =~= vertical_bounds_spec(old(game_state)@));
        }
    }
}

/// The gameplay state after the horizontal bounds pass.
pub open spec fn horizontal_bounds_spec(m: GameModel) -> GameModel {
    let x = m.player.x;
    if x + BOUND_EDGE <= LOWER_BOUND_X {
        GameModel {
            player: SnakeModel { x: reflect_abs(x + BOUND_EDGE), vx: 0, ..m.player },
            ..m
        }
    } else if x + BOUND_EDGE >= UPPER_BOUND_X {
        GameModel {
            player: SnakeModel { x: reflect_abs(x - BOUND_EDGE), vx: 0, ..m.player },
            ..m
        }
    } else {
        m
    }
}

/// Reflects the player back inside the horizontal world bounds.
pub struct HorizontalBounds;

impl HorizontalBounds {
    /// When the bounding box's leading edge crosses a horizontal bound, the
    /// position is mirrored back in bounds and the horizontal velocity is
    /// zeroed.
    pub fn execute(&self, game_state: &mut GameState)
        requires
            state_wf(old(game_state)@),
        ensures
            final(game_state)@ == horizontal_bounds_spec(old(game_state)@),
            state_wf(final(game_state)@),
            final(game_state).sprites == old(game_state).sprites,
            final(game_state).window_buffer == old(game_state).window_buffer,
            final(game_state).window_width == old(game_state).window_width,
            final(game_state).window_height == old(game_state).window_height,
    {
        let x = game_state.player.x;
        if x + BOUND_EDGE <= LOWER_BOUND_X {
            let t = x + BOUND_EDGE;
            let a = if t < 0 {
                -t
            } else {
                t
            };
            game_state.player.x = clamp_coord(a);
            game_state.player.vx = 0;
        } else if x + BOUND_EDGE >= UPPER_BOUND_X {
            let t = x - BOUND_EDGE;
            let a = if t < 0 {
                -t
            } else {
                t
            };
            game_state.player.x = clamp_coord(a);
            game_state.player.vx = 0;
        }
        proof {
            assert(game_state@ =~= horizontal_bounds_spec(old(game_state)@));
        }
    }
}

/// The gameplay state after the free-movement pass: the position
/// integrates the velocity along the active axis only.
pub open spec fn modify_position_spec(m: GameModel) -> GameModel {
    match m.player.direction {
        Direction::Left => GameModel {
            player: SnakeModel {
                x: clamp_coord_spec(m.player.x - m.player.vx),
                ..m.player
            },
            ..m
        },
        Direction::Right => GameModel {
            player: SnakeModel {
                x: clamp_coord_spec(m.player.x + m.player.vx),
                ..m.player
            },
            ..m
        },
        Direction::Up => GameModel {
            player: SnakeModel {
                y: clamp_coord_spec(m.player.y - m.player.vy),
                ..m.player
            },
            ..m
        },
        Direction::Down => GameModel {
            player: SnakeModel {
                y: clamp_coord_spec(m.player.y + m.player.vy),
                ..m.player
            },
            ..m
        },
    }
}

/// Integrates the velocity into the position along the active axis.
pub struct ModifyPosition;

impl ModifyPosition {
    /// Moves the free position by the current velocity along the direction
    /// of travel; there is no diagonal blending.
    pub fn execute(&self, game_state: &mut GameState)
        requires
            state_wf(old(game_state)@),
        ensures
            final(game_state)@ == modify_position_spec(old(game_state)@),
            state_wf(final(game_state)@),
            final(game_state).sprites == old(game_state).sprites,
            final(game_state).window_buffer == old(game_state).window_buffer,
            final(game_state).window_width == old(game_state).window_width,
            final(game_state).window_height == old(game_state).window_height,
    {
        match game_state.player.direction {
            Direction::Left => {
                game_state.player.x = clamp_coord(game_state.player.x - game_state.player.vx);
            }
            Direction::Right => {
                game_state.player.x = clamp_coord(game_state.player.x + game_state.player.vx);
            }
            Direction::Up => {
                game_state.player.y = clamp_coord(game_state.player.y - game_state.player.vy);
            }
            Direction::Down => {
                game_state.player.y = clamp_coord(game_state.player.y + game_state.player.vy);
            }
        }
        proof {
            assert(game_state@ =~= modify_position_spec(old(game_state)@));
        }
    }
}

/// A reserved hook in the operation set; the game-over handling itself
/// lives in `crate::game_over::CheckGameOver`.
pub struct CheckGameOver;

impl CheckGameOver {
    /// Leaves the state untouched.
    pub fn execute(&self, game_state: &mut GameState)
        ensures
            *final(game_state) == *old(game_state),
    {
    }
}

/// One tagged core-logic operation of the per-tick set.
#[derive(Clone, Copy, Debug, PartialEq, Eq, Structural)]
pub enum CoreLogicOp {
    CheckGameOver,
    UpdateDeltaTime,
    ModifyCoordinatesOfBodyParts,
    ModifyPosition,
    VerticalBounds,
    HorizontalBounds,
    CheckSelfCollision,
    SpawnFood,
    CheckIfFoodWasEaten,
    AlternateBetweenFoodSpriteFrames,
    AlternateBodySpriteFrameIndex,
    AlternateHeadSpriteFrameIndex,
    AlternateGlobeSpriteFrame,
    AlternateStarsSpriteFrame,
}

/// The gameplay state after one operation, given the two values chance
/// would hand a spawn.
pub open spec fn op_spec(op: CoreLogicOp, m: GameModel, now: u64, fx: i64, fy: i64) -> GameModel {
    match op {
        CoreLogicOp::CheckGameOver => check_game_over_spec(m, now),
        CoreLogicOp::UpdateDeltaTime => update_timing_spec(m, now),
        CoreLogicOp::ModifyCoordinatesOfBodyParts => move_body_spec(m),
        CoreLogicOp::ModifyPosition => modify_position_spec(m),
        CoreLogicOp::VerticalBounds => vertical_bounds_spec(m),
        CoreLogicOp::HorizontalBounds => horizontal_bounds_spec(m),
        CoreLogicOp::CheckSelfCollision => self_collision_spec(m),
        CoreLogicOp::SpawnFood => spawn_food_spec(m, now, fx, fy),
        CoreLogicOp::CheckIfFoodWasEaten => food_eaten_spec(m),
        CoreLogicOp::AlternateBetweenFoodSpriteFrames => food_frame_spec(m, now),
        CoreLogicOp::AlternateBodySpriteFrameIndex => body_frame_spec(m, now),
        CoreLogicOp::AlternateHeadSpriteFrameIndex => head_frame_spec(m, now),
        CoreLogicOp::AlternateGlobeSpriteFrame => globe_frame_spec(m, now),
        CoreLogicOp::AlternateStarsSpriteFrame => stars_frame_spec(m, now),
    }
}

/// The reference execution order of the per-tick operations: game-over
/// recovery, clock sampling, movement, bounds, collision, food, then
/// animation.
pub open spec fn core_logic_order() -> Seq<CoreLogicOp> {
    seq![
        CoreLogicOp::CheckGameOver,
        CoreLogicOp::UpdateDeltaTime,
        CoreLogicOp::ModifyCoordinatesOfBodyParts,
        CoreLogicOp::ModifyPosition,
        CoreLogicOp::VerticalBounds,
        CoreLogicOp::HorizontalBounds,
        CoreLogicOp::CheckSelfCollision,
        CoreLogicOp::SpawnFood,
        CoreLogicOp::CheckIfFoodWasEaten,
        CoreLogicOp::AlternateBetweenFoodSpriteFrames,
        CoreLogicOp::AlternateBodySpriteFrameIndex,
        CoreLogicOp::AlternateHeadSpriteFrameIndex,
        CoreLogicOp::AlternateGlobeSpriteFrame,
        CoreLogicOp::AlternateStarsSpriteFrame,
    ]
}

/// The gameplay state after one whole tick, given the two values chance
/// would hand a spawn: every operation applied once, in the reference
/// order.
pub open spec fn core_logic_spec(m: GameModel, now: u64, fx: i64, fy: i64) -> GameModel {
    let m1 = check_game_over_spec(m, now);
    let m2 = update_timing_spec(m1, now);
    let m3 = move_body_spec(m2);
    let m4 = modify_position_spec(m3);
    let m5 = vertical_bounds_spec(m4);
    let m6 = horizontal_bounds_spec(m5);
    let m7 = self_collision_spec(m6);
    let m8 = spawn_food_spec(m7, now, fx, fy);
    let m9 = food_eaten_spec(m8);
    let m10 = food_frame_spec(m9, now);
    let m11 = body_frame_spec(m10, now);
    let m12 = head_frame_spec(m11, now);
    let m13 = globe_frame_spec(m12, now);
    stars_frame_spec(m13, now)
}

impl CoreLogicOp {
    /// Applies this operation to the simulation state.
    pub fn apply(&self, game_state: &mut GameState, now: u64)
        requires
            state_wf(old(game_state)@),
        ensures
            state_wf(final(game_state)@),
            *self is SpawnFood ==> exists|fx: i64, fy: i64|
                spawn_range_ok(fx, fy) && final(game_state)@ == op_spec(
                    *self,
                    old(game_state)@,
                    now,
                    fx,
                    fy,
                ),
            !(*self is SpawnFood) ==> final(game_state)@ == op_spec(
                *self,
                old(game_state)@,
                now,
                0,
                0,
            ),
            final(game_state).sprites == old(game_state).sprites,
            final(game_state).window_buffer == old(game_state).window_buffer,
            final(game_state).window_width == old(game_state).window_width,
            final(game_state).window_height == old(game_state).window_height,
    {
        match self {
            CoreLogicOp::CheckGameOver => crate::game_over::CheckGameOver.execute(
                game_state,
                now,
            ),
            CoreLogicOp::UpdateDeltaTime => game_state.update_timing(now),
            CoreLogicOp::ModifyCoordinatesOfBodyParts => ModifyCoordinatesOfBodyParts.execute(
                game_state,
            ),
            CoreLogicOp::ModifyPosition => ModifyPosition.execute(game_state),
            CoreLogicOp::VerticalBounds => VerticalBounds.execute(game_state),
            CoreLogicOp::HorizontalBounds => HorizontalBounds.execute(game_state),
            CoreLogicOp::CheckSelfCollision => CheckSelfCollision.execute(game_state),
            CoreLogicOp::SpawnFood => SpawnFood.execute(game_state, now),
            CoreLogicOp::CheckIfFoodWasEaten => CheckIfFoodWasEaten.execute(game_state),
            CoreLogicOp::AlternateBetweenFoodSpriteFrames => AlternateBetweenFoodSpriteFrames
                .execute(game_state, now),
            CoreLogicOp::AlternateBodySpriteFrameIndex => AlternateBodySpriteFrameIndex.execute(
                game_state,
                now,
            ),
            CoreLogicOp::AlternateHeadSpriteFrameIndex => AlternateHeadSpriteFrameIndex.execute(
                game_state,
                now,
            ),
            CoreLogicOp::AlternateGlobeSpriteFrame => AlternateGlobeSpriteFrame.execute(
                game_state,
                now,
            ),
            CoreLogicOp::AlternateStarsSpriteFrame => AlternateStarsSpriteFrame.execute(
                game_state,
                now,
            ),
        }
    }
}

/// Builds the per-tick operation list in the reference order.
pub fn initialize_core_logic_map() -> (ops: Vec<CoreLogicOp>)
    ensures
        ops@ == core_logic_order(),
{
    let mut ops: Vec<CoreLogicOp> = Vec::new();
    ops.push(CoreLogicOp::CheckGameOver);
    ops.push(CoreLogicOp::UpdateDeltaTime);
    ops.push(CoreLogicOp::ModifyCoordinatesOfBodyParts);
    ops.push(CoreLogicOp::ModifyPosition);
    ops.push(CoreLogicOp::VerticalBounds);
    ops.push(CoreLogicOp::HorizontalBounds);
    ops.push(CoreLogicOp::CheckSelfCollision);
    ops.push(CoreLogicOp::SpawnFood);
    ops.push(CoreLogicOp::CheckIfFoodWasEaten);
    ops.push(CoreLogicOp::AlternateBetweenFoodSpriteFrames);
    ops.push(CoreLogicOp::AlternateBodySpriteFrameIndex);
    ops.push(CoreLogicOp::AlternateHeadSpriteFrameIndex);
    ops.push(CoreLogicOp::AlternateGlobeSpriteFrame);
    ops.push(CoreLogicOp::AlternateStarsSpriteFrame);
    proof {
        assert(ops@ =~= core_logic_order());
    }
    ops
}

/// Runs every core-logic operation once, in the reference order, over the
/// shared simulation state. The whole tick is a deterministic function of
/// the prior state and the clock, up to the one position chance hands a
/// food spawn.
#[verifier::rlimit(100)]
pub fn execute_core_logic(
    game_state: &mut GameState,
    core_logic_operations: &Vec<CoreLogicOp>,
    now: u64,
)
    requires
        state_wf(old(game_state)@),
        core_logic_operations@ == core_logic_order(),
    ensures
        state_wf(final(game_state)@),
        exists|fx: i64, fy: i64|
            spawn_range_ok(fx, fy) && final(game_state)@ == core_logic_spec(
                old(game_state)@,
                now,
                fx,
                fy,
            ),
        final(game_state).sprites == old(game_state).sprites,
        final(game_state).window_buffer == old(game_state).window_buffer,
        final(game_state).window_width == old(game_state).window_width,
        final(game_state).window_height == old(game_state).window_height,
{
    let ghost m0 = game_state@;
    core_logic_operations[0].apply(game_state, now);
    core_logic_operations[1].apply(game_state, now);
    core_logic_operations[2].apply(game_state, now);
    core_logic_operations[3].apply(game_state, now);
    core_logic_operations[4].apply(game_state, now);
    core_logic_operations[5].apply(game_state, now);
    core_logic_operations[6].apply(game_state, now);
    let ghost m7 = game_state@;
    core_logic_operations[7].apply(game_state, now);
    let ghost m8 = game_state@;
    core_logic_operations[8].apply(game_state, now);
    core_logic_operations[9].apply(game_state, now);
    core_logic_operations[10].apply(game_state, now);
    core_logic_operations[11].apply(game_state, now);
    core_logic_operations[12].apply(game_state, now);
    core_logic_operations[13].apply(game_state, now);
    proof {
        let (fx, fy) = choose|fx: i64, fy: i64|
            spawn_range_ok(fx, fy) && m8 == spawn_food_spec(m7, now, fx, fy);
        assert(spawn_range_ok(fx, fy) && game_state@ == core_logic_spec(m0, now, fx, fy));
    }
}

} // verus!
