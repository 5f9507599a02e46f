//! Tests of the core-logic operations: locomotion, bounds, collision, food
//! resolution, velocities, animation and restart.

use space_wurm::background::{AlternateGlobeSpriteFrame, AlternateStarsSpriteFrame};
use space_wurm::collision::CheckSelfCollision;
use space_wurm::constants::{
    FOOD_SCORE_INCREMENT, FOOD_START_X, FOOD_START_Y, LOWER_BOUND_X, LOWER_BOUND_Y,
    MOVE_INTERVAL_MS, PLAYER_START_X, PLAYER_START_Y, UPPER_BOUND_X, UPPER_BOUND_Y,
};
use space_wurm::core_logic::{
    decrease_x_velocity, decrease_y_velocity, increase_x_velocity, increase_y_velocity,
    HorizontalBounds, ModifyPosition, VerticalBounds,
};
use space_wurm::food::{AlternateBetweenFoodSpriteFrames, CheckIfFoodWasEaten, SpawnFood};
use space_wurm::game_over::CheckGameOver;
use space_wurm::input::{handle_user_input, MoveDown, MoveLeft, MoveRight, MoveUp};
use space_wurm::movement::ModifyCoordinatesOfBodyParts;
use space_wurm::perks::CheckNewPerk;
use space_wurm::snake::{AlternateBodySpriteFrameIndex, AlternateHeadSpriteFrameIndex};
use space_wurm::sprites::SpriteMaps;
use space_wurm::structs::{Direction, GameState, Snake, Vector2D};

fn empty_sprites() -> SpriteMaps {
    SpriteMaps::new(
        Vec::new(),
        Vec::new(),
        Vec::new(),
        Vec::new(),
        Vec::new(),
        Vec::new(),
        Vec::new(),
        Vec::new(),
        Vec::new(),
    )
}

fn make_state() -> GameState {
    let player = Snake::new(PLAYER_START_X, PLAYER_START_Y, Direction::Right, 0);
    GameState::new(player, empty_sprites(), Vec::new(), 960, 540, 0)
}

fn set_body(state: &mut GameState, segments: &[(i64, i64)]) {
    state.player.body = segments.iter().map(|&(x, y)| Vector2D { x, y }).collect();
}

#[test]
fn snake_new_places_trailing_segments_behind() {
    let s = Snake::new(40_000, 150_000, Direction::Right, 0);
    assert_eq!(s.body.len(), 3);
    assert_eq!((s.body[0].x, s.body[0].y), (40_000, 150_000));
    assert_eq!((s.body[1].x, s.body[1].y), (28_000, 150_000));
    assert_eq!((s.body[2].x, s.body[2].y), (22_000, 150_000));
    assert_eq!(s.direction, Direction::Right);
    assert_eq!(s.move_interval, MOVE_INTERVAL_MS);
    assert_eq!((s.vx, s.vy), (0, 0));
}

#[test]
fn grid_locomotion_propagates_tail_to_head() {
    let mut state = make_state();
    set_body(&mut state, &[(0, 0), (10_000, 0), (20_000, 0)]);
    state.player.direction = Direction::Right;
    state.player.move_timer = 0;
    state.delta_time = MOVE_INTERVAL_MS;
    ModifyCoordinatesOfBodyParts.execute(&mut state);
    // The head advances one body width; each trailing segment takes its
    // predecessor's pre-move position, never an already-moved one.
    assert_eq!((state.player.body[0].x, state.player.body[0].y), (6_000, 0));
    assert_eq!((state.player.body[1].x, state.player.body[1].y), (0, 0));
    assert_eq!((state.player.body[2].x, state.player.body[2].y), (10_000, 0));
    assert_eq!(state.player.move_timer, 0);
}

#[test]
fn grid_locomotion_waits_for_interval() {
    let mut state = make_state();
    set_body(&mut state, &[(0, 0), (10_000, 0)]);
    state.delta_time = MOVE_INTERVAL_MS - 1;
    ModifyCoordinatesOfBodyParts.execute(&mut state);
    assert_eq!((state.player.body[0].x, state.player.body[0].y), (0, 0));
    assert_eq!(state.player.move_timer, MOVE_INTERVAL_MS - 1);
}

#[test]
fn single_segment_never_collides() {
    let mut state = make_state();
    set_body(&mut state, &[(50_000, 50_000)]);
    CheckSelfCollision.execute(&mut state);
    assert!(!state.game_over);
}

#[test]
fn collision_reports_first_overlapping_segment() {
    let body = vec![
        Vector2D { x: 0, y: 0 },
        Vector2D { x: 100_000, y: 0 },
        Vector2D { x: 500, y: 0 },
        Vector2D { x: 600, y: 0 },
    ];
    assert_eq!(CheckSelfCollision::first_collision(&body), Some(2));
    let mut state = make_state();
    state.player.body = body;
    CheckSelfCollision.execute(&mut state);
    assert!(state.game_over);
}

#[test]
fn collision_requires_both_axes_within_tolerance() {
    let body = vec![
        Vector2D { x: 0, y: 0 },
        Vector2D { x: 500, y: 1_000 },
    ];
    assert_eq!(CheckSelfCollision::first_collision(&body), None);
}

#[test]
fn eating_food_grows_scores_and_deactivates() {
    let mut state = make_state();
    set_body(&mut state, &[(100_000, 100_000), (94_000, 100_000), (88_000, 100_000)]);
    state.player.direction = Direction::Right;
    state.food.position = Vector2D { x: 105_000, y: 100_000 };
    state.food.is_active = true;
    CheckIfFoodWasEaten.execute(&mut state);
    assert_eq!(state.player.body.len(), 4);
    // The new segment trails one body width behind the prior tail.
    let tail = state.player.body[3];
    assert_eq!((tail.x, tail.y), (82_000, 100_000));
    assert_eq!(state.score, FOOD_SCORE_INCREMENT);
    assert!(!state.food.is_active);
    assert!(state.player.proximity_to_food);
}

#[test]
fn proximity_sets_flag_without_growth() {
    let mut state = make_state();
    set_body(&mut state, &[(100_000, 100_000)]);
    state.food.position = Vector2D { x: 120_000, y: 100_000 };
    state.food.is_active = true;
    CheckIfFoodWasEaten.execute(&mut state);
    assert!(state.player.proximity_to_food);
    assert_eq!(state.player.body.len(), 1);
    assert_eq!(state.score, 0);
    assert!(state.food.is_active);
}

#[test]
fn far_food_clears_proximity_flag() {
    let mut state = make_state();
    set_body(&mut state, &[(100_000, 100_000)]);
    state.player.proximity_to_food = true;
    state.food.position = Vector2D { x: 200_000, y: 100_000 };
    state.food.is_active = true;
    CheckIfFoodWasEaten.execute(&mut state);
    assert!(!state.player.proximity_to_food);
}

#[test]
fn inactive_food_is_ignored() {
    let mut state = make_state();
    set_body(&mut state, &[(100_000, 100_000)]);
    state.food.position = Vector2D { x: 100_000, y: 100_000 };
    state.food.is_active = false;
    CheckIfFoodWasEaten.execute(&mut state);
    assert_eq!(state.player.body.len(), 1);
    assert_eq!(state.score, 0);
}

#[test]
fn spawn_food_lands_inside_margins() {
    let mut state = make_state();
    state.food.is_active = false;
    SpawnFood.execute(&mut state, 42);
    assert!(state.food.is_active);
    assert_eq!(state.food.sprite_frame_index, 0);
    assert_eq!(state.food.last_sprite_frame_index_update_time, 42);
    assert!(state.food.position.x >= LOWER_BOUND_X + 10_000);
    assert!(state.food.position.x < UPPER_BOUND_X - 10_000);
    assert!(state.food.position.y >= LOWER_BOUND_Y + 10_000);
    assert!(state.food.position.y < UPPER_BOUND_Y - 10_000);
}

#[test]
fn spawn_food_noop_while_active() {
    let mut state = make_state();
    state.food.is_active = true;
    state.food.position = Vector2D { x: 123, y: 456 };
    SpawnFood.execute(&mut state, 42);
    assert_eq!((state.food.position.x, state.food.position.y), (123, 456));
}

#[test]
fn vertical_bounds_reflect_and_zero_velocity() {
    let mut state = make_state();
    // The leading edge sits exactly on the lower bound: y + 16px == 10px.
    state.player.y = -6_000;
    state.player.vy = 2_000;
    VerticalBounds.execute(&mut state);
    assert_eq!(state.player.y, 10_000);
    assert_eq!(state.player.vy, 0);

    let mut state = make_state();
    state.player.y = 210_000;
    state.player.vy = 1_500;
    VerticalBounds.execute(&mut state);
    assert_eq!(state.player.y, 194_000);
    assert_eq!(state.player.vy, 0);
}

#[test]
fn horizontal_bounds_reflect_and_zero_velocity() {
    let mut state = make_state();
    state.player.x = -7_000;
    state.player.vx = 900;
    HorizontalBounds.execute(&mut state);
    assert_eq!(state.player.x, 9_000);
    assert_eq!(state.player.vx, 0);

    let mut state = make_state();
    state.player.x = 245_000;
    state.player.vx = 900;
    HorizontalBounds.execute(&mut state);
    assert_eq!(state.player.x, 229_000);
    assert_eq!(state.player.vx, 0);
}

#[test]
fn bounds_leave_interior_positions_alone() {
    let mut state = make_state();
    state.player.x = 100_000;
    state.player.y = 100_000;
    state.player.vx = 500;
    state.player.vy = 700;
    VerticalBounds.execute(&mut state);
    HorizontalBounds.execute(&mut state);
    assert_eq!((state.player.x, state.player.y), (100_000, 100_000));
    assert_eq!((state.player.vx, state.player.vy), (500, 700));
}

#[test]
fn velocity_accumulates_with_damping_and_saturates() {
    let mut state = make_state();
    increase_x_velocity(&mut state);
    // (0 + 100) * 98 / 100 = 98.
    assert_eq!(state.player.vx, 98);
    increase_x_velocity(&mut state);
    // (98 + 100) * 98 / 100 = 194.
    assert_eq!(state.player.vx, 194);
    for _ in 0..200 {
        increase_x_velocity(&mut state);
    }
    assert_eq!(state.player.vx, 3_000);
    increase_y_velocity(&mut state);
    assert_eq!(state.player.vy, 98);
}

#[test]
fn velocity_decay_snaps_to_zero() {
    let mut state = make_state();
    state.player.vx = 2_000;
    decrease_x_velocity(&mut state);
    assert_eq!(state.player.vx, 1_900);
    state.player.vx = 98;
    decrease_x_velocity(&mut state);
    assert_eq!(state.player.vx, 0);
    state.player.vy = 104;
    decrease_y_velocity(&mut state);
    // 104 * 95 / 100 = 98, below the stop threshold.
    assert_eq!(state.player.vy, 0);
}

#[test]
fn modify_position_moves_along_active_axis_only() {
    let mut state = make_state();
    state.player.x = 100_000;
    state.player.y = 50_000;
    state.player.vx = 700;
    state.player.vy = 900;
    state.player.direction = Direction::Right;
    ModifyPosition.execute(&mut state);
    assert_eq!((state.player.x, state.player.y), (100_700, 50_000));
    state.player.direction = Direction::Up;
    ModifyPosition.execute(&mut state);
    assert_eq!((state.player.x, state.player.y), (100_700, 49_100));
}

#[test]
fn input_intents_set_direction_and_velocity() {
    let mut state = make_state();
    MoveUp.execute(&mut state);
    assert_eq!(state.player.direction, Direction::Up);
    assert_eq!(state.player.last_key, Some(Direction::Up));
    assert_eq!(state.player.vy, 98);
    MoveLeft.execute(&mut state);
    assert_eq!(state.player.direction, Direction::Left);
    assert_eq!(state.player.vx, 98);
    MoveDown.execute(&mut state);
    assert_eq!(state.player.direction, Direction::Down);
    MoveRight.execute(&mut state);
    assert_eq!(state.player.direction, Direction::Right);
    assert_eq!(state.player.last_key, Some(Direction::Right));
}

#[test]
fn held_keys_apply_in_fixed_order() {
    let mut state = make_state();
    handle_user_input(&mut state, true, false, false, true);
    // Up runs before right, so right wins the direction.
    assert_eq!(state.player.direction, Direction::Right);
    assert_eq!(state.player.vy, 98);
    assert_eq!(state.player.vx, 98);
}

#[test]
fn food_frame_alternates_on_interval() {
    let mut state = make_state();
    state.food.is_active = true;
    state.food.sprite_frame_index = 0;
    state.food.last_sprite_frame_index_update_time = 0;
    AlternateBetweenFoodSpriteFrames.execute(&mut state, 499);
    assert_eq!(state.food.sprite_frame_index, 0);
    AlternateBetweenFoodSpriteFrames.execute(&mut state, 500);
    assert_eq!(state.food.sprite_frame_index, 1);
    assert_eq!(state.food.last_sprite_frame_index_update_time, 500);
    AlternateBetweenFoodSpriteFrames.execute(&mut state, 1_000);
    assert_eq!(state.food.sprite_frame_index, 0);
}

#[test]
fn body_frame_alternates_on_interval() {
    let mut state = make_state();
    state.player.body_last_sprite_frame_index_update_time = 0;
    AlternateBodySpriteFrameIndex.execute(&mut state, 1_499);
    assert_eq!(state.player.body_sprite_frame_index, 0);
    AlternateBodySpriteFrameIndex.execute(&mut state, 1_500);
    assert_eq!(state.player.body_sprite_frame_index, 1);
}

#[test]
fn head_frame_follows_cycle_and_proximity() {
    let mut state = make_state();
    state.player.head_last_sprite_frame_index_update_time = 0;
    AlternateHeadSpriteFrameIndex.execute(&mut state, 0);
    assert_eq!(state.player.head_sprite_frame_index, 2);
    AlternateHeadSpriteFrameIndex.execute(&mut state, 499);
    assert_eq!(state.player.head_sprite_frame_index, 2);
    AlternateHeadSpriteFrameIndex.execute(&mut state, 500);
    assert_eq!(state.player.head_sprite_frame_index, 0);
    AlternateHeadSpriteFrameIndex.execute(&mut state, 1_000);
    assert_eq!(state.player.head_sprite_frame_index, 1);
    AlternateHeadSpriteFrameIndex.execute(&mut state, 1_499);
    assert_eq!(state.player.head_sprite_frame_index, 1);
    // Selection is a function of elapsed time alone: re-evaluating at the
    // same instant gives the same frame.
    AlternateHeadSpriteFrameIndex.execute(&mut state, 1_000);
    assert_eq!(state.player.head_sprite_frame_index, 1);
    // A full cycle later the blink frame returns.
    AlternateHeadSpriteFrameIndex.execute(&mut state, 5_000);
    assert_eq!(state.player.head_sprite_frame_index, 2);
    state.player.proximity_to_food = true;
    AlternateHeadSpriteFrameIndex.execute(&mut state, 1_000);
    assert_eq!(state.player.head_sprite_frame_index, 3);
}

#[test]
fn background_frames_wrap_modulo_count() {
    let mut state = make_state();
    state.background_sprite_frame_index = 5;
    state.background_last_sprite_frame_update_time = 0;
    AlternateGlobeSpriteFrame.execute(&mut state, 1_000);
    assert_eq!(state.background_sprite_frame_index, 0);
    assert_eq!(state.background_last_sprite_frame_update_time, 1_000);
    state.stars_sprite_frame_index = 5;
    state.stars_last_sprite_frame_update_time = 0;
    AlternateStarsSpriteFrame.execute(&mut state, 250);
    assert_eq!(state.stars_sprite_frame_index, 0);
}

#[test]
fn restart_matches_fresh_state_field_by_field() {
    let mut state = make_state();
    // Play a little: grow, score, scroll, flip frames, then die.
    set_body(&mut state, &[(100_000, 100_000), (94_000, 100_000)]);
    state.score = 700;
    state.player.vx = 500;
    state.player.move_timer = 50;
    state.background_offset_x = 99;
    state.background_sprite_frame_index = 3;
    state.stars_sprite_frame_index = 4;
    state.food.is_active = true;
    state.game_over = true;
    CheckGameOver.execute(&mut state, 777);

    let fresh = GameState::new(
        Snake::new(PLAYER_START_X, PLAYER_START_Y, Direction::Right, 777),
        empty_sprites(),
        Vec::new(),
        960,
        540,
        777,
    );
    assert_eq!(state.player.body.len(), fresh.player.body.len());
    for i in 0..fresh.player.body.len() {
        assert_eq!(state.player.body[i], fresh.player.body[i]);
    }
    assert_eq!(state.player.direction, fresh.player.direction);
    assert_eq!(state.player.last_key, fresh.player.last_key);
    assert_eq!((state.player.x, state.player.y), (fresh.player.x, fresh.player.y));
    assert_eq!((state.player.vx, state.player.vy), (fresh.player.vx, fresh.player.vy));
    assert_eq!(state.player.move_timer, fresh.player.move_timer);
    assert_eq!(state.player.move_interval, fresh.player.move_interval);
    assert_eq!(
        state.player.body_sprite_frame_index,
        fresh.player.body_sprite_frame_index
    );
    assert_eq!(
        state.player.head_sprite_frame_index,
        fresh.player.head_sprite_frame_index
    );
    assert_eq!(state.player.proximity_to_food, fresh.player.proximity_to_food);
    assert_eq!(state.food, fresh.food);
    assert_eq!(state.score, fresh.score);
    assert_eq!(state.game_over, fresh.game_over);
    assert_eq!(state.delta_time, fresh.delta_time);
    assert_eq!(state.last_frame_time, fresh.last_frame_time);
    assert_eq!(
        state.background_sprite_frame_index,
        fresh.background_sprite_frame_index
    );
    assert_eq!(state.background_offset_x, fresh.background_offset_x);
    assert_eq!(state.stars_sprite_frame_index, fresh.stars_sprite_frame_index);
    assert_eq!(state.perk_available, fresh.perk_available);
    assert_eq!(state.selected_perk, fresh.selected_perk);
}

#[test]
fn game_over_pass_leaves_live_state_alone() {
    let mut state = make_state();
    state.score = 300;
    state.game_over = false;
    CheckGameOver.execute(&mut state, 999);
    assert_eq!(state.score, 300);
    assert!(!state.game_over);
}

#[test]
fn initial_food_starts_inactive_at_fixed_position() {
    let state = make_state();
    assert!(!state.food.is_active);
    assert_eq!(
        (state.food.position.x, state.food.position.y),
        (FOOD_START_X, FOOD_START_Y)
    );
    assert_eq!(state.score, 0);
    assert!(!state.game_over);
}

#[test]
fn timing_update_records_delta_between_frames() {
    let mut state = make_state();
    state.update_timing(1_000);
    assert_eq!(state.delta_time, 0);
    assert_eq!(state.last_frame_time, Some(1_000));
    state.update_timing(1_016);
    assert_eq!(state.delta_time, 16);
    assert_eq!(state.last_frame_time, Some(1_016));
}

#[test]
fn perk_highlight_steps_and_clamps() {
    assert_eq!(CheckNewPerk::step_highlight(None, 1), 1);
    assert_eq!(CheckNewPerk::step_highlight(None, -1), 1);
    assert_eq!(CheckNewPerk::step_highlight(Some(1), 1), 2);
    assert_eq!(CheckNewPerk::step_highlight(Some(2), 1), 2);
    assert_eq!(CheckNewPerk::step_highlight(Some(2), -1), 1);
    assert_eq!(CheckNewPerk::step_highlight(Some(1), -1), 1);
}

#[test]
fn perk_effects_apply() {
    let mut state = make_state();
    state.perk_available = true;
    CheckNewPerk.apply_selection(&mut state, 1);
    assert_eq!(state.player.move_interval, MOVE_INTERVAL_MS - 10);
    assert!(!state.perk_available);
    assert_eq!(state.selected_perk, Some(1));

    let mut state = make_state();
    state.score = 250;
    state.perk_available = true;
    CheckNewPerk.apply_selection(&mut state, 2);
    assert_eq!(state.score, 500);
}
