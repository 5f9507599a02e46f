//! Tests of the per-tick pipeline and the full render pass.

use space_wurm::constants::{
    ART_HEIGHT, ART_WIDTH, MOVE_INTERVAL_MS, PLAYER_START_X, PLAYER_START_Y,
};
use space_wurm::core_logic::{execute_core_logic, initialize_core_logic_map};
use space_wurm::event_loop::advance_frame;
use space_wurm::sprites::{SpriteFrame, SpriteMaps};
use space_wurm::structs::{Direction, GameState, Snake};
use space_wurm::update_graphics::{
    compute_darkness, draw_game_over_screen, u32_digits, update_pixel_buffer,
};

fn frame(width: u32, height: u32, color: u32) -> SpriteFrame {
    let data = vec![color; (width * height) as usize];
    SpriteFrame::new(width, height, data)
}

fn frames(count: usize, width: u32, height: u32, color: u32) -> Vec<SpriteFrame> {
    (0..count).map(|_| frame(width, height, color)).collect()
}

fn full_sprites() -> SpriteMaps {
    SpriteMaps::new(
        frames(2, 2, 2, 0xFF00FF00),
        frames(6, 4, 4, 0xFF101010),
        frames(2, 4, 4, 0xFFFF0000),
        frames(4, 4, 4, 0xFF0000FF),
        frames(2, 2, 2, 0xFF00FFFF),
        frames(8, 4, 4, 0xFF808080),
        frames(1, 2, 2, 0xFF111111),
        frames(1, 2, 2, 0xFF222222),
        frames(1, 2, 2, 0xFF333333),
    )
}

fn make_state() -> GameState {
    let player = Snake::new(PLAYER_START_X, PLAYER_START_Y, Direction::Right, 0);
    let buffer = vec![0u32; ART_WIDTH * ART_HEIGHT];
    GameState::new(player, full_sprites(), buffer, 960, 540, 0)
}

fn move_body_far(state: &mut GameState) {
    // Keep the creature far outside the food spawn range so a random
    // spawn can never land on the head and make a tick nondeterministic.
    for segment in state.player.body.iter_mut() {
        segment.x += 400_000;
        segment.y += 400_000;
    }
}

#[test]
fn tick_spawns_food_and_advances_clock() {
    let mut state = make_state();
    move_body_far(&mut state);
    let ops = initialize_core_logic_map();
    execute_core_logic(&mut state, &ops, 1_000);
    assert!(state.food.is_active);
    assert_eq!(state.last_frame_time, Some(1_000));
    assert_eq!(state.delta_time, 0);
    assert!(!state.game_over);
    execute_core_logic(&mut state, &ops, 1_016);
    assert_eq!(state.delta_time, 16);
    assert_eq!(state.player.move_timer, 16);
}

#[test]
fn tick_moves_body_after_interval() {
    let mut state = make_state();
    move_body_far(&mut state);
    let ops = initialize_core_logic_map();
    let head_before = state.player.body[0];
    execute_core_logic(&mut state, &ops, 0);
    execute_core_logic(&mut state, &ops, MOVE_INTERVAL_MS);
    // The accumulated delta reaches the interval, so the head advances one
    // body width to the right.
    assert_eq!(state.player.body[0].x, head_before.x + 6_000);
    assert_eq!(state.player.body[0].y, head_before.y);
}

#[test]
fn tick_restarts_after_game_over() {
    let mut state = make_state();
    let ops = initialize_core_logic_map();
    state.score = 900;
    state.game_over = true;
    execute_core_logic(&mut state, &ops, 5_000);
    assert!(!state.game_over);
    assert_eq!(state.last_frame_time, Some(5_000));
    assert_eq!(state.player.move_interval, MOVE_INTERVAL_MS);
    assert_eq!(state.player.vx, 0);
}

#[test]
fn render_pass_fills_buffer_and_scrolls() {
    let mut state = make_state();
    let offset_before = state.background_offset_x;
    update_pixel_buffer(&mut state);
    assert_eq!(state.background_offset_x, offset_before + 1);
    assert_eq!(state.window_buffer.len(), ART_WIDTH * ART_HEIGHT);
    // The last background layer is opaque and covers its top-left corner.
    assert_eq!(state.window_buffer[0], 0xFF222222);
    // The rest of the buffer was never covered by the tiny layers and
    // keeps its cleared value, except where creature, food or score drew.
    assert_eq!(state.window_buffer[ART_WIDTH * ART_HEIGHT - 1], 0);
}

#[test]
fn render_pass_draws_score_digit() {
    let mut state = make_state();
    update_pixel_buffer(&mut state);
    // Score zero renders the single '0' glyph centred near the top: width
    // six, so it starts at column 125; its top row is 0b011110.
    let row = 10 * ART_WIDTH;
    assert_eq!(state.window_buffer[row + 125], 0);
    for col in 126..130 {
        assert_eq!(state.window_buffer[row + col], 0xFFFFFFFF);
    }
    assert_eq!(state.window_buffer[row + 130], 0);
}

#[test]
fn game_over_screen_covers_buffer_with_score() {
    let mut state = make_state();
    state.score = 42;
    draw_game_over_screen(&mut state, 3);
    // The opaque full-screen frame would be visible where it covers; the
    // test frames are 4x4, so only the corner shows it.
    assert_eq!(state.window_buffer[0], 0xFF808080);
    // The score line lands 20 rows above the bottom edge; its glyphs write
    // pure white somewhere in that text row band.
    let band_start = (ART_HEIGHT - 20) * ART_WIDTH;
    let band_end = (ART_HEIGHT - 12) * ART_WIDTH;
    assert!(state.window_buffer[band_start..band_end]
        .iter()
        .any(|&p| p == 0xFFFFFFFF));
}

#[test]
fn digits_render_most_significant_first() {
    assert_eq!(u32_digits(0), vec!['0']);
    assert_eq!(u32_digits(7), vec!['7']);
    assert_eq!(u32_digits(100), vec!['1', '0', '0']);
    assert_eq!(u32_digits(10_230), vec!['1', '0', '2', '3', '0']);
    assert_eq!(
        u32_digits(u32::MAX),
        vec!['4', '2', '9', '4', '9', '6', '7', '2', '9', '5']
    );
}

#[test]
fn vignette_darkness_tiers() {
    assert_eq!(compute_darkness(100_000), None);
    assert_eq!(compute_darkness(134_736), None);
    assert_eq!(compute_darkness(134_737), Some(80));
    assert_eq!(compute_darkness(142_223), Some(70));
    assert_eq!(compute_darkness(150_589), Some(60));
    assert_eq!(compute_darkness(250_000), Some(60));
}

#[test]
fn frame_runs_input_logic_and_render() {
    let mut state = make_state();
    let ops = initialize_core_logic_map();
    advance_frame(&mut state, &ops, 2_000, false, false, false, true);
    assert_eq!(state.player.direction, Direction::Right);
    assert_eq!(state.player.vx, 98);
    assert!(state.food.is_active);
    assert_eq!(state.last_frame_time, Some(2_000));
    assert_eq!(state.background_offset_x, 1);
    // The render pass ran: the opaque station layer covers the corner.
    assert_eq!(state.window_buffer[0], 0xFF222222);
}

#[test]
fn render_pass_ignores_prior_buffer_under_covering_strip() {
    // With a fully-opaque blue strip spanning the surface, the composed
    // buffer is a function of the game state alone: two render passes over
    // different prior contents agree byte for byte.
    let covering = || {
        SpriteMaps::new(
            frames(2, 2, 2, 0xFF00FF00),
            frames(6, 4, 4, 0xFF101010),
            frames(2, 4, 4, 0xFFFF0000),
            frames(4, 4, 4, 0xFF0000FF),
            frames(2, 2, 2, 0xFF00FFFF),
            frames(8, 4, 4, 0xFF808080),
            frames(1, 2, 2, 0xFF111111),
            frames(1, 2, 2, 0xFF222222),
            frames(1, ART_WIDTH as u32, ART_HEIGHT as u32, 0xFF000033),
        )
    };
    let player = || Snake::new(PLAYER_START_X, PLAYER_START_Y, Direction::Right, 0);
    let mut a = GameState::new(
        player(),
        covering(),
        vec![0u32; ART_WIDTH * ART_HEIGHT],
        960,
        540,
        0,
    );
    let mut b = GameState::new(
        player(),
        covering(),
        vec![0x12345678u32; ART_WIDTH * ART_HEIGHT],
        960,
        540,
        0,
    );
    update_pixel_buffer(&mut a);
    update_pixel_buffer(&mut b);
    assert_eq!(a.window_buffer, b.window_buffer);
    // And the strip shows through where nothing else drew.
    assert_eq!(a.window_buffer[ART_WIDTH * ART_HEIGHT - 1], 0xFF000033);
}
