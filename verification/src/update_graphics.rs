//! The per-frame render pass: redraws the whole logical pixel buffer from
//! the simulation state — background layers with parallax, the food item,
//! the creature, and the score — with edge-vignette darkness shading.

use vstd::prelude::*;

verus! {

use crate::constants::{
    ART_HEIGHT, ART_WIDTH, COORD_SCALE, DARKNESS_FAR_FACTOR, DARKNESS_FAR_X, DARKNESS_MID_FACTOR,
    DARKNESS_MID_X, DARKNESS_NEAR_FACTOR, DARKNESS_NEAR_X,
};
use crate::sprites::{chan_a, draw_sprite, draw_sprite_spec, lemma_opaque_full_cover_draw,
    SpriteFrame, SpriteMaps, sprite_maps_wf};
use crate::structs::{coord_to_px, Direction, Food, GameModel, GameState, px_of, SnakeModel,
    state_wf, Vector2D};
use crate::symbols::{draw_character, draw_character_spec};

/// The vignette darkness applied to a sprite at the given fixed-point x
/// position: the further right past each threshold, the darker.
pub open spec fn darkness_for_x(x: i64) -> Option<u32> {
    if x > DARKNESS_NEAR_X {
        Some(DARKNESS_NEAR_FACTOR)
    } else if x > DARKNESS_MID_X {
        Some(DARKNESS_MID_FACTOR)
    } else if x > DARKNESS_FAR_X {
        Some(DARKNESS_FAR_FACTOR)
    } else {
        None
    }
}

/// Computes the vignette darkness for a fixed-point x position.
pub fn compute_darkness(x: i64) -> (r: Option<u32>)
    ensures
        r == darkness_for_x(x),
        r matches Some(d) ==> d <= 100,
{
    if x > DARKNESS_NEAR_X {
        Some(DARKNESS_NEAR_FACTOR)
    } else if x > DARKNESS_MID_X {
        Some(DARKNESS_MID_FACTOR)
    } else if x > DARKNESS_FAR_X {
        Some(DARKNESS_FAR_FACTOR)
    } else {
        None
    }
}

/// The character of a single decimal digit.
pub open spec fn digit_char(d: int) -> char {
    if d == 0 {
        '0'
    } else if d == 1 {
        '1'
    } else if d == 2 {
        '2'
    } else if d == 3 {
        '3'
    } else if d == 4 {
        '4'
    } else if d == 5 {
        '5'
    } else if d == 6 {
        '6'
    } else if d == 7 {
        '7'
    } else if d == 8 {
        '8'
    } else {
        '9'
    }
}

/// The decimal digit characters of a number, most significant first.
pub open spec fn digits_spec(n: int) -> Seq<char>
    decreases n,
{
    if n < 10 {
        seq![digit_char(n)]
    } else {
        digits_spec(n / 10).push(digit_char(n % 10))
    }
}

/// Renders a number as its decimal digit characters.
pub fn u32_digits(n: u32) -> (r: Vec<char>)
    ensures
        r@ == digits_spec(n as int),
        r@.len() >= 1,
    decreases n,
{
    if n < 10 {
        let d: char = match n {
            0 => '0',
            1 => '1',
            2 => '2',
            3 => '3',
            4 => '4',
            5 => '5',
            6 => '6',
            7 => '7',
            8 => '8',
            _ => '9',
        };
        let mut v: Vec<char> = Vec::new();
        v.push(d);
        proof {
            assert(v@ =~= digits_spec(n as int));
        }
        v
    } else {
        let mut v = u32_digits(n / 10);
        let d: char = match n % 10 {
            0 => '0',
            1 => '1',
            2 => '2',
            3 => '3',
            4 => '4',
            5 => '5',
            6 => '6',
            7 => '7',
            8 => '8',
            _ => '9',
        };
        v.push(d);
        v
    }
}

/// The buffer after the first `n` characters of a text are drawn, starting
/// at `x0` and advancing `step` pixels per character.
pub open spec fn draw_text_upto(
    buf: Seq<u32>,
    text: Seq<char>,
    x0: int,
    y: int,
    step: int,
    n: int,
) -> Seq<u32>
    decreases n,
{
    if n <= 0 {
        buf
    } else {
        draw_character_spec(
            draw_text_upto(buf, text, x0, y, step, n - 1),
            text[n - 1],
            x0 + (n - 1) * step,
            y,
        )
    }
}

/// Leftmost pixel of the centred score line for a digit count.
pub open spec fn score_start_x(len: int) -> int {
    ART_WIDTH as int / 2 - (len * 6 + (len - 1) * 2) / 2
}

/// The buffer after the centred score line is drawn near the top edge.
pub open spec fn draw_score_spec(buf: Seq<u32>, score: u32) -> Seq<u32> {
    let text = digits_spec(score as int);
    draw_text_upto(buf, text, score_start_x(text.len() as int), 10, 8, text.len() as int)
}

/// Ten to the power `k`.
pub open spec fn pow10(k: int) -> int
    decreases k,
{
    if k <= 0 {
        1
    } else {
        10 * pow10(k - 1)
    }
}

/// Powers of ten are positive.
proof fn lemma_pow10_pos(k: int)
    ensures
        pow10(k) >= 1,
    decreases k,
{
    if k > 0 {
        lemma_pow10_pos(k - 1);
    }
}

/// Numbers below ten to the `k` have at most `k` digit characters.
proof fn lemma_digits_len_bound(n: int, k: int)
    requires
        1 <= k,
        0 <= n < pow10(k),
    ensures
        digits_spec(n).len() <= k,
    decreases k,
{
    lemma_pow10_pos(k - 1);
    if n >= 10 {
        if k == 1 {
            assert(pow10(1) == 10 * pow10(0));
            assert(false);
        }
        assert(n / 10 < pow10(k - 1)) by (nonlinear_arith)
            requires
                n < pow10(k),
                pow10(k) == 10 * pow10(k - 1),
                n >= 0,
                pow10(k - 1) >= 1,
        ;
        lemma_digits_len_bound(n / 10, k - 1);
    }
}

/// Decimal numbers of a `u32` have between one and ten digits.
pub proof fn lemma_digits_len(n: int)
    requires
        0 <= n <= u32::MAX,
    ensures
        1 <= digits_spec(n).len() <= 10,
{
    assert(pow10(1) == 10 * pow10(0));
    assert(pow10(2) == 10 * pow10(1));
    assert(pow10(3) == 10 * pow10(2));
    assert(pow10(4) == 10 * pow10(3));
    assert(pow10(5) == 10 * pow10(4));
    assert(pow10(6) == 10 * pow10(5));
    assert(pow10(7) == 10 * pow10(6));
    assert(pow10(8) == 10 * pow10(7));
    assert(pow10(9) == 10 * pow10(8));
    assert(pow10(10) == 10 * pow10(9));
    lemma_digits_len_bound(n, 10);
}

/// Draws the current score, centred, near the top edge of the buffer.
#[verifier::loop_isolation(false)]
pub fn draw_score(game_state: &mut GameState)
    ensures
        final(game_state).window_buffer@ == draw_score_spec(
            old(game_state).window_buffer@,
            old(game_state).score,
        ),
        final(game_state)@ == old(game_state)@,
        final(game_state).sprites == old(game_state).sprites,
        final(game_state).window_width == old(game_state).window_width,
        final(game_state).window_height == old(game_state).window_height,
{
    let score_text = u32_digits(game_state.score);
    let len = score_text.len();
    proof {
        lemma_digits_len(game_state.score as int);
    }
    let total_width = len * 6 + (len - 1) * 2;
    let start_x = ART_WIDTH / 2 - total_width / 2;
    let start_y: usize = 10;
    let ghost buf0 = game_state.window_buffer@;
    let mut i: usize = 0;
    while i < len
        invariant
            i <= len,
            game_state.window_buffer@ == draw_text_upto(
                buf0,
                score_text@,
                start_x as int,
                start_y as int,
                8,
                i as int,
            ),
            game_state@ == old(game_state)@,
            game_state.sprites == old(game_state).sprites,
            game_state.window_width == old(game_state).window_width,
            game_state.window_height == old(game_state).window_height,
        decreases len - i,
    {
        let x_pos = start_x + i * 8;
        draw_character(score_text[i], x_pos, start_y, &mut game_state.window_buffer);
        i += 1;
    }
}

/// The buffer after the food sprite is drawn at the food position with its
/// vignette darkness.
pub open spec fn draw_food_spec(buf: Seq<u32>, food: crate::structs::Food, sprites: SpriteMaps) -> Seq<u32> {
    let frame = sprites.food@[food.sprite_frame_index as int];
    draw_sprite_spec(
        buf,
        px_of(food.position.x),
        px_of(food.position.y),
        frame.width as int,
        frame.height as int,
        frame.data@,
        ART_WIDTH as int,
        darkness_for_x(food.position.x),
    )
}

/// Draws the food sprite at the food position, darkened near the right
/// edge.
pub fn draw_food(game_state: &mut GameState)
    requires
        sprite_maps_wf(old(game_state).sprites),
        state_wf(old(game_state)@),
    ensures
        final(game_state).window_buffer@ == draw_food_spec(
            old(game_state).window_buffer@,
            old(game_state).food,
            old(game_state).sprites,
        ),
        final(game_state)@ == old(game_state)@,
        final(game_state).sprites == old(game_state).sprites,
        final(game_state).window_width == old(game_state).window_width,
        final(game_state).window_height == old(game_state).window_height,
{
    let food_x = game_state.food.position.x;
    let darkness = compute_darkness(food_x);
    let fx = coord_to_px(food_x);
    let fy = coord_to_px(game_state.food.position.y);
    draw_sprite(
        fx,
        fy,
        &game_state.sprites.food[game_state.food.sprite_frame_index],
        &mut game_state.window_buffer,
        ART_WIDTH,
        darkness,
    );
}

/// How far the head sprite is pulled towards the origin on both axes,
/// depending on the direction of travel, in fixed-point units.
pub open spec fn head_offset(dir: Direction) -> i64 {
    match dir {
        Direction::Right => 0,
        Direction::Left => (10 * COORD_SCALE) as i64,
        Direction::Up => (7 * COORD_SCALE) as i64,
        Direction::Down => 0,
    }
}

/// The buffer after the head sprite is drawn at the (offset) head position.
pub open spec fn draw_head_spec(buf: Seq<u32>, p: SnakeModel, sprites: SpriteMaps) -> Seq<u32> {
    let head = p.body[0];
    let off = head_offset(p.direction);
    let frame = sprites.head@[p.head_sprite_frame_index as int];
    draw_sprite_spec(
        buf,
        px_of((head.x - off) as i64),
        px_of((head.y - off) as i64),
        frame.width as int,
        frame.height as int,
        frame.data@,
        ART_WIDTH as int,
        darkness_for_x(head.x),
    )
}

/// The buffer after body segments `1` to `n - 1` are drawn, each with its
/// own vignette darkness.
pub open spec fn draw_body_upto(
    buf: Seq<u32>,
    body: Seq<Vector2D>,
    frame: SpriteFrame,
    n: int,
) -> Seq<u32>
    decreases n,
{
    if n <= 1 {
        buf
    } else {
        let prev = draw_body_upto(buf, body, frame, n - 1);
        let seg = body[n - 1];
        draw_sprite_spec(
            prev,
            px_of(seg.x),
            px_of(seg.y),
            frame.width as int,
            frame.height as int,
            frame.data@,
            ART_WIDTH as int,
            darkness_for_x(seg.x),
        )
    }
}

/// Which tail frame a direction uses: the first for rightward and upward
/// travel, the second otherwise.
pub open spec fn tail_sprite_index(dir: Direction) -> int {
    if dir == Direction::Right || dir == Direction::Up {
        0
    } else {
        1
    }
}

/// The buffer after the tail sprite is drawn on the last body segment.
pub open spec fn draw_tail_spec(buf: Seq<u32>, p: SnakeModel, sprites: SpriteMaps) -> Seq<u32> {
    let tail = p.body[p.body.len() - 1];
    let frame = sprites.tail@[tail_sprite_index(p.direction)];
    draw_sprite_spec(
        buf,
        px_of(tail.x),
        px_of(tail.y),
        frame.width as int,
        frame.height as int,
        frame.data@,
        ART_WIDTH as int,
        darkness_for_x(tail.x),
    )
}

/// The buffer after the whole creature is drawn: head first, then the body
/// segments from neck to rump, then the tail.
pub open spec fn draw_player_spec(buf: Seq<u32>, p: SnakeModel, sprites: SpriteMaps) -> Seq<u32> {
    draw_tail_spec(
        draw_body_upto(
            draw_head_spec(buf, p, sprites),
            p.body,
            sprites.body@[p.body_sprite_frame_index as int],
            p.body.len() as int - 1,
        ),
        p,
        sprites,
    )
}

/// Draws the creature: the head with its direction-dependent offset, the
/// trailing body segments, and the tail, each darkened near the right edge.
#[verifier::loop_isolation(false)]
pub fn draw_player(game_state: &mut GameState)
    requires
        sprite_maps_wf(old(game_state).sprites),
        state_wf(old(game_state)@),
    ensures
        final(game_state).window_buffer@ == draw_player_spec(
            old(game_state).window_buffer@,
            old(game_state).player@,
            old(game_state).sprites,
        ),
        final(game_state)@ == old(game_state)@,
        final(game_state).sprites == old(game_state).sprites,
        final(game_state).window_width == old(game_state).window_width,
        final(game_state).window_height == old(game_state).window_height,
{
    let ghost buf0 = game_state.window_buffer@;
    let head = game_state.player.body[0];
    let darkness = compute_darkness(head.x);
    let offset: i64 = match game_state.player.direction {
        Direction::Right => 0,
        Direction::Left => 10 * COORD_SCALE,
        Direction::Up => 7 * COORD_SCALE,
        Direction::Down => 0,
    };
    let hx = coord_to_px(crate::structs::clamp_coord(head.x - offset));
    let hy = coord_to_px(crate::structs::clamp_coord(head.y - offset));
    proof {
        assert(old(game_state)@.player.body[0] == head);
        assert(px_of(crate::structs::clamp_coord_spec(head.x - offset)) == px_of(
            (head.x - offset) as i64,
        ));
        assert(px_of(crate::structs::clamp_coord_spec(head.y - offset)) == px_of(
            (head.y - offset) as i64,
        ));
    }
    draw_sprite(
        hx,
        hy,
        &game_state.sprites.head[game_state.player.head_sprite_frame_index],
        &mut game_state.window_buffer,
        ART_WIDTH,
        darkness,
    );
    let ghost buf_head = game_state.window_buffer@;
    let len = game_state.player.body.len();
    let ghost body_frame = game_state.sprites.body@[
        game_state.player.body_sprite_frame_index as int];
    let mut i: usize = 1;
    while i + 1 < len
        invariant
            1 <= i,
            i + 1 <= len || i == 1,
            game_state.window_buffer@ == draw_body_upto(
                buf_head,
                game_state.player.body@,
                body_frame,
                i as int,
            ),
            game_state@ == old(game_state)@,
            game_state.sprites == old(game_state).sprites,
            game_state.window_width == old(game_state).window_width,
            game_state.window_height == old(game_state).window_height,
        decreases len - i,
    {
        let seg = game_state.player.body[i];
        let seg_darkness = compute_darkness(seg.x);
        let sx = coord_to_px(seg.x);
        let sy = coord_to_px(seg.y);
        draw_sprite(
            sx,
            sy,
            &game_state.sprites.body[game_state.player.body_sprite_frame_index],
            &mut game_state.window_buffer,
            ART_WIDTH,
            seg_darkness,
        );
        i += 1;
    }
    proof {
        if len == 1 {
            assert(draw_body_upto(buf_head, game_state.player.body@, body_frame, 0) == buf_head);
        }
        assert(game_state.window_buffer@ == draw_body_upto(
            buf_head,
            game_state.player.body@,
            body_frame,
            len as int - 1,
        ));
    }
    let tail_index = if matches!(game_state.player.direction, Direction::Right)
        || matches!(game_state.player.direction, Direction::Up) {
        0
    } else {
        1
    };
    let tail = game_state.player.body[len - 1];
    let tail_darkness = compute_darkness(tail.x);
    let tx = coord_to_px(tail.x);
    let ty = coord_to_px(tail.y);
    draw_sprite(
        tx,
        ty,
        &game_state.sprites.tail[tail_index],
        &mut game_state.window_buffer,
        ART_WIDTH,
        tail_darkness,
    );
}

/// The parallax scroll offset after one frame: it advances by one pixel and
/// holds still once it can no longer be represented.
pub open spec fn bump_offset(o: usize) -> usize {
    if o < usize::MAX {
        (o + 1) as usize
    } else {
        o
    }
}

/// The gameplay state after a background pass: only the parallax scroll
/// offset advances.
pub open spec fn background_scroll_spec(m: GameModel) -> GameModel {
    GameModel { background_offset_x: bump_offset(m.background_offset_x), ..m }
}

/// The buffer after the background pass: the blue strip, the star layer at
/// a twelfth of the scroll offset, and the static station layer.
pub open spec fn draw_background_spec(buf: Seq<u32>, offset_x: usize, sprites: SpriteMaps) -> Seq<
    u32,
> {
    let strip = sprites.blue_strip@[0];
    let stars = sprites.layer_0@[0];
    let station = sprites.layer_1@[0];
    let b1 = draw_sprite_spec(
        buf,
        0,
        0,
        strip.width as int,
        strip.height as int,
        strip.data@,
        ART_WIDTH as int,
        None,
    );
    let b2 = draw_sprite_spec(
        b1,
        offset_x as int / 12,
        0,
        stars.width as int,
        stars.height as int,
        stars.data@,
        ART_WIDTH as int,
        None,
    );
    draw_sprite_spec(
        b2,
        0,
        0,
        station.width as int,
        station.height as int,
        station.data@,
        ART_WIDTH as int,
        None,
    )
}

/// Draws the background layers: a blue strip to cover void spots, the star
/// layer moved by the parallax offset, and the static station layer; then
/// advances the scroll offset.
pub fn draw_background(state: &mut GameState)
    requires
        sprite_maps_wf(old(state).sprites),
    ensures
        final(state).window_buffer@ == draw_background_spec(
            old(state).window_buffer@,
            old(state).background_offset_x,
            old(state).sprites,
        ),
        final(state)@ == background_scroll_spec(old(state)@),
        final(state).sprites == old(state).sprites,
        final(state).window_width == old(state).window_width,
        final(state).window_height == old(state).window_height,
{
    draw_sprite(0, 0, &state.sprites.blue_strip[0], &mut state.window_buffer, ART_WIDTH, None);
    let offset_x = state.background_offset_x / 12;
    draw_sprite(offset_x, 0, &state.sprites.layer_0[0], &mut state.window_buffer, ART_WIDTH, None);
    if state.background_offset_x < usize::MAX {
        state.background_offset_x = state.background_offset_x + 1;
    }
    draw_sprite(0, 0, &state.sprites.layer_1[0], &mut state.window_buffer, ART_WIDTH, None);
    proof {
        assert(state@ =~= background_scroll_spec(old(state)@));
    }
}

/// The text line shown under the game-over screen.
pub open spec fn game_over_text(score: u32) -> Seq<char> {
    seq!['S', 'c', 'o', 'r', 'e', ':', ' '] + digits_spec(score as int)
}

/// Leftmost pixel of the game-over score line for a character count.
pub open spec fn game_over_text_x(len: int) -> int {
    ART_WIDTH as int / 3 - len * 6 / 2
}

/// The buffer after one game-over frame: the full-screen game-over sprite
/// overlaid with the final score near the bottom.
pub open spec fn draw_game_over_spec(buf: Seq<u32>, score: u32, index: int, sprites: SpriteMaps) -> Seq<u32> {
    let screen = sprites.game_over_screen@[index];
    let b1 = draw_sprite_spec(
        buf,
        0,
        0,
        screen.width as int,
        screen.height as int,
        screen.data@,
        ART_WIDTH as int,
        None,
    );
    let text = game_over_text(score);
    draw_text_upto(
        b1,
        text,
        game_over_text_x(text.len() as int),
        ART_HEIGHT as int - 20,
        8,
        text.len() as int,
    )
}

/// Draws one frame of the game-over screen with the final score centred
/// underneath.
#[verifier::loop_isolation(false)]
pub fn draw_game_over_screen(game_state: &mut GameState, index: usize)
    requires
        sprite_maps_wf(old(game_state).sprites),
        index < old(game_state).sprites.game_over_screen@.len(),
    ensures
        final(game_state).window_buffer@ == draw_game_over_spec(
            old(game_state).window_buffer@,
            old(game_state).score,
            index as int,
            old(game_state).sprites,
        ),
        final(game_state)@ == old(game_state)@,
        final(game_state).sprites == old(game_state).sprites,
        final(game_state).window_width == old(game_state).window_width,
        final(game_state).window_height == old(game_state).window_height,
{
    draw_sprite(
        0,
        0,
        &game_state.sprites.game_over_screen[index],
        &mut game_state.window_buffer,
        ART_WIDTH,
        None,
    );
    let mut text: Vec<char> = Vec::new();
    text.push('S');
    text.push('c');
    text.push('o');
    text.push('r');
    text.push('e');
    text.push(':');
    text.push(' ');
    let digits = u32_digits(game_state.score);
    let mut j: usize = 0;
    while j < digits.len()
        invariant
            j <= digits@.len(),
            text@ == seq!['S', 'c', 'o', 'r', 'e', ':', ' '] + digits@.subrange(0, j as int),
        decreases digits@.len() - j,
    {
        text.push(digits[j]);
        j += 1;
    }
    proof {
        lemma_digits_len(game_state.score as int);
        assert(digits@.subrange(0, digits@.len() as int) =~= digits@);
        assert(text@ == game_over_text(game_state.score));
    }
    let x_position = ART_WIDTH / 3 - text.len() * 6 / 2;
    let y_position = ART_HEIGHT - 20;
    let ghost buf1 = game_state.window_buffer@;
    let mut i: usize = 0;
    while i < text.len()
        invariant
            i <= text@.len(),
            game_state.window_buffer@ == draw_text_upto(
                buf1,
                text@,
                x_position as int,
                y_position as int,
                8,
                i as int,
            ),
            game_state@ == old(game_state)@,
            game_state.sprites == old(game_state).sprites,
            game_state.window_width == old(game_state).window_width,
            game_state.window_height == old(game_state).window_height,
        decreases text@.len() - i,
    {
        draw_character(text[i], x_position + i * 8, y_position, &mut game_state.window_buffer);
        i += 1;
    }
}

/// Redraws the whole logical pixel buffer from the simulation state:
/// background, food, creature, then the score.
pub fn update_pixel_buffer(game_state: &mut GameState)
    requires
        sprite_maps_wf(old(game_state).sprites),
        state_wf(old(game_state)@),
    ensures
        final(game_state).window_buffer@ == draw_score_spec(
            draw_player_spec(
                draw_food_spec(
                    draw_background_spec(
                        old(game_state).window_buffer@,
                        old(game_state).background_offset_x,
                        old(game_state).sprites,
                    ),
                    old(game_state).food,
                    old(game_state).sprites,
                ),
                old(game_state).player@,
                old(game_state).sprites,
            ),
            old(game_state).score,
        ),
        final(game_state)@ == background_scroll_spec(old(game_state)@),
        final(game_state).sprites == old(game_state).sprites,
        final(game_state).window_width == old(game_state).window_width,
        final(game_state).window_height == old(game_state).window_height,
{
    draw_background(game_state);
    draw_food(game_state);
    draw_player(game_state);
    draw_score(game_state);
}

/// A frame that spans the whole logical surface with fully opaque pixels —
/// what the bottom background layer must be for the render pass to
/// overwrite the surface completely.
pub open spec fn frame_covers_surface(f: SpriteFrame) -> bool {
    &&& f.width == ART_WIDTH
    &&& f.height == ART_HEIGHT
    &&& f.data@.len() == ART_WIDTH as int * ART_HEIGHT as int
    &&& forall|k: int| 0 <= k < f.data@.len() ==> chan_a(#[trigger] f.data@[k]) == 255
}

/// The render surface is fully overwritten every frame, with no diffing:
/// when the bottom background layer covers the surface, the buffer a render
/// pass composes is a function of the gameplay state and the sprite store
/// alone, independent of whatever the buffer held before.
pub proof fn lemma_render_independent_of_prior_buffer(
    buf1: Seq<u32>,
    buf2: Seq<u32>,
    offset_x: usize,
    food: Food,
    player: SnakeModel,
    score: u32,
    sprites: SpriteMaps,
)
    requires
        buf1.len() == ART_WIDTH as int * ART_HEIGHT as int,
        buf2.len() == ART_WIDTH as int * ART_HEIGHT as int,
        sprites.blue_strip@.len() >= 1,
        frame_covers_surface(sprites.blue_strip@[0]),
    ensures
        draw_score_spec(
            draw_player_spec(
                draw_food_spec(draw_background_spec(buf1, offset_x, sprites), food, sprites),
                player,
                sprites,
            ),
            score,
        ) == draw_score_spec(
            draw_player_spec(
                draw_food_spec(draw_background_spec(buf2, offset_x, sprites), food, sprites),
                player,
                sprites,
            ),
            score,
        ),
{
    let strip = sprites.blue_strip@[0];
    lemma_opaque_full_cover_draw(buf1, strip.data@, ART_WIDTH as int, ART_HEIGHT as int);
    lemma_opaque_full_cover_draw(buf2, strip.data@, ART_WIDTH as int, ART_HEIGHT as int);
}

} // verus!
