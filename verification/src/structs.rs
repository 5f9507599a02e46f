//! Core data types of the simulation: positions, directions, the creature,
//! the food item, and their mathematical models.
//!
//! Positions are fixed-point world coordinates (`COORD_SCALE` units per
//! pixel), clamped into `[COORD_MIN, COORD_LIMIT]` by every operation that
//! moves something, so coordinate arithmetic can never overflow.

use vstd::prelude::*;

verus! {

use crate::constants::{
    BACKGROUND_FRAME_COUNT, COORD_LIMIT, COORD_MIN, FOOD_START_X, FOOD_START_Y, MAX_VELOCITY,
    MOVE_INTERVAL_MS, PLAYER_START_X, PLAYER_START_Y, SNAKE_BODY_HEIGHT, SNAKE_BODY_WIDTH,
};
use crate::sprites::SpriteMaps;

/// A world-space position or displacement in fixed-point units.
#[derive(Clone, Copy, Debug, PartialEq, Eq, Structural)]
pub struct Vector2D {
    pub x: i64,
    pub y: i64,
}

/// The four exclusive movement directions; there is no diagonal movement.
#[derive(Clone, Copy, Debug, PartialEq, Eq, Structural)]
pub enum Direction {
    Right,
    Left,
    Up,
    Down,
}

/// True when a coordinate lies inside the clamping range.
pub open spec fn coord_ok(c: i64) -> bool {
    COORD_MIN <= c <= COORD_LIMIT
}

/// True when both components of a position lie inside the clamping range.
pub open spec fn vec2_ok(v: Vector2D) -> bool {
    coord_ok(v.x) && coord_ok(v.y)
}

/// The clamping rule every produced coordinate obeys.
pub open spec fn clamp_coord_spec(v: int) -> i64 {
    if v < COORD_MIN {
        COORD_MIN
    } else if v > COORD_LIMIT {
        COORD_LIMIT
    } else {
        v as i64
    }
}

/// Clamps a coordinate into the representable world range.
pub fn clamp_coord(v: i64) -> (r: i64)
    ensures
        r == clamp_coord_spec(v as int),
        coord_ok(r),
{
    if v < COORD_MIN {
        COORD_MIN
    } else if v > COORD_LIMIT {
        COORD_LIMIT
    } else {
        v
    }
}

/// Moves a clamped coordinate by a small displacement, clamping the result.
pub fn coord_add(a: i64, d: i64) -> (r: i64)
    requires
        coord_ok(a),
        -1_000_000_000 <= d <= 1_000_000_000,
    ensures
        r == clamp_coord_spec(a + d),
        coord_ok(r),
{
    clamp_coord(a + d)
}

/// Milliseconds elapsed between a past instant and now; zero when the clock
/// reads earlier than the recorded instant.
pub open spec fn elapsed_ms(now: u64, last: u64) -> u64 {
    if now >= last {
        (now - last) as u64
    } else {
        0
    }
}

/// Computes the elapsed time since a recorded instant.
pub fn elapsed_since(now: u64, last: u64) -> (r: u64)
    ensures
        r == elapsed_ms(now, last),
{
    if now >= last {
        now - last
    } else {
        0
    }
}

/// The logical pixel a fixed-point coordinate lands on: truncated towards
/// zero, with everything left of or above the origin collapsing to zero.
pub open spec fn px_of(c: i64) -> int {
    if c <= 0 {
        0
    } else {
        c as int / crate::constants::COORD_SCALE as int
    }
}

/// Converts a fixed-point coordinate to a pixel coordinate.
pub fn coord_to_px(c: i64) -> (r: usize)
    requires
        coord_ok(c),
    ensures
        r as int == px_of(c),
{
    if c <= 0 {
        0
    } else {
        (c / crate::constants::COORD_SCALE) as usize
    }
}

/// The player creature: a direction, an ordered chain of body segments
/// (index 0 is the head), the free-movement position and velocity, the grid
/// move accumulator, and the per-part animation state.
pub struct Snake {
    pub direction: Direction,
    pub last_key: Option<Direction>,
    pub body: Vec<Vector2D>,
    pub x: i64,
    pub y: i64,
    pub vx: i64,
    pub vy: i64,
    pub move_timer: u64,
    pub move_interval: u64,
    pub body_sprite_frame_index: usize,
    pub body_last_sprite_frame_index_update_time: u64,
    pub head_sprite_frame_index: usize,
    pub head_last_sprite_frame_index_update_time: u64,
    pub proximity_to_food: bool,
}

/// Mathematical model of a `Snake`: the same fields with the body as a
/// sequence.
#[verifier::ext_equal]
pub struct SnakeModel {
    pub direction: Direction,
    pub last_key: Option<Direction>,
    pub body: Seq<Vector2D>,
    pub x: i64,
    pub y: i64,
    pub vx: i64,
    pub vy: i64,
    pub move_timer: u64,
    pub move_interval: u64,
    pub body_sprite_frame_index: usize,
    pub body_last_sprite_frame_index_update_time: u64,
    pub head_sprite_frame_index: usize,
    pub head_last_sprite_frame_index_update_time: u64,
    pub proximity_to_food: bool,
}

impl View for Snake {
    type V = SnakeModel;

    open spec fn view(&self) -> SnakeModel {
        SnakeModel {
            direction: self.direction,
            last_key: self.last_key,
            body: self.body@,
            x: self.x,
            y: self.y,
            vx: self.vx,
            vy: self.vy,
            move_timer: self.move_timer,
            move_interval: self.move_interval,
            body_sprite_frame_index: self.body_sprite_frame_index,
            body_last_sprite_frame_index_update_time: self.body_last_sprite_frame_index_update_time,
            head_sprite_frame_index: self.head_sprite_frame_index,
            head_last_sprite_frame_index_update_time: self.head_last_sprite_frame_index_update_time,
            proximity_to_food: self.proximity_to_food,
        }
    }
}

/// Well-formedness of a creature: at least one segment, all coordinates
/// clamped, velocities within saturation, the move accumulator below its
/// interval, and animation indices within their frame counts.
pub open spec fn snake_wf(s: SnakeModel) -> bool {
    &&& s.body.len() >= 1
    &&& forall|i: int| 0 <= i < s.body.len() ==> vec2_ok(#[trigger] s.body[i])
    &&& coord_ok(s.x)
    &&& coord_ok(s.y)
    &&& 0 <= s.vx <= MAX_VELOCITY
    &&& 0 <= s.vy <= MAX_VELOCITY
    &&& s.move_timer <= MOVE_INTERVAL_MS
    &&& s.move_interval <= MOVE_INTERVAL_MS
    &&& s.body_sprite_frame_index < 2
    &&& s.head_sprite_frame_index < 4
}

/// Body chain of a freshly created creature: the head at the given position
/// and two trailing segments spaced by sprite dimensions opposite the initial
/// direction of travel.
pub open spec fn snake_new_body(x: i64, y: i64, dir: Direction) -> Seq<Vector2D> {
    let hx = clamp_coord_spec(x as int);
    let hy = clamp_coord_spec(y as int);
    match dir {
        Direction::Right => seq![
            Vector2D { x: hx, y: hy },
            Vector2D { x: clamp_coord_spec(hx - 2 * SNAKE_BODY_WIDTH), y: hy },
            Vector2D { x: clamp_coord_spec(hx - 3 * SNAKE_BODY_WIDTH), y: hy },
        ],
        Direction::Left => seq![
            Vector2D { x: hx, y: hy },
            Vector2D { x: clamp_coord_spec(hx + 2 * SNAKE_BODY_WIDTH), y: hy },
            Vector2D { x: clamp_coord_spec(hx + 3 * SNAKE_BODY_WIDTH), y: hy },
        ],
        Direction::Down => seq![
            Vector2D { x: hx, y: hy },
            Vector2D { x: hx, y: clamp_coord_spec(hy - 2 * SNAKE_BODY_HEIGHT) },
            Vector2D { x: hx, y: clamp_coord_spec(hy - 3 * SNAKE_BODY_HEIGHT) },
        ],
        Direction::Up => seq![
            Vector2D { x: hx, y: hy },
            Vector2D { x: hx, y: clamp_coord_spec(hy + 2 * SNAKE_BODY_HEIGHT) },
            Vector2D { x: hx, y: clamp_coord_spec(hy + 3 * SNAKE_BODY_HEIGHT) },
        ],
    }
}

/// Model of a freshly created creature.
pub open spec fn snake_new_model(x: i64, y: i64, dir: Direction, now: u64) -> SnakeModel {
    SnakeModel {
        direction: dir,
        last_key: None,
        body: snake_new_body(x, y, dir),
        x: clamp_coord_spec(x as int),
        y: clamp_coord_spec(y as int),
        vx: 0,
        vy: 0,
        move_timer: 0,
        move_interval: MOVE_INTERVAL_MS,
        body_sprite_frame_index: 0,
        body_last_sprite_frame_index_update_time: now,
        head_sprite_frame_index: 0,
        head_last_sprite_frame_index_update_time: now,
        proximity_to_food: false,
    }
}

impl Snake {
    /// Creates a creature at the given position facing the given direction,
    /// with all animation timestamps set to the given instant.
    pub fn new(x: i64, y: i64, initial_direction: Direction, now: u64) -> (s: Snake)
        ensures
            s@ == snake_new_model(x, y, initial_direction, now),
            snake_wf(s@),
    {
        let hx = clamp_coord(x);
        let hy = clamp_coord(y);
        let mut body: Vec<Vector2D> = Vec::new();
        body.push(Vector2D { x: hx, y: hy });
        match initial_direction {
            Direction::Right => {
                body.push(Vector2D { x: coord_add(hx, -2 * SNAKE_BODY_WIDTH), y: hy });
                body.push(Vector2D { x: coord_add(hx, -3 * SNAKE_BODY_WIDTH), y: hy });
            }
            Direction::Left => {
                body.push(Vector2D { x: coord_add(hx, 2 * SNAKE_BODY_WIDTH), y: hy });
                body.push(Vector2D { x: coord_add(hx, 3 * SNAKE_BODY_WIDTH), y: hy });
            }
            Direction::Down => {
                body.push(Vector2D { x: hx, y: coord_add(hy, -2 * SNAKE_BODY_HEIGHT) });
                body.push(Vector2D { x: hx, y: coord_add(hy, -3 * SNAKE_BODY_HEIGHT) });
            }
            Direction::Up => {
                body.push(Vector2D { x: hx, y: coord_add(hy, 2 * SNAKE_BODY_HEIGHT) });
                body.push(Vector2D { x: hx, y: coord_add(hy, 3 * SNAKE_BODY_HEIGHT) });
            }
        }
        let s = Snake {
            direction: initial_direction,
            last_key: None,
            body,
            x: hx,
            y: hy,
            vx: 0,
            vy: 0,
            move_timer: 0,
            move_interval: MOVE_INTERVAL_MS,
            body_sprite_frame_index: 0,
            body_last_sprite_frame_index_update_time: now,
            head_sprite_frame_index: 0,
            head_last_sprite_frame_index_update_time: now,
            proximity_to_food: false,
        };
        proof {
            assert(s.body@ =~= snake_new_body(x, y, initial_direction));
            assert(s@ =~= snake_new_model(x, y, initial_direction, now));
        }
        s
    }
}

/// The single food item: a position, an activity flag and its animation
/// state. At most one food item is active at a time.
#[derive(Clone, Copy, Debug, PartialEq, Eq, Structural)]
pub struct Food {
    pub position: Vector2D,
    pub is_active: bool,
    pub sprite_frame_index: usize,
    pub last_sprite_frame_index_update_time: u64,
}

/// Well-formedness of the food item: a clamped position and a frame index
/// within the two-frame blink cycle.
pub open spec fn food_wf(f: Food) -> bool {
    &&& vec2_ok(f.position)
    &&& f.sprite_frame_index < 2
}

/// The whole simulation state: the creature, the sprite store, the logical
/// render surface, the food item, score and game-over flag, and the
/// animation state of the background layers. Owned exclusively by the
/// orchestrator and passed by exclusive mutable reference to every
/// core-logic operation and to the compositor.
pub struct GameState {
    pub player: Snake,
    pub sprites: SpriteMaps,
    pub window_buffer: Vec<u32>,
    pub window_width: usize,
    pub window_height: usize,
    pub food: Food,
    pub delta_time: u64,
    pub last_frame_time: Option<u64>,
    pub game_over: bool,
    pub score: u32,
    pub background_sprite_frame_index: usize,
    pub background_last_sprite_frame_update_time: u64,
    pub background_offset_x: usize,
    pub stars_last_sprite_frame_update_time: u64,
    pub stars_sprite_frame_index: usize,
    pub perk_available: bool,
    pub selected_perk: Option<usize>,
}

/// Mathematical model of the gameplay state: every field of `GameState`
/// that the core-logic operations read or write. The sprite store, the
/// render surface and the window dimensions are left out; operations state
/// separately that they leave them unchanged.
#[verifier::ext_equal]
pub struct GameModel {
    pub player: SnakeModel,
    pub food: Food,
    pub delta_time: u64,
    pub last_frame_time: Option<u64>,
    pub game_over: bool,
    pub score: u32,
    pub background_sprite_frame_index: usize,
    pub background_last_sprite_frame_update_time: u64,
    pub background_offset_x: usize,
    pub stars_last_sprite_frame_update_time: u64,
    pub stars_sprite_frame_index: usize,
    pub perk_available: bool,
    pub selected_perk: Option<usize>,
}

impl View for GameState {
    type V = GameModel;

    open spec fn view(&self) -> GameModel {
        GameModel {
            player: self.player@,
            food: self.food,
            delta_time: self.delta_time,
            last_frame_time: self.last_frame_time,
            game_over: self.game_over,
            score: self.score,
            background_sprite_frame_index: self.background_sprite_frame_index,
            background_last_sprite_frame_update_time: self.background_last_sprite_frame_update_time,
            background_offset_x: self.background_offset_x,
            stars_last_sprite_frame_update_time: self.stars_last_sprite_frame_update_time,
            stars_sprite_frame_index: self.stars_sprite_frame_index,
            perk_available: self.perk_available,
            selected_perk: self.selected_perk,
        }
    }
}

/// Well-formedness of the gameplay state: a well-formed creature and food
/// item, and background animation indices within their frame counts.
pub open spec fn state_wf(m: GameModel) -> bool {
    &&& snake_wf(m.player)
    &&& food_wf(m.food)
    &&& m.background_sprite_frame_index < BACKGROUND_FRAME_COUNT
    &&& m.stars_sprite_frame_index < BACKGROUND_FRAME_COUNT
}

/// The food item of a freshly initialised or restarted level: inactive, at
/// its fixed starting position.
pub open spec fn initial_food(now: u64) -> Food {
    Food {
        position: Vector2D { x: FOOD_START_X, y: FOOD_START_Y },
        is_active: false,
        sprite_frame_index: 0,
        last_sprite_frame_index_update_time: now,
    }
}

/// The gameplay state right after initialisation or a restart: the given
/// creature, an inactive food item, score zero, the game-over flag cleared
/// and every animation index zeroed.
pub open spec fn initial_model(player: SnakeModel, now: u64) -> GameModel {
    GameModel {
        player,
        food: initial_food(now),
        delta_time: 0,
        last_frame_time: None,
        game_over: false,
        score: 0,
        background_sprite_frame_index: 0,
        background_last_sprite_frame_update_time: now,
        background_offset_x: 0,
        stars_last_sprite_frame_update_time: now,
        stars_sprite_frame_index: 0,
        perk_available: false,
        selected_perk: None,
    }
}

/// The gameplay state after the per-tick clock sample: the elapsed time
/// since the previous frame becomes the new tick delta.
pub open spec fn update_timing_spec(m: GameModel, now: u64) -> GameModel {
    GameModel {
        delta_time: match m.last_frame_time {
            Some(t) => elapsed_ms(now, t),
            None => 0,
        },
        last_frame_time: Some(now),
        ..m
    }
}

impl GameState {
    /// Builds the initial simulation state around a creature, a pre-decoded
    /// sprite store and a render surface.
    pub fn new(
        player: Snake,
        sprites: SpriteMaps,
        window_buffer: Vec<u32>,
        window_width: usize,
        window_height: usize,
        now: u64,
    ) -> (s: GameState)
        ensures
            s@ == initial_model(player@, now),
            s.sprites == sprites,
            s.window_buffer == window_buffer,
            s.window_width == window_width,
            s.window_height == window_height,
            snake_wf(player@) ==> state_wf(s@),
    {
        let s = GameState {
            player,
            sprites,
            window_buffer,
            window_width,
            window_height,
            food: Food {
                position: Vector2D { x: FOOD_START_X, y: FOOD_START_Y },
                is_active: false,
                sprite_frame_index: 0,
                last_sprite_frame_index_update_time: now,
            },
            delta_time: 0,
            last_frame_time: None,
            game_over: false,
            score: 0,
            background_sprite_frame_index: 0,
            background_last_sprite_frame_update_time: now,
            background_offset_x: 0,
            stars_last_sprite_frame_update_time: now,
            stars_sprite_frame_index: 0,
            perk_available: false,
            selected_perk: None,
        };
        proof {
            assert(s@ =~= initial_model(s.player@, now));
        }
        s
    }

    /// Resets the whole gameplay state to initial conditions: a fresh
    /// creature, an inactive food item, score zero, the game-over flag
    /// cleared and all animation state restarted — without touching the
    /// sprite store or reallocating the render surface. From any state this
    /// yields exactly the model of a freshly constructed initial state with
    /// the same clock sample.
    pub fn restart_level(&mut self, now: u64)
        ensures
            final(self)@ == initial_model(
                snake_new_model(PLAYER_START_X, PLAYER_START_Y, Direction::Right, now),
                now,
            ),
            state_wf(final(self)@),
            final(self).sprites == old(self).sprites,
            final(self).window_buffer == old(self).window_buffer,
            final(self).window_width == old(self).window_width,
            final(self).window_height == old(self).window_height,
    {
        self.player = Snake::new(PLAYER_START_X, PLAYER_START_Y, Direction::Right, now);
        self.food = Food {
            position: Vector2D { x: FOOD_START_X, y: FOOD_START_Y },
            is_active: false,
            sprite_frame_index: 0,
            last_sprite_frame_index_update_time: now,
        };
        self.score = 0;
        self.game_over = false;
        self.delta_time = 0;
        self.last_frame_time = None;
        self.background_sprite_frame_index = 0;
        self.background_last_sprite_frame_update_time = now;
        self.background_offset_x = 0;
        self.stars_last_sprite_frame_update_time = now;
        self.stars_sprite_frame_index = 0;
        self.perk_available = false;
        self.selected_perk = None;
        proof {
            assert(self@ =~= initial_model(
                snake_new_model(PLAYER_START_X, PLAYER_START_Y, Direction::Right, now),
                now,
            ));
        }
    }

    /// Samples the per-tick clock: records the elapsed time since the last
    /// frame as the tick delta and remembers this frame's instant.
    pub fn update_timing(&mut self, now: u64)
        ensures
            final(self)@ == update_timing_spec(old(self)@, now),
            final(self).sprites == old(self).sprites,
            final(self).window_buffer == old(self).window_buffer,
            final(self).window_width == old(self).window_width,
            final(self).window_height == old(self).window_height,
    {
        match self.last_frame_time {
            Some(t) => {
                self.delta_time = elapsed_since(now, t);
            }
            None => {
                self.delta_time = 0;
            }
        }
        self.last_frame_time = Some(now);
        proof {
            assert(self@ =~= update_timing_spec(old(self)@, now));
        }
    }
}

} // verus!
