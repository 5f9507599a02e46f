//! Self-collision detection: the head against every other body segment,
//! with an axis-wise tolerance; the first overlap ends the game.

use vstd::prelude::*;

verus! {

use crate::constants::COLLISION_TOLERANCE;
use crate::structs::{GameModel, GameState, state_wf, vec2_ok, Vector2D};

/// Two positions overlap when both axis deltas are strictly below the
/// collision tolerance.
pub open spec fn overlap_spec(a: Vector2D, b: Vector2D) -> bool {
    &&& (if a.x >= b.x {
        a.x - b.x
    } else {
        b.x - a.x
    }) < COLLISION_TOLERANCE
    &&& (if a.y >= b.y {
        a.y - b.y
    } else {
        b.y - a.y
    }) < COLLISION_TOLERANCE
}

/// True when the head overlaps some later body segment.
pub open spec fn has_self_collision(body: Seq<Vector2D>) -> bool {
    exists|i: int| 1 <= i < body.len() && overlap_spec(body[0], #[trigger] body[i])
}

/// The gameplay state after the self-collision pass: the game-over flag is
/// raised exactly when a body of length above one has its head on another
/// segment.
pub open spec fn self_collision_spec(m: GameModel) -> GameModel {
    if has_self_collision(m.player.body) {
        GameModel { game_over: true, ..m }
    } else {
        m
    }
}

/// A body of length one never reports a self-collision, and the collision
/// pass leaves such a state untouched.
pub proof fn lemma_single_segment_never_collides(m: GameModel)
    requires
        m.player.body.len() == 1,
    ensures
        !has_self_collision(m.player.body),
        self_collision_spec(m) == m,
{
}

/// Raises the game-over flag when the creature's head overlaps its body.
pub struct CheckSelfCollision;

impl CheckSelfCollision {
    /// True when the two positions overlap within the collision tolerance.
    pub fn positions_overlap(pos1: &Vector2D, pos2: &Vector2D) -> (r: bool)
        requires
            vec2_ok(*pos1),
            vec2_ok(*pos2),
        ensures
            r == overlap_spec(*pos1, *pos2),
    {
        let dx = if pos1.x >= pos2.x {
            pos1.x - pos2.x
        } else {
            pos2.x - pos1.x
        };
        let dy = if pos1.y >= pos2.y {
            pos1.y - pos2.y
        } else {
            pos2.y - pos1.y
        };
        dx < COLLISION_TOLERANCE && dy < COLLISION_TOLERANCE
    }

    /// Scans the body head-to-tail for the first segment the head overlaps.
    /// A body of length one never reports a collision; otherwise the result
    /// is the smallest overlapping index, if any.
    #[verifier::loop_isolation(false)]
    pub fn first_collision(body: &Vec<Vector2D>) -> (r: Option<usize>)
        requires
            forall|i: int| 0 <= i < body@.len() ==> vec2_ok(#[trigger] body@[i]),
            body@.len() >= 1,
        ensures
            match r {
                Some(k) => {
                    &&& 1 <= k < body@.len()
                    &&& overlap_spec(body@[0], body@[k as int])
                    &&& forall|j: int|
                        1 <= j < k ==> !overlap_spec(body@[0], #[trigger] body@[j])
                },
                None => !has_self_collision(body@),
            },
            r is Some <==> has_self_collision(body@),
    {
        let len = body.len();
        let mut i: usize = 1;
        while i < len
            invariant
                1 <= i <= len,
                forall|j: int| 1 <= j < i ==> !overlap_spec(body@[0], #[trigger] body@[j]),
            decreases len - i,
        {
            if Self::positions_overlap(&body[0], &body[i]) {
                return Some(i);
            }
            i += 1;
        }
        None
    }

    /// Sets the game-over flag when the head overlaps any other segment;
    /// the scan stops at the first match.
    pub fn execute(&self, game_state: &mut GameState)
        requires
            state_wf(old(game_state)@),
        ensures
            final(game_state)@ == self_collision_spec(old(game_state)@),
            state_wf(final(game_state)@),
            final(game_state).sprites == old(game_state).sprites,
            final(game_state).window_buffer == old(game_state).window_buffer,
            final(game_state).window_width == old(game_state).window_width,
            final(game_state).window_height == old(game_state).window_height,
    {
        if game_state.player.body.len() <= 1 {
            proof {
                assert(game_state@ =~= self_collision_spec(old(game_state)@));
            }
            return ;
        }
        let hit = Self::first_collision(&game_state.player.body);
        if let Some(_i) = hit {
            game_state.game_over = true;
        }
        proof {
            assert(game_state@ =~= self_collision_spec(old(game_state)@));
        }
    }
}

} // verus!
