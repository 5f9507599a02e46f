//! Bitmap glyph rendering for the score display.
//!
//! Each supported character is a fixed 6x8 bitmap: one byte per row, bits
//! tested most-significant-bit-first across the six columns. Unsupported
//! characters render as blank.

use vstd::prelude::*;

verus! {

use vstd::arithmetic::div_mod::lemma_fundamental_div_mod_converse;
use crate::constants::{ART_HEIGHT, ART_WIDTH};
use crate::sprites::target_of;

/// The 6x8 row patterns of a character; digits have glyphs, every other
/// character is blank.
pub open spec fn char_pattern(ch: char) -> Seq<u8> {
    if ch == '0' {
        seq![0b011110u8, 0b100001, 0b100011, 0b101101, 0b110001, 0b100001, 0b011110, 0b000000]
    } else if ch == '1' {
        seq![0b001100u8, 0b011100, 0b001100, 0b001100, 0b001100, 0b001100, 0b111111, 0b000000]
    } else if ch == '2' {
        seq![0b011110u8, 0b100001, 0b000001, 0b000110, 0b011000, 0b100000, 0b111111, 0b000000]
    } else if ch == '3' {
        seq![0b011110u8, 0b100001, 0b000001, 0b001110, 0b000001, 0b100001, 0b011110, 0b000000]
    } else if ch == '4' {
        seq![0b000110u8, 0b001110, 0b010110, 0b100110, 0b111111, 0b000110, 0b000110, 0b000000]
    } else if ch == '5' {
        seq![0b111111u8, 0b100000, 0b111110, 0b000001, 0b000001, 0b100001, 0b011110, 0b000000]
    } else if ch == '6' {
        seq![0b011110u8, 0b100000, 0b100000, 0b111110, 0b100001, 0b100001, 0b011110, 0b000000]
    } else if ch == '7' {
        seq![0b111111u8, 0b000001, 0b000010, 0b000100, 0b001000, 0b010000, 0b100000, 0b000000]
    } else if ch == '8' {
        seq![0b011110u8, 0b100001, 0b100001, 0b011110, 0b100001, 0b100001, 0b011110, 0b000000]
    } else if ch == '9' {
        seq![0b011110u8, 0b100001, 0b100001, 0b011111, 0b000001, 0b000001, 0b011110, 0b000000]
    } else {
        seq![0u8, 0, 0, 0, 0, 0, 0, 0]
    }
}

/// Returns the bitmap pattern of a character as eight row bytes.
pub fn get_character_pattern(ch: char) -> (r: [u8; 8])
    ensures
        r@ == char_pattern(ch),
{
    let r: [u8; 8] = match ch {
        '0' => [0b011110, 0b100001, 0b100011, 0b101101, 0b110001, 0b100001, 0b011110, 0b000000],
        '1' => [0b001100, 0b011100, 0b001100, 0b001100, 0b001100, 0b001100, 0b111111, 0b000000],
        '2' => [0b011110, 0b100001, 0b000001, 0b000110, 0b011000, 0b100000, 0b111111, 0b000000],
        '3' => [0b011110, 0b100001, 0b000001, 0b001110, 0b000001, 0b100001, 0b011110, 0b000000],
        '4' => [0b000110, 0b001110, 0b010110, 0b100110, 0b111111, 0b000110, 0b000110, 0b000000],
        '5' => [0b111111, 0b100000, 0b111110, 0b000001, 0b000001, 0b100001, 0b011110, 0b000000],
        '6' => [0b011110, 0b100000, 0b100000, 0b111110, 0b100001, 0b100001, 0b011110, 0b000000],
        '7' => [0b111111, 0b000001, 0b000010, 0b000100, 0b001000, 0b010000, 0b100000, 0b000000],
        '8' => [0b011110, 0b100001, 0b100001, 0b011110, 0b100001, 0b100001, 0b011110, 0b000000],
        '9' => [0b011110, 0b100001, 0b100001, 0b011111, 0b000001, 0b000001, 0b011110, 0b000000],
        _ => [0, 0, 0, 0, 0, 0, 0, 0],
    };
    proof {
        assert(r@ =~= char_pattern(ch));
    }
    r
}

/// True when the glyph cell at `(row, col)` is set, testing bits
/// most-significant-bit-first across the six columns.
pub open spec fn glyph_cell_on(pat: Seq<u8>, row: int, col: int) -> bool {
    (pat[row] >> ((5 - col) as u8)) & 1 == 1
}

/// The colour written for set glyph cells: fully-opaque white, keeping the
/// surface's convention that every written pixel carries full opacity.
pub const GLYPH_COLOR: u32 = 0xFFFFFFFF;

/// The buffer after the first `n` cells of a glyph are drawn at `(x, y)`,
/// row-major over the 6-column grid. Set cells inside the art bounds and the
/// buffer are written fully white; everything else is untouched.
pub open spec fn draw_char_upto(buf: Seq<u32>, pat: Seq<u8>, x: int, y: int, n: int) -> Seq<u32>
    decreases n,
{
    if n <= 0 {
        buf
    } else {
        let prev = draw_char_upto(buf, pat, x, y, n - 1);
        let k = n - 1;
        let px = x + k % 6;
        let py = y + k / 6;
        let t = target_of(px, py, ART_WIDTH as int);
        if glyph_cell_on(pat, k / 6, k % 6) && px < ART_WIDTH && py < ART_HEIGHT && 0 <= t
            < prev.len() {
            prev.update(t, GLYPH_COLOR)
        } else {
            prev
        }
    }
}

/// The buffer after a whole character glyph is drawn at `(x, y)`.
pub open spec fn draw_character_spec(buf: Seq<u32>, ch: char, x: int, y: int) -> Seq<u32> {
    draw_char_upto(buf, char_pattern(ch), x, y, 48)
}

/// Drawing a glyph never changes the buffer length.
pub proof fn lemma_draw_char_upto_len(buf: Seq<u32>, pat: Seq<u8>, x: int, y: int, n: int)
    ensures
        draw_char_upto(buf, pat, x, y, n).len() == buf.len(),
    decreases n,
{
    if n > 0 {
        lemma_draw_char_upto_len(buf, pat, x, y, n - 1);
    }
}

/// Draws a character glyph at `(x, y)` on the art-resolution buffer, writing
/// fully-opaque white pixels for set bits with the standard bounds clipping.
#[verifier::loop_isolation(false)]
pub fn draw_character(ch: char, x: usize, y: usize, window_buffer: &mut Vec<u32>)
    ensures
        final(window_buffer)@ == draw_character_spec(old(window_buffer)@, ch, x as int, y as int),
        final(window_buffer)@.len() == old(window_buffer)@.len(),
{
    let pattern = get_character_pattern(ch);
    let ghost buf0 = window_buffer@;
    let ghost xi = x as int;
    let ghost yi = y as int;
    let mut row: usize = 0;
    while row < 8
        invariant
            row <= 8,
            window_buffer@.len() == buf0.len(),
            window_buffer@ == draw_char_upto(buf0, pattern@, xi, yi, row as int * 6),
        decreases 8 - row,
    {
        let pattern_row = pattern[row];
        let mut col: usize = 0;
        while col < 6
            invariant
                col <= 6,
                row < 8,
                window_buffer@.len() == buf0.len(),
                window_buffer@ == draw_char_upto(buf0, pattern@, xi, yi, row as int * 6
                    + col as int),
            decreases 6 - col,
        {
            let ghost ki = row as int * 6 + col as int;
            proof {
                lemma_fundamental_div_mod_converse(ki, 6, row as int, col as int);
            }
            let sh = (5 - col) as u8;
            if (pattern_row >> sh) & 1 == 1 {
                let px128 = x as u128 + col as u128;
                let py128 = y as u128 + row as u128;
                if px128 < ART_WIDTH as u128 && py128 < ART_HEIGHT as u128 {
                    let px = px128 as usize;
                    let py = py128 as usize;
                    let index = py * ART_WIDTH + px;
                    if index < window_buffer.len() {
                        window_buffer.set(index, GLYPH_COLOR);
                    }
                }
            }
            proof {
                assert(window_buffer@ == draw_char_upto(buf0, pattern@, xi, yi, ki + 1));
            }
            col += 1;
        }
        row += 1;
    }
}

} // verus!
