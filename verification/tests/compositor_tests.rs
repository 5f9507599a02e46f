//! Tests of the pixel compositor: alpha blending, darkness shading, bounds
//! clipping, glyph rendering and sheet decoding.

use space_wurm::sprites::{
    draw_sprite, frames_from_sheet, img_to_buffer, set_pixel, SpriteFrame,
};
use space_wurm::symbols::{draw_character, get_character_pattern};

fn frame(width: u32, height: u32, color: u32) -> SpriteFrame {
    let data = vec![color; (width * height) as usize];
    SpriteFrame::new(width, height, data)
}

#[test]
fn blend_opaque_reproduces_source() {
    let sprite = frame(1, 1, 0xFF123456);
    let mut buffer = vec![0xFFABCDEF_u32];
    draw_sprite(0, 0, &sprite, &mut buffer, 1, None);
    assert_eq!(buffer[0], 0xFF123456);
}

#[test]
fn blend_transparent_leaves_destination() {
    let sprite = frame(1, 1, 0x00FF00FF);
    let mut buffer = vec![0x12345678_u32];
    draw_sprite(0, 0, &sprite, &mut buffer, 1, None);
    assert_eq!(buffer[0], 0x12345678);
}

#[test]
fn blend_half_alpha_exact() {
    // r = 255*128/255 + 0*127/255 = 128; g = 0; b = 255*128/255 = 128.
    let sprite = frame(1, 1, 0x80FF00FF);
    let mut buffer = vec![0xFF000000_u32];
    draw_sprite(0, 0, &sprite, &mut buffer, 1, None);
    assert_eq!(buffer[0], 0xFF800080);
}

#[test]
fn blend_output_opacity_forced_full() {
    // A semi-transparent source over a semi-transparent destination still
    // writes a fully opaque result word.
    let sprite = frame(1, 1, 0x40FFFFFF);
    let mut buffer = vec![0x20101010_u32];
    draw_sprite(0, 0, &sprite, &mut buffer, 1, None);
    assert_eq!(buffer[0] >> 24, 0xFF);
}

#[test]
fn darkness_factor_full_is_noop() {
    let sprite = frame(1, 1, 0xFF64C896);
    let mut plain = vec![0u32];
    let mut shaded = vec![0u32];
    draw_sprite(0, 0, &sprite, &mut plain, 1, None);
    draw_sprite(0, 0, &sprite, &mut shaded, 1, Some(100));
    assert_eq!(plain, shaded);
}

#[test]
fn darkness_factor_zero_zeroes_colour() {
    let sprite = frame(1, 1, 0xFF64C896);
    let mut buffer = vec![0u32];
    draw_sprite(0, 0, &sprite, &mut buffer, 1, Some(0));
    assert_eq!(buffer[0], 0xFF000000);
}

#[test]
fn darkness_scales_each_channel() {
    // 0x64 = 100 -> 60, 0xC8 = 200 -> 120, 0x96 = 150 -> 90 at 60%.
    let sprite = frame(1, 1, 0xFF64C896);
    let mut buffer = vec![0u32];
    draw_sprite(0, 0, &sprite, &mut buffer, 1, Some(60));
    assert_eq!(buffer[0], 0xFF3C785A);
}

#[test]
fn sprite_fully_off_buffer_writes_nothing() {
    let sprite = frame(2, 2, 0xFFFFFFFF);
    let mut buffer = vec![0u32; 8];
    let before = buffer.clone();
    draw_sprite(100, 100, &sprite, &mut buffer, 4, None);
    assert_eq!(buffer, before);
}

#[test]
fn sprite_at_huge_coordinates_does_not_panic() {
    let sprite = frame(2, 2, 0xFFFFFFFF);
    let mut buffer = vec![0u32; 8];
    let before = buffer.clone();
    draw_sprite(usize::MAX, usize::MAX, &sprite, &mut buffer, 4, None);
    assert_eq!(buffer, before);
}

#[test]
fn sprite_partially_off_buffer_clips() {
    // 4-wide, 2-tall buffer; a 2x2 sprite at (3, 0). Only the target
    // indices below the buffer length are written: sprite pixel (0,0)
    // lands at 3, (0,1) at 4, (1,0) at 7; (1,1) would land at 8 and is
    // clipped.
    let sprite = frame(2, 2, 0xFF111111);
    let mut buffer = vec![0u32; 8];
    draw_sprite(3, 0, &sprite, &mut buffer, 4, None);
    assert_eq!(buffer, vec![
        0, 0, 0, 0xFF111111, 0xFF111111, 0, 0, 0xFF111111,
    ]);
}

#[test]
fn set_pixel_in_bounds_writes() {
    let mut buffer = vec![0u32; 6];
    set_pixel(1, 1, 0xFF00FF00, &mut buffer, 3);
    assert_eq!(buffer[4], 0xFF00FF00);
}

#[test]
fn set_pixel_out_of_bounds_is_ignored() {
    let mut buffer = vec![0u32; 6];
    set_pixel(2, 9, 0xFF00FF00, &mut buffer, 3);
    assert_eq!(buffer, vec![0u32; 6]);
}

#[test]
fn character_pattern_digits_and_blank() {
    assert_eq!(
        get_character_pattern('0'),
        [0b011110, 0b100001, 0b100011, 0b101101, 0b110001, 0b100001, 0b011110, 0b000000]
    );
    assert_eq!(
        get_character_pattern('7'),
        [0b111111, 0b000001, 0b000010, 0b000100, 0b001000, 0b010000, 0b100000, 0b000000]
    );
    assert_eq!(get_character_pattern('X'), [0u8; 8]);
    assert_eq!(get_character_pattern(' '), [0u8; 8]);
}

#[test]
fn draw_character_writes_white_set_bits() {
    let mut buffer = vec![0u32; 256 * 224];
    draw_character('1', 10, 20, &mut buffer);
    // Top row of '1' is 0b001100: columns 2 and 3 set, written as
    // fully-opaque white.
    assert_eq!(buffer[20 * 256 + 12], 0xFFFFFFFF);
    assert_eq!(buffer[20 * 256 + 13], 0xFFFFFFFF);
    assert_eq!(buffer[20 * 256 + 10], 0);
    assert_eq!(buffer[20 * 256 + 11], 0);
    // Bottom text row (row 6) is 0b111111: all six columns set.
    for col in 0..6 {
        assert_eq!(buffer[26 * 256 + 10 + col], 0xFFFFFFFF);
    }
}

#[test]
fn draw_character_clips_at_art_bounds() {
    let mut buffer = vec![0u32; 256 * 224];
    let before = buffer.clone();
    draw_character('8', 255, 223, &mut buffer);
    // Only the cell at (255, 223) could land in bounds; '8' has bit 0 of
    // its first row clear at column 0, so nothing within bounds is set.
    assert_eq!(buffer, before);
}

#[test]
fn img_to_buffer_packs_argb() {
    let rgba: Vec<u8> = vec![0x11, 0x22, 0x33, 0x44, 0xAA, 0xBB, 0xCC, 0xDD];
    let words = img_to_buffer(&rgba);
    assert_eq!(words, vec![0x44112233, 0xDDAABBCC]);
}

#[test]
fn frames_from_sheet_partitions_row_major() {
    // A 4x2 sheet cut into 2x2 cells gives two frames side by side.
    let sheet: Vec<u32> = vec![1, 2, 3, 4, 5, 6, 7, 8];
    let frames = frames_from_sheet(&sheet, 4, 2, 2, 2);
    assert_eq!(frames.len(), 2);
    assert_eq!(frames[0].width, 2);
    assert_eq!(frames[0].height, 2);
    assert_eq!(frames[0].data, vec![1, 2, 5, 6]);
    assert_eq!(frames[1].data, vec![3, 4, 7, 8]);
}

#[test]
fn frames_from_sheet_drops_partial_cells() {
    // A 5x3 sheet with 2x2 cells keeps only the full cells.
    let sheet: Vec<u32> = (0..15).collect();
    let frames = frames_from_sheet(&sheet, 5, 3, 2, 2);
    assert_eq!(frames.len(), 2);
    assert_eq!(frames[0].data, vec![0, 1, 5, 6]);
    assert_eq!(frames[1].data, vec![2, 3, 7, 8]);
}
