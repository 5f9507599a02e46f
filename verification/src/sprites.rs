//! Sprite frames and the pixel-buffer compositor.
//!
//! Pixels are packed 32-bit ARGB words: the top byte is opacity, the lower
//! three bytes are red, green and blue. The compositor draws a sprite frame
//! into a flat target buffer with alpha blending and optional darkness
//! shading; writes whose target index falls outside the buffer are silently
//! clipped.

use vstd::prelude::*;

verus! {

use vstd::arithmetic::div_mod::lemma_fundamental_div_mod_converse;

/// Opacity channel of a packed pixel.
pub open spec fn chan_a(p: u32) -> int {
    p as int / 0x1000000
}

/// Red channel of a packed pixel.
pub open spec fn chan_r(p: u32) -> int {
    (p as int / 0x10000) % 256
}

/// Green channel of a packed pixel.
pub open spec fn chan_g(p: u32) -> int {
    (p as int / 0x100) % 256
}

/// Blue channel of a packed pixel.
pub open spec fn chan_b(p: u32) -> int {
    p as int % 256
}

/// Packs four channel values into one ARGB word.
pub open spec fn pack_pixel(a: int, r: int, g: int, b: int) -> u32 {
    (a * 0x1000000 + r * 0x10000 + g * 0x100 + b) as u32
}

/// One colour channel scaled by a darkness factor in hundredths, saturated
/// at full intensity.
pub open spec fn darken_channel(c: int, d: int) -> int {
    if c * d / 100 > 255 {
        255
    } else {
        c * d / 100
    }
}

/// A pixel with each colour channel scaled by a darkness factor in
/// hundredths; the opacity channel is unaffected.
pub open spec fn darken_pixel_spec(p: u32, d: u32) -> u32 {
    pack_pixel(
        chan_a(p),
        darken_channel(chan_r(p), d as int),
        darken_channel(chan_g(p), d as int),
        darken_channel(chan_b(p), d as int),
    )
}

/// One colour channel of standard over-compositing: the source weighted by
/// its opacity plus the destination weighted by the remainder.
pub open spec fn blend_channel(s: int, d: int, a: int) -> int {
    s * a / 255 + d * (255 - a) / 255
}

/// A source pixel composited onto a destination pixel; the result is always
/// fully opaque.
pub open spec fn blend_pixel_spec(dst: u32, src: u32) -> u32 {
    pack_pixel(
        255,
        blend_channel(chan_r(src), chan_r(dst), chan_a(src)),
        blend_channel(chan_g(src), chan_g(dst), chan_a(src)),
        blend_channel(chan_b(src), chan_b(dst), chan_a(src)),
    )
}

/// The source pixel after the optional darkness shading.
pub open spec fn shaded_source(src: u32, darkness: Option<u32>) -> u32 {
    match darkness {
        Some(d) => darken_pixel_spec(src, d),
        None => src,
    }
}

/// What one sprite pixel leaves at its target: fully transparent sources are
/// skipped, all others are blended over the destination.
pub open spec fn composite_pixel_spec(dst: u32, src: u32, darkness: Option<u32>) -> u32 {
    let s = shaded_source(src, darkness);
    if chan_a(s) == 0 {
        dst
    } else {
        blend_pixel_spec(dst, s)
    }
}

/// The bit-level channel extractions agree with the arithmetic channel
/// definitions, and every channel is a byte.
pub proof fn lemma_channels(p: u32)
    ensures
        ((p >> 24) & 0xFF) as int == chan_a(p),
        ((p >> 16) & 0xFF) as int == chan_r(p),
        ((p >> 8) & 0xFF) as int == chan_g(p),
        (p & 0xFF) as int == chan_b(p),
        0 <= chan_a(p) <= 255,
        0 <= chan_r(p) <= 255,
        0 <= chan_g(p) <= 255,
        0 <= chan_b(p) <= 255,
{
    assert((p >> 24) & 0xFF == (p / 0x1000000) % 0x100) by (bit_vector);
    assert((p >> 16) & 0xFF == (p / 0x10000) % 0x100) by (bit_vector);
    assert((p >> 8) & 0xFF == (p / 0x100) % 0x100) by (bit_vector);
    assert(p & 0xFF == p % 0x100) by (bit_vector);
    assert(p / 0x1000000 < 0x100) by (bit_vector);
}

/// Recombining four byte channels by shifts and ors equals the arithmetic
/// packing.
pub proof fn lemma_pack(a: u32, r: u32, g: u32, b: u32)
    requires
        a <= 255,
        r <= 255,
        g <= 255,
        b <= 255,
    ensures
        ((a << 24) | (r << 16) | (g << 8) | b) == pack_pixel(a as int, r as int, g as int, b as int),
        pack_pixel(a as int, r as int, g as int, b as int) as int
            == a * 0x1000000 + r * 0x10000 + g * 0x100 + b,
{
    assert((a << 24) | (r << 16) | (g << 8) | b == a * 0x1000000 + r * 0x10000 + g * 0x100 + b)
        by (bit_vector)
        requires
            a <= 255,
            r <= 255,
            g <= 255,
            b <= 255,
    ;
}

/// Extracts the opacity channel of a packed pixel.
pub fn pixel_alpha(p: u32) -> (a: u32)
    ensures
        a as int == chan_a(p),
        a <= 255,
{
    proof {
        lemma_channels(p);
    }
    (p >> 24) & 0xFF
}

/// Scales the colour channels of a pixel by a darkness factor in hundredths,
/// leaving the opacity channel unchanged.
pub fn darken_pixel(p: u32, d: u32) -> (r: u32)
    requires
        d <= 100,
    ensures
        r == darken_pixel_spec(p, d),
{
    proof {
        lemma_channels(p);
    }
    let a = (p >> 24) & 0xFF;
    let cr = (p >> 16) & 0xFF;
    let cg = (p >> 8) & 0xFF;
    let cb = p & 0xFF;
    proof {
        assert(cr * d <= 25500 && cg * d <= 25500 && cb * d <= 25500) by (nonlinear_arith)
            requires
                cr <= 255,
                cg <= 255,
                cb <= 255,
                d <= 100,
        ;
    }
    let mut rc = cr * d / 100;
    let mut gc = cg * d / 100;
    let mut bc = cb * d / 100;
    if rc > 255 {
        rc = 255;
    }
    if gc > 255 {
        gc = 255;
    }
    if bc > 255 {
        bc = 255;
    }
    proof {
        lemma_pack(a, rc, gc, bc);
    }
    (a << 24) | (rc << 16) | (gc << 8) | bc
}

/// Composites a source pixel over a destination pixel, weighting each colour
/// channel by the source opacity; the result is written fully opaque.
pub fn blend_pixel(dst: u32, src: u32) -> (r: u32)
    ensures
        r == blend_pixel_spec(dst, src),
{
    proof {
        lemma_channels(src);
        lemma_channels(dst);
    }
    let sa = (src >> 24) & 0xFF;
    let sr = (src >> 16) & 0xFF;
    let sg = (src >> 8) & 0xFF;
    let sb = src & 0xFF;
    let dr = (dst >> 16) & 0xFF;
    let dg = (dst >> 8) & 0xFF;
    let db = dst & 0xFF;
    proof {
        assert(sr * sa <= 65025 && sg * sa <= 65025 && sb * sa <= 65025 && dr * (255 - sa)
            <= 65025 && dg * (255 - sa) <= 65025 && db * (255 - sa) <= 65025) by (nonlinear_arith)
            requires
                sa <= 255,
                sr <= 255,
                sg <= 255,
                sb <= 255,
                dr <= 255,
                dg <= 255,
                db <= 255,
        ;
    }
    let br = sr * sa / 255 + dr * (255 - sa) / 255;
    let bg = sg * sa / 255 + dg * (255 - sa) / 255;
    let bb = sb * sa / 255 + db * (255 - sa) / 255;
    proof {
        assert(sr * sa / 255 <= sa && sg * sa / 255 <= sa && sb * sa / 255 <= sa && dr * (255 - sa)
            / 255 <= 255 - sa && dg * (255 - sa) / 255 <= 255 - sa && db * (255 - sa) / 255 <= 255
            - sa) by (nonlinear_arith)
            requires
                sa <= 255,
                sr <= 255,
                sg <= 255,
                sb <= 255,
                dr <= 255,
                dg <= 255,
                db <= 255,
        ;
        lemma_pack(255, br, bg, bb);
        assert(0xFF000000u32 == 255u32 << 24) by (bit_vector);
    }
    0xFF000000 | (br << 16) | (bg << 8) | bb
}

/// Splitting a pixel into channels and packing them again gives the pixel
/// back.
pub proof fn lemma_unpack_pack(p: u32)
    ensures
        pack_pixel(chan_a(p), chan_r(p), chan_g(p), chan_b(p)) == p,
{
    assert((p / 0x1000000) * 0x1000000 + ((p / 0x10000) % 0x100) * 0x10000 + ((p / 0x100) % 0x100)
        * 0x100 + p % 0x100 == p) by (bit_vector);
}

/// Each channel of a packed pixel is the value that was packed.
pub proof fn lemma_chan_of_pack(a: int, r: int, g: int, b: int)
    requires
        0 <= a <= 255,
        0 <= r <= 255,
        0 <= g <= 255,
        0 <= b <= 255,
    ensures
        chan_a(pack_pixel(a, r, g, b)) == a,
        chan_r(pack_pixel(a, r, g, b)) == r,
        chan_g(pack_pixel(a, r, g, b)) == g,
        chan_b(pack_pixel(a, r, g, b)) == b,
{
    let au = a as u32;
    let ru = r as u32;
    let gu = g as u32;
    let bu = b as u32;
    assert(((au * 0x1000000 + ru * 0x10000 + gu * 0x100 + bu) as u32) / 0x1000000 == au
        && (((au * 0x1000000 + ru * 0x10000 + gu * 0x100 + bu) as u32) / 0x10000) % 0x100 == ru
        && (((au * 0x1000000 + ru * 0x10000 + gu * 0x100 + bu) as u32) / 0x100) % 0x100 == gu
        && ((au * 0x1000000 + ru * 0x10000 + gu * 0x100 + bu) as u32) % 0x100 == bu) by (bit_vector)
        requires
            au <= 255,
            ru <= 255,
            gu <= 255,
            bu <= 255,
    ;
}

/// Compositing a fully-opaque source pixel over any destination reproduces
/// the source pixel exactly.
pub proof fn lemma_blend_opaque(dst: u32, src: u32)
    requires
        chan_a(src) == 255,
    ensures
        composite_pixel_spec(dst, src, None) == src,
{
    assert(blend_channel(chan_r(src), chan_r(dst), 255) == chan_r(src));
    assert(blend_channel(chan_g(src), chan_g(dst), 255) == chan_g(src));
    assert(blend_channel(chan_b(src), chan_b(dst), 255) == chan_b(src));
    lemma_unpack_pack(src);
}

/// Compositing a fully-transparent source pixel leaves the destination
/// unchanged.
pub proof fn lemma_blend_transparent(dst: u32, src: u32)
    requires
        chan_a(src) == 0,
    ensures
        composite_pixel_spec(dst, src, None) == dst,
{
}

/// Darkness factor one (a hundred hundredths) is a no-op on every pixel.
pub proof fn lemma_darkness_full(p: u32)
    ensures
        darken_pixel_spec(p, 100) == p,
{
    lemma_channels(p);
    lemma_unpack_pack(p);
}

/// Darkness factor zero zeroes the colour channels and preserves the opacity
/// channel.
pub proof fn lemma_darkness_zero(p: u32)
    ensures
        darken_pixel_spec(p, 0) == pack_pixel(chan_a(p), 0, 0, 0),
        chan_a(darken_pixel_spec(p, 0)) == chan_a(p),
        chan_r(darken_pixel_spec(p, 0)) == 0,
        chan_g(darken_pixel_spec(p, 0)) == 0,
        chan_b(darken_pixel_spec(p, 0)) == 0,
{
    lemma_channels(p);
    lemma_chan_of_pack(chan_a(p), 0, 0, 0);
}

/// One decoded rectangular block of pixel data cut from a sprite sheet.
pub struct SpriteFrame {
    /// Width of the frame in pixels.
    pub width: u32,
    /// Height of the frame in pixels.
    pub height: u32,
    /// Row-major packed ARGB pixel data, one word per pixel.
    pub data: Vec<u32>,
}

/// A frame is well formed when it holds exactly one pixel per cell.
pub open spec fn frame_wf(f: SpriteFrame) -> bool {
    f.data@.len() == f.width as int * f.height as int
}

impl SpriteFrame {
    /// Builds a frame from its dimensions and pixel data.
    pub fn new(width: u32, height: u32, data: Vec<u32>) -> (f: SpriteFrame)
        requires
            data@.len() == width as int * height as int,
        ensures
            f.width == width,
            f.height == height,
            f.data@ == data@,
            frame_wf(f),
    {
        SpriteFrame { width, height, data }
    }
}

/// The immutable store of decoded sprite frames, grouped by role.
pub struct SpriteMaps {
    pub body: Vec<SpriteFrame>,
    pub background: Vec<SpriteFrame>,
    pub food: Vec<SpriteFrame>,
    pub head: Vec<SpriteFrame>,
    pub tail: Vec<SpriteFrame>,
    pub game_over_screen: Vec<SpriteFrame>,
    pub layer_0: Vec<SpriteFrame>,
    pub layer_1: Vec<SpriteFrame>,
    pub blue_strip: Vec<SpriteFrame>,
}

/// Every frame of a role sequence is well formed.
pub open spec fn frames_wf(v: Seq<SpriteFrame>) -> bool {
    forall|i: int| 0 <= i < v.len() ==> frame_wf(#[trigger] v[i])
}

/// The sprite store holds enough well-formed frames for every role the
/// renderer draws from.
pub open spec fn sprite_maps_wf(s: SpriteMaps) -> bool {
    &&& frames_wf(s.body@)
    &&& frames_wf(s.background@)
    &&& frames_wf(s.food@)
    &&& frames_wf(s.head@)
    &&& frames_wf(s.tail@)
    &&& frames_wf(s.game_over_screen@)
    &&& frames_wf(s.layer_0@)
    &&& frames_wf(s.layer_1@)
    &&& frames_wf(s.blue_strip@)
    &&& s.body@.len() >= 2
    &&& s.food@.len() >= 2
    &&& s.head@.len() >= 4
    &&& s.tail@.len() >= 2
    &&& s.game_over_screen@.len() >= crate::constants::GAME_OVER_FRAME_COUNT
    &&& s.layer_0@.len() >= 1
    &&& s.layer_1@.len() >= 1
    &&& s.blue_strip@.len() >= 1
}

impl SpriteMaps {
    /// Aggregates pre-decoded per-role frame lists into the store.
    pub fn new(
        body: Vec<SpriteFrame>,
        background: Vec<SpriteFrame>,
        food: Vec<SpriteFrame>,
        head: Vec<SpriteFrame>,
        tail: Vec<SpriteFrame>,
        game_over_screen: Vec<SpriteFrame>,
        layer_0: Vec<SpriteFrame>,
        layer_1: Vec<SpriteFrame>,
        blue_strip: Vec<SpriteFrame>,
    ) -> (s: SpriteMaps)
        ensures
            s.body@ == body@,
            s.background@ == background@,
            s.food@ == food@,
            s.head@ == head@,
            s.tail@ == tail@,
            s.game_over_screen@ == game_over_screen@,
            s.layer_0@ == layer_0@,
            s.layer_1@ == layer_1@,
            s.blue_strip@ == blue_strip@,
    {
        SpriteMaps { body, background, food, head, tail, game_over_screen, layer_0, layer_1, blue_strip }
    }
}

/// The ARGB word of pixel `i` of a decoded RGBA byte stream: the opacity
/// byte moves to the top, followed by red, green and blue.
pub open spec fn rgba_word(bytes: Seq<u8>, i: int) -> u32 {
    pack_pixel(
        bytes[4 * i + 3] as int,
        bytes[4 * i] as int,
        bytes[4 * i + 1] as int,
        bytes[4 * i + 2] as int,
    )
}

/// Converts a decoded RGBA byte stream into packed ARGB pixel words, one
/// word per four bytes.
#[verifier::loop_isolation(false)]
pub fn img_to_buffer(rgba: &Vec<u8>) -> (r: Vec<u32>)
    requires
        rgba@.len() % 4 == 0,
    ensures
        r@.len() == rgba@.len() / 4,
        forall|i: int| 0 <= i < r@.len() ==> r@[i] == rgba_word(rgba@, i),
{
    proof {
        vstd::arithmetic::div_mod::lemma_fundamental_div_mod(rgba@.len() as int, 4);
    }
    let n = rgba.len() / 4;
    let mut out: Vec<u32> = Vec::new();
    let mut i: usize = 0;
    while i < n
        invariant
            i <= n,
            out@.len() == i,
            forall|k: int| 0 <= k < i ==> out@[k] == rgba_word(rgba@, k),
        decreases n - i,
    {
        let rbyte = rgba[4 * i];
        let gbyte = rgba[4 * i + 1];
        let bbyte = rgba[4 * i + 2];
        let abyte = rgba[4 * i + 3];
        proof {
            lemma_pack(abyte as u32, rbyte as u32, gbyte as u32, bbyte as u32);
        }
        let px = ((abyte as u32) << 24) | ((rbyte as u32) << 16) | ((gbyte as u32) << 8) | (
        bbyte as u32);
        out.push(px);
        i += 1;
    }
    out
}

/// The pixel data of the sheet cell at `(cx, cy)`: `sw * sh` words read
/// row-major out of the sheet.
pub open spec fn cell_data(
    sheet: Seq<u32>,
    map_w: int,
    sw: int,
    sh: int,
    cx: int,
    cy: int,
) -> Seq<u32> {
    Seq::new((sw * sh) as nat, |k: int| sheet[(cy * sh + k / sw) * map_w + (cx * sw + k % sw)])
}

/// Copies one sheet cell into a fresh row-major pixel buffer.
#[verifier::loop_isolation(false)]
fn extract_cell(
    sheet: &Vec<u32>,
    map_width: usize,
    map_height: usize,
    sprite_width: usize,
    sprite_height: usize,
    cx: usize,
    cy: usize,
) -> (data: Vec<u32>)
    requires
        sheet@.len() == map_width * map_height,
        sprite_width >= 1,
        (cx as int + 1) * sprite_width <= map_width,
        (cy as int + 1) * sprite_height <= map_height,
    ensures
        data@ == cell_data(
            sheet@,
            map_width as int,
            sprite_width as int,
            sprite_height as int,
            cx as int,
            cy as int,
        ),
{
    let mut data: Vec<u32> = Vec::new();
    let total = sheet.len();
    let ghost swi = sprite_width as int;
    let mut row: usize = 0;
    while row < sprite_height
        invariant
            row <= sprite_height,
            data@.len() == row as int * swi,
            forall|k: int|
                0 <= k < data@.len() ==> data@[k] == cell_data(
                    sheet@,
                    map_width as int,
                    swi,
                    sprite_height as int,
                    cx as int,
                    cy as int,
                )[k],
        decreases sprite_height - row,
    {
        let mut col: usize = 0;
        while col < sprite_width
            invariant
                col <= sprite_width,
                row < sprite_height,
                data@.len() == row as int * swi + col as int,
                forall|k: int|
                    0 <= k < data@.len() ==> data@[k] == cell_data(
                        sheet@,
                        map_width as int,
                        swi,
                        sprite_height as int,
                        cx as int,
                        cy as int,
                    )[k],
            decreases sprite_width - col,
        {
            proof {
                assert(cy as int * sprite_height + row < map_height && cx as int * sprite_width
                    + col < map_width && (cy as int * sprite_height + row) * map_width + (
                cx as int * sprite_width + col) < map_height as int * map_width)
                    by (nonlinear_arith)
                    requires
                        (cx as int + 1) * sprite_width <= map_width,
                        (cy as int + 1) * sprite_height <= map_height,
                        0 <= row as int && (row as int) < sprite_height as int,
                        0 <= col as int && (col as int) < sprite_width as int,
                        0 <= cx as int,
                        0 <= cy as int,
                        sprite_width >= 1,
                ;
                assert(map_height as int * map_width == map_width as int * map_height)
                    by (nonlinear_arith);
                assert((cy as int * sprite_height + row) * map_width + (cx as int * sprite_width
                    + col) < total as int);
                assert((cy as int * sprite_height + row) * map_width >= 0) by (nonlinear_arith)
                    requires
                        cy as int * sprite_height + row >= 0,
                        map_width as int >= 0,
                ;
            }
            let src = (cy * sprite_height + row) * map_width + (cx * sprite_width + col);
            let ghost k = row as int * swi + col as int;
            proof {
                lemma_fundamental_div_mod_converse(k, swi, row as int, col as int);
                assert(0 <= k < (swi * sprite_height as int)) by (nonlinear_arith)
                    requires
                        k == row as int * swi + col as int,
                        0 <= row as int && (row as int) < sprite_height as int,
                        0 <= col as int && (col as int) < swi,
                        swi >= 1,
                ;
            }
            let px = sheet[src];
            data.push(px);
            col += 1;
        }
        proof {
            assert(row as int * swi + swi == (row as int + 1) * swi) by (nonlinear_arith);
        }
        row += 1;
    }
    proof {
        assert(sprite_height as int * swi == swi * sprite_height as int) by (nonlinear_arith);
        assert(data@ =~= cell_data(
            sheet@,
            map_width as int,
            swi,
            sprite_height as int,
            cx as int,
            cy as int,
        ));
    }
    data
}

/// Cuts a sheet of decoded pixels into equal-size frames, indexed by sheet
/// position in row-major order. Frame dimensions are fixed by the caller,
/// not derived from the sheet; partial cells at the edges are dropped.
#[verifier::loop_isolation(false)]
pub fn frames_from_sheet(
    sheet: &Vec<u32>,
    map_width: usize,
    map_height: usize,
    sprite_width: usize,
    sprite_height: usize,
) -> (frames: Vec<SpriteFrame>)
    requires
        sheet@.len() == map_width * map_height,
        1 <= sprite_width <= u32::MAX,
        1 <= sprite_height <= u32::MAX,
    ensures
        frames@.len() == (map_width / sprite_width) as int * ((map_height / sprite_height) as int),
        forall|f: int|
            0 <= f < frames@.len() ==> {
                let fr = #[trigger] frames@[f];
                &&& fr.width == sprite_width
                &&& fr.height == sprite_height
                &&& frame_wf(fr)
                &&& fr.data@ == cell_data(
                    sheet@,
                    map_width as int,
                    sprite_width as int,
                    sprite_height as int,
                    f % ((map_width / sprite_width) as int),
                    f / ((map_width / sprite_width) as int),
                )
            },
{
    let sprites_x = map_width / sprite_width;
    let sprites_y = map_height / sprite_height;
    let ghost sxi = sprites_x as int;
    let mut frames: Vec<SpriteFrame> = Vec::new();
    if sprites_x == 0 {
        proof {
            assert((0 as int) * ((map_height / sprite_height) as int) == 0) by (nonlinear_arith);
        }
        return frames;
    }
    proof {
        vstd::arithmetic::div_mod::lemma_fundamental_div_mod(map_width as int, sprite_width as int);
        vstd::arithmetic::div_mod::lemma_fundamental_div_mod(
            map_height as int,
            sprite_height as int,
        );
    }
    let mut cy: usize = 0;
    while cy < sprites_y
        invariant
            cy <= sprites_y,
            frames@.len() == cy as int * sxi,
            forall|f: int|
                0 <= f < frames@.len() ==> {
                    let fr = #[trigger] frames@[f];
                    &&& fr.width == sprite_width
                    &&& fr.height == sprite_height
                    &&& frame_wf(fr)
                    &&& fr.data@ == cell_data(
                        sheet@,
                        map_width as int,
                        sprite_width as int,
                        sprite_height as int,
                        f % sxi,
                        f / sxi,
                    )
                },
        decreases sprites_y - cy,
    {
        let mut cx: usize = 0;
        while cx < sprites_x
            invariant
                cx <= sprites_x,
                cy < sprites_y,
                frames@.len() == cy as int * sxi + cx as int,
                forall|f: int|
                    0 <= f < frames@.len() ==> {
                        let fr = #[trigger] frames@[f];
                        &&& fr.width == sprite_width
                        &&& fr.height == sprite_height
                        &&& frame_wf(fr)
                        &&& fr.data@ == cell_data(
                            sheet@,
                            map_width as int,
                            sprite_width as int,
                            sprite_height as int,
                            f % sxi,
                            f / sxi,
                        )
                    },
            decreases sprites_x - cx,
        {
            proof {
                assert((cx as int + 1) * sprite_width <= sxi * sprite_width as int && (cy as int
                    + 1) * sprite_height <= sprites_y as int * sprite_height as int)
                    by (nonlinear_arith)
                    requires
                        (cx as int) < sxi,
                        (cy as int) < sprites_y as int,
                        sprite_width >= 1,
                        sprite_height >= 1,
                ;
                assert(sxi * sprite_width as int <= map_width && sprites_y as int
                    * sprite_height as int <= map_height) by (nonlinear_arith)
                    requires
                        map_width as int == sprite_width as int * sxi + map_width as int
                            % sprite_width as int,
                        map_height as int == sprite_height as int * (sprites_y as int)
                            + map_height as int % sprite_height as int,
                        map_width as int % sprite_width as int >= 0,
                        map_height as int % sprite_height as int >= 0,
                        sxi >= 0,
                        sprites_y as int >= 0,
                ;
            }
            let data = extract_cell(
                sheet,
                map_width,
                map_height,
                sprite_width,
                sprite_height,
                cx,
                cy,
            );
            let frame = SpriteFrame::new(sprite_width as u32, sprite_height as u32, data);
            frames.push(frame);
            proof {
                let f = cy as int * sxi + cx as int;
                lemma_fundamental_div_mod_converse(f, sxi, cy as int, cx as int);
            }
            cx += 1;
        }
        proof {
            assert(cy as int * sxi + sxi == (cy as int + 1) * sxi) by (nonlinear_arith);
        }
        cy += 1;
    }
    proof {
        assert(sprites_y as int * sxi == sxi * sprites_y as int) by (nonlinear_arith);
    }
    frames
}

/// The flat buffer index a pixel at `(x, y)` targets in a buffer of the
/// given width.
pub open spec fn target_of(x: int, y: int, w: int) -> int {
    y * w + x
}

/// Computes the target index of `(tx, ty)` in a buffer of width `w` and
/// length `len`, or `None` when it falls outside the buffer.
fn target_index(tx: u128, ty: u128, w: usize, len: usize) -> (r: Option<usize>)
    requires
        tx < 0x40000000000000000,
        ty < 0x40000000000000000,
    ensures
        target_of(tx as int, ty as int, w as int) >= 0,
        r == (if target_of(tx as int, ty as int, w as int) < len as int {
            Some(target_of(tx as int, ty as int, w as int) as usize)
        } else {
            None::<usize>
        }),
{
    proof {
        assert(ty as int * (w as int) >= 0) by (nonlinear_arith)
            requires
                ty as int >= 0,
                w as int >= 0,
        ;
    }
    let lenu = len as u128;
    if w == 0 {
        if tx < lenu {
            Some(tx as usize)
        } else {
            None
        }
    } else if ty >= lenu {
        proof {
            assert(ty as int * (w as int) + tx as int >= ty as int) by (nonlinear_arith)
                requires
                    w as int >= 1,
                    tx as int >= 0,
                    ty as int >= 0,
            ;
        }
        None
    } else if tx >= lenu {
        None
    } else {
        proof {
            assert(ty as int * (w as int) <= 0xFFFFFFFFFFFFFFFF * 0xFFFFFFFFFFFFFFFF)
                by (nonlinear_arith)
                requires
                    0 <= ty as int <= 0xFFFFFFFFFFFFFFFF,
                    0 <= w as int <= 0xFFFFFFFFFFFFFFFF,
            ;
        }
        let idx = ty * (w as u128) + tx;
        if idx < lenu {
            Some(idx as usize)
        } else {
            None
        }
    }
}

/// The buffer after an unconditional single-pixel write with the standard
/// bounds check.
pub open spec fn set_pixel_spec(buf: Seq<u32>, x: int, y: int, color: u32, w: int) -> Seq<u32> {
    if 0 <= target_of(x, y, w) < buf.len() {
        buf.update(target_of(x, y, w), color)
    } else {
        buf
    }
}

/// Writes one pixel into the buffer, silently clipping writes whose target
/// index falls outside it.
pub fn set_pixel(x: usize, y: usize, color: u32, window_buffer: &mut Vec<u32>, window_width: usize)
    ensures
        final(window_buffer)@ == set_pixel_spec(
            old(window_buffer)@,
            x as int,
            y as int,
            color,
            window_width as int,
        ),
        final(window_buffer)@.len() == old(window_buffer)@.len(),
{
    let idx = target_index(x as u128, y as u128, window_width, window_buffer.len());
    if let Some(i) = idx {
        window_buffer.set(i, color);
    }
}

/// The buffer after drawing the first `n` sprite pixels, in row-major order.
/// Pixel `k` of a sprite of width `sw` lands at target `(x + k % sw,
/// y + k / sw)`; targets outside the buffer are skipped.
pub open spec fn draw_upto(
    buf: Seq<u32>,
    x: int,
    y: int,
    sw: int,
    data: Seq<u32>,
    w: int,
    darkness: Option<u32>,
    n: int,
) -> Seq<u32>
    decreases n,
{
    if n <= 0 {
        buf
    } else {
        let prev = draw_upto(buf, x, y, sw, data, w, darkness, n - 1);
        let k = n - 1;
        let t = target_of(x + k % sw, y + k / sw, w);
        if 0 <= k < data.len() && 0 <= t < prev.len() {
            prev.update(t, composite_pixel_spec(prev[t], data[k], darkness))
        } else {
            prev
        }
    }
}

/// The buffer after a whole sprite frame is drawn at `(x, y)`.
pub open spec fn draw_sprite_spec(
    buf: Seq<u32>,
    x: int,
    y: int,
    sw: int,
    sh: int,
    data: Seq<u32>,
    w: int,
    darkness: Option<u32>,
) -> Seq<u32> {
    draw_upto(buf, x, y, sw, data, w, darkness, sw * sh)
}

/// Drawing never changes the buffer length: out-of-range targets are
/// clipped, never written.
pub proof fn lemma_draw_upto_len(
    buf: Seq<u32>,
    x: int,
    y: int,
    sw: int,
    data: Seq<u32>,
    w: int,
    darkness: Option<u32>,
    n: int,
)
    ensures
        draw_upto(buf, x, y, sw, data, w, darkness, n).len() == buf.len(),
    decreases n,
{
    if n > 0 {
        lemma_draw_upto_len(buf, x, y, sw, data, w, darkness, n - 1);
    }
}

/// The target index of sprite pixel `k` for a draw at `(x, y)` into a
/// buffer of width `w`.
pub open spec fn pixel_target(x: int, y: int, sw: int, w: int, k: int) -> int {
    target_of(x + k % sw, y + k / sw, w)
}

/// A buffer cell that is the target of no sprite pixel keeps its value
/// through a draw.
pub proof fn lemma_draw_upto_untouched(
    buf: Seq<u32>,
    x: int,
    y: int,
    sw: int,
    data: Seq<u32>,
    w: int,
    darkness: Option<u32>,
    n: int,
    i: int,
)
    requires
        0 <= i < buf.len(),
        forall|k: int| 0 <= k < n ==> #[trigger] pixel_target(x, y, sw, w, k) != i,
    ensures
        draw_upto(buf, x, y, sw, data, w, darkness, n)[i] == buf[i],
    decreases n,
{
    if n > 0 {
        lemma_draw_upto_untouched(buf, x, y, sw, data, w, darkness, n - 1, i);
        lemma_draw_upto_len(buf, x, y, sw, data, w, darkness, n - 1);
        assert(pixel_target(x, y, sw, w, n - 1) != i);
    }
}

/// After drawing the first `n` pixels of a fully-opaque frame whose width
/// equals the buffer width at the origin, cells below `n` hold the frame's
/// pixels and the rest still hold the prior buffer's.
proof fn lemma_draw_upto_opaque_cover(buf: Seq<u32>, data: Seq<u32>, w: int, h: int, n: int)
    requires
        w >= 1,
        h >= 0,
        buf.len() == w * h,
        data.len() == w * h,
        0 <= n <= data.len(),
        forall|k: int| 0 <= k < data.len() ==> chan_a(#[trigger] data[k]) == 255,
    ensures
        draw_upto(buf, 0, 0, w, data, w, None, n).len() == buf.len(),
        forall|i: int| 0 <= i < n ==> #[trigger] draw_upto(buf, 0, 0, w, data, w, None, n)[i]
            == data[i],
        forall|i: int| n <= i < buf.len() ==> #[trigger] draw_upto(buf, 0, 0, w, data, w, None, n)[
        i] == buf[i],
    decreases n,
{
    if n > 0 {
        lemma_draw_upto_opaque_cover(buf, data, w, h, n - 1);
        let k = n - 1;
        vstd::arithmetic::div_mod::lemma_fundamental_div_mod(k, w);
        assert(w * (k / w) == (k / w) * w) by (nonlinear_arith);
        assert(target_of(0 + k % w, 0 + k / w, w) == k);
        let prev = draw_upto(buf, 0, 0, w, data, w, None, k);
        lemma_blend_opaque(prev[k], data[k]);
    }
}

/// A fully-opaque frame as wide as the buffer, drawn at the origin over a
/// buffer it exactly spans, replaces the whole buffer with its own pixels:
/// nothing of the prior contents survives.
pub proof fn lemma_opaque_full_cover_draw(buf: Seq<u32>, data: Seq<u32>, w: int, h: int)
    requires
        w >= 1,
        h >= 0,
        buf.len() == w * h,
        data.len() == w * h,
        forall|k: int| 0 <= k < data.len() ==> chan_a(#[trigger] data[k]) == 255,
    ensures
        draw_sprite_spec(buf, 0, 0, w, h, data, w, None) == data,
{
    lemma_draw_upto_opaque_cover(buf, data, w, h, w * h);
    assert(draw_sprite_spec(buf, 0, 0, w, h, data, w, None) =~= data);
}

/// Draws a sprite frame into the buffer at `(x, y)` with alpha blending and
/// optional darkness shading. Pixels whose target index falls outside the
/// buffer are silently clipped; fully transparent sprite pixels are skipped.
#[verifier::loop_isolation(false)]
pub fn draw_sprite(
    x: usize,
    y: usize,
    sprite: &SpriteFrame,
    window_buffer: &mut Vec<u32>,
    window_width: usize,
    darkness_factor: Option<u32>,
)
    requires
        frame_wf(*sprite),
        darkness_factor matches Some(d) ==> d <= 100,
    ensures
        final(window_buffer)@ == draw_sprite_spec(
            old(window_buffer)@,
            x as int,
            y as int,
            sprite.width as int,
            sprite.height as int,
            sprite.data@,
            window_width as int,
            darkness_factor,
        ),
        final(window_buffer)@.len() == old(window_buffer)@.len(),
{
    let sw = sprite.width as usize;
    let sh = sprite.height as usize;
    let data_len = sprite.data.len();
    let ghost buf0 = window_buffer@;
    let ghost xi = x as int;
    let ghost yi = y as int;
    let ghost swi = sw as int;
    let ghost wi = window_width as int;
    let mut row: usize = 0;
    while row < sh
        invariant
            row <= sh,
            window_buffer@.len() == buf0.len(),
            window_buffer@ == draw_upto(
                buf0,
                xi,
                yi,
                swi,
                sprite.data@,
                wi,
                darkness_factor,
                row as int * swi,
            ),
        decreases sh - row,
    {
        let mut col: usize = 0;
        while col < sw
            invariant
                col <= sw,
                row < sh,
                window_buffer@.len() == buf0.len(),
                window_buffer@ == draw_upto(
                    buf0,
                    xi,
                    yi,
                    swi,
                    sprite.data@,
                    wi,
                    darkness_factor,
                    row as int * swi + col as int,
                ),
            decreases sw - col,
        {
            proof {
                assert((row as int * swi + col as int) < swi * (sh as int)) by (nonlinear_arith)
                    requires
                        0 <= row as int && (row as int) < sh as int,
                        0 <= col as int && (col as int) < swi,
                ;
                assert((row as int * swi + col as int) < data_len as int);
            }
            let k = row * sw + col;
            let ghost ki = k as int;
            let mut sp = sprite.data[k];
            if let Some(d) = darkness_factor {
                sp = darken_pixel(sp, d);
            }
            let a = pixel_alpha(sp);
            let idx = target_index(
                x as u128 + col as u128,
                y as u128 + row as u128,
                window_width,
                window_buffer.len(),
            );
            proof {
                lemma_fundamental_div_mod_converse(ki, swi, row as int, col as int);
                assert(sp == shaded_source(sprite.data@[ki], darkness_factor));
            }
            let ghost t = target_of(xi + ki % swi, yi + ki / swi, wi);
            let ghost prev = window_buffer@;
            if let Some(i) = idx {
                if a > 0 {
                    let dstp = window_buffer[i];
                    let newp = blend_pixel(dstp, sp);
                    window_buffer.set(i, newp);
                } else {
                    proof {
                        assert(prev.update(t, composite_pixel_spec(prev[t], sprite.data@[ki],
                            darkness_factor)) =~= prev);
                    }
                }
            }
            proof {
                assert(window_buffer@ == draw_upto(
                    buf0,
                    xi,
                    yi,
                    swi,
                    sprite.data@,
                    wi,
                    darkness_factor,
                    ki + 1,
                ));
            }
            col += 1;
        }
        proof {
            assert(row as int * swi + swi == (row as int + 1) * swi) by (nonlinear_arith);
        }
        row += 1;
    }
    proof {
        assert((sh as int) * swi == swi * (sh as int)) by (nonlinear_arith);
    }
}

} // verus!
