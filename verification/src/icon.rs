//! The debug terminal's window icon: a 32x32 RGBA picture of a dark
//! terminal window with a green `>_` prompt.

use vstd::prelude::*;

verus! {

/// Width and height of the icon in pixels.
pub const ICON_SIZE: u32 = 32;

/// The pixels of the `>_` prompt glyph.
pub open spec fn icon_glyph(x: int, y: int) -> bool {
    ||| (x == 8 && y == 14)
    ||| (x == 10 && y == 15)
    ||| (x == 8 && y == 16)
    ||| (y == 15 && 11 <= x <= 14)
}

/// The colour (red, green, blue, alpha) of the icon's pixel at `(x, y)`:
/// the prompt glyph in green, a one-pixel border, a six-row title bar and a
/// near-black body.
pub open spec fn icon_color(x: int, y: int) -> Seq<u8> {
    if icon_glyph(x, y) {
        seq![120u8, 220u8, 120u8, 255u8]
    } else if x == 0 || y == 0 || x == 31 || y == 31 {
        seq![30u8, 30u8, 30u8, 255u8]
    } else if y < 6 {
        seq![50u8, 50u8, 50u8, 255u8]
    } else {
        seq![12u8, 12u8, 12u8, 255u8]
    }
}

/// The byte at offset `k` of the row-major RGBA buffer.
pub open spec fn icon_byte(k: int) -> u8 {
    icon_color((k / 4) % 32, (k / 4) / 32)[k % 4]
}

fn pixel_color(x: u32, y: u32) -> (rgba: [u8; 4])
    ensures
        rgba@ == icon_color(x as int, y as int),
{
    let glyph = (x == 8 && y == 14) || (x == 10 && y == 15) || (x == 8 && y == 16) || (y == 15
        && 11 <= x && x <= 14);
    let rgba = if glyph {
        [120u8, 220u8, 120u8, 255u8]
    } else if x == 0 || y == 0 || x == 31 || y == 31 {
        [30u8, 30u8, 30u8, 255u8]
    } else if y < 6 {
        [50u8, 50u8, 50u8, 255u8]
    } else {
        [12u8, 12u8, 12u8, 255u8]
    };
    assert(rgba@ =~= icon_color(x as int, y as int));
    rgba
}

/// Where a pixel's channel lies in the row-major buffer.
pub proof fn lemma_icon_offset(x: int, y: int, c: int)
    requires
        0 <= x < 32,
        0 <= y < 32,
        0 <= c < 4,
    ensures
        icon_byte((y * 32 + x) * 4 + c) == icon_color(x, y)[c],
{
    let k = (y * 32 + x) * 4 + c;
    assert(k / 4 == y * 32 + x) by (nonlinear_arith)
        requires
            k == (y * 32 + x) * 4 + c,
            0 <= c < 4,
            0 <= x,
            0 <= y,
    ;
    assert(k % 4 == c) by (nonlinear_arith)
        requires
            k == (y * 32 + x) * 4 + c,
            0 <= c < 4,
            0 <= x,
            0 <= y,
    ;
    assert((y * 32 + x) % 32 == x) by (nonlinear_arith)
        requires
            0 <= x < 32,
            0 <= y,
    ;
    assert((y * 32 + x) / 32 == y) by (nonlinear_arith)
        requires
            0 <= x < 32,
            0 <= y,
    ;
}

/// The RGBA bytes of the debug terminal's window icon, row by row.
pub fn terminal_window_icon() -> (rgba: Vec<u8>)
    ensures
        rgba@.len() == ICON_SIZE * ICON_SIZE * 4,
        forall|x: int, y: int, c: int|
            0 <= x < 32 && 0 <= y < 32 && 0 <= c < 4 ==> rgba@[(y * 32 + x) * 4 + c] == icon_color(x, y)[c],
{
    let mut rgba: Vec<u8> = Vec::new();
    let mut k: u32 = 0;
    while k < 4096
        invariant
            k <= 4096,
            rgba@.len() == k,
            forall|j: int| 0 <= j < k ==> rgba@[j] == icon_byte(j),
        decreases 4096 - k,
    {
        let px = k / 4;
        let color = pixel_color(px % 32, px / 32);
        rgba.push(color[(k % 4) as usize]);
        k = k + 1;
    }
    assert forall|x: int, y: int, c: int|
        0 <= x < 32 && 0 <= y < 32 && 0 <= c < 4 implies rgba@[(y * 32 + x) * 4 + c] == icon_color(x, y)[c] by {
        lemma_icon_offset(x, y, c);
        assert(0 <= (y * 32 + x) * 4 + c < 4096) by (nonlinear_arith)
            requires
                0 <= x < 32,
                0 <= y < 32,
                0 <= c < 4,
        ;
    }
    rgba
}

} // verus!
