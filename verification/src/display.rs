//! The CHIP-8 monochrome framebuffer (64 x 32 pixels, row-major).

use vstd::prelude::*;

verus! {

/// Width of the CHIP-8 screen in pixels.
pub const SCREEN_WIDTH: usize = 64;

/// Height of the CHIP-8 screen in pixels.
pub const SCREEN_HEIGHT: usize = 32;

/// Number of pixels of the CHIP-8 screen.
pub const SCREEN_PIXELS: usize = 2048;

/// Row-major index of the pixel at column `x`, row `y`.
pub open spec fn pixel_index(x: int, y: int) -> int {
    y * 64 + x
}

/// A screen of the given length with every pixel off.
pub open spec fn blank_pixels(len: nat) -> Seq<u8> {
    Seq::new(len, |i: int| 0u8)
}

/// The buffer after XOR-ing the pixel at `idx` with 1.
pub open spec fn toggled(pixels: Seq<u8>, idx: int) -> Seq<u8> {
    pixels.update(idx, pixels[idx] ^ 1u8)
}

/// Default framebuffer contents: every pixel off.
pub fn default_pixels() -> (pixels: Vec<u8>)
    ensures
        pixels@ == blank_pixels(SCREEN_PIXELS as nat),
{
    let mut pixels: Vec<u8> = Vec::new();
    let mut i: usize = 0;
    while i < SCREEN_PIXELS
        invariant
            i <= SCREEN_PIXELS,
            pixels@ == blank_pixels(i as nat),
        decreases SCREEN_PIXELS - i,
    {
        pixels.push(0u8);
        i = i + 1;
        assert(pixels@ =~= blank_pixels(i as nat));
    }
    pixels
}

/// CHIP-8 monochrome framebuffer. A pixel is lit when its byte is non-zero.
pub struct Display {
    /// Raw pixel buffer stored in row-major order.
    pub pixels: Vec<u8>,
}

impl Display {
    /// Creates a cleared 64 x 32 display.
    pub fn new() -> (d: Self)
        ensures
            d.pixels@ == blank_pixels(SCREEN_PIXELS as nat),
    {
        Display { pixels: default_pixels() }
    }

    /// Turns every pixel off, keeping the buffer's length.
    pub fn clear(&mut self)
        ensures
            final(self).pixels@ == blank_pixels(old(self).pixels@.len()),
    {
        let n = self.pixels.len();
        let mut i: usize = 0;
        while i < n
            invariant
                n == self.pixels@.len(),
                n == old(self).pixels@.len(),
                i <= n,
                forall|j: int| 0 <= j < i ==> self.pixels@[j] == 0u8,
            decreases n - i,
        {
            self.pixels.set(i, 0u8);
            i = i + 1;
        }
        assert(self.pixels@ =~= blank_pixels(n as nat));
    }

    /// Whether the pixel at (x, y) is lit.
    pub fn get_pixel(&self, x: usize, y: usize) -> (lit: bool)
        requires
            pixel_index(x as int, y as int) < self.pixels@.len(),
        ensures
            lit == (self.pixels@[pixel_index(x as int, y as int)] != 0u8),
    {
        let n = self.pixels.len();
        assert(y * 64 + x < n);
        self.pixels[y * 64 + x] != 0
    }

    /// XORs the pixel at (x, y) with 1 and reports a collision, that is
    /// whether the pixel was lit before.
    pub fn set_pixel(&mut self, x: usize, y: usize) -> (collision: bool)
        requires
            pixel_index(x as int, y as int) < old(self).pixels@.len(),
        ensures
            collision == (old(self).pixels@[pixel_index(x as int, y as int)] != 0u8),
            final(self).pixels@ == toggled(old(self).pixels@, pixel_index(x as int, y as int)),
    {
        let n = self.pixels.len();
        assert(y * 64 + x < n);
        let idx = y * 64 + x;
        let before = self.pixels[idx];
        let collision = before != 0;
        self.pixels.set(idx, before ^ 1u8);
        collision
    }
}

/// Drawing the same pixel twice leaves the framebuffer as it was.
pub proof fn lemma_toggle_twice(pixels: Seq<u8>, idx: int)
    requires
        0 <= idx < pixels.len(),
    ensures
        toggled(toggled(pixels, idx), idx) == pixels,
{
    let b = pixels[idx];
    assert((b ^ 1u8) ^ 1u8 == b) by (bit_vector);
    assert(toggled(toggled(pixels, idx), idx) =~= pixels);
}

/// On a pixel holding 0 or 1, drawing flips whether it is lit, and touches no
/// other pixel.
pub proof fn lemma_toggle_flips(pixels: Seq<u8>, idx: int)
    requires
        0 <= idx < pixels.len(),
        pixels[idx] <= 1,
    ensures
        (toggled(pixels, idx)[idx] != 0u8) == (pixels[idx] == 0u8),
        toggled(pixels, idx)[idx] <= 1,
        forall|j: int| 0 <= j < pixels.len() && j != idx ==> toggled(pixels, idx)[j] == pixels[j],
{
    let b = pixels[idx];
    assert(b <= 1 ==> ((b ^ 1u8) != 0u8) == (b == 0u8) && (b ^ 1u8) <= 1) by (bit_vector);
}

/// On a cleared screen, drawing a pixel reports no collision and lights it.
pub proof fn lemma_draw_on_blank(len: nat, idx: int)
    requires
        0 <= idx < len,
    ensures
        blank_pixels(len)[idx] == 0u8,
        toggled(blank_pixels(len), idx)[idx] == 1u8,
{
    assert(0u8 ^ 1u8 == 1u8) by (bit_vector);
}

} // verus!
