use vstd::prelude::*;

use crate::DISPLAY_PIXEL_HEIGHT;
use crate::DISPLAY_PIXEL_WIDTH;

verus! {

/// Number of cells of the framebuffer.
pub const VRAM_SIZE: usize = 2048;

/// Index of the cell at column `x`, row `y` in the row-major grid.
pub open spec fn pixel_index(x: int, y: int) -> int {
    y * DISPLAY_PIXEL_WIDTH + x
}

/// Whether horizontal bit `i` (0 = most significant) of sprite row `j` is set.
pub open spec fn sprite_bit(sprite: Seq<u8>, j: int, i: int) -> bool {
    (sprite[j] >> ((7 - i) as u8)) & 1u8 == 1u8
}

/// The cell that sprite bit (`i`, `j`) lands on when the sprite is drawn at (`x`, `y`).
pub open spec fn sprite_target(x: int, y: int, j: int, i: int) -> int {
    pixel_index((x + i) % (DISPLAY_PIXEL_WIDTH as int), (y + j) % (DISPLAY_PIXEL_HEIGHT as int))
}

/// The grid and collision flag after the first `k` sprite bits (row by row, most
/// significant bit first) have been drawn at (`x`, `y`). A set bit flips its target
/// cell, and reports a collision when that cell was on just before.
pub open spec fn draw_upto(vram: Seq<u8>, x: int, y: int, sprite: Seq<u8>, k: nat) -> (Seq<u8>, bool)
    decreases k,
{
    if k == 0 {
        (vram, false)
    } else {
        let (prev, hit) = draw_upto(vram, x, y, sprite, (k - 1) as nat);
        let j = (k - 1) / 8;
        let i = (k - 1) % 8;
        if sprite_bit(sprite, j, i) {
            let cell = sprite_target(x, y, j, i);
            (prev.update(cell, if prev[cell] == 1 { 0u8 } else { 1u8 }), hit || prev[cell] == 1)
        } else {
            (prev, hit)
        }
    }
}

/// The grid and collision flag after drawing the whole `sprite` at (`x`, `y`).
pub open spec fn draw_spec(vram: Seq<u8>, x: int, y: int, sprite: Seq<u8>) -> (Seq<u8>, bool) {
    draw_upto(vram, x, y, sprite, (8 * sprite.len()) as nat)
}

/// A grid of the right size whose cells are all 0 or 1.
pub open spec fn is_binary_grid(g: Seq<u8>) -> bool {
    &&& g.len() == VRAM_SIZE
    &&& forall|k: int| 0 <= k < g.len() ==> #[trigger] g[k] <= 1
}

/// The grid with every cell off.
pub open spec fn blank_grid() -> Seq<u8> {
    Seq::new(VRAM_SIZE as nat, |k: int| 0u8)
}

/// Monochrome 64x32 framebuffer.
pub struct Display {
    vram: Vec<u8>,
}

impl View for Display {
    type V = Seq<u8>;

    closed spec fn view(&self) -> Seq<u8> {
        self.vram@
    }
}

proof fn lemma_bit_position(k: int)
    requires
        0 <= k,
    ensures
        (8 * (k / 8) + k % 8) == k,
        0 <= k % 8 < 8,
{
}

impl Display {
    /// The framebuffer holds 2048 cells, each 0 or 1.
    pub open spec fn wf(&self) -> bool {
        is_binary_grid(self@)
    }

    /// A framebuffer with every pixel off.
    pub fn new() -> (r: Self)
        ensures
            r.wf(),
            r@ == blank_grid(),
    {
        let r = Display { vram: vec![0u8; VRAM_SIZE] };
        assert(r@ =~= blank_grid());
        r
    }

    /// Turns the pixel at (`x`, `y`) on or off.
    pub fn set_pixel(&mut self, x: usize, y: usize, on: bool)
        requires
            old(self).wf(),
            x < DISPLAY_PIXEL_WIDTH,
            y < DISPLAY_PIXEL_HEIGHT,
        ensures
            final(self).wf(),
            final(self)@ == old(self)@.update(pixel_index(x as int, y as int), if on { 1u8 } else { 0u8 }),
    {
        let scaled = y * DISPLAY_PIXEL_WIDTH;
        self.vram.set(x + scaled, if on { 1u8 } else { 0u8 });
    }

    /// Whether the pixel at (`x`, `y`) is on.
    pub fn is_pixel_on(&mut self, x: usize, y: usize) -> (r: bool)
        requires
            old(self).wf(),
            x < DISPLAY_PIXEL_WIDTH,
            y < DISPLAY_PIXEL_HEIGHT,
        ensures
            *final(self) == *old(self),
            r == (old(self)@[pixel_index(x as int, y as int)] == 1),
    {
        let scaled = y * DISPLAY_PIXEL_WIDTH;
        self.vram[x + scaled] == 1
    }

    /// Turns every pixel off.
    pub fn cls(&mut self)
        requires
            old(self).wf(),
        ensures
            final(self).wf(),
            final(self)@ == blank_grid(),
    {
        let mut k: usize = 0;
        while k < VRAM_SIZE
            invariant
                self.vram@.len() == VRAM_SIZE,
                k <= VRAM_SIZE,
                forall|c: int| 0 <= c < k ==> self.vram@[c] == 0,
                forall|c: int| k <= c < VRAM_SIZE ==> self.vram@[c] <= 1,
            decreases VRAM_SIZE - k,
        {
            self.vram.set(k, 0);
            k = k + 1;
        }
        assert(self@ =~= blank_grid());
    }

    /// XOR-draws `sprite` (one byte per row, most significant bit leftmost) with its
    /// top-left corner at (`x` mod 64, `y` mod 32), wrapping around both edges.
    /// Returns whether some set sprite bit landed on a pixel that was on.
    pub fn draw(&mut self, x: usize, y: usize, sprite: &[u8]) -> (collision: bool)
        requires
            old(self).wf(),
        ensures
            final(self).wf(),
            (final(self)@, collision) == draw_spec(old(self)@, x as int, y as int, sprite@),
    {
        let rows = sprite.len();
        let mut collision = false;
        let mut j: usize = 0;
        while j < rows
            invariant
                self.wf(),
                rows == sprite@.len(),
                j <= rows,
                (self@, collision) == draw_upto(old(self)@, x as int, y as int, sprite@, (8 * j) as nat),
            decreases rows - j,
        {
            let row = sprite[j];
            let mut i: u8 = 0;
            while i < 8
                invariant
                    self.wf(),
                    rows == sprite@.len(),
                    j < rows,
                    i <= 8,
                    row == sprite@[j as int],
                    (self@, collision) == draw_upto(old(self)@, x as int, y as int, sprite@, (8 * j + i) as nat),
                decreases 8 - i,
            {
                proof {
                    lemma_bit_position(8 * j + i);
                    vstd::arithmetic::div_mod::lemma_fundamental_div_mod_converse(
                        8 * j + i, 8, j as int, i as int);
                }
                // check every single bit, starting from the most significant bit
                let value = (row >> (7 - i)) & 0x01;
                if value == 1 {
                    // calculate the indexes in the memory
                    let xi = (x % DISPLAY_PIXEL_WIDTH + i as usize) % DISPLAY_PIXEL_WIDTH;
                    let yj = (y % DISPLAY_PIXEL_HEIGHT + j % DISPLAY_PIXEL_HEIGHT) % DISPLAY_PIXEL_HEIGHT;
                    proof {
                        vstd::arithmetic::div_mod::lemma_add_mod_noop(x as int, i as int, 64);
                        vstd::arithmetic::div_mod::lemma_add_mod_noop(y as int, j as int, 32);
                        vstd::arithmetic::div_mod::lemma_mod_twice(i as int, 64);
                        vstd::arithmetic::div_mod::lemma_mod_twice(j as int, 32);
                        vstd::arithmetic::div_mod::lemma_small_mod(i as nat, 64);
                    }
                    // get the value on the screen in order to detect collisions
                    let value_screen_on = self.is_pixel_on(xi, yj);
                    if value_screen_on {
                        collision = true;
                    }
                    // draw the new value with XOR
                    let is_on = (value == 1) ^ value_screen_on;
                    self.set_pixel(xi, yj, is_on);
                }
                i = i + 1;
            }
            j = j + 1;
        }
        collision
    }

    /// A copy of the grid, row by row.
    pub fn get_vram_copy(&self) -> (r: Vec<u8>)
        requires
            self.wf(),
        ensures
            r@ == self@,
            is_binary_grid(r@),
    {
        self.vram.clone()
    }
}

} // verus!
