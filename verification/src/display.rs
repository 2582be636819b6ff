use vstd::prelude::*;
use crate::{DISPLAY_HEIGHT, DISPLAY_WIDTH, VRAM_SIZE};

verus! {

/// Whether column `col` of a sprite row is set; column 0 is the high bit.
pub open spec fn lit(row: u8, col: int) -> bool {
    row & (0x80u8 >> (col as u8)) != 0
}

/// Whether the sprite, placed with its top left corner at (`x0`, `y0`),
/// has a set bit over the pixel with index `k`. Sprite bits that fall
/// outside the grid are over no pixel: they are dropped, not wrapped.
pub open spec fn covers(sprite: Seq<u8>, x0: int, y0: int, k: int) -> bool {
    let px = k % (DISPLAY_WIDTH as int);
    let py = k / (DISPLAY_WIDTH as int);
    &&& y0 <= py < y0 + sprite.len()
    &&& x0 <= px < x0 + 8
    &&& lit(sprite[py - y0], px - x0)
}

/// Whether the sprite has a set bit over pixel `k` and that pixel is on.
pub open spec fn hits(pixels: Seq<u8>, sprite: Seq<u8>, x0: int, y0: int, k: int) -> bool {
    covers(sprite, x0, y0, k) && pixels[k] == 1
}

/// The buffer after the sprite is XORed into it at (`x0`, `y0`): every
/// covered pixel is flipped, every other pixel is kept.
pub open spec fn drawn(pixels: Seq<u8>, sprite: Seq<u8>, x0: int, y0: int) -> Seq<u8> {
    Seq::new(
        pixels.len(),
        |k: int|
            if covers(sprite, x0, y0, k) {
                (1 - pixels[k]) as u8
            } else {
                pixels[k]
            },
    )
}

/// Whether drawing the sprite at (`x0`, `y0`) turns some pixel off.
pub open spec fn collides(pixels: Seq<u8>, sprite: Seq<u8>, x0: int, y0: int) -> bool {
    exists|k: int| 0 <= k < pixels.len() && #[trigger] hits(pixels, sprite, x0, y0, k)
}

/// A buffer with every pixel off.
pub open spec fn blank() -> Seq<u8> {
    Seq::new(VRAM_SIZE as nat, |k: int| 0u8)
}

/// Whether `pixels` is a full grid of pixels that are each 0 or 1.
pub open spec fn is_grid(pixels: Seq<u8>) -> bool {
    &&& pixels.len() == VRAM_SIZE
    &&& forall|k: int| 0 <= k < pixels.len() ==> pixels[k] <= 1
}

/// `covers`, restricted to the sprite bits that come before column `col`
/// of row `row` in drawing order.
spec fn covers_before(sprite: Seq<u8>, x0: int, y0: int, k: int, row: int, col: int) -> bool {
    let px = k % (DISPLAY_WIDTH as int);
    let py = k / (DISPLAY_WIDTH as int);
    covers(sprite, x0, y0, k) && (py - y0 < row || (py - y0 == row && px - x0 < col))
}

/// `hits`, restricted in the same way.
spec fn hits_before(
    pixels: Seq<u8>,
    sprite: Seq<u8>,
    x0: int,
    y0: int,
    k: int,
    row: int,
    col: int,
) -> bool {
    covers_before(sprite, x0, y0, k, row, col) && pixels[k] == 1
}

/// Whether some pixel is hit by a sprite bit that comes before column
/// `col` of row `row`.
spec fn any_hit_before(
    pixels: Seq<u8>,
    sprite: Seq<u8>,
    x0: int,
    y0: int,
    row: int,
    col: int,
) -> bool {
    exists|k: int|
        0 <= k < pixels.len() && #[trigger] hits_before(pixels, sprite, x0, y0, k, row, col)
}

/// Moving on in drawing order past a sprite bit that is over no pixel, or
/// past none at all, adds no hit.
proof fn lemma_hits_kept(
    pixels: Seq<u8>,
    sprite: Seq<u8>,
    x0: int,
    y0: int,
    r1: int,
    c1: int,
    r2: int,
    c2: int,
)
    requires
        forall|k: int|
            #![trigger hits_before(pixels, sprite, x0, y0, k, r1, c1)]
            #![trigger hits_before(pixels, sprite, x0, y0, k, r2, c2)]
            0 <= k < pixels.len() ==> hits_before(pixels, sprite, x0, y0, k, r1, c1)
                == hits_before(pixels, sprite, x0, y0, k, r2, c2),
    ensures
        any_hit_before(pixels, sprite, x0, y0, r1, c1) == any_hit_before(
            pixels,
            sprite,
            x0,
            y0,
            r2,
            c2,
        ),
{
    if any_hit_before(pixels, sprite, x0, y0, r1, c1) {
        let k = choose|k: int|
            0 <= k < pixels.len() && #[trigger] hits_before(pixels, sprite, x0, y0, k, r1, c1);
        assert(hits_before(pixels, sprite, x0, y0, k, r2, c2));
    }
    if any_hit_before(pixels, sprite, x0, y0, r2, c2) {
        let k = choose|k: int|
            0 <= k < pixels.len() && #[trigger] hits_before(pixels, sprite, x0, y0, k, r2, c2);
        assert(hits_before(pixels, sprite, x0, y0, k, r1, c1));
    }
}

/// Moving on in drawing order past the sprite bit over pixel `k0` adds a
/// hit exactly if that pixel is on.
proof fn lemma_hits_extended(
    pixels: Seq<u8>,
    sprite: Seq<u8>,
    x0: int,
    y0: int,
    row: int,
    col: int,
    k0: int,
)
    requires
        0 <= k0 < pixels.len(),
        !hits_before(pixels, sprite, x0, y0, k0, row, col),
        forall|k: int|
            #![trigger hits_before(pixels, sprite, x0, y0, k, row, col)]
            #![trigger hits_before(pixels, sprite, x0, y0, k, row, col + 1)]
            0 <= k < pixels.len() && k != k0 ==> hits_before(pixels, sprite, x0, y0, k, row, col)
                == hits_before(pixels, sprite, x0, y0, k, row, col + 1),
    ensures
        any_hit_before(pixels, sprite, x0, y0, row, col + 1) == (any_hit_before(
            pixels,
            sprite,
            x0,
            y0,
            row,
            col,
        ) || hits_before(pixels, sprite, x0, y0, k0, row, col + 1)),
{
    if any_hit_before(pixels, sprite, x0, y0, row, col) {
        let k = choose|k: int|
            0 <= k < pixels.len() && #[trigger] hits_before(pixels, sprite, x0, y0, k, row, col);
        assert(hits_before(pixels, sprite, x0, y0, k, row, col + 1));
    }
    if any_hit_before(pixels, sprite, x0, y0, row, col + 1) {
        let k = choose|k: int|
            0 <= k < pixels.len() && #[trigger] hits_before(
                pixels,
                sprite,
                x0,
                y0,
                k,
                row,
                col + 1,
            );
        if k != k0 {
            assert(hits_before(pixels, sprite, x0, y0, k, row, col));
        }
    }
}

proof fn lemma_flip(p: u8)
    by (bit_vector)
    requires
        p <= 1,
    ensures
        p ^ 1 == 1 - p,
        p ^ 1 <= 1,
{
}

/// The display buffer: `DISPLAY_WIDTH` by `DISPLAY_HEIGHT` pixels, row by
/// row, each 0 (off) or 1 (on).
pub struct Display {
    pixels: Vec<u8>,
}

impl View for Display {
    type V = Seq<u8>;

    closed spec fn view(&self) -> Seq<u8> {
        self.pixels@
    }
}

impl Display {
    /// The buffer is a full grid of zeros and ones.
    pub open spec fn wf(&self) -> bool {
        is_grid(self@)
    }

    /// A display with every pixel off.
    pub fn new() -> (display: Display)
        ensures
            display.wf(),
            display@ == blank(),
    {
        let mut pixels: Vec<u8> = Vec::new();
        let mut k: usize = 0;
        while k < VRAM_SIZE
            invariant
                k <= VRAM_SIZE,
                pixels.len() == k,
                forall|j: int| 0 <= j < k ==> pixels[j] == 0,
            decreases VRAM_SIZE - k,
        {
            pixels.push(0);
            k += 1;
        }
        assert(pixels@ =~= blank());
        Display { pixels }
    }

    /// Turns every pixel off.
    pub fn clear(&mut self)
        requires
            old(self).wf(),
        ensures
            final(self).wf(),
            final(self)@ == blank(),
    {
        let mut k: usize = 0;
        while k < VRAM_SIZE
            invariant
                k <= VRAM_SIZE,
                self.pixels.len() == VRAM_SIZE,
                forall|j: int| 0 <= j < k ==> self.pixels[j] == 0,
            decreases VRAM_SIZE - k,
        {
            self.pixels[k] = 0;
            k += 1;
        }
        assert(self@ =~= blank());
    }

    /// The pixel in column `x` of row `y`, or nothing outside the grid.
    pub fn pixel(&self, x: usize, y: usize) -> (pixel: Option<u8>)
        requires
            self.wf(),
        ensures
            x < DISPLAY_WIDTH && y < DISPLAY_HEIGHT ==> pixel == Some(
                self@[y * DISPLAY_WIDTH + x],
            ),
            !(x < DISPLAY_WIDTH && y < DISPLAY_HEIGHT) ==> pixel.is_none(),
    {
        if x < DISPLAY_WIDTH && y < DISPLAY_HEIGHT {
            Some(self.pixels[y * DISPLAY_WIDTH + x])
        } else {
            None
        }
    }

    /// The whole grid, row by row, for a renderer to read.
    pub fn pixels(&self) -> (pixels: &Vec<u8>)
        ensures
            pixels@ == self@,
    {
        &self.pixels
    }

    /// XORs `sprite` into the buffer with its top left corner at (`x`, `y`),
    /// one byte per row, and reports whether that turned any pixel off.
    pub fn draw(&mut self, sprite: &Vec<u8>, x: u8, y: u8) -> (collision: bool)
        requires
            old(self).wf(),
        ensures
            final(self).wf(),
            final(self)@ == drawn(old(self)@, sprite@, x as int, y as int),
            collision == collides(old(self)@, sprite@, x as int, y as int),
    {
        let ghost before = self@;
        let ghost shape = sprite@;
        let ghost x0 = x as int;
        let ghost y0 = y as int;
        let rows: usize = if sprite.len() < DISPLAY_HEIGHT {
            sprite.len()
        } else {
            DISPLAY_HEIGHT
        };
        let mut collision = false;
        let mut row: usize = 0;
        while row < rows
            invariant
                row <= rows,
                rows <= DISPLAY_HEIGHT,
                rows <= sprite.len(),
                shape == sprite@,
                x0 == x,
                y0 == y,
                is_grid(before),
                self.pixels.len() == VRAM_SIZE,
                forall|k: int|
                    0 <= k < VRAM_SIZE ==> self.pixels[k] == if covers_before(
                        shape,
                        x0,
                        y0,
                        k,
                        row as int,
                        0,
                    ) {
                        (1 - before[k]) as u8
                    } else {
                        before[k]
                    },
                collision == any_hit_before(before, shape, x0, y0, row as int, 0),
            decreases rows - row,
        {
            let byte: u8 = sprite[row];
            let mut col: u8 = 0;
            while col < 8
                invariant
                    col <= 8,
                    row < rows,
                    rows <= DISPLAY_HEIGHT,
                    rows <= sprite.len(),
                    shape == sprite@,
                    x0 == x,
                    y0 == y,
                    byte == shape[row as int],
                    is_grid(before),
                    self.pixels.len() == VRAM_SIZE,
                    forall|k: int|
                        0 <= k < VRAM_SIZE ==> self.pixels[k] == if covers_before(
                            shape,
                            x0,
                            y0,
                            k,
                            row as int,
                            col as int,
                        ) {
                            (1 - before[k]) as u8
                        } else {
                            before[k]
                        },
                    collision == any_hit_before(before, shape, x0, y0, row as int, col as int),
                decreases 8 - col,
            {
                let px: usize = x as usize + col as usize;
                let py: usize = y as usize + row;
                if byte & (0x80u8 >> col) != 0 && px < DISPLAY_WIDTH && py < DISPLAY_HEIGHT {
                    let k0: usize = py * DISPLAY_WIDTH + px;
                    let current: u8 = self.pixels[k0];
                    proof {
                        assert(lit(byte, col as int));
                        assert(!covers_before(shape, x0, y0, k0 as int, row as int, col as int));
                        assert(current == before[k0 as int]);
                        assert(covers_before(shape, x0, y0, k0 as int, row as int, col + 1));
                        assert forall|k: int| 0 <= k < VRAM_SIZE && k != k0 implies covers_before(
                            shape,
                            x0,
                            y0,
                            k,
                            row as int,
                            col as int,
                        ) == covers_before(shape, x0, y0, k, row as int, col + 1) by {}
                        lemma_hits_extended(before, shape, x0, y0, row as int, col as int, k0 as int);
                        lemma_flip(current);
                    }
                    if current == 1 {
                        collision = true;
                    }
                    self.pixels[k0] = current ^ 1;
                } else {
                    proof {
                        assert forall|k: int| 0 <= k < VRAM_SIZE implies covers_before(
                            shape,
                            x0,
                            y0,
                            k,
                            row as int,
                            col as int,
                        ) == covers_before(shape, x0, y0, k, row as int, col + 1) by {
                            if k / (DISPLAY_WIDTH as int) - y0 == row && k % (DISPLAY_WIDTH as int)
                                - x0 == col {
                                assert(!lit(byte, col as int));
                            }
                        }
                        lemma_hits_kept(
                            before,
                            shape,
                            x0,
                            y0,
                            row as int,
                            col as int,
                            row as int,
                            col + 1,
                        );
                    }
                }
                col += 1;
            }
            proof {
                assert forall|k: int| 0 <= k < VRAM_SIZE implies covers_before(
                    shape,
                    x0,
                    y0,
                    k,
                    row as int,
                    8,
                ) == covers_before(shape, x0, y0, k, row + 1, 0) by {}
                lemma_hits_kept(before, shape, x0, y0, row as int, 8, row + 1, 0);
            }
            row += 1;
        }
        proof {
            assert forall|k: int| 0 <= k < VRAM_SIZE implies covers_before(
                shape,
                x0,
                y0,
                k,
                rows as int,
                0,
            ) == covers(shape, x0, y0, k) by {}
            assert(self@ =~= drawn(before, shape, x0, y0));
            if collision {
                let k = choose|k: int|
                    0 <= k < before.len() && #[trigger] hits_before(
                        before,
                        shape,
                        x0,
                        y0,
                        k,
                        rows as int,
                        0,
                    );
                assert(hits(before, shape, x0, y0, k));
            }
            if collides(before, shape, x0, y0) {
                let k = choose|k: int|
                    0 <= k < before.len() && #[trigger] hits(before, shape, x0, y0, k);
                assert(hits_before(before, shape, x0, y0, k, rows as int, 0));
            }
        }
        collision
    }
}

} // verus!
