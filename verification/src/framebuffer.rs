use crate::constants::{DISPLAY_HEIGHT, DISPLAY_PIXELS, DISPLAY_WIDTH};
use vstd::prelude::*;

verus! {

/// What a frame buffer holds: one bit per pixel, row after row from the top
/// left, and whether it changed since it was last presented.
pub struct Screen {
    pub pixels: Seq<bool>,
    pub dirty: bool,
}

/// A position outside the 64 by 32 grid.
#[derive(Debug, PartialEq, Eq, Clone, Copy, Structural)]
pub struct OutOfBounds {
    pub row: usize,
    pub col: usize,
}

/// The 64 by 32 monochrome display.
pub struct FrameBuffer {
    pixels: [bool; 2048],
    dirty: bool,
}

/// Place of the pixel in column `col` of row `row` within the pixel sequence.
pub open spec fn pixel_index(col: int, row: int) -> int {
    row * 64 + col
}

/// A screen with every pixel off.
pub open spec fn blank_pixels() -> Seq<bool> {
    Seq::new(2048, |k: int| false)
}

/// Whether pixel `j` of a sprite row is on; pixel 0 is the most significant bit.
pub open spec fn sprite_bit(byte: u8, j: u8) -> bool {
    (byte >> ((7 - j) as u8)) & 1 == 1
}

/// Whether a sprite whose top left corner lies at column `sx` of row `sy` has a
/// pixel that is on at column `col` of row `row`.
pub open spec fn sprite_covers(rows: Seq<u8>, sx: int, sy: int, col: int, row: int) -> bool {
    &&& 0 <= row - sy < rows.len()
    &&& 0 <= col - sx < 8
    &&& sprite_bit(rows[row - sy], (col - sx) as u8)
}

/// Whether drawing the sprite at `(x, y)` flips pixel `k`. The starting corner
/// wraps round the screen; the sprite itself is cut off at the right and bottom
/// edges.
pub open spec fn sprite_flips(rows: Seq<u8>, x: u8, y: u8, k: int) -> bool {
    sprite_covers(rows, (x % 64) as int, (y % 32) as int, k % 64, k / 64)
}

/// The pixels after the sprite was drawn at `(x, y)`: each pixel the sprite
/// covers is flipped, every other is kept.
pub open spec fn blit_pixels(pixels: Seq<bool>, x: u8, y: u8, rows: Seq<u8>) -> Seq<bool> {
    Seq::new(2048, |k: int| pixels[k] != sprite_flips(rows, x, y, k))
}

/// Whether drawing the sprite at `(x, y)` turns off a pixel that was on.
pub open spec fn blit_collides(pixels: Seq<bool>, x: u8, y: u8, rows: Seq<u8>) -> bool {
    exists|k: int| 0 <= k < 2048 && #[trigger] pixels[k] && sprite_flips(rows, x, y, k)
}

/// Place of the pixel at a (row, column) pair within the pixel sequence.
pub open spec fn position_index(position: (usize, usize)) -> int {
    pixel_index(position.1 as int, position.0 as int)
}

/// Whether the drawing loop has passed pixel `k` once it stands at pixel `j` of
/// sprite row `i`.
pub open spec fn drawn_before(x: u8, y: u8, i: int, j: int, k: int) -> bool {
    k / 64 < y % 32 + i || (k / 64 == y % 32 + i && k % 64 < x % 64 + j)
}

/// Reports whether a position lies on the 64 by 32 grid.
pub fn check_bounds(row: usize, col: usize) -> (checked: Result<(), OutOfBounds>)
    ensures
        checked is Ok <==> row < 32 && col < 64,
        checked matches Err(e) ==> e.row == row && e.col == col,
{
    if row >= DISPLAY_HEIGHT as usize || col >= DISPLAY_WIDTH as usize {
        Err(OutOfBounds { row, col })
    } else {
        Ok(())
    }
}

impl View for FrameBuffer {
    type V = Screen;

    closed spec fn view(&self) -> Screen {
        Screen { pixels: self.pixels@, dirty: self.dirty }
    }
}

impl FrameBuffer {
    /// The frame buffer holds exactly the 64 by 32 pixels.
    pub proof fn lemma_size(&self)
        ensures
            self@.pixels.len() == 2048,
    {
    }

    /// A blank frame buffer that is not marked as changed.
    pub fn new() -> (fb: FrameBuffer)
        ensures
            fb@.pixels == blank_pixels(),
            !fb@.dirty,
    {
        let fb = FrameBuffer { pixels: [false; 2048], dirty: false };
        assert(fb@.pixels =~= blank_pixels());
        fb
    }

    /// The state of the pixel in column `col` of row `row`.
    pub fn get_pixel(&self, row: usize, col: usize) -> (pixel: Result<bool, OutOfBounds>)
        ensures
            pixel is Ok <==> row < 32 && col < 64,
            pixel matches Ok(on) ==> on == self@.pixels[pixel_index(col as int, row as int)],
            pixel matches Err(e) ==> e.row == row && e.col == col,
    {
        match check_bounds(row, col) {
            Ok(()) => Ok(self.pixels[row * 64 + col]),
            Err(e) => Err(e),
        }
    }

    /// Sets the pixel in column `col` of row `row` and marks the buffer as
    /// changed. A position outside the grid changes nothing.
    pub fn set_pixel(&mut self, row: usize, col: usize, state: bool) -> (done: Result<
        (),
        OutOfBounds,
    >)
        ensures
            done is Ok <==> row < 32 && col < 64,
            done is Ok ==> final(self)@ == (Screen {
                pixels: old(self)@.pixels.update(pixel_index(col as int, row as int), state),
                dirty: true,
            }),
            done matches Err(e) ==> e.row == row && e.col == col && final(self)@ == old(self)@,
    {
        match check_bounds(row, col) {
            Ok(()) => {
                self.pixels[row * 64 + col] = state;
                self.dirty = true;
                Ok(())
            },
            Err(e) => Err(e),
        }
    }

    /// Turns every pixel off and marks the buffer as changed.
    pub fn clear(&mut self)
        ensures
            final(self)@ == (Screen { pixels: blank_pixels(), dirty: true }),
    {
        self.pixels = [false; 2048];
        self.dirty = true;
        assert(self@.pixels =~= blank_pixels());
    }

    /// Whether the buffer changed since it was last marked as presented.
    pub fn is_dirty(&self) -> (dirty: bool)
        ensures
            dirty == self@.dirty,
    {
        self.dirty
    }

    /// Records that the host has presented the current pixels.
    pub fn mark_presented(&mut self)
        ensures
            final(self)@ == (Screen { pixels: old(self)@.pixels, dirty: false }),
    {
        self.dirty = false;
    }

    /// The pixels that are on, as (row, column) pairs, row after row from the top
    /// left: what a host has to paint.
    pub fn lit_pixels(&self) -> (lit: Vec<(usize, usize)>)
        ensures
            forall|i: int|
                0 <= i < lit@.len() ==> (#[trigger] lit@[i]).0 < 32 && lit@[i].1 < 64
                    && self@.pixels[position_index(lit@[i])],
            forall|i: int, j: int|
                0 <= i < j < lit@.len() ==> position_index(#[trigger] lit@[i]) < position_index(
                    #[trigger] lit@[j],
                ),
            forall|k: int|
                0 <= k < 2048 && #[trigger] self@.pixels[k] ==> exists|i: int|
                    0 <= i < lit@.len() && position_index(#[trigger] lit@[i]) == k,
    {
        let mut lit: Vec<(usize, usize)> = Vec::new();
        let mut k: usize = 0;
        while k < DISPLAY_PIXELS
            invariant
                k <= 2048,
                forall|i: int|
                    0 <= i < lit@.len() ==> (#[trigger] lit@[i]).0 < 32 && lit@[i].1 < 64
                        && self.pixels@[position_index(lit@[i])] && position_index(lit@[i]) < k,
                forall|i: int, j: int|
                    0 <= i < j < lit@.len() ==> position_index(#[trigger] lit@[i])
                        < position_index(#[trigger] lit@[j]),
                forall|m: int|
                    0 <= m < k && #[trigger] self.pixels@[m] ==> exists|i: int|
                        0 <= i < lit@.len() && position_index(#[trigger] lit@[i]) == m,
            decreases 2048 - k,
        {
            if self.pixels[k] {
                let ghost before = lit@;
                lit.push((k / 64, k % 64));
                proof {
                    let last = before.len() as int;
                    assert(position_index(lit@[last]) == k);
                    assert forall|m: int| 0 <= m < k + 1 && #[trigger] self.pixels@[m] implies exists|
                        i: int,
                    | 0 <= i < lit@.len() && position_index(#[trigger] lit@[i]) == m by {
                        if m < k {
                            let i = choose|i: int|
                                0 <= i < before.len() && position_index(#[trigger] before[i]) == m;
                            assert(position_index(lit@[i]) == m);
                        } else {
                            assert(position_index(lit@[last]) == m);
                        }
                    }
                }
            }
            k += 1;
        }
        lit
    }

    /// Draws a sprite by exclusive or, one byte per row, with its top left corner
    /// at column `x mod 64` of row `y mod 32`. Sprite pixels beyond the right or
    /// bottom edge are dropped. Returns whether a pixel that was on went off.
    pub fn blit_sprite(&mut self, x: u8, y: u8, rows: &[u8]) -> (collision: bool)
        ensures
            final(self)@.pixels == blit_pixels(old(self)@.pixels, x, y, rows@),
            final(self)@.dirty,
            collision == blit_collides(old(self)@.pixels, x, y, rows@),
    {
        let sx: usize = (x % 64) as usize;
        let sy: usize = (y % 32) as usize;
        let ghost before = self.pixels@;
        let ghost mut witness: int = 0;
        let mut collision = false;
        let mut i: usize = 0;
        while i < rows.len() && sy + i < 32
            invariant
                sx == x % 64,
                sy == y % 32,
                i <= 32,
                i <= rows.len(),
                before == old(self).pixels@,
                self.pixels@.len() == 2048,
                forall|k: int|
                    0 <= k < 2048 ==> #[trigger] self.pixels@[k] == (before[k] != (sprite_flips(
                        rows@,
                        x,
                        y,
                        k,
                    ) && drawn_before(x, y, i as int, 0, k))),
                collision ==> 0 <= witness < 2048 && before[witness] && sprite_flips(
                    rows@,
                    x,
                    y,
                    witness,
                ),
                !collision ==> forall|k: int|
                    0 <= k < 2048 && #[trigger] before[k] && drawn_before(x, y, i as int, 0, k)
                        ==> !sprite_flips(rows@, x, y, k),
            decreases rows.len() - i,
        {
            let sprite = rows[i];
            let py: usize = sy + i;
            let mut j: u8 = 0;
            while j < 8
                invariant
                    sx == x % 64,
                    sy == y % 32,
                    py == sy + i,
                    py < 32,
                    i < rows.len(),
                    sprite == rows@[i as int],
                    j <= 8,
                    before == old(self).pixels@,
                    self.pixels@.len() == 2048,
                    forall|k: int|
                        0 <= k < 2048 ==> #[trigger] self.pixels@[k] == (before[k] != (
                        sprite_flips(rows@, x, y, k) && drawn_before(x, y, i as int, j as int, k))),
                    collision ==> 0 <= witness < 2048 && before[witness] && sprite_flips(
                        rows@,
                        x,
                        y,
                        witness,
                    ),
                    !collision ==> forall|k: int|
                        0 <= k < 2048 && #[trigger] before[k] && drawn_before(
                            x,
                            y,
                            i as int,
                            j as int,
                            k,
                        ) ==> !sprite_flips(rows@, x, y, k),
                decreases 8 - j,
            {
                let px: usize = sx + j as usize;
                if px < 64 && (sprite >> (7 - j)) & 1 == 1 {
                    let k: usize = py * 64 + px;
                    assert(sprite_flips(rows@, x, y, k as int));
                    if self.pixels[k] {
                        collision = true;
                        proof {
                            witness = k as int;
                        }
                    }
                    self.pixels[k] = !self.pixels[k];
                }
                j += 1;
            }
            i += 1;
        }
        self.dirty = true;
        assert(self@.pixels =~= blit_pixels(before, x, y, rows@));
        collision
    }
}

} // verus!
