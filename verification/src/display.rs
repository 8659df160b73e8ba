use vstd::prelude::*;

verus! {

/// Width of the screen in pixels.
pub const SCREEN_X: usize = 64;

/// Height of the screen in pixels.
pub const SCREEN_Y: usize = 32;

/// A screen with every pixel off.
pub open spec fn blank_screen() -> Seq<bool> {
    Seq::new((SCREEN_X * SCREEN_Y) as nat, |i: int| false)
}

/// Whether bit `j` (counted from the left, so bit 0 is the most
/// significant) of a sprite row byte is set.
pub open spec fn sprite_row_bit(row: u8, j: int) -> bool {
    (row >> (7 - j) as u8) & 1 == 1
}

/// Whether a sprite drawn with its top-left corner at `(x, y)` covers
/// the pixel `(px, py)` with a set bit. Each covered pixel corresponds
/// to exactly one bit of the sprite, so a single draw toggles a pixel
/// at most once.
pub open spec fn sprite_covers(x: u8, y: u8, sprite: Seq<u8>, px: int, py: int) -> bool {
    let j = px - x;
    let i = py - y;
    0 <= i < sprite.len() && 0 <= j < 8 && sprite_row_bit(sprite[i], j)
}

/// Like `sprite_covers`, restricted to the bits a row-major traversal
/// has visited: all of the first `rows` rows, then the first `bits`
/// bits of row `rows`.
pub open spec fn sprite_covers_prefix(
    x: u8,
    y: u8,
    sprite: Seq<u8>,
    rows: int,
    bits: int,
    px: int,
    py: int,
) -> bool {
    let j = px - x;
    let i = py - y;
    0 <= i < sprite.len() && 0 <= j < 8 && (i < rows || (i == rows && j < bits))
        && sprite_row_bit(sprite[i], j)
}

/// The monochrome 64-by-32 framebuffer.
///
/// Sprites are composited by XOR: a set sprite bit toggles its pixel,
/// and a draw reports a collision when some toggle turned an on pixel
/// off. Sprite bits whose coordinates fall off the screen are dropped
/// (clipped, not wrapped) and never count as collisions.
pub struct Display {
    pixels: Vec<bool>,
}

impl View for Display {
    type V = Seq<bool>;

    /// The screen as one row-major-by-column sequence: the pixel at
    /// `(x, y)` sits at index `x * SCREEN_Y + y`.
    closed spec fn view(&self) -> Seq<bool> {
        self.pixels@
    }
}

impl Display {
    /// The framebuffer spans the whole screen.
    pub open spec fn wf(self) -> bool {
        self@.len() == SCREEN_X * SCREEN_Y
    }

    /// The state of the pixel at `(x, y)`.
    pub open spec fn pixel(self, x: int, y: int) -> bool {
        self@[x * (SCREEN_Y as int) + y]
    }

    /// A fresh display with every pixel off.
    pub fn new() -> (r: Self)
        ensures
            r.wf(),
            r@ == blank_screen(),
    {
        let mut pixels: Vec<bool> = Vec::new();
        let mut i: usize = 0;
        while i < SCREEN_X * SCREEN_Y
            invariant
                i <= SCREEN_X * SCREEN_Y,
                pixels@.len() == i,
                forall|k: int| 0 <= k < i ==> !pixels@[k],
            decreases SCREEN_X * SCREEN_Y - i,
        {
            pixels.push(false);
            i += 1;
        }
        proof {
            assert(pixels@ =~= blank_screen());
        }
        Display { pixels }
    }

    /// Toggle the on-screen pixel at `(px, py)` and report whether it
    /// was on before (a collision).
    fn toggle_pixel(&mut self, px: usize, py: usize) -> (was_on: bool)
        requires
            old(self).wf(),
            px < SCREEN_X,
            py < SCREEN_Y,
        ensures
            final(self).wf(),
            was_on == old(self).pixel(px as int, py as int),
            final(self)@ == old(self)@.update(
                px as int * (SCREEN_Y as int) + py as int,
                !was_on,
            ),
    {
        let idx = px * SCREEN_Y + py;
        let previous_value = self.pixels[idx];
        self.pixels[idx] = !previous_value;
        previous_value
    }

    /// Draw a sprite with its top-left corner at `(x, y)`: each set bit
    /// toggles its pixel, bits falling off the screen are dropped, and
    /// the result says whether any toggle turned an on pixel off.
    pub fn draw_sprite(&mut self, x: u8, y: u8, sprite: &Vec<u8>) -> (collision: bool)
        requires
            old(self).wf(),
        ensures
            final(self).wf(),
            forall|px: int, py: int|
                0 <= px < SCREEN_X && 0 <= py < SCREEN_Y ==> final(self).pixel(px, py) == (old(
                    self,
                ).pixel(px, py) != sprite_covers(x, y, sprite@, px, py)),
            collision == exists|px: int, py: int|
                0 <= px < SCREEN_X && 0 <= py < SCREEN_Y && old(self).pixel(px, py)
                    && sprite_covers(x, y, sprite@, px, py),
    {
        let mut collision = false;
        let mut i: usize = 0;
        while i < sprite.len()
            invariant
                old(self).wf(),
                self@.len() == SCREEN_X * SCREEN_Y,
                i <= sprite@.len(),
                forall|px: int, py: int|
                    0 <= px < SCREEN_X && 0 <= py < SCREEN_Y ==> self.pixel(px, py) == (old(
                        self,
                    ).pixel(px, py) != sprite_covers_prefix(
                        x,
                        y,
                        sprite@,
                        i as int,
                        0,
                        px,
                        py,
                    )),
                collision == exists|px: int, py: int|
                    0 <= px < SCREEN_X && 0 <= py < SCREEN_Y && old(self).pixel(px, py)
                        && sprite_covers_prefix(x, y, sprite@, i as int, 0, px, py),
            decreases sprite@.len() - i,
        {
            let row = sprite[i];
            let mut j: usize = 0;
            while j < 8
                invariant
                    old(self).wf(),
                    self@.len() == SCREEN_X * SCREEN_Y,
                    i < sprite@.len(),
                    j <= 8,
                    row == sprite@[i as int],
                    forall|px: int, py: int|
                        0 <= px < SCREEN_X && 0 <= py < SCREEN_Y ==> self.pixel(px, py) == (old(
                            self,
                        ).pixel(px, py) != sprite_covers_prefix(
                            x,
                            y,
                            sprite@,
                            i as int,
                            j as int,
                            px,
                            py,
                        )),
                    collision == exists|px: int, py: int|
                        0 <= px < SCREEN_X && 0 <= py < SCREEN_Y && old(self).pixel(px, py)
                            && sprite_covers_prefix(x, y, sprite@, i as int, j as int, px, py),
                decreases 8 - j,
            {
                let ghost pre_inner = *self;
                let ghost pre_collision = collision;
                let bit_set = (row >> (7 - j) as u8) & 1 == 1;
                if bit_set {
                    let px = x as usize + j;
                    if px < SCREEN_X && i < SCREEN_Y {
                        let py = y as usize + i;
                        if py < SCREEN_Y {
                            let was_on = self.toggle_pixel(px, py);
                            if was_on {
                                collision = true;
                            }
                        }
                    }
                }
                proof {
                    lemma_draw_bit_step(
                        x,
                        y,
                        sprite@,
                        i as int,
                        j as int,
                        *old(self),
                        pre_inner,
                        *self,
                        pre_collision,
                        collision,
                        bit_set,
                    );
                }
                j += 1;
            }
            proof {
                assert(forall|px: int, py: int|
                    #[trigger] sprite_covers_prefix(x, y, sprite@, i as int, 8, px, py)
                        == sprite_covers_prefix(x, y, sprite@, i as int + 1, 0, px, py));
            }
            i += 1;
        }
        proof {
            assert(forall|px: int, py: int|
                #[trigger] sprite_covers_prefix(x, y, sprite@, sprite@.len() as int, 0, px, py)
                    == sprite_covers(x, y, sprite@, px, py));
        }
        collision
    }

    /// The current state of every pixel, as one vector of columns.
    pub fn state(&self) -> (r: Vec<Vec<bool>>)
        requires
            self.wf(),
        ensures
            r@.len() == SCREEN_X,
            forall|px: int| 0 <= px < SCREEN_X ==> #[trigger] r@[px]@.len() == SCREEN_Y,
            forall|px: int, py: int|
                0 <= px < SCREEN_X && 0 <= py < SCREEN_Y ==> r@[px]@[py] == self.pixel(px, py),
    {
        let mut r: Vec<Vec<bool>> = Vec::new();
        let mut px: usize = 0;
        while px < SCREEN_X
            invariant
                self.wf(),
                px <= SCREEN_X,
                r@.len() == px,
                forall|a: int| 0 <= a < px ==> #[trigger] r@[a]@.len() == SCREEN_Y,
                forall|a: int, b: int|
                    0 <= a < px && 0 <= b < SCREEN_Y ==> r@[a]@[b] == self.pixel(a, b),
            decreases SCREEN_X - px,
        {
            let mut column: Vec<bool> = Vec::new();
            let mut py: usize = 0;
            while py < SCREEN_Y
                invariant
                    self.wf(),
                    px < SCREEN_X,
                    py <= SCREEN_Y,
                    column@.len() == py,
                    forall|b: int| 0 <= b < py ==> column@[b] == self.pixel(px as int, b),
                decreases SCREEN_Y - py,
            {
                column.push(self.pixels[px * SCREEN_Y + py]);
                py += 1;
            }
            r.push(column);
            px += 1;
        }
        r
    }

    /// Turn every pixel off.
    pub fn reset(&mut self)
        requires
            old(self).wf(),
        ensures
            final(self).wf(),
            final(self)@ == blank_screen(),
    {
        let mut i: usize = 0;
        while i < SCREEN_X * SCREEN_Y
            invariant
                i <= SCREEN_X * SCREEN_Y,
                self@.len() == SCREEN_X * SCREEN_Y,
                forall|k: int| 0 <= k < i ==> !self@[k],
            decreases SCREEN_X * SCREEN_Y - i,
        {
            self.pixels[i] = false;
            i += 1;
        }
        proof {
            assert(self@ =~= blank_screen());
        }
    }
}

/// One step of the row-major sprite traversal preserves the draw
/// invariant: handling bit `j` of row `i` extends the covered prefix by
/// exactly that bit, toggling at most the one pixel it maps to.
proof fn lemma_draw_bit_step(
    x: u8,
    y: u8,
    sprite: Seq<u8>,
    i: int,
    j: int,
    base: Display,
    pre: Display,
    post: Display,
    pre_collision: bool,
    post_collision: bool,
    bit_set: bool,
)
    requires
        base.wf(),
        pre.wf(),
        0 <= i < sprite.len(),
        0 <= j < 8,
        bit_set == sprite_row_bit(sprite[i], j),
        forall|px: int, py: int|
            0 <= px < SCREEN_X && 0 <= py < SCREEN_Y ==> pre.pixel(px, py) == (base.pixel(px, py)
                != #[trigger] sprite_covers_prefix(x, y, sprite, i, j, px, py)),
        pre_collision == exists|px: int, py: int|
            0 <= px < SCREEN_X && 0 <= py < SCREEN_Y && base.pixel(px, py)
                && #[trigger] sprite_covers_prefix(x, y, sprite, i, j, px, py),
        // When the bit is set and lands on the screen, exactly that pixel was
        // toggled; otherwise nothing changed.
        ({
            let tx = x + j;
            let ty = y + i;
            if bit_set && tx < SCREEN_X && ty < SCREEN_Y {
                post@ == pre@.update(tx * (SCREEN_Y as int) + ty, !pre.pixel(tx, ty))
                    && post_collision == (pre_collision || pre.pixel(tx, ty))
            } else {
                post == pre && post_collision == pre_collision
            }
        }),
    ensures
        post.wf(),
        forall|px: int, py: int|
            0 <= px < SCREEN_X && 0 <= py < SCREEN_Y ==> post.pixel(px, py) == (base.pixel(px, py)
                != #[trigger] sprite_covers_prefix(x, y, sprite, i, j + 1, px, py)),
        post_collision == exists|px: int, py: int|
            0 <= px < SCREEN_X && 0 <= py < SCREEN_Y && base.pixel(px, py)
                && #[trigger] sprite_covers_prefix(x, y, sprite, i, j + 1, px, py),
{
    let sy = SCREEN_Y as int;
    let tx = x + j;
    let ty = y + i;
    let toggled = bit_set && tx < SCREEN_X && ty < SCREEN_Y;
    assert forall|px: int, py: int|
        0 <= px < SCREEN_X && 0 <= py < SCREEN_Y implies post.pixel(px, py) == (base.pixel(px, py)
        != #[trigger] sprite_covers_prefix(x, y, sprite, i, j + 1, px, py)) by {
        if px == tx && py == ty {
            assert(!sprite_covers_prefix(x, y, sprite, i, j, px, py));
            assert(sprite_covers_prefix(x, y, sprite, i, j + 1, px, py) == bit_set);
        } else {
            assert(sprite_covers_prefix(x, y, sprite, i, j + 1, px, py) == sprite_covers_prefix(
                x,
                y,
                sprite,
                i,
                j,
                px,
                py,
            ));
            if toggled {
                // Distinct on-screen coordinates map to distinct indices.
                assert(px * sy + py != tx * sy + ty) by (nonlinear_arith)
                    requires
                        0 <= py < sy,
                        0 <= ty < sy,
                        sy > 0,
                        !(px == tx && py == ty),
                ;
                assert(post.pixel(px, py) == pre.pixel(px, py));
            }
        }
    }
    // Every bit covered before this step is still covered after it.
    assert forall|px: int, py: int| #[trigger]
        sprite_covers_prefix(x, y, sprite, i, j, px, py) implies sprite_covers_prefix(
        x,
        y,
        sprite,
        i,
        j + 1,
        px,
        py,
    ) by {}
    if post_collision {
        if pre_collision {
            assert(exists|px: int, py: int|
                0 <= px < SCREEN_X && 0 <= py < SCREEN_Y && base.pixel(px, py)
                    && #[trigger] sprite_covers_prefix(x, y, sprite, i, j + 1, px, py));
        } else {
            // The collision arose on this step, so the toggled pixel was on
            // and not yet covered: it was already on in the base screen.
            assert(toggled && pre.pixel(tx, ty));
            assert(!sprite_covers_prefix(x, y, sprite, i, j, tx, ty));
            assert(base.pixel(tx, ty));
            assert(sprite_covers_prefix(x, y, sprite, i, j + 1, tx, ty));
        }
    } else {
        assert forall|px: int, py: int|
            0 <= px < SCREEN_X && 0 <= py < SCREEN_Y && base.pixel(px, py) implies !(
        #[trigger] sprite_covers_prefix(x, y, sprite, i, j + 1, px, py)) by {
            assert(!(base.pixel(px, py) && sprite_covers_prefix(x, y, sprite, i, j, px, py)));
            if px == tx && py == ty && bit_set {
                assert(!pre.pixel(tx, ty));
                assert(!sprite_covers_prefix(x, y, sprite, i, j, tx, ty));
            }
        }
    }
}

} // verus!
