//! The 64 by 32 monochrome display: clearing, drawing sprites by
//! exclusive-or with collision detection, and turning the lit pixels into
//! rectangles for whoever paints them.
use vstd::prelude::*;

verus! {

/// Width of the display in pixels.
pub const WIDTH: usize = 64;

/// Height of the display in pixels.
pub const HEIGHT: usize = 32;

/// Number of pixels of the display.
pub const PIXELS: usize = 2048;

/// The display. Pixel `(x, y)` is column `x` of row `y`, counted from the
/// top left corner.
pub struct Screen {
    vram: [bool; 2048],
    updated: bool,
}

/// What a `Screen` holds: its pixels row by row, and whether anything was
/// drawn since the display was last painted.
#[verifier::ext_equal]
pub struct ScreenState {
    pub pixels: Seq<bool>,
    pub updated: bool,
}

/// A filled rectangle on the output surface.
#[derive(Clone, Copy, Debug, PartialEq, Eq, Structural)]
pub struct PixelRect {
    pub x: u32,
    pub y: u32,
    pub width: u32,
    pub height: u32,
}

/// The pixels of a display on which nothing is lit.
pub open spec fn blank_pixels() -> Seq<bool> {
    Seq::new(PIXELS as nat, |k: int| false)
}

impl ScreenState {
    /// The pixel in column `x` of row `y`.
    pub open spec fn pixel(self, x: int, y: int) -> bool {
        self.pixels[y * WIDTH as int + x]
    }

    /// One pixel for each position of the display.
    pub open spec fn well_formed(self) -> bool {
        self.pixels.len() == PIXELS
    }
}

/// Whether a sprite drawn with its top left corner at `(left, top)` has a
/// lit pixel at display position `(x, y)`. A sprite is eight pixels wide;
/// `sprite[r * 8 + c]` is column `c` of its row `r`.
pub open spec fn sprite_lit(sprite: Seq<bool>, left: int, top: int, x: int, y: int) -> bool {
    let col = x - left;
    let line = y - top;
    0 <= col < 8 && 0 <= line && line * 8 + col < sprite.len() && sprite[line * 8 + col]
}

/// Where a sprite lands when asked to be drawn at `(pos_x, pos_y)`: the
/// position wraps around the display.
pub open spec fn wrapped_x(pos_x: u8) -> int {
    pos_x as int % WIDTH as int
}

/// See `wrapped_x`.
pub open spec fn wrapped_y(pos_y: u8) -> int {
    pos_y as int % HEIGHT as int
}

/// Whether the sprite has a lit pixel at display position `k`, counting
/// positions row by row.
pub open spec fn lit_at(sprite: Seq<bool>, left: int, top: int, k: int) -> bool {
    sprite_lit(sprite, left, top, k % WIDTH as int, k / WIDTH as int)
}

/// The pixels after drawing `sprite` at `(pos_x, pos_y)`: each pixel of the
/// display that a lit sprite pixel falls on is flipped. Sprite pixels that
/// fall beyond the right or bottom edge are dropped.
pub open spec fn drawn_pixels(pixels: Seq<bool>, pos_x: u8, pos_y: u8, sprite: Seq<bool>) -> Seq<
    bool,
> {
    Seq::new(
        pixels.len(),
        |k: int| pixels[k] != lit_at(sprite, wrapped_x(pos_x), wrapped_y(pos_y), k),
    )
}

/// Whether drawing `sprite` at `(pos_x, pos_y)` turns off a pixel that was
/// lit.
pub open spec fn draw_collides(pixels: Seq<bool>, pos_x: u8, pos_y: u8, sprite: Seq<bool>) -> bool {
    exists|k: int|
        0 <= k < pixels.len() && pixels[k] && #[trigger] lit_at(
            sprite,
            wrapped_x(pos_x),
            wrapped_y(pos_y),
            k,
        )
}

/// A sprite that `draw_sprire` accepts: one to fifteen rows of eight pixels.
pub open spec fn valid_sprite(sprite: Seq<bool>) -> bool {
    0 < sprite.len() <= 15 * 8 && sprite.len() % 8 == 0
}

/// The part of `lit_at` that belongs to the first `done` sprite pixels.
spec fn lit_among(sprite: Seq<bool>, left: int, top: int, k: int, done: int) -> bool {
    lit_at(sprite, left, top, k) && (k / WIDTH as int - top) * 8 + (k % WIDTH as int - left) < done
}

/// The display while a sprite is being drawn: the first `done` sprite
/// pixels have been applied to `before`, giving `now`.
spec fn partly_drawn(
    before: Seq<bool>,
    now: Seq<bool>,
    sprite: Seq<bool>,
    left: int,
    top: int,
    done: int,
) -> bool {
    &&& now.len() == before.len()
    &&& forall|k: int|
        0 <= k < before.len() ==> #[trigger] now[k] == (before[k] != lit_among(
            sprite,
            left,
            top,
            k,
            done,
        ))
}

/// No collision among the first `done` sprite pixels.
spec fn no_collision_among(
    before: Seq<bool>,
    sprite: Seq<bool>,
    left: int,
    top: int,
    done: int,
) -> bool {
    forall|k: int|
        0 <= k < before.len() ==> !(before[k] && #[trigger] lit_among(sprite, left, top, k, done))
}

/// Display position `k` is a collision among the first `done` sprite pixels.
spec fn collision_at(
    before: Seq<bool>,
    sprite: Seq<bool>,
    left: int,
    top: int,
    done: int,
    k: int,
) -> bool {
    0 <= k < before.len() && before[k] && lit_among(sprite, left, top, k, done)
}

/// What applying sprite pixel number `row * 8 + pxl` adds: the display
/// position under that pixel, when the pixel is lit.
proof fn lemma_lit_step(sprite: Seq<bool>, left: int, top: int, k: int, row: int, pxl: int)
    requires
        0 <= k < PIXELS,
        0 <= left < WIDTH,
        0 <= top < HEIGHT,
        0 <= pxl < 8,
        0 <= row,
        row * 8 + pxl < sprite.len(),
    ensures
        lit_among(sprite, left, top, k, row * 8 + pxl + 1) == (lit_among(
            sprite,
            left,
            top,
            k,
            row * 8 + pxl,
        ) || (sprite[row * 8 + pxl] && left + pxl < WIDTH && k == (top + row) * WIDTH + left
            + pxl)),
{
    let col = k % WIDTH as int - left;
    let line = k / WIDTH as int - top;
    if line * 8 + col == row * 8 + pxl && 0 <= col < 8 {
        assert(line == row);
        assert(col == pxl);
    }
}

/// Applying one sprite pixel keeps the display in step with the model.
proof fn lemma_draw_step(
    before: Seq<bool>,
    now: Seq<bool>,
    after: Seq<bool>,
    sprite: Seq<bool>,
    left: int,
    top: int,
    row: int,
    pxl: int,
)
    requires
        before.len() == PIXELS,
        0 <= left < WIDTH,
        0 <= top < HEIGHT,
        0 <= pxl < 8,
        0 <= row,
        row * 8 + pxl < sprite.len(),
        partly_drawn(before, now, sprite, left, top, row * 8 + pxl),
        left + pxl < WIDTH && top + row < HEIGHT ==> after == now.update(
            (top + row) * WIDTH + left + pxl,
            now[(top + row) * WIDTH + left + pxl] != sprite[row * 8 + pxl],
        ),
        !(left + pxl < WIDTH && top + row < HEIGHT) ==> after == now,
    ensures
        partly_drawn(before, after, sprite, left, top, row * 8 + pxl + 1),
        left + pxl < WIDTH && top + row < HEIGHT ==> now[(top + row) * WIDTH + left + pxl]
            == before[(top + row) * WIDTH + left + pxl],
        forall|k: int|
            0 <= k < PIXELS ==> #[trigger] lit_among(sprite, left, top, k, row * 8 + pxl + 1) == (
            lit_among(sprite, left, top, k, row * 8 + pxl) || (sprite[row * 8 + pxl] && left + pxl
                < WIDTH && k == (top + row) * WIDTH + left + pxl)),
{
    let done = row * 8 + pxl;
    assert forall|k: int| 0 <= k < PIXELS implies #[trigger] lit_among(
        sprite,
        left,
        top,
        k,
        done + 1,
    ) == (lit_among(sprite, left, top, k, done) || (sprite[done] && left + pxl < WIDTH && k == (top
        + row) * WIDTH + left + pxl)) by {
        lemma_lit_step(sprite, left, top, k, row, pxl);
    }
    if left + pxl < WIDTH && top + row < HEIGHT {
        let at = (top + row) * WIDTH + left + pxl;
        lemma_lit_step(sprite, left, top, at, row, pxl);
        assert(!lit_among(sprite, left, top, at, done));
        assert(now[at] == before[at]);
    }
    assert forall|k: int| 0 <= k < before.len() implies #[trigger] after[k] == (before[k]
        != lit_among(sprite, left, top, k, done + 1)) by {
        lemma_lit_step(sprite, left, top, k, row, pxl);
        assert(now[k] == (before[k] != lit_among(sprite, left, top, k, done)));
    }
}

/// The rectangle that stands for display position `k`, counted row by row,
/// when each pixel is `scale_x` wide and `scale_y` high.
pub open spec fn rect_of(k: int, scale_x: u32, scale_y: u32) -> PixelRect {
    PixelRect {
        x: ((k % WIDTH as int) * scale_x) as u32,
        y: ((k / WIDTH as int) * scale_y) as u32,
        width: scale_x,
        height: scale_y,
    }
}

/// The rectangles of the lit pixels among the first `upto` positions of the
/// display, row by row and from left to right.
pub open spec fn lit_rects(pixels: Seq<bool>, scale_x: u32, scale_y: u32, upto: int) -> Seq<
    PixelRect,
>
    decreases upto,
{
    if upto <= 0 {
        Seq::empty()
    } else if pixels[upto - 1] {
        lit_rects(pixels, scale_x, scale_y, upto - 1).push(rect_of(upto - 1, scale_x, scale_y))
    } else {
        lit_rects(pixels, scale_x, scale_y, upto - 1)
    }
}

/// How many output pixels one display pixel takes along an axis on which
/// the output measures `output` and the display `cells`: the whole part of
/// the quotient.
pub open spec fn scale_for(output: u32, cells: usize) -> u32 {
    (output as int / cells as int) as u32
}

/// Whether a sprite drawn at `(pos_x, pos_y)` has a lit pixel that lands on
/// the display, rather than beyond its right or bottom edge.
pub open spec fn has_visible_pixel(sprite: Seq<bool>, pos_x: u8, pos_y: u8) -> bool {
    exists|n: int|
        0 <= n < sprite.len() && #[trigger] sprite[n] && wrapped_x(pos_x) + n % 8 < WIDTH
            && wrapped_y(pos_y) + n / 8 < HEIGHT
}

/// Drawing on a clear display never collides, and lights exactly the
/// sprite's visible pixels.
pub proof fn lemma_draw_on_clear(pos_x: u8, pos_y: u8, sprite: Seq<bool>)
    ensures
        !draw_collides(blank_pixels(), pos_x, pos_y, sprite),
        forall|k: int|
            0 <= k < PIXELS ==> drawn_pixels(blank_pixels(), pos_x, pos_y, sprite)[k] == lit_at(
                sprite,
                wrapped_x(pos_x),
                wrapped_y(pos_y),
                k,
            ),
{
}

/// Drawing the same sprite at the same place a second time undoes the
/// first drawing, whatever the display held.
pub proof fn lemma_draw_twice_restores(pixels: Seq<bool>, pos_x: u8, pos_y: u8, sprite: Seq<bool>)
    ensures
        drawn_pixels(drawn_pixels(pixels, pos_x, pos_y, sprite), pos_x, pos_y, sprite) == pixels,
{
    assert(drawn_pixels(drawn_pixels(pixels, pos_x, pos_y, sprite), pos_x, pos_y, sprite)
        =~= pixels);
}

/// A sprite drawn twice at the same place on a clear display: the first
/// drawing reports no collision; the second reports one exactly when the
/// sprite has a lit pixel on the display, and it turns all of them off
/// again, leaving the display clear.
pub proof fn lemma_draw_twice_collides(pos_x: u8, pos_y: u8, sprite: Seq<bool>)
    ensures
        !draw_collides(blank_pixels(), pos_x, pos_y, sprite),
        draw_collides(drawn_pixels(blank_pixels(), pos_x, pos_y, sprite), pos_x, pos_y, sprite)
            == has_visible_pixel(sprite, pos_x, pos_y),
        drawn_pixels(drawn_pixels(blank_pixels(), pos_x, pos_y, sprite), pos_x, pos_y, sprite)
            == blank_pixels(),
{
    lemma_draw_on_clear(pos_x, pos_y, sprite);
    lemma_draw_twice_restores(blank_pixels(), pos_x, pos_y, sprite);
    let once = drawn_pixels(blank_pixels(), pos_x, pos_y, sprite);
    let (left, top) = (wrapped_x(pos_x), wrapped_y(pos_y));
    if has_visible_pixel(sprite, pos_x, pos_y) {
        let n = choose|n: int|
            0 <= n < sprite.len() && #[trigger] sprite[n] && left + n % 8 < WIDTH && top + n / 8
                < HEIGHT;
        let k = (top + n / 8) * WIDTH + left + n % 8;
        assert(k % WIDTH as int == left + n % 8 && k / WIDTH as int == top + n / 8);
        assert(lit_at(sprite, left, top, k));
        assert(once[k]);
    }
    if draw_collides(once, pos_x, pos_y, sprite) {
        let k = choose|k: int|
            0 <= k < once.len() && once[k] && #[trigger] lit_at(sprite, left, top, k);
        let n = (k / WIDTH as int - top) * 8 + (k % WIDTH as int - left);
        assert(n / 8 == k / WIDTH as int - top && n % 8 == k % WIDTH as int - left);
        assert(sprite[n]);
    }
}

/// A sprite whose top left pixel is lit always has a visible pixel: the
/// corner lands on the display wherever the sprite is drawn.
pub proof fn lemma_corner_is_visible(sprite: Seq<bool>, pos_x: u8, pos_y: u8)
    requires
        sprite.len() > 0,
        sprite[0],
    ensures
        has_visible_pixel(sprite, pos_x, pos_y),
{
}

impl View for Screen {
    type V = ScreenState;

    closed spec fn view(&self) -> ScreenState {
        ScreenState { pixels: self.vram@, updated: self.updated }
    }
}

impl Screen {
    /// A clear display that is due to be painted.
    pub fn new() -> (screen: Screen)
        ensures
            screen@ == (ScreenState { pixels: blank_pixels(), updated: true }),
    {
        let screen = Screen { vram: [false; 2048], updated: true };
        assert(screen@.pixels =~= blank_pixels());
        screen
    }

    /// Turns every pixel off. Whether the display is due to be painted is
    /// left as it was.
    pub fn clear(&mut self)
        ensures
            final(self)@ == (ScreenState { pixels: blank_pixels(), updated: old(self)@.updated }),
    {
        let mut k: usize = 0;
        while k < PIXELS
            invariant
                k <= PIXELS,
                self.updated == old(self).updated,
                forall|j: int| 0 <= j < k ==> !self.vram@[j],
            decreases PIXELS - k,
        {
            self.vram[k] = false;
            k += 1;
        }
        assert(self@.pixels =~= blank_pixels());
    }

    /// Draws `sprite`, eight pixels to the row, with its top left corner at
    /// `(pos_x mod 64, pos_y mod 32)`. Each lit sprite pixel flips the
    /// display pixel under it; sprite pixels beyond the right or bottom edge
    /// are dropped. Returns whether a lit display pixel was turned off.
    pub fn draw_sprire(&mut self, pos_x: u8, pos_y: u8, sprite: Vec<bool>) -> (cleared: bool)
        requires
            valid_sprite(sprite@),
        ensures
            final(self)@.pixels == drawn_pixels(old(self)@.pixels, pos_x, pos_y, sprite@),
            final(self)@.updated,
            cleared == draw_collides(old(self)@.pixels, pos_x, pos_y, sprite@),
    {
        let mut cleared = false;
        let left: usize = (pos_x % 64) as usize;
        let top: usize = (pos_y % 32) as usize;
        let rows: usize = sprite.len() / 8;
        let ghost before = self.vram@;
        let ghost witness: int = 0;
        let mut row: usize = 0;
        while row < rows
            invariant
                row <= rows,
                rows * 8 == sprite.len(),
                rows <= 15,
                left < WIDTH,
                top < HEIGHT,
                before.len() == PIXELS,
                partly_drawn(before, self.vram@, sprite@, left as int, top as int, row * 8),
                cleared ==> collision_at(before, sprite@, left as int, top as int, row * 8, witness),
                !cleared ==> no_collision_among(before, sprite@, left as int, top as int, row * 8),
            decreases rows - row,
        {
            let mut pxl: usize = 0;
            while pxl < 8
                invariant
                    row < rows,
                    pxl <= 8,
                    rows * 8 == sprite.len(),
                    rows <= 15,
                    left < WIDTH,
                    top < HEIGHT,
                    before.len() == PIXELS,
                    partly_drawn(
                        before,
                        self.vram@,
                        sprite@,
                        left as int,
                        top as int,
                        row * 8 + pxl,
                    ),
                    cleared ==> collision_at(
                        before,
                        sprite@,
                        left as int,
                        top as int,
                        row * 8 + pxl,
                        witness,
                    ),
                    !cleared ==> no_collision_among(
                        before,
                        sprite@,
                        left as int,
                        top as int,
                        row * 8 + pxl,
                    ),
                decreases 8 - pxl,
            {
                let vram_x: usize = left + pxl;
                let vram_y: usize = top + row;
                let ghost now = self.vram@;
                if vram_y < HEIGHT && vram_x < WIDTH {
                    let at: usize = vram_y * WIDTH + vram_x;
                    let old_bit = self.vram[at];
                    let set_bit = sprite[row * 8 + pxl];
                    self.vram[at] = old_bit != set_bit;
                    if old_bit && set_bit {
                        cleared = true;
                        proof {
                            witness = at as int;
                        }
                    }
                }
                proof {
                    let done = row * 8 + pxl;
                    lemma_draw_step(
                        before,
                        now,
                        self.vram@,
                        sprite@,
                        left as int,
                        top as int,
                        row as int,
                        pxl as int,
                    );
                    assert forall|k: int| 0 <= k < before.len() && !cleared implies !(before[k]
                        && #[trigger] lit_among(sprite@, left as int, top as int, k, done + 1)) by {
                        assert(!(before[k] && lit_among(
                            sprite@,
                            left as int,
                            top as int,
                            k,
                            done as int,
                        )));
                    }
                    if cleared {
                        assert(lit_among(sprite@, left as int, top as int, witness, done + 1));
                    }
                }
                pxl += 1;
            }
            row += 1;
        }
        self.updated = true;
        proof {
            let done = sprite@.len() as int;
            assert forall|k: int|
                #![trigger lit_among(sprite@, left as int, top as int, k, done)]
                #![trigger lit_at(sprite@, wrapped_x(pos_x), wrapped_y(pos_y), k)]
                0 <= k < before.len() implies lit_among(sprite@, left as int, top as int, k, done)
                == lit_at(sprite@, wrapped_x(pos_x), wrapped_y(pos_y), k) by {}
            assert(self.vram@ =~= drawn_pixels(before, pos_x, pos_y, sprite@));
            if cleared {
                assert(before[witness] && lit_at(
                    sprite@,
                    wrapped_x(pos_x),
                    wrapped_y(pos_y),
                    witness,
                ));
            }
        }
        cleared
    }

    /// What to paint, if anything is due. When nothing was drawn since the
    /// display was last painted, there is nothing to do and the answer is
    /// `None`. Otherwise the display counts as painted from now on, and the
    /// answer holds one rectangle for each lit pixel, to be painted on a
    /// cleared output surface of `output_width` by `output_height` pixels.
    pub fn draw(&mut self, output_width: u32, output_height: u32) -> (frame: Option<Vec<PixelRect>>)
        ensures
            !old(self)@.updated ==> frame is None && final(self)@ == old(self)@,
            old(self)@.updated ==> frame is Some && frame->Some_0@ == lit_rects(
                old(self)@.pixels,
                scale_for(output_width, WIDTH),
                scale_for(output_height, HEIGHT),
                PIXELS as int,
            ) && final(self)@ == (ScreenState { updated: false, ..old(self)@ }),
    {
        if !self.updated {
            return None;
        }
        self.updated = false;
        let x_scale: u32 = output_width / 64;
        let y_scale: u32 = output_height / 32;
        let mut rects: Vec<PixelRect> = Vec::new();
        let mut y: usize = 0;
        while y < HEIGHT
            invariant
                y <= HEIGHT,
                x_scale == scale_for(output_width, WIDTH),
                y_scale == scale_for(output_height, HEIGHT),
                self.vram == old(self).vram,
                !self.updated,
                rects@ == lit_rects(self.vram@, x_scale, y_scale, y * WIDTH),
            decreases HEIGHT - y,
        {
            let mut x: usize = 0;
            while x < WIDTH
                invariant
                    y < HEIGHT,
                    x <= WIDTH,
                    x_scale == scale_for(output_width, WIDTH),
                    y_scale == scale_for(output_height, HEIGHT),
                    self.vram == old(self).vram,
                    !self.updated,
                    rects@ == lit_rects(self.vram@, x_scale, y_scale, y * WIDTH + x),
                decreases WIDTH - x,
            {
                let at: usize = y * WIDTH + x;
                assert(at % WIDTH == x && at / WIDTH == y);
                assert(x * x_scale <= u32::MAX && y * y_scale <= u32::MAX) by (nonlinear_arith)
                    requires
                        x < 64,
                        y < 32,
                        x_scale <= 0x3FF_FFFF,
                        y_scale <= 0x7FF_FFFF,
                ;
                if self.vram[at] {
                    rects.push(
                        PixelRect {
                            x: x as u32 * x_scale,
                            y: y as u32 * y_scale,
                            width: x_scale,
                            height: y_scale,
                        },
                    );
                }
                x += 1;
            }
            y += 1;
        }
        Some(rects)
    }

    /// Whether the pixel in column `x` of row `y` is lit.
    pub fn pixel(&self, x: usize, y: usize) -> (lit: bool)
        requires
            x < WIDTH,
            y < HEIGHT,
        ensures
            lit == self@.pixel(x as int, y as int),
    {
        self.vram[y * WIDTH + x]
    }

    /// Whether anything was drawn since the display was last painted.
    pub fn is_updated(&self) -> (updated: bool)
        ensures
            updated == self@.updated,
    {
        self.updated
    }

    /// Every screen holds one pixel for each position of the display.
    pub proof fn lemma_well_formed(&self)
        ensures
            self@.well_formed(),
    {
    }
}

} // verus!
