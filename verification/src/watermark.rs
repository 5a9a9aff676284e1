//! Watermark compositing: one faint digit in a corner of the grid.

use vstd::prelude::*;
use vstd::arithmetic::div_mod::lemma_multiply_divide_lt;
use rand::rngs::StdRng;
use crate::glyph::glyph_cell;
use crate::glyph::glyph_for;
use crate::grid::lemma_grid_ext;
use crate::grid::lemma_map_pixels_at;
use crate::grid::GridView;
use crate::grid::Pixel;
use crate::grid::PixelGrid;
use crate::random::draw_below;

verus! {

/// Share of the foreground in a blended channel, in hundredths.
pub const WATERMARK_OPACITY_PERCENT: u32 = 15;

/// Value of each colour channel of the foreground: black.
pub const WATERMARK_INK: u8 = 0;

/// Smallest side of a glyph cell, in pixels.
pub const MIN_FONT_SCALE: u32 = 8;

/// Grid width per pixel of cell side.
pub const FONT_SCALE_DIVISOR: u32 = 150;

/// The corner that the watermark sits in.
#[derive(Clone, Copy, Debug, PartialEq, Eq, Structural)]
pub enum Corner {
    TopLeft,
    TopRight,
    BottomRight,
    BottomLeft,
}

/// Where a watermark goes: the corner, the side of a glyph cell and the
/// distance of the glyph from the two edges of the corner, all in pixels.
#[derive(Clone, Copy, Debug, PartialEq, Eq, Structural)]
pub struct WatermarkPlacement {
    pub corner: Corner,
    pub scale: u32,
    pub margin: u32,
}

/// A channel blended with the foreground at 15 % opacity, rounded to the
/// nearest integer.
pub open spec fn blend_channel(src: u8) -> u8 {
    ((src * (100 - WATERMARK_OPACITY_PERCENT) + WATERMARK_INK * WATERMARK_OPACITY_PERCENT + 50)
        / 100) as u8
}

/// A pixel whose colour channels are blended with the foreground; alpha
/// stays.
pub open spec fn blend_pixel(pixel: Pixel) -> Pixel {
    Pixel {
        red: blend_channel(pixel.red),
        green: blend_channel(pixel.green),
        blue: blend_channel(pixel.blue),
        alpha: pixel.alpha,
    }
}

/// The side of a glyph cell for a grid: a 150th of the width, at least 8.
pub open spec fn font_scale(width: nat) -> nat {
    if width / 150 > 8 {
        width / 150
    } else {
        8
    }
}

/// The placement for a grid width and a corner: the cell side that goes
/// with the width, and half of it as the margin.
pub open spec fn placement_of(width: nat, corner: Corner) -> WatermarkPlacement {
    let scale = font_scale(width);
    WatermarkPlacement { corner, scale: scale as u32, margin: (scale / 2) as u32 }
}

impl WatermarkPlacement {
    /// The column of the leftmost pixels of the glyph, 5 cells wide, on a
    /// grid of the given width. It may lie outside the grid.
    pub open spec fn left(self, width: nat) -> int {
        match self.corner {
            Corner::TopLeft | Corner::BottomLeft => self.margin as int,
            Corner::TopRight | Corner::BottomRight => width - self.margin - 5 * self.scale,
        }
    }

    /// The row of the topmost pixels of the glyph, 7 cells tall, on a grid
    /// of the given height. It may lie outside the grid.
    pub open spec fn top(self, height: nat) -> int {
        match self.corner {
            Corner::TopLeft | Corner::TopRight => self.margin as int,
            Corner::BottomLeft | Corner::BottomRight => height - self.margin - 7 * self.scale,
        }
    }

    /// Computes the position of the top-left pixel of the glyph on a grid.
    pub fn origin(&self, width: u32, height: u32) -> (at: (i64, i64))
        ensures
            at.0 == self.left(width as nat),
            at.1 == self.top(height as nat),
    {
        let margin: i64 = self.margin as i64;
        let left: i64 = match self.corner {
            Corner::TopLeft | Corner::BottomLeft => margin,
            Corner::TopRight | Corner::BottomRight => width as i64 - margin - 5 * (self.scale as i64),
        };
        let top: i64 = match self.corner {
            Corner::TopLeft | Corner::TopRight => margin,
            Corner::BottomLeft | Corner::BottomRight => height as i64 - margin - 7 * (self.scale as i64),
        };
        (left, top)
    }
}

/// Whether `(x, y)` lies in the rectangle that a glyph drawn at
/// `(left, top)` covers.
pub open spec fn in_footprint(left: int, top: int, scale: int, x: int, y: int) -> bool {
    left <= x < left + 5 * scale && top <= y < top + 7 * scale
}

/// Whether `(x, y)` lies in a foreground cell of the glyph of `digit` drawn
/// at `(left, top)` with cells of side `scale`.
pub open spec fn inked(digit: u8, left: int, top: int, scale: int, x: int, y: int) -> bool {
    &&& scale > 0
    &&& in_footprint(left, top, scale, x, y)
    &&& glyph_cell(digit, (x - left) / scale, (y - top) / scale)
}

/// What drawing a digit does to the pixel at a position.
pub open spec fn ink(digit: u8, left: int, top: int, scale: int) -> spec_fn(int, int, Pixel) -> Pixel {
    |x: int, y: int, pixel: Pixel|
        if inked(digit, left, top, scale, x, y) {
            blend_pixel(pixel)
        } else {
            pixel
        }
}

/// The grid with a digit drawn on it: every pixel of a foreground cell is
/// blended, every other pixel is as before. Cells outside the grid are left
/// out.
pub open spec fn digit_drawn(before: GridView, digit: u8, left: int, top: int, scale: int) -> GridView {
    before.map_pixels(ink(digit, left, top, scale))
}

/// The grid with the watermark of `digit` in `corner`.
pub open spec fn watermarked(before: GridView, digit: u8, corner: Corner) -> GridView {
    let place = placement_of(before.width, corner);
    digit_drawn(
        before,
        digit,
        place.left(before.width),
        place.top(before.height),
        place.scale as int,
    )
}

/// A grid of the same size that is blended where the digit has ink and
/// equal elsewhere is the grid with the digit drawn.
proof fn lemma_digit_drawn(before: GridView, after: GridView, digit: u8, left: int, top: int, scale: int)
    requires
        before.wf(),
        after.wf(),
        after.width == before.width,
        after.height == before.height,
        after.layout == before.layout,
        forall|x: int, y: int|
            before.contains(x, y) ==> #[trigger] after.at(x, y) == if inked(digit, left, top, scale, x, y) {
                blend_pixel(before.at(x, y))
            } else {
                before.at(x, y)
            },
    ensures
        after == digit_drawn(before, digit, left, top, scale),
{
    let drawn = digit_drawn(before, digit, left, top, scale);
    assert forall|x: int, y: int| after.contains(x, y) implies after.at(x, y) == drawn.at(x, y) by {
        assert(before.contains(x, y));
        lemma_map_pixels_at(before, ink(digit, left, top, scale), x, y);
    }
    lemma_grid_ext(after, drawn);
}

/// Compositing keeps the size of the grid. A pixel outside the glyph's
/// footprint is untouched. A pixel of a foreground cell is blended: its
/// alpha stays, and it differs from what it was when one of its colour
/// channels was above 3. Any other pixel of the footprint is untouched too.
pub proof fn lemma_watermark_effect(before: GridView, digit: u8, corner: Corner, x: int, y: int)
    requires
        before.wf(),
        before.contains(x, y),
    ensures
        ({
            let place = placement_of(before.width, corner);
            let left = place.left(before.width);
            let top = place.top(before.height);
            let after = watermarked(before, digit, corner);
            let has_ink = inked(digit, left, top, place.scale as int, x, y);
            let old_pixel = before.at(x, y);
            &&& after.width == before.width
            &&& after.height == before.height
            &&& after.wf()
            &&& !in_footprint(left, top, place.scale as int, x, y) ==> after.at(x, y) == old_pixel
            &&& !has_ink ==> after.at(x, y) == old_pixel
            &&& has_ink ==> after.at(x, y) == blend_pixel(old_pixel)
            &&& after.at(x, y).alpha == old_pixel.alpha
            &&& has_ink && (old_pixel.red > 3 || old_pixel.green > 3 || old_pixel.blue > 3)
                ==> after.at(x, y) != old_pixel
        }),
{
    let place = placement_of(before.width, corner);
    lemma_map_pixels_at(
        before,
        ink(digit, place.left(before.width), place.top(before.height), place.scale as int),
        x,
        y,
    );
}

/// Blends one channel with the foreground.
fn blended(src: u8) -> (out: u8)
    ensures
        out == blend_channel(src),
{
    let kept: u32 = src as u32 * (100 - WATERMARK_OPACITY_PERCENT);
    let added: u32 = WATERMARK_INK as u32 * WATERMARK_OPACITY_PERCENT;
    ((kept + added + 50) / 100) as u8
}

/// Computes where the watermark goes for a grid width and a corner.
pub fn watermark_placement(width: u32, corner: Corner) -> (place: WatermarkPlacement)
    ensures
        place == placement_of(width as nat, corner),
        place.scale >= 8,
{
    let by_width: u32 = width / FONT_SCALE_DIVISOR;
    let scale: u32 = if by_width > MIN_FONT_SCALE {
        by_width
    } else {
        MIN_FONT_SCALE
    };
    WatermarkPlacement { corner, scale, margin: scale / 2 }
}

/// A bound held to `low ..= limit`.
spec fn held(bound: int, low: int, limit: int) -> int {
    if bound <= low {
        low
    } else if bound >= limit {
        limit
    } else {
        bound
    }
}

/// The part of `start .. start + cells * scale` that lies in `0 .. limit`.
fn clip(start: i64, cells: u32, scale: u32, limit: u32) -> (range: (u32, u32))
    requires
        cells <= 7,
    ensures
        range.0 == held(start as int, 0, limit as int),
        range.1 == held(start + cells * scale, range.0 as int, limit as int),
{
    assert(cells * scale <= 7 * 0xFFFF_FFFF) by (nonlinear_arith)
        requires
            cells <= 7,
            scale <= 0xFFFF_FFFF,
    ;
    let end: i128 = start as i128 + (cells as i128) * (scale as i128);
    let low: u32 = if start <= 0 {
        0
    } else if start >= limit as i64 {
        limit
    } else {
        start as u32
    };
    let high: u32 = if end <= low as i128 {
        low
    } else if end >= limit as i128 {
        limit
    } else {
        end as u32
    };
    (low, high)
}

/// Draws the glyph of `digit` with its top-left pixel at `(left, top)` and
/// cells of `scale` x `scale` pixels. Every pixel of a foreground cell that
/// lies in the grid is blended with the foreground; cells outside the grid
/// are skipped.
pub fn draw_digit(grid: &mut PixelGrid, digit: u8, left: i64, top: i64, scale: u32)
    requires
        old(grid).wf(),
    ensures
        final(grid).wf(),
        final(grid)@ == digit_drawn(old(grid)@, digit, left as int, top as int, scale as int),
{
    let glyph = glyph_for(digit);
    let width = grid.width();
    let height = grid.height();
    let (x_low, x_high) = clip(left, 5, scale, width);
    let (y_low, y_high) = clip(top, 7, scale, height);
    proof {
        grid.lemma_wf();
    }
    if scale == 0 || x_low >= x_high || y_low >= y_high {
        proof {
            lemma_digit_drawn(grid@, grid@, digit, left as int, top as int, scale as int);
        }
        return ;
    }
    let mut y: u32 = y_low;
    while y < y_high
        invariant
            grid.wf(),
            old(grid)@.wf(),
            grid@.wf(),
            grid@.width == old(grid)@.width == width,
            grid@.height == old(grid)@.height == height,
            grid@.layout == old(grid)@.layout,
            scale > 0,
            x_low < x_high <= width,
            y_low <= y <= y_high <= height,
            x_low == held(left as int, 0, width as int),
            x_high == held(left + 5 * scale, x_low as int, width as int),
            y_low == held(top as int, 0, height as int),
            y_high == held(top + 7 * scale, y_low as int, height as int),
            forall|col: int, row: int| glyph.spec_is_set(col, row) == glyph_cell(digit, col, row),
            forall|qx: int, qy: int|
                grid@.contains(qx, qy) ==> #[trigger] grid@.at(qx, qy) == if qy < y && inked(
                    digit,
                    left as int,
                    top as int,
                    scale as int,
                    qx,
                    qy,
                ) {
                    blend_pixel(old(grid)@.at(qx, qy))
                } else {
                    old(grid)@.at(qx, qy)
                },
        decreases y_high - y,
    {
        assert(top <= y < top + 7 * scale);
        let dy: u64 = (y as i128 - top as i128) as u64;
        proof {
            lemma_multiply_divide_lt(dy as int, scale as int, 7);
        }
        let row: u32 = (dy / scale as u64) as u32;
        let mut x: u32 = x_low;
        while x < x_high
            invariant
                grid.wf(),
                old(grid)@.wf(),
                grid@.wf(),
                grid@.width == old(grid)@.width == width,
                grid@.height == old(grid)@.height == height,
                grid@.layout == old(grid)@.layout,
                scale > 0,
                x_low <= x <= x_high <= width,
                y_low <= y < y_high <= height,
                row == (y - top) / (scale as int),
                top <= y < top + 7 * scale,
                x_low == held(left as int, 0, width as int),
                x_high == held(left + 5 * scale, x_low as int, width as int),
                y_low == held(top as int, 0, height as int),
                y_high == held(top + 7 * scale, y_low as int, height as int),
                forall|col: int, row: int| glyph.spec_is_set(col, row) == glyph_cell(digit, col, row),
                forall|qx: int, qy: int|
                    grid@.contains(qx, qy) ==> #[trigger] grid@.at(qx, qy) == if (qy < y || (qy == y
                        && qx < x)) && inked(digit, left as int, top as int, scale as int, qx, qy) {
                        blend_pixel(old(grid)@.at(qx, qy))
                    } else {
                        old(grid)@.at(qx, qy)
                    },
            decreases x_high - x,
        {
            assert(left <= x < left + 5 * scale);
            let dx: u64 = (x as i128 - left as i128) as u64;
            proof {
                lemma_multiply_divide_lt(dx as int, scale as int, 5);
            }
            let col: u32 = (dx / scale as u64) as u32;
            if glyph.is_set(col, row) {
                let pixel = grid.get_pixel(x, y);
                let mixed = Pixel {
                    red: blended(pixel.red),
                    green: blended(pixel.green),
                    blue: blended(pixel.blue),
                    alpha: pixel.alpha,
                };
                grid.put_pixel(x, y, mixed);
                proof {
                    grid.lemma_wf();
                }
            }
            x += 1;
        }
        y += 1;
    }
    proof {
        lemma_digit_drawn(old(grid)@, grid@, digit, left as int, top as int, scale as int);
    }
}

/// The watermark step for a given digit and corner. A digit above 9 is
/// drawn as 9.
pub fn composite_watermark(grid: &mut PixelGrid, digit: u8, corner: Corner)
    requires
        old(grid).wf(),
    ensures
        final(grid).wf(),
        final(grid)@ == watermarked(old(grid)@, digit, corner),
{
    let width = grid.width();
    let height = grid.height();
    let place = watermark_placement(width, corner);
    let (left, top) = place.origin(width, height);
    draw_digit(grid, digit, left, top, place.scale);
}

/// Draws a digit between 0 and 9, each with the same chance.
pub fn draw_watermark_digit(rng: &mut StdRng) -> (digit: u8)
    ensures
        digit <= 9,
{
    draw_below(rng, 10) as u8
}

/// Draws a corner: the corner that one draw below 4 stands for.
pub fn draw_corner(rng: &mut StdRng) -> (corner: Corner)
    ensures
        exists|pick: u32| pick < 4 && corner == #[trigger] corner_for(pick),
{
    let pick = draw_below(rng, 4);
    corner_from_draw(pick)
}

/// The corner that a draw stands for: 0 the top left, 1 the top right, 2
/// the bottom right, and any other value the bottom left.
pub open spec fn corner_for(pick: u32) -> Corner {
    if pick == 0 {
        Corner::TopLeft
    } else if pick == 1 {
        Corner::TopRight
    } else if pick == 2 {
        Corner::BottomRight
    } else {
        Corner::BottomLeft
    }
}

/// Turns a draw into the corner.
pub fn corner_from_draw(pick: u32) -> (corner: Corner)
    ensures
        corner == corner_for(pick),
{
    if pick == 0 {
        Corner::TopLeft
    } else if pick == 1 {
        Corner::TopRight
    } else if pick == 2 {
        Corner::BottomRight
    } else {
        Corner::BottomLeft
    }
}

/// Two draws below 4 that stand for the same corner are the same draw, and
/// every corner has a draw below 4: so equally likely draws give each
/// corner the same chance.
pub proof fn lemma_corner_shares(pick: u32, other: u32, corner: Corner)
    requires
        pick < 4,
        other < 4,
    ensures
        corner_for(pick) == corner_for(other) ==> pick == other,
        exists|at: u32| at < 4 && #[trigger] corner_for(at) == corner,
{
    assert(corner_for(0) == Corner::TopLeft);
    assert(corner_for(1) == Corner::TopRight);
    assert(corner_for(2) == Corner::BottomRight);
    assert(corner_for(3) == Corner::BottomLeft);
}

} // verus!
