//! Dimension jitter: the grid grows or shrinks by one pixel on both axes.

use vstd::prelude::*;
use rand::rngs::StdRng;
use crate::codec::resample;
use crate::codec::resample_fits;
use crate::codec::triangle_resample;
use crate::codec::MAX_RESAMPLE_DIM;
use crate::grid::deinterleave;
use crate::grid::GridView;
use crate::grid::PixelGrid;
use crate::random::draw_below;

verus! {

/// What the jitter step does to the size of a grid.
#[derive(Clone, Copy, Debug, PartialEq, Eq, Structural)]
pub enum JitterChoice {
    /// The grid keeps its size.
    Keep,
    /// Width and height grow by one pixel.
    Grow,
    /// Width and height shrink by one pixel, but not below one.
    Shrink,
}

/// A side shortened by one pixel, but not below one.
pub open spec fn shrunk(side: nat) -> nat {
    if side <= 1 {
        1
    } else {
        (side - 1) as nat
    }
}

/// The size that a choice asks for.
pub open spec fn jittered_size(width: nat, height: nat, choice: JitterChoice) -> (nat, nat) {
    match choice {
        JitterChoice::Keep => (width, height),
        JitterChoice::Grow => (width + 1, height + 1),
        JitterChoice::Shrink => (shrunk(width), shrunk(height)),
    }
}

/// Whether a choice changes a grid: it asks for another size, and the grid
/// can be resampled to it. A grid with a side above 65 535 pixels, or too
/// large for the filter's intermediate image, cannot, and keeps its size.
pub open spec fn jitter_takes_effect(width: nat, height: nat, choice: JitterChoice) -> bool {
    let (new_width, new_height) = jittered_size(width, height, choice);
    (new_width != width || new_height != height) && resample_fits(width, height, new_width, new_height)
}

/// The grid after the jitter step: resampled with the triangle filter to the
/// size that the choice asks for, or unchanged where the choice has no
/// effect.
pub open spec fn jitter_result(before: GridView, choice: JitterChoice) -> GridView {
    let (new_width, new_height) = jittered_size(before.width, before.height, choice);
    if jitter_takes_effect(before.width, before.height, choice) {
        GridView {
            width: new_width,
            height: new_height,
            layout: before.layout,
            pixels: deinterleave(
                triangle_resample(
                    before.width as u32,
                    before.height as u32,
                    before.samples(),
                    new_width as u32,
                    new_height as u32,
                ),
            ),
        }
    } else {
        before
    }
}

/// After the jitter step each side is within one pixel of what it was, and
/// a grid that was not empty is not empty afterwards.
pub proof fn lemma_jitter_within_one(before: GridView, choice: JitterChoice)
    ensures
        before.width - 1 <= jitter_result(before, choice).width <= before.width + 1,
        before.height - 1 <= jitter_result(before, choice).height <= before.height + 1,
        before.width >= 1 ==> jitter_result(before, choice).width >= 1,
        before.height >= 1 ==> jitter_result(before, choice).height >= 1,
        jitter_result(before, choice).width - before.width == jitter_result(before, choice).height
            - before.height || before.width <= 1 || before.height <= 1,
{
}

/// Draws the jitter: a first draw below 2 says whether the grid is resized,
/// and only then a second draw below 2 says which way.
pub fn draw_jitter(rng: &mut StdRng) -> (choice: JitterChoice)
    ensures
        exists|resize: u32, direction: u32|
            resize < 2 && direction < 2 && choice == #[trigger] jitter_for(resize, direction),
{
    let resize = draw_below(rng, 2);
    let direction = if resize == 0 {
        0
    } else {
        draw_below(rng, 2)
    };
    let choice = jitter_from_draws(resize, direction);
    assert(choice == jitter_for(resize, direction));
    choice
}

/// The choice that two draws stand for. The first draw decides whether the
/// grid is resized: 0 keeps it. The second decides the direction of a
/// resize: 0 shrinks, any other value grows.
pub open spec fn jitter_for(resize: u32, direction: u32) -> JitterChoice {
    if resize == 0 {
        JitterChoice::Keep
    } else if direction == 0 {
        JitterChoice::Shrink
    } else {
        JitterChoice::Grow
    }
}

/// Turns two draws into the jitter choice.
pub fn jitter_from_draws(resize: u32, direction: u32) -> (choice: JitterChoice)
    ensures
        choice == jitter_for(resize, direction),
{
    if resize == 0 {
        JitterChoice::Keep
    } else if direction == 0 {
        JitterChoice::Shrink
    } else {
        JitterChoice::Grow
    }
}

/// Of the two values of the first draw exactly one keeps the grid, and of
/// the two values of the second exactly one grows it and one shrinks it: so
/// equally likely draws keep the grid with one chance in two, and grow and
/// shrink it with the same chance.
pub proof fn lemma_jitter_shares(resize: u32, direction: u32)
    requires
        resize < 2,
        direction < 2,
    ensures
        jitter_for(resize, direction) == JitterChoice::Keep <==> resize == 0,
        jitter_for(resize, direction) == JitterChoice::Shrink <==> resize == 1 && direction == 0,
        jitter_for(resize, direction) == JitterChoice::Grow <==> resize == 1 && direction == 1,
{
}

/// Computes the size that a choice asks for.
fn target_size(width: u32, height: u32, choice: JitterChoice) -> (size: (u64, u64))
    ensures
        (size.0 as nat, size.1 as nat) == jittered_size(width as nat, height as nat, choice),
{
    match choice {
        JitterChoice::Keep => (width as u64, height as u64),
        JitterChoice::Grow => (width as u64 + 1, height as u64 + 1),
        JitterChoice::Shrink => {
            let w: u64 = if width <= 1 {
                1
            } else {
                width as u64 - 1
            };
            let h: u64 = if height <= 1 {
                1
            } else {
                height as u64 - 1
            };
            (w, h)
        },
    }
}

/// Tests whether a grid can be resampled to a new size.
fn can_resample(width: u32, height: u32, new_width: u64, new_height: u64) -> (fits: bool)
    ensures
        fits == resample_fits(width as nat, height as nat, new_width as nat, new_height as nat),
{
    let max = MAX_RESAMPLE_DIM as u64;
    if width as u64 > max || height as u64 > max || new_width < 1 || new_width > max || new_height
        < 1 || new_height > max {
        return false;
    }
    let limit: u64 = (usize::MAX / 2) as u64;
    assert(width * new_height <= 65_535 * 65_535) by (nonlinear_arith)
        requires
            width <= 65_535,
            new_height <= 65_535,
    ;
    assert(new_width * new_height <= 65_535 * 65_535) by (nonlinear_arith)
        requires
            new_width <= 65_535,
            new_height <= 65_535,
    ;
    16 * (width as u64 * new_height) <= limit && 16 * (new_width * new_height) <= limit
}

/// The jitter step for a given choice. The channel layout stays.
pub fn apply_jitter(grid: &mut PixelGrid, choice: JitterChoice)
    requires
        old(grid).wf(),
    ensures
        final(grid).wf(),
        final(grid)@ == jitter_result(old(grid)@, choice),
{
    let width = grid.width();
    let height = grid.height();
    let (new_width, new_height) = target_size(width, height, choice);
    if new_width == width as u64 && new_height == height as u64 {
        return ;
    }
    if !can_resample(width, height, new_width, new_height) {
        return ;
    }
    let layout = grid.layout();
    let resized = resample(width, height, grid.as_samples(), new_width as u32, new_height as u32);
    let rebuilt = PixelGrid::from_raw(new_width as u32, new_height as u32, resized);
    *grid = rebuilt.unwrap().with_layout(layout);
}

} // verus!
