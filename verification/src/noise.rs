//! Sparse noise: a small share of the pixels gets a random shift of its
//! colour channels.

use vstd::prelude::*;
use vstd::set_lib::lemma_len_subset;
use rand::rngs::StdRng;
use crate::grid::lemma_position_index;
use crate::grid::GridView;
use crate::grid::Pixel;
use crate::grid::PixelGrid;
use crate::random::draw_below;

verus! {

/// One perturbation: a position and the shift of each colour channel.
#[derive(Clone, Copy, Debug, PartialEq, Eq, Structural)]
pub struct NoiseDraw {
    pub x: u32,
    pub y: u32,
    pub red: i16,
    pub green: i16,
    pub blue: i16,
}

/// The largest channel shift for an intensity given in thousandths: the
/// intensity, held to at most 1000, scaled to 0..=255 and rounded to the
/// nearest integer.
pub open spec fn noise_magnitude_of(permille: nat) -> nat {
    let held: nat = if permille > 1000 {
        1000
    } else {
        permille
    };
    (held * 255 + 500) / 1000
}

/// Derives the shift magnitude from an intensity in thousandths.
pub fn noise_magnitude(noise_permille: u32) -> (magnitude: u8)
    ensures
        magnitude == noise_magnitude_of(noise_permille as nat),
{
    let held: u32 = if noise_permille > 1000 {
        1000
    } else {
        noise_permille
    };
    ((held * 255 + 500) / 1000) as u8
}

/// The number of perturbations for a grid: three hundredths of its pixel
/// count, rounded to the nearest integer.
pub open spec fn noise_sample_count_of(width: nat, height: nat) -> nat {
    (3 * (width * height) + 50) / 100
}

/// Three hundredths of the pixel count, rounded up.
pub open spec fn noise_sample_ceiling(width: nat, height: nat) -> nat {
    (3 * (width * height) + 99) / 100
}

/// Computes the number of perturbations for a grid.
pub fn noise_sample_count(width: u32, height: u32) -> (count: u64)
    ensures
        count == noise_sample_count_of(width as nat, height as nat),
        count <= noise_sample_ceiling(width as nat, height as nat),
{
    assert(width * height <= 0xFFFF_FFFE_0000_0001) by (nonlinear_arith)
        requires
            width <= u32::MAX,
            height <= u32::MAX,
    ;
    let pixels: u128 = width as u128 * height as u128;
    ((3 * pixels + 50) / 100) as u64
}

/// A channel value moved by `delta` and held to 0..=255.
pub open spec fn shift_channel(value: u8, delta: int) -> u8 {
    if value + delta < 0 {
        0
    } else if value + delta > 255 {
        255
    } else {
        (value + delta) as u8
    }
}

/// A pixel whose colour channels are shifted; alpha stays.
pub open spec fn perturbed(pixel: Pixel, draw: NoiseDraw) -> Pixel {
    Pixel {
        red: shift_channel(pixel.red, draw.red as int),
        green: shift_channel(pixel.green, draw.green as int),
        blue: shift_channel(pixel.blue, draw.blue as int),
        alpha: pixel.alpha,
    }
}

/// The grid after one perturbation.
pub open spec fn draw_applied(before: GridView, draw: NoiseDraw) -> GridView {
    before.with_pixel(
        draw.x as int,
        draw.y as int,
        perturbed(before.at(draw.x as int, draw.y as int), draw),
    )
}

/// The grid after a sequence of perturbations, applied in order.
pub open spec fn noise_result(before: GridView, draws: Seq<NoiseDraw>) -> GridView
    decreases draws.len(),
{
    if draws.len() == 0 {
        before
    } else {
        draw_applied(noise_result(before, draws.drop_last()), draws.last())
    }
}

/// Whether a perturbation lies in a grid and shifts no channel by more than
/// `magnitude`.
pub open spec fn draw_valid(draw: NoiseDraw, width: nat, height: nat, magnitude: u8) -> bool {
    &&& draw.x < width
    &&& draw.y < height
    &&& -magnitude <= draw.red <= magnitude
    &&& -magnitude <= draw.green <= magnitude
    &&& -magnitude <= draw.blue <= magnitude
}

/// Whether `draws` is a possible outcome of the noise step on a grid: none
/// at magnitude 0, else as many as the grid's sample count, each of them
/// valid.
pub open spec fn draws_admissible(
    draws: Seq<NoiseDraw>,
    width: nat,
    height: nat,
    magnitude: u8,
) -> bool {
    &&& draws.len() == if magnitude == 0 {
        0
    } else {
        noise_sample_count_of(width, height)
    }
    &&& forall|k: int|
        0 <= k < draws.len() ==> draw_valid(#[trigger] draws[k], width, height, magnitude)
}

/// The indices of the pixels in which two grids of one size differ.
pub open spec fn changed_pixels(before: GridView, after: GridView) -> Set<int> {
    Set::new(|i: int| 0 <= i < before.pixels.len() && before.pixels[i] != after.pixels[i])
}

/// The indices of the pixels that a sequence of perturbations aims at.
spec fn targets(draws: Seq<NoiseDraw>, width: nat) -> Set<int>
    decreases draws.len(),
{
    if draws.len() == 0 {
        Set::empty()
    } else {
        targets(draws.drop_last(), width).insert(draws.last().y * width + draws.last().x)
    }
}

proof fn lemma_targets_bounded(draws: Seq<NoiseDraw>, width: nat)
    ensures
        targets(draws, width).finite(),
        targets(draws, width).len() <= draws.len(),
    decreases draws.len(),
{
    if draws.len() > 0 {
        lemma_targets_bounded(draws.drop_last(), width);
    }
}

proof fn lemma_noise_frame(before: GridView, draws: Seq<NoiseDraw>, magnitude: u8)
    requires
        before.wf(),
        forall|k: int|
            0 <= k < draws.len() ==> draw_valid(
                #[trigger] draws[k],
                before.width,
                before.height,
                magnitude,
            ),
    ensures
        noise_result(before, draws).width == before.width,
        noise_result(before, draws).height == before.height,
        noise_result(before, draws).wf(),
        forall|i: int|
            0 <= i < before.pixels.len() ==> #[trigger] noise_result(before, draws).pixels[i].alpha
                == before.pixels[i].alpha,
        forall|i: int|
            0 <= i < before.pixels.len() && !targets(draws, before.width).contains(i)
                ==> #[trigger] noise_result(before, draws).pixels[i] == before.pixels[i],
    decreases draws.len(),
{
    if draws.len() > 0 {
        let head = draws.drop_last();
        let last = draws.last();
        assert(draw_valid(draws[draws.len() - 1], before.width, before.height, magnitude));
        assert forall|k: int| 0 <= k < head.len() implies draw_valid(
            #[trigger] head[k],
            before.width,
            before.height,
            magnitude,
        ) by {
            assert(head[k] == draws[k]);
        }
        lemma_noise_frame(before, head, magnitude);
        lemma_position_index(before.width, before.height, last.x as int, last.y as int);
    }
}

/// The noise step changes at most as many pixels as it makes perturbations,
/// keeps the size of the grid and leaves every alpha value as it was.
pub proof fn lemma_noise_changes_bounded(before: GridView, draws: Seq<NoiseDraw>, magnitude: u8)
    requires
        before.wf(),
        forall|k: int|
            0 <= k < draws.len() ==> draw_valid(
                #[trigger] draws[k],
                before.width,
                before.height,
                magnitude,
            ),
    ensures
        noise_result(before, draws).width == before.width,
        noise_result(before, draws).height == before.height,
        noise_result(before, draws).wf(),
        forall|i: int|
            0 <= i < before.pixels.len() ==> #[trigger] noise_result(before, draws).pixels[i].alpha
                == before.pixels[i].alpha,
        changed_pixels(before, noise_result(before, draws)).finite(),
        changed_pixels(before, noise_result(before, draws)).len() <= draws.len(),
{
    lemma_noise_frame(before, draws, magnitude);
    lemma_targets_bounded(draws, before.width);
    let changed = changed_pixels(before, noise_result(before, draws));
    let aimed = targets(draws, before.width);
    assert(changed.subset_of(aimed));
    lemma_len_subset(changed, aimed);
}

/// With no intensity the noise step leaves the grid as it was, and with any
/// intensity it changes no more pixels than three hundredths of their
/// number, rounded up.
pub proof fn lemma_noise_step_sparse(before: GridView, draws: Seq<NoiseDraw>, magnitude: u8)
    requires
        before.wf(),
        draws_admissible(draws, before.width, before.height, magnitude),
    ensures
        magnitude == 0 ==> noise_result(before, draws) == before,
        changed_pixels(before, noise_result(before, draws)).finite(),
        changed_pixels(before, noise_result(before, draws)).len() <= noise_sample_ceiling(
            before.width,
            before.height,
        ),
{
    lemma_noise_changes_bounded(before, draws, magnitude);
}

/// Shifts one channel value, saturating at 0 and 255.
fn shifted(value: u8, delta: i16) -> (out: u8)
    ensures
        out == shift_channel(value, delta as int),
{
    let sum: i32 = value as i32 + delta as i32;
    if sum < 0 {
        0
    } else if sum > 255 {
        255
    } else {
        sum as u8
    }
}

/// Applies one perturbation to the grid.
pub fn apply_draw(grid: &mut PixelGrid, draw: NoiseDraw)
    requires
        old(grid).wf(),
        old(grid)@.contains(draw.x as int, draw.y as int),
    ensures
        final(grid).wf(),
        final(grid)@ == draw_applied(old(grid)@, draw),
{
    let pixel = grid.get_pixel(draw.x, draw.y);
    let moved = Pixel {
        red: shifted(pixel.red, draw.red),
        green: shifted(pixel.green, draw.green),
        blue: shifted(pixel.blue, draw.blue),
        alpha: pixel.alpha,
    };
    grid.put_pixel(draw.x, draw.y, moved);
}

/// Draws a shift between `-magnitude` and `magnitude`, both included.
fn draw_shift(rng: &mut StdRng, magnitude: u8) -> (shift: i16)
    ensures
        -magnitude <= shift <= magnitude,
{
    let span: u32 = 2 * (magnitude as u32) + 1;
    let raw: u32 = draw_below(rng, span);
    (raw as i32 - magnitude as i32) as i16
}

/// Draws one perturbation for a grid that is not empty.
fn draw_perturbation(rng: &mut StdRng, width: u32, height: u32, magnitude: u8) -> (draw: NoiseDraw)
    requires
        width > 0,
        height > 0,
    ensures
        draw_valid(draw, width as nat, height as nat, magnitude),
{
    let x = draw_below(rng, width);
    let y = draw_below(rng, height);
    let red = draw_shift(rng, magnitude);
    let green = draw_shift(rng, magnitude);
    let blue = draw_shift(rng, magnitude);
    NoiseDraw { x, y, red, green, blue }
}

/// The noise step. At magnitude 0 nothing happens. Otherwise as many
/// perturbations as the grid's sample count are drawn, positions may repeat,
/// and each is applied in turn: every colour channel of the pixel moves by
/// its own shift between `-magnitude` and `magnitude` and is held to
/// 0..=255, alpha stays.
pub fn inject_noise(grid: &mut PixelGrid, magnitude: u8, rng: &mut StdRng)
    requires
        old(grid).wf(),
    ensures
        final(grid).wf(),
        exists|draws: Seq<NoiseDraw>|
            draws_admissible(draws, old(grid)@.width, old(grid)@.height, magnitude) && final(grid)@
                == #[trigger] noise_result(old(grid)@, draws),
        magnitude == 0 ==> final(grid)@ == old(grid)@,
        final(grid)@.width == old(grid)@.width,
        final(grid)@.height == old(grid)@.height,
        forall|i: int|
            0 <= i < old(grid)@.pixels.len() ==> #[trigger] final(grid)@.pixels[i].alpha == old(
                grid,
            )@.pixels[i].alpha,
        changed_pixels(old(grid)@, final(grid)@).len() <= noise_sample_ceiling(
            old(grid)@.width,
            old(grid)@.height,
        ),
{
    let width = grid.width();
    let height = grid.height();
    let count: u64 = if magnitude == 0 {
        0
    } else {
        noise_sample_count(width, height)
    };
    let ghost mut draws: Seq<NoiseDraw> = Seq::empty();
    let mut done: u64 = 0;
    proof {
        grid.lemma_wf();
        if width == 0 || height == 0 {
            assert(width * height == 0) by (nonlinear_arith)
                requires
                    width == 0 || height == 0,
            ;
        }
    }
    while done < count
        invariant
            grid.wf(),
            done <= count,
            count > 0 ==> width > 0 && height > 0,
            width == old(grid)@.width,
            height == old(grid)@.height,
            old(grid)@.wf(),
            draws.len() == done,
            forall|k: int|
                0 <= k < draws.len() ==> draw_valid(
                    #[trigger] draws[k],
                    width as nat,
                    height as nat,
                    magnitude,
                ),
            grid@ == noise_result(old(grid)@, draws),
        decreases count - done,
    {
        let draw = draw_perturbation(rng, width, height, magnitude);
        proof {
            lemma_noise_frame(old(grid)@, draws, magnitude);
            let longer = draws.push(draw);
            assert(longer.drop_last() == draws);
            assert(longer.last() == draw);
            draws = longer;
        }
        apply_draw(grid, draw);
        done += 1;
    }
    proof {
        lemma_noise_step_sparse(old(grid)@, draws, magnitude);
        lemma_noise_changes_bounded(old(grid)@, draws, magnitude);
    }
}

} // verus!
