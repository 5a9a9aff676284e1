//! The evasion transform: noise, then jitter, then the watermark.

use vstd::prelude::*;
use rand::rngs::StdRng;
use crate::grid::GridView;
use crate::grid::PixelGrid;
use crate::jitter::apply_jitter;
use crate::jitter::draw_jitter;
use crate::jitter::jitter_result;
use crate::jitter::lemma_jitter_within_one;
use crate::jitter::JitterChoice;
use crate::noise::draws_admissible;
use crate::noise::inject_noise;
use crate::noise::lemma_noise_changes_bounded;
use crate::noise::noise_result;
use crate::noise::NoiseDraw;
use crate::watermark::composite_watermark;
use crate::watermark::draw_corner;
use crate::watermark::draw_watermark_digit;
use crate::watermark::watermarked;
use crate::watermark::Corner;

verus! {

/// The grid after the three steps, for given outcomes of the draws: the
/// perturbations are applied, the result is resized as the jitter choice
/// says, and the digit is drawn in the corner.
pub open spec fn evasion_result(
    before: GridView,
    draws: Seq<NoiseDraw>,
    choice: JitterChoice,
    digit: u8,
    corner: Corner,
) -> GridView {
    watermarked(jitter_result(noise_result(before, draws), choice), digit, corner)
}

/// Whether `after` can come out of the transform on `before` at a noise
/// magnitude: it is the result for some admissible perturbations, some
/// jitter choice, some digit up to 9 and some corner.
pub open spec fn is_evasion_of(before: GridView, magnitude: u8, after: GridView) -> bool {
    exists|draws: Seq<NoiseDraw>, choice: JitterChoice, digit: u8, corner: Corner|
        draws_admissible(draws, before.width, before.height, magnitude) && digit <= 9 && after
            == #[trigger] evasion_result(before, draws, choice, digit, corner)
}

/// Whatever is drawn, the transform leaves each side of the grid within one
/// pixel of what it was, and a grid that was not empty is not empty
/// afterwards.
pub proof fn lemma_evasion_size(
    before: GridView,
    magnitude: u8,
    draws: Seq<NoiseDraw>,
    choice: JitterChoice,
    digit: u8,
    corner: Corner,
)
    requires
        before.wf(),
        draws_admissible(draws, before.width, before.height, magnitude),
    ensures
        before.width - 1 <= evasion_result(before, draws, choice, digit, corner).width <= before.width + 1,
        before.height - 1 <= evasion_result(before, draws, choice, digit, corner).height
            <= before.height + 1,
        before.width >= 1 ==> evasion_result(before, draws, choice, digit, corner).width >= 1,
        before.height >= 1 ==> evasion_result(before, draws, choice, digit, corner).height >= 1,
{
    lemma_noise_changes_bounded(before, draws, magnitude);
    lemma_jitter_within_one(noise_result(before, draws), choice);
}

/// Runs the three steps in their order on a grid: noise at the given
/// magnitude, jitter, and the watermark, each with draws from `rng`.
pub fn evade(grid: &mut PixelGrid, magnitude: u8, rng: &mut StdRng)
    requires
        old(grid).wf(),
    ensures
        final(grid).wf(),
        is_evasion_of(old(grid)@, magnitude, final(grid)@),
        old(grid)@.width - 1 <= final(grid)@.width <= old(grid)@.width + 1,
        old(grid)@.height - 1 <= final(grid)@.height <= old(grid)@.height + 1,
        old(grid)@.width >= 1 ==> final(grid)@.width >= 1,
        old(grid)@.height >= 1 ==> final(grid)@.height >= 1,
{
    proof {
        grid.lemma_wf();
    }
    inject_noise(grid, magnitude, rng);
    let ghost draws: Seq<NoiseDraw> = choose|draws: Seq<NoiseDraw>|
        draws_admissible(draws, old(grid)@.width, old(grid)@.height, magnitude) && grid@
            == #[trigger] noise_result(old(grid)@, draws);
    let choice = draw_jitter(rng);
    apply_jitter(grid, choice);
    let digit = draw_watermark_digit(rng);
    let corner = draw_corner(rng);
    composite_watermark(grid, digit, corner);
    proof {
        assert(grid@ == evasion_result(old(grid)@, draws, choice, digit, corner));
        lemma_evasion_size(old(grid)@, magnitude, draws, choice, digit, corner);
    }
}

} // verus!
