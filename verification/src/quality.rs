//! Output quality derived from image size.

use vstd::prelude::*;

verus! {

/// Images with more pixels than this are large.
pub const LARGE_IMAGE_PIXELS: u64 = 4_000_000;

/// Images with fewer pixels than this are small.
pub const SMALL_IMAGE_PIXELS: u64 = 500_000;

/// Quality points taken from a large image.
pub const LARGE_IMAGE_QUALITY_DELTA: u8 = 10;

/// Quality points given to a small image.
pub const SMALL_IMAGE_QUALITY_DELTA: u8 = 5;

/// The quality advised for a `width` x `height` image and a baseline:
/// ten points less above 4 megapixels (not below 0), five points more below
/// 0.5 megapixels (not above 100), the baseline otherwise; the result is then
/// clamped to 1..=100.
pub open spec fn advised_quality(width: nat, height: nat, base: nat) -> nat {
    let pixels = width * height;
    let adjusted: nat = if pixels > 4_000_000 {
        if base >= 10 {
            (base - 10) as nat
        } else {
            0
        }
    } else if pixels < 500_000 {
        if base + 5 <= 100 {
            base + 5
        } else {
            100
        }
    } else {
        base
    };
    if adjusted < 1 {
        1
    } else if adjusted > 100 {
        100
    } else {
        adjusted
    }
}

/// Whatever the size and the baseline, the advised quality lies between 1
/// and 100. It is the baseline itself for a baseline in that range and an
/// image of half a megapixel to four megapixels.
pub proof fn lemma_advised_quality_range(width: nat, height: nat, base: nat)
    ensures
        1 <= advised_quality(width, height, base) <= 100,
        500_000 <= width * height <= 4_000_000 && 1 <= base <= 100 ==> advised_quality(width, height, base)
            == base,
{
}

/// Picks the encoder quality for an image of the given size.
pub fn calculate_optimal_quality(width: u32, height: u32, base_quality: u8) -> (quality: u8)
    ensures
        quality == advised_quality(width as nat, height as nat, base_quality as nat),
        1 <= quality <= 100,
{
    assert(width * height <= u64::MAX) by (nonlinear_arith)
        requires
            width <= u32::MAX,
            height <= u32::MAX,
    ;
    let pixels: u64 = width as u64 * height as u64;
    let adjusted: u8 = if pixels > LARGE_IMAGE_PIXELS {
        base_quality.saturating_sub(LARGE_IMAGE_QUALITY_DELTA)
    } else if pixels < SMALL_IMAGE_PIXELS {
        let raised: u8 = base_quality.saturating_add(SMALL_IMAGE_QUALITY_DELTA);
        if raised > 100 {
            100
        } else {
            raised
        }
    } else {
        base_quality
    };
    if adjusted < 1 {
        1
    } else if adjusted > 100 {
        100
    } else {
        adjusted
    }
}

} // verus!
