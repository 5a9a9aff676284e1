//! Conversion of several buffers in one call.

use vstd::prelude::*;
use crate::format::OutputFormat;
use crate::pipeline::apply_anti_censorship_jpeg;
use crate::pipeline::convert_to_jpeg;
use crate::pipeline::is_conversion;
use crate::pipeline::is_evasion_output;
use crate::pipeline::Encoded;

verus! {

/// Converts each buffer to JPEG. The results come in the order of the
/// buffers: one failure does not touch the other results.
pub fn batch_convert_to_jpeg(buffers: Vec<Vec<u8>>, quality: u8) -> (results: Vec<Encoded>)
    ensures
        results@.len() == buffers@.len(),
        forall|i: int|
            0 <= i < buffers@.len() ==> is_conversion(
                buffers@[i]@,
                false,
                OutputFormat::Jpeg,
                quality,
                #[trigger] results@[i],
            ),
{
    let mut results: Vec<Encoded> = Vec::new();
    let mut i: usize = 0;
    while i < buffers.len()
        invariant
            i <= buffers@.len(),
            results@.len() == i,
            forall|k: int|
                0 <= k < i ==> is_conversion(
                    buffers@[k]@,
                    false,
                    OutputFormat::Jpeg,
                    quality,
                    #[trigger] results@[k],
                ),
        decreases buffers@.len() - i,
    {
        let out = convert_to_jpeg(buffers[i].as_slice(), quality);
        results.push(out);
        i += 1;
    }
    results
}

/// Runs the evasion transform on each buffer, one after the other. The
/// buffer at index `i` gets the seed `seed + i`, wrapping round. The results
/// come in the order of the buffers.
pub fn batch_apply_anti_censorship_jpeg(
    buffers: Vec<Vec<u8>>,
    noise_permille: u32,
    seed: u64,
) -> (results: Vec<Encoded>)
    ensures
        results@.len() == buffers@.len(),
        forall|i: int|
            0 <= i < buffers@.len() ==> is_evasion_output(
                buffers@[i]@,
                noise_permille,
                #[trigger] results@[i],
            ),
{
    let mut results: Vec<Encoded> = Vec::new();
    let mut i: usize = 0;
    while i < buffers.len()
        invariant
            i <= buffers@.len(),
            results@.len() == i,
            forall|k: int|
                0 <= k < i ==> is_evasion_output(
                    buffers@[k]@,
                    noise_permille,
                    #[trigger] results@[k],
                ),
        decreases buffers@.len() - i,
    {
        let out = apply_anti_censorship_jpeg(
            buffers[i].as_slice(),
            noise_permille,
            seed.wrapping_add(i as u64),
        );
        results.push(out);
        i += 1;
    }
    results
}

} // verus!
