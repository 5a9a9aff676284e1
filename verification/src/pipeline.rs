//! The operations on encoded buffers: decode, convert, evade, encode.

use vstd::prelude::*;
use vstd::slice::slice_to_vec;
use crate::codec::decode_rgba;
use crate::codec::decode_webp_rgba;
use crate::codec::decoded_view;
use crate::codec::encode_jpeg;
use crate::codec::encode_png_rgb;
use crate::codec::encode_png_rgba;
use crate::codec::encode_webp;
use crate::codec::jpeg_encoding;
use crate::codec::jpeg_holds;
use crate::codec::png_encoding;
use crate::codec::png_holds;
use crate::codec::webp_decoding;
use crate::codec::webp_encoding;
use crate::codec::webp_holds;
use crate::error::decode_prefix;
use crate::error::encode_prefix;
use crate::error::ErrorKind;
use crate::error::PipelineError;
use crate::evasion::evade;
use crate::evasion::is_evasion_of;
use crate::format::detect_format;
use crate::format::parse_target_format;
use crate::format::sniff;
use crate::format::target_format_of;
use crate::format::FormatTag;
use crate::format::OutputFormat;
use crate::grid::deinterleave;
use crate::grid::grid_fits;
use crate::grid::ChannelLayout;
use crate::grid::GridView;
use crate::grid::PixelGrid;
use crate::noise::noise_magnitude;
use crate::noise::noise_magnitude_of;
use crate::quality::advised_quality;
use crate::quality::calculate_optimal_quality;
use crate::random::seeded_rng;

verus! {

/// What the codec returns for a decoded buffer: width, height, whether
/// the image has an alpha channel, and interleaved RGBA samples; or its
/// message.
pub type Decoded = Result<(u32, u32, bool, Vec<u8>), String>;

/// What decoding returns: a grid, or a failure.
pub type Decoding = Result<PixelGrid, PipelineError>;

/// What an operation on a buffer returns: bytes, or a failure.
pub type Encoded = Result<Vec<u8>, PipelineError>;

/// The grid that decoded samples stand for. An image without an alpha
/// channel keeps that layout.
pub open spec fn raster(width: u32, height: u32, alpha: bool, samples: Seq<u8>) -> GridView {
    GridView {
        width: width as nat,
        height: height as nat,
        layout: if alpha {
            ChannelLayout::Rgba
        } else {
            ChannelLayout::Rgb
        },
        pixels: deinterleave(samples),
    }
}

/// What the library makes of what the codec returned for a buffer of
/// `source_len` bytes: the grid, or the message of the decoding failure. A
/// codec message is handed on behind the prefix of the way of decoding. A
/// raster is accepted when the buffer was not empty, the raster holds four
/// samples for each pixel and its size is one that can be held, and refused
/// otherwise.
pub open spec fn grid_of(
    source_len: nat,
    as_webp: bool,
    decoded: Result<(u32, u32, bool, Seq<u8>), Seq<char>>,
) -> Result<GridView, Seq<char>> {
    match decoded {
        Err(detail) => Err(decode_prefix(as_webp) + detail),
        Ok((width, height, alpha, samples)) => if source_len == 0 {
            Err(decode_prefix(as_webp) + "the buffer is empty"@)
        } else if samples.len() != width * height * 4 || !grid_fits(width as nat, height as nat) {
            Err(decode_prefix(as_webp) + "the decoded raster is malformed"@)
        } else {
            Ok(raster(width, height, alpha, samples))
        },
    }
}

/// Whether `grid` is the given outcome of decoding: a well-formed grid
/// with that model, or a decoding failure with that message.
pub open spec fn is_grid(expected: Result<GridView, Seq<char>>, grid: Decoding) -> bool {
    match expected {
        Ok(view) => grid matches Ok(g) && g.wf() && g@ == view,
        Err(message) => grid matches Err(e) && e.is_failure(ErrorKind::Decode, message),
    }
}

/// Turns what the codec returned into a grid or a decoding failure.
pub fn grid_from_decoded(source_len: usize, as_webp: bool, decoded: Decoded) -> (grid: Decoding)
    ensures
        is_grid(grid_of(source_len as nat, as_webp, decoded_view(decoded)), grid),
        grid matches Err(e) ==> e.is_decode_failure(as_webp),
{
    match decoded {
        Err(detail) => Err(PipelineError::decode(as_webp, detail.as_str())),
        Ok((width, height, alpha, samples)) => {
            if source_len == 0 {
                return Err(PipelineError::decode(as_webp, "the buffer is empty"));
            }
            let layout = if alpha {
                ChannelLayout::Rgba
            } else {
                ChannelLayout::Rgb
            };
            match PixelGrid::from_raw(width, height, samples) {
                Some(grid) => Ok(grid.with_layout(layout)),
                None => Err(PipelineError::decode(as_webp, "the decoded raster is malformed")),
            }
        },
    }
}

/// Whether `grid` can be what decoding a buffer gives: a well-formed grid
/// from a buffer that is not empty, or a decoding failure whose message
/// starts as the messages of that way of decoding do.
pub open spec fn is_decoding(source: Seq<u8>, as_webp: bool, grid: Decoding) -> bool {
    match grid {
        Ok(g) => source.len() > 0 && g.wf(),
        Err(e) => e.is_decode_failure(as_webp),
    }
}

/// Decodes a buffer of any format that the codec recognises.
pub fn decode(buffer: &[u8]) -> (grid: Decoding)
    ensures
        is_decoding(buffer@, false, grid),
{
    grid_from_decoded(buffer.len(), false, decode_rgba(buffer))
}

/// Decodes a buffer as WebP: the grid, or the failure, that the library
/// makes of what the WebP decoder gives for these bytes.
pub fn decode_webp(buffer: &[u8]) -> (grid: Decoding)
    ensures
        is_grid(grid_of(buffer@.len(), true, webp_decoding(buffer@)), grid),
        is_decoding(buffer@, true, grid),
{
    grid_from_decoded(buffer.len(), true, decode_webp_rgba(buffer))
}

/// Whether a container holds an image of a size: JPEG each side from 1 to
/// 65 535, PNG each side from 1, lossless WebP each side from 1 to 16 384.
pub open spec fn container_holds(format: OutputFormat, width: nat, height: nat) -> bool {
    match format {
        OutputFormat::Jpeg => jpeg_holds(width, height),
        OutputFormat::Png => png_holds(width, height),
        OutputFormat::WebP => webp_holds(width, height),
    }
}

/// What the codec makes of a grid in a container. The quality matters for
/// JPEG alone. PNG is written with the grid's own channel layout; JPEG has
/// no alpha channel and lossless WebP is always written with one.
pub open spec fn encoding_of(grid: GridView, format: OutputFormat, quality: u8) -> Result<
    Seq<u8>,
    Seq<char>,
> {
    match format {
        OutputFormat::Jpeg => jpeg_encoding(
            grid.width as u32,
            grid.height as u32,
            grid.samples(),
            quality,
        ),
        OutputFormat::Png => match grid.layout {
            ChannelLayout::Rgb => png_encoding(
                grid.width as u32,
                grid.height as u32,
                false,
                grid.rgb_samples(),
            ),
            ChannelLayout::Rgba => png_encoding(
                grid.width as u32,
                grid.height as u32,
                true,
                grid.samples(),
            ),
        },
        OutputFormat::WebP => webp_encoding(grid.width as u32, grid.height as u32, grid.samples()),
    }
}

/// Whether `out` is the outcome of encoding a grid: the codec's bytes, or
/// an encoding failure with the codec's message. Encoding succeeds on the
/// sizes that the container holds and on no other.
pub open spec fn is_encoding(grid: GridView, format: OutputFormat, quality: u8, out: Encoded) -> bool {
    &&& match encoding_of(grid, format, quality) {
        Ok(bytes) => out matches Ok(b) && b@ == bytes,
        Err(detail) => out matches Err(e) && e.is_failure(
            ErrorKind::Encode,
            encode_prefix(format) + detail,
        ),
    }
    &&& out is Ok <==> container_holds(format, grid.width, grid.height)
}

/// Turns what an encoder returned into bytes or an encoding failure.
fn encoded_from(format: OutputFormat, outcome: Result<Vec<u8>, String>) -> (out: Encoded)
    ensures
        match outcome {
            Ok(bytes) => out matches Ok(b) && b@ == bytes@,
            Err(detail) => out matches Err(e) && e.is_failure(
                ErrorKind::Encode,
                encode_prefix(format) + detail@,
            ),
        },
{
    match outcome {
        Ok(bytes) => Ok(bytes),
        Err(detail) => Err(PipelineError::encode(format, detail.as_str())),
    }
}

/// Encodes a grid in a container. Bytes that come out are sniffed as that
/// container.
pub fn encode(grid: &PixelGrid, format: OutputFormat, quality: u8) -> (out: Encoded)
    requires
        grid.wf(),
    ensures
        is_encoding(grid@, format, quality, out),
        out matches Ok(bytes) ==> sniff(bytes@) == Some(format.tag()),
{
    let width = grid.width();
    let height = grid.height();
    let samples = grid.as_samples();
    proof {
        grid.lemma_wf();
    }
    match format {
        OutputFormat::Jpeg => encoded_from(format, encode_jpeg(width, height, samples, quality)),
        OutputFormat::Png => match grid.layout() {
            ChannelLayout::Rgb => {
                let rgb = grid.rgb_samples();
                encoded_from(format, encode_png_rgb(width, height, &rgb))
            },
            ChannelLayout::Rgba => encoded_from(format, encode_png_rgba(width, height, samples)),
        },
        OutputFormat::WebP => encoded_from(format, encode_webp(width, height, samples)),
    }
}

/// Whether `out` is the outcome of converting a grid: of encoding it at the
/// quality advised for its size and the baseline.
pub open spec fn is_conversion_of(
    grid: GridView,
    format: OutputFormat,
    base_quality: u8,
    out: Encoded,
) -> bool {
    is_encoding(
        grid,
        format,
        advised_quality(grid.width, grid.height, base_quality as nat) as u8,
        out,
    )
}

/// Converts a grid: picks the quality for its size and encodes it.
pub fn convert_grid(grid: &PixelGrid, format: OutputFormat, base_quality: u8) -> (out: Encoded)
    requires
        grid.wf(),
    ensures
        is_conversion_of(grid@, format, base_quality, out),
        out matches Ok(bytes) ==> sniff(bytes@) == Some(format.tag()),
{
    let quality = calculate_optimal_quality(grid.width(), grid.height(), base_quality);
    encode(grid, format, quality)
}

/// Whether `out` can come out of converting a buffer that is decoded as
/// WebP or with a guessed format: a decoding failure of that way of
/// decoding, or the conversion of some well-formed grid, decoded from a
/// buffer that is not empty. Bytes that come out are sniffed as the
/// container.
pub open spec fn is_conversion(
    source: Seq<u8>,
    as_webp: bool,
    format: OutputFormat,
    base_quality: u8,
    out: Encoded,
) -> bool {
    &&& out matches Ok(bytes) ==> sniff(bytes@) == Some(format.tag())
    &&& {
        ||| out matches Err(e) && e.is_decode_failure(as_webp)
        ||| source.len() > 0 && exists|grid: GridView|
            grid.wf() && #[trigger] is_conversion_of(grid, format, base_quality, out)
    }
}

/// Whether `out` is the outcome of converting what decoding gave: the
/// conversion of the grid, or the decoding failure with its message.
pub open spec fn is_conversion_through(
    decoded: Result<GridView, Seq<char>>,
    format: OutputFormat,
    base_quality: u8,
    out: Encoded,
) -> bool {
    match decoded {
        Ok(view) => is_conversion_of(view, format, base_quality, out),
        Err(message) => out matches Err(e) && e.is_failure(ErrorKind::Decode, message),
    }
}

/// The bytes that converting what decoding gave ends in, where it ends in
/// bytes.
pub open spec fn conversion_bytes(
    decoded: Result<GridView, Seq<char>>,
    format: OutputFormat,
    base_quality: u8,
) -> Option<Seq<u8>> {
    match decoded {
        Ok(view) => match encoding_of(
            view,
            format,
            advised_quality(view.width, view.height, base_quality as nat) as u8,
        ) {
            Ok(bytes) => Some(bytes),
            Err(_) => None,
        },
        Err(_) => None,
    }
}

/// Converts what decoding gave, or hands the decoding failure on.
pub fn convert_decoded(grid: Decoding, format: OutputFormat, base_quality: u8) -> (out: Encoded)
    requires
        grid matches Ok(g) ==> g.wf(),
    ensures
        match grid {
            Ok(g) => is_conversion_of(g@, format, base_quality, out),
            Err(e) => out == Err::<Vec<u8>, PipelineError>(e),
        },
        out matches Ok(bytes) ==> sniff(bytes@) == Some(format.tag()),
{
    match grid {
        Ok(g) => {
            proof {
                g.lemma_wf();
            }
            convert_grid(&g, format, base_quality)
        },
        Err(e) => Err(e),
    }
}

/// Decoding and then converting is a conversion of the buffer.
proof fn lemma_conversion(
    source: Seq<u8>,
    as_webp: bool,
    grid: Decoding,
    format: OutputFormat,
    base_quality: u8,
    out: Encoded,
)
    requires
        is_decoding(source, as_webp, grid),
        match grid {
            Ok(g) => is_conversion_of(g@, format, base_quality, out),
            Err(e) => out == Err::<Vec<u8>, PipelineError>(e),
        },
        out matches Ok(bytes) ==> sniff(bytes@) == Some(format.tag()),
    ensures
        is_conversion(source, as_webp, format, base_quality, out),
{
    if let Ok(g) = grid {
        g.lemma_wf();
        assert(g@.wf() && is_conversion_of(g@, format, base_quality, out));
    }
}

/// Converts a buffer of any recognised format to JPEG.
pub fn convert_to_jpeg(buffer: &[u8], quality: u8) -> (out: Encoded)
    ensures
        is_conversion(buffer@, false, OutputFormat::Jpeg, quality, out),
{
    let grid = decode(buffer);
    let ghost decoded = grid;
    let out = convert_decoded(grid, OutputFormat::Jpeg, quality);
    proof {
        lemma_conversion(buffer@, false, decoded, OutputFormat::Jpeg, quality, out);
    }
    out
}

/// What the WebP decoder and the library make of a buffer: the grid, or
/// the message of the decoding failure.
pub open spec fn webp_grid_of(source: Seq<u8>) -> Result<GridView, Seq<char>> {
    grid_of(source.len(), true, webp_decoding(source))
}

/// Converts a buffer to JPEG. A buffer that is sniffed as WebP is decoded
/// as WebP, and the outcome is the conversion of what the WebP decoder
/// gives for its bytes. Any other buffer is decoded with a guessed format.
pub fn webp_to_jpeg(buffer: &[u8], quality: u8) -> (out: Encoded)
    ensures
        is_conversion(
            buffer@,
            sniff(buffer@) == Some(FormatTag::WebP),
            OutputFormat::Jpeg,
            quality,
            out,
        ),
        sniff(buffer@) == Some(FormatTag::WebP) ==> is_conversion_through(
            webp_grid_of(buffer@),
            OutputFormat::Jpeg,
            quality,
            out,
        ),
{
    let as_webp = match detect_format(buffer) {
        Some(FormatTag::WebP) => true,
        _ => false,
    };
    let grid = if as_webp {
        decode_webp(buffer)
    } else {
        decode(buffer)
    };
    let ghost decoded = grid;
    let out = convert_decoded(grid, OutputFormat::Jpeg, quality);
    proof {
        lemma_conversion(buffer@, as_webp, decoded, OutputFormat::Jpeg, quality, out);
    }
    out
}

/// Whether a buffer is handed back as it is: a threshold is set and the
/// buffer is shorter.
pub open spec fn skips_compression(len: nat, skip_threshold: nat) -> bool {
    skip_threshold > 0 && len < skip_threshold
}

/// Converts a buffer to JPEG, unless a threshold is set and the buffer is
/// shorter: then the buffer is returned as it is.
pub fn compress_jpeg(buffer: &[u8], quality: u8, skip_threshold: usize) -> (out: Encoded)
    ensures
        if skips_compression(buffer@.len(), skip_threshold as nat) {
            out matches Ok(bytes) && bytes@ == buffer@
        } else {
            is_conversion(buffer@, false, OutputFormat::Jpeg, quality, out)
        },
{
    if skip_threshold > 0 && buffer.len() < skip_threshold {
        return Ok(slice_to_vec(buffer));
    }
    convert_to_jpeg(buffer, quality)
}

/// Whether `out` can come out of converting a buffer to a named target: an
/// unsupported-format failure that names the target where the name selects
/// no format, whatever the buffer holds, and a conversion to the selected
/// format otherwise.
pub open spec fn is_format_conversion(
    source: Seq<u8>,
    target: Seq<char>,
    base_quality: u8,
    out: Encoded,
) -> bool {
    match target_format_of(target) {
        Some(format) => is_conversion(source, false, format, base_quality, out),
        None => out matches Err(e) && e.is_failure(
            ErrorKind::UnsupportedFormat,
            "Unsupported target format: "@ + target,
        ),
    }
}

/// Converts a buffer to the target format named `jpeg`, `jpg` or `png`.
pub fn convert_to_format(buffer: &[u8], target_format: &str, quality: u8) -> (out: Encoded)
    ensures
        is_format_conversion(buffer@, target_format@, quality, out),
{
    match parse_target_format(target_format) {
        Some(format) => {
            let grid = decode(buffer);
            let ghost decoded = grid;
            let out = convert_decoded(grid, format, quality);
            proof {
                lemma_conversion(buffer@, false, decoded, format, quality, out);
            }
            out
        },
        None => Err(PipelineError::unsupported_format(target_format)),
    }
}

/// Whether `out` can come out of the evasion transform on a buffer: a
/// decoding failure, or the lossless WebP encoding of a grid that the
/// transform can make of some well-formed grid, decoded from a buffer that
/// is not empty. Bytes that come out are sniffed as WebP.
pub open spec fn is_evasion_output(source: Seq<u8>, noise_permille: u32, out: Encoded) -> bool {
    &&& out matches Ok(bytes) ==> sniff(bytes@) == Some(FormatTag::WebP)
    &&& {
        ||| out matches Err(e) && e.is_decode_failure(false)
        ||| source.len() > 0 && exists|before: GridView|
            before.wf() && #[trigger] is_evasion_output_of(before, noise_permille, out)
    }
}

/// Whether `out` can come out of the evasion transform on a grid: the
/// lossless WebP encoding of a grid that the transform can make of it.
pub open spec fn is_evasion_output_of(before: GridView, noise_permille: u32, out: Encoded) -> bool {
    exists|after: GridView|
        #[trigger] is_evasion_of(before, noise_magnitude_of(noise_permille as nat) as u8, after)
            && is_encoding(after, OutputFormat::WebP, 0, out)
}

/// Runs the evasion transform on what decoding gave and encodes the grid as
/// lossless WebP, or hands the decoding failure on.
pub fn evade_decoded(grid: Decoding, noise_permille: u32, seed: u64) -> (out: Encoded)
    requires
        grid matches Ok(g) ==> g.wf(),
    ensures
        match grid {
            Ok(g) => is_evasion_output_of(g@, noise_permille, out),
            Err(e) => out == Err::<Vec<u8>, PipelineError>(e),
        },
        out matches Ok(bytes) ==> sniff(bytes@) == Some(FormatTag::WebP),
{
    match grid {
        Ok(mut g) => {
            let ghost before = g@;
            proof {
                g.lemma_wf();
            }
            let mut rng = seeded_rng(seed);
            evade(&mut g, noise_magnitude(noise_permille), &mut rng);
            let out = encode(&g, OutputFormat::WebP, 0);
            proof {
                assert(is_evasion_of(before, noise_magnitude_of(noise_permille as nat) as u8, g@));
            }
            out
        },
        Err(e) => Err(e),
    }
}

/// Decodes a buffer, runs the evasion transform on it and encodes the
/// result as lossless WebP. The noise intensity is given in thousandths and
/// held to at most 1000; the seed fixes every draw.
pub fn apply_anti_censorship_jpeg(buffer: &[u8], noise_permille: u32, seed: u64) -> (out: Encoded)
    ensures
        is_evasion_output(buffer@, noise_permille, out),
{
    let grid = decode(buffer);
    let ghost decoded = grid;
    let out = evade_decoded(grid, noise_permille, seed);
    proof {
        if let Ok(g) = decoded {
            g.lemma_wf();
            assert(g@.wf() && is_evasion_output_of(g@, noise_permille, out));
        }
    }
    out
}

/// The path that one call takes.
#[derive(Clone, Copy, Debug, PartialEq, Eq, Structural)]
pub enum Route {
    /// A WebP source is converted to JPEG, and the JPEG goes through the
    /// evasion transform.
    NormalizeThenEvade,
    /// A WebP source is converted to JPEG.
    Normalize,
    /// The source goes through the evasion transform.
    Evade,
    /// The source is converted to the target format.
    Convert,
}

/// The path for a sniffed format and the evasion flag.
pub open spec fn route_of(format: Option<FormatTag>, apply_evasion: bool) -> Route {
    if format == Some(FormatTag::WebP) {
        if apply_evasion {
            Route::NormalizeThenEvade
        } else {
            Route::Normalize
        }
    } else if apply_evasion {
        Route::Evade
    } else {
        Route::Convert
    }
}

/// Picks the path for a sniffed format and the evasion flag.
pub fn plan_route(format: Option<FormatTag>, apply_evasion: bool) -> (route: Route)
    ensures
        route == route_of(format, apply_evasion),
{
    match format {
        Some(FormatTag::WebP) => if apply_evasion {
            Route::NormalizeThenEvade
        } else {
            Route::Normalize
        },
        _ => if apply_evasion {
            Route::Evade
        } else {
            Route::Convert
        },
    }
}

/// Whether `out` can come out of processing a buffer, by the path that its
/// sniffed format and the evasion flag select. For a source that is sniffed
/// as WebP the conversion to JPEG is the one of what the WebP decoder gives
/// for its bytes: its bytes are the outcome or go through the evasion
/// transform, and its failure is the outcome.
pub open spec fn is_processing(
    source: Seq<u8>,
    target: Seq<char>,
    quality: u8,
    apply_evasion: bool,
    noise_permille: u32,
    out: Encoded,
) -> bool {
    match route_of(sniff(source), apply_evasion) {
        Route::Convert => is_format_conversion(source, target, quality, out),
        Route::Evade => is_evasion_output(source, noise_permille, out),
        Route::Normalize => {
            &&& is_conversion(source, true, OutputFormat::Jpeg, quality, out)
            &&& is_conversion_through(webp_grid_of(source), OutputFormat::Jpeg, quality, out)
        },
        Route::NormalizeThenEvade => match conversion_bytes(
            webp_grid_of(source),
            OutputFormat::Jpeg,
            quality,
        ) {
            Some(jpeg) => is_evasion_output(jpeg, noise_permille, out),
            None => is_conversion_through(webp_grid_of(source), OutputFormat::Jpeg, quality, out),
        },
    }
}

/// Processes one image. A source that is sniffed as WebP is converted to
/// JPEG first, whatever the target, and goes through the evasion transform
/// if that is asked for. Any other source goes through the evasion
/// transform if that is asked for, and is converted to the target format
/// otherwise.
pub fn process_image(
    buffer: &[u8],
    target_format: &str,
    quality: u8,
    apply_anti_censor: bool,
    noise_permille: u32,
    seed: u64,
) -> (out: Encoded)
    ensures
        is_processing(buffer@, target_format@, quality, apply_anti_censor, noise_permille, out),
{
    match plan_route(detect_format(buffer), apply_anti_censor) {
        Route::NormalizeThenEvade => {
            match webp_to_jpeg(buffer, quality) {
                Ok(jpeg) => apply_anti_censorship_jpeg(jpeg.as_slice(), noise_permille, seed),
                Err(e) => Err(e),
            }
        },
        Route::Normalize => webp_to_jpeg(buffer, quality),
        Route::Evade => apply_anti_censorship_jpeg(buffer, noise_permille, seed),
        Route::Convert => convert_to_format(buffer, target_format, quality),
    }
}

/// Converting what a conversion gave, to the same format, gives bytes that
/// are sniffed as that format again: both outputs have the format of the
/// target.
pub proof fn lemma_conversion_keeps_format(
    source: Seq<u8>,
    format: OutputFormat,
    quality: u8,
    first: Vec<u8>,
    second: Vec<u8>,
)
    requires
        is_conversion(source, false, format, quality, Ok(first)),
        is_conversion(first@, false, format, quality, Ok(second)),
    ensures
        sniff(first@) == Some(format.tag()),
        sniff(second@) == sniff(first@),
{
}

/// Processing what processing gave, with the same target and without the
/// evasion transform, gives bytes of the target's format again: both
/// outputs are sniffed as the format that the target names. The first
/// source is one that is not sniffed as WebP, since such a source becomes
/// JPEG whatever the target.
pub proof fn lemma_processing_keeps_format(
    source: Seq<u8>,
    target: Seq<char>,
    quality: u8,
    noise_permille: u32,
    first: Vec<u8>,
    second: Vec<u8>,
)
    requires
        sniff(source) != Some(FormatTag::WebP),
        is_processing(source, target, quality, false, noise_permille, Ok(first)),
        is_processing(first@, target, quality, false, noise_permille, Ok(second)),
    ensures
        target_format_of(target) matches Some(format) && sniff(first@) == Some(format.tag())
            && sniff(second@) == Some(format.tag()),
{
}

/// An empty buffer gives a decoding failure from every operation that
/// decodes: none returns bytes or a size for it.
pub proof fn lemma_empty_buffer_fails(
    source: Seq<u8>,
    format: OutputFormat,
    quality: u8,
    noise_permille: u32,
    out: Encoded,
    size: Result<(u32, u32), PipelineError>,
    grid: Decoding,
)
    requires
        source.len() == 0,
    ensures
        is_decoding(source, false, grid) ==> (grid matches Err(e) && e.kind == ErrorKind::Decode),
        is_conversion(source, false, format, quality, out) ==> (out matches Err(e) && e.kind
            == ErrorKind::Decode),
        is_evasion_output(source, noise_permille, out) ==> (out matches Err(e) && e.kind
            == ErrorKind::Decode),
        is_dimensions(source, size) ==> (size matches Err(e) && e.kind == ErrorKind::Decode),
{
}

/// Whether `size` can come out of asking for the dimensions of a buffer: a
/// decoding failure, or the size of a grid whose samples fit in memory,
/// decoded from a buffer that is not empty.
pub open spec fn is_dimensions(source: Seq<u8>, size: Result<(u32, u32), PipelineError>) -> bool {
    match size {
        Ok((width, height)) => source.len() > 0 && width * height * 4 <= usize::MAX,
        Err(e) => e.is_decode_failure(false),
    }
}

/// The size of what decoding gave, or the decoding failure.
pub fn dimensions_of(grid: Decoding) -> (size: Result<(u32, u32), PipelineError>)
    requires
        grid matches Ok(g) ==> g.wf(),
    ensures
        match grid {
            Ok(g) => size == Ok::<(u32, u32), PipelineError>((g@.width as u32, g@.height as u32)),
            Err(e) => size == Err::<(u32, u32), PipelineError>(e),
        },
        size matches Ok((width, height)) ==> width * height * 4 <= usize::MAX,
{
    match grid {
        Ok(g) => {
            proof {
                g.lemma_wf();
            }
            Ok((g.width(), g.height()))
        },
        Err(e) => Err(e),
    }
}

/// Decodes a buffer and returns the width and the height of the image.
pub fn get_dimensions(buffer: &[u8]) -> (size: Result<(u32, u32), PipelineError>)
    ensures
        is_dimensions(buffer@, size),
{
    dimensions_of(decode(buffer))
}

} // verus!
