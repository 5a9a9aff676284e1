//! Container format detection from magic bytes.

use vstd::prelude::*;

verus! {

/// Container formats that the sniffer can recognise.
#[derive(Clone, Copy, Debug, PartialEq, Eq, Structural)]
pub enum FormatTag {
    WebP,
    Png,
    Jpeg,
    Gif,
    Bmp,
    Avif,
}

/// Container formats that the pipeline can write.
#[derive(Clone, Copy, Debug, PartialEq, Eq, Structural)]
pub enum OutputFormat {
    Jpeg,
    Png,
    WebP,
}

impl OutputFormat {
    /// The format that a buffer written in this container is sniffed as.
    pub open spec fn tag(self) -> FormatTag {
        match self {
            OutputFormat::Jpeg => FormatTag::Jpeg,
            OutputFormat::Png => FormatTag::Png,
            OutputFormat::WebP => FormatTag::WebP,
        }
    }
}

/// The output format that a target name selects: `jpeg` and `jpg` select
/// JPEG, `png` selects PNG, and no other name selects anything.
pub open spec fn target_format_of(name: Seq<char>) -> Option<OutputFormat> {
    if name == "jpeg"@ || name == "jpg"@ {
        Some(OutputFormat::Jpeg)
    } else if name == "png"@ {
        Some(OutputFormat::Png)
    } else {
        None
    }
}

/// Reads a target format name.
pub fn parse_target_format(name: &str) -> (format: Option<OutputFormat>)
    ensures
        format == target_format_of(name@),
{
    let given = name.to_owned();
    if given == "jpeg".to_owned() || given == "jpg".to_owned() {
        Some(OutputFormat::Jpeg)
    } else if given == "png".to_owned() {
        Some(OutputFormat::Png)
    } else {
        None
    }
}

/// Shortest buffer that is classified at all.
pub const MIN_BUFFER_LEN: usize = 12;

/// Shortest buffer that can be classified as AVIF.
pub const AVIF_MIN_LEN: usize = 16;

/// `RIFF` at offset 0 and `WEBP` at offset 8.
pub open spec fn is_webp(bytes: Seq<u8>) -> bool {
    &&& bytes.len() >= 12
    &&& bytes[0] == 0x52 && bytes[1] == 0x49 && bytes[2] == 0x46 && bytes[3] == 0x46
    &&& bytes[8] == 0x57 && bytes[9] == 0x45 && bytes[10] == 0x42 && bytes[11] == 0x50
}

/// The eight-byte PNG signature `89 50 4E 47 0D 0A 1A 0A` at offset 0.
pub open spec fn is_png(bytes: Seq<u8>) -> bool {
    &&& bytes.len() >= 8
    &&& bytes[0] == 0x89 && bytes[1] == 0x50 && bytes[2] == 0x4E && bytes[3] == 0x47
    &&& bytes[4] == 0x0D && bytes[5] == 0x0A && bytes[6] == 0x1A && bytes[7] == 0x0A
}

/// `FF D8 FF` at offset 0.
pub open spec fn is_jpeg(bytes: Seq<u8>) -> bool {
    bytes.len() >= 3 && bytes[0] == 0xFF && bytes[1] == 0xD8 && bytes[2] == 0xFF
}

/// `GIF` at offset 0.
pub open spec fn is_gif(bytes: Seq<u8>) -> bool {
    bytes.len() >= 3 && bytes[0] == 0x47 && bytes[1] == 0x49 && bytes[2] == 0x46
}

/// `BM` at offset 0.
pub open spec fn is_bmp(bytes: Seq<u8>) -> bool {
    bytes.len() >= 2 && bytes[0] == 0x42 && bytes[1] == 0x4D
}

/// `ftyp` at offset 4 followed by the brand `avif` or `avis`, in a buffer of
/// at least sixteen bytes.
pub open spec fn is_avif(bytes: Seq<u8>) -> bool {
    &&& bytes.len() >= 16
    &&& bytes[4] == 0x66 && bytes[5] == 0x74 && bytes[6] == 0x79 && bytes[7] == 0x70
    &&& bytes[8] == 0x61 && bytes[9] == 0x76 && bytes[10] == 0x69
    &&& (bytes[11] == 0x66 || bytes[11] == 0x73)
}

/// The format of a buffer: the first signature that matches, in the order
/// WebP, PNG, JPEG, GIF, BMP, AVIF. Buffers shorter than twelve bytes and
/// buffers that match no signature have no format.
pub open spec fn sniff(bytes: Seq<u8>) -> Option<FormatTag> {
    if bytes.len() < 12 {
        None
    } else if is_webp(bytes) {
        Some(FormatTag::WebP)
    } else if is_png(bytes) {
        Some(FormatTag::Png)
    } else if is_jpeg(bytes) {
        Some(FormatTag::Jpeg)
    } else if is_gif(bytes) {
        Some(FormatTag::Gif)
    } else if is_bmp(bytes) {
        Some(FormatTag::Bmp)
    } else if is_avif(bytes) {
        Some(FormatTag::Avif)
    } else {
        None
    }
}

/// Classifies a buffer by its magic bytes. Only the first sixteen bytes are
/// read, and each one only after the length has been checked.
pub fn detect_format(buffer: &[u8]) -> (tag: Option<FormatTag>)
    ensures
        tag == sniff(buffer@),
{
    let n = buffer.len();
    if n < MIN_BUFFER_LEN {
        return None;
    }
    if buffer[0] == 0x52 && buffer[1] == 0x49 && buffer[2] == 0x46 && buffer[3] == 0x46
        && buffer[8] == 0x57 && buffer[9] == 0x45 && buffer[10] == 0x42 && buffer[11] == 0x50 {
        return Some(FormatTag::WebP);
    }
    if buffer[0] == 0x89 && buffer[1] == 0x50 && buffer[2] == 0x4E && buffer[3] == 0x47
        && buffer[4] == 0x0D && buffer[5] == 0x0A && buffer[6] == 0x1A && buffer[7] == 0x0A {
        return Some(FormatTag::Png);
    }
    if buffer[0] == 0xFF && buffer[1] == 0xD8 && buffer[2] == 0xFF {
        return Some(FormatTag::Jpeg);
    }
    if buffer[0] == 0x47 && buffer[1] == 0x49 && buffer[2] == 0x46 {
        return Some(FormatTag::Gif);
    }
    if buffer[0] == 0x42 && buffer[1] == 0x4D {
        return Some(FormatTag::Bmp);
    }
    if n >= AVIF_MIN_LEN && buffer[4] == 0x66 && buffer[5] == 0x74 && buffer[6] == 0x79
        && buffer[7] == 0x70 && buffer[8] == 0x61 && buffer[9] == 0x76 && buffer[10] == 0x69
        && (buffer[11] == 0x66 || buffer[11] == 0x73) {
        return Some(FormatTag::Avif);
    }
    None
}

/// A buffer shorter than twelve bytes has no format.
pub proof fn lemma_short_buffer_unknown(bytes: Seq<u8>)
    requires
        bytes.len() < 12,
    ensures
        sniff(bytes) is None,
{
}

/// A buffer of twelve bytes or more that starts with `RIFF` and holds
/// `WEBP` at offset 8 is WebP.
pub proof fn lemma_riff_webp_is_webp(bytes: Seq<u8>)
    requires
        bytes.len() >= 12,
        bytes[0] == 0x52 && bytes[1] == 0x49 && bytes[2] == 0x46 && bytes[3] == 0x46,
        bytes[8] == 0x57 && bytes[9] == 0x45 && bytes[10] == 0x42 && bytes[11] == 0x50,
    ensures
        sniff(bytes) == Some(FormatTag::WebP),
{
}

/// A buffer whose bytes 8 to 11 are anything but `WEBP` is not WebP,
/// whatever its other bytes are.
pub proof fn lemma_other_brand_is_not_webp(bytes: Seq<u8>)
    requires
        bytes.len() < 12 || !(bytes[8] == 0x57 && bytes[9] == 0x45 && bytes[10] == 0x42 && bytes[11]
            == 0x50),
    ensures
        sniff(bytes) != Some(FormatTag::WebP),
{
}

/// The format of a buffer is the format of its first sixteen bytes.
pub proof fn lemma_sniff_reads_prefix(bytes: Seq<u8>)
    requires
        bytes.len() >= 16,
    ensures
        sniff(bytes) == sniff(bytes.subrange(0, 16)),
{
}

} // verus!
