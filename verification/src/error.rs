//! Failures of the pipeline.

use vstd::prelude::*;
use vstd::string::StringExecFns;
use crate::format::OutputFormat;

verus! {

/// What went wrong.
#[derive(Clone, Copy, Debug, PartialEq, Eq, Structural)]
pub enum ErrorKind {
    /// The input bytes are malformed or of an unsupported format.
    Decode,
    /// The output container could not be built.
    Encode,
    /// The requested target format is not one that the pipeline writes.
    UnsupportedFormat,
}

/// A failure: its kind and the message for the caller.
#[derive(Clone, Debug, PartialEq, Eq)]
pub struct PipelineError {
    pub kind: ErrorKind,
    pub message: String,
}

/// How the message of an encoding failure starts.
pub open spec fn encode_prefix(format: OutputFormat) -> Seq<char> {
    match format {
        OutputFormat::Jpeg => "Failed to encode JPEG: "@,
        OutputFormat::Png => "Failed to encode PNG: "@,
        OutputFormat::WebP => "Failed to encode WebP: "@,
    }
}

/// How the message of a decoding failure starts.
pub open spec fn decode_prefix(as_webp: bool) -> Seq<char> {
    if as_webp {
        "Failed to decode WebP: "@
    } else {
        "Failed to decode image: "@
    }
}

impl PipelineError {
    /// Whether this is a failure of `kind` whose message is `message`.
    pub open spec fn is_failure(self, kind: ErrorKind, message: Seq<char>) -> bool {
        self.kind == kind && self.message@ == message
    }

    /// Whether this is a decoding failure whose message starts as the
    /// messages of that way of decoding do.
    pub open spec fn is_decode_failure(self, as_webp: bool) -> bool {
        self.kind == ErrorKind::Decode && decode_prefix(as_webp).is_prefix_of(self.message@)
    }

    /// A decoding failure with the codec's message. `as_webp` tells whether
    /// the buffer was decoded as WebP or with a guessed format.
    pub fn decode(as_webp: bool, detail: &str) -> (error: PipelineError)
        ensures
            error.is_failure(ErrorKind::Decode, decode_prefix(as_webp) + detail@),
            error.is_decode_failure(as_webp),
    {
        let prefix = if as_webp {
            "Failed to decode WebP: "
        } else {
            "Failed to decode image: "
        };
        PipelineError { kind: ErrorKind::Decode, message: String::from_str(prefix).concat(detail) }
    }

    /// An encoding failure with the codec's message.
    pub fn encode(format: OutputFormat, detail: &str) -> (error: PipelineError)
        ensures
            error.is_failure(ErrorKind::Encode, encode_prefix(format) + detail@),
    {
        let prefix = match format {
            OutputFormat::Jpeg => "Failed to encode JPEG: ",
            OutputFormat::Png => "Failed to encode PNG: ",
            OutputFormat::WebP => "Failed to encode WebP: ",
        };
        PipelineError { kind: ErrorKind::Encode, message: String::from_str(prefix).concat(detail) }
    }

    /// The failure for a target format that the pipeline does not write.
    pub fn unsupported_format(name: &str) -> (error: PipelineError)
        ensures
            error.is_failure(ErrorKind::UnsupportedFormat, "Unsupported target format: "@ + name@),
    {
        PipelineError {
            kind: ErrorKind::UnsupportedFormat,
            message: String::from_str("Unsupported target format: ").concat(name),
        }
    }

    /// The message for the caller.
    pub fn to_message(&self) -> (message: String)
        ensures
            message@ == self.message@,
    {
        self.message.clone()
    }
}

} // verus!
