//! The error taxonomy of the transcoder.
//!
//! Every failure is terminal for its call and is reported as a value
//! carrying a human-readable message of the form `"<prefix>: <cause>"`,
//! where the prefix names the phase that failed. Decode failures and the
//! three encode paths each have a prefix of their own; the JPEG path and
//! the unknown-format fallback path use the same encoder, so keeping them
//! apart here is a presentation distinction only.

use vstd::prelude::*;

verus! {

/// The phase in which a transcode call failed.
#[derive(Clone, Copy, Debug, PartialEq, Eq, Structural)]
pub enum Phase {
    /// The input bytes could not be decoded as any supported image.
    Load,
    /// Encoding to JPEG, selected by `"jpeg"` or `"jpg"`, failed.
    JpegEncode,
    /// Encoding to PNG, selected by `"png"`, failed.
    PngEncode,
    /// Encoding to JPEG on the unknown-format fallback path failed.
    FallbackEncode,
}

/// A terminal failure of one transcode call: the phase that failed and the
/// underlying codec's diagnostic text.
#[derive(Debug)]
pub struct CompressError {
    pub phase: Phase,
    pub cause: String,
}

/// The message prefix that names a phase.
pub open spec fn spec_prefix(phase: Phase) -> Seq<char> {
    match phase {
        Phase::Load => "Failed to load image: "@,
        Phase::JpegEncode => "JPEG compression failed: "@,
        Phase::PngEncode => "PNG compression failed: "@,
        Phase::FallbackEncode => "Compression failed: "@,
    }
}

/// The full message of an error: the phase's prefix followed by the
/// underlying cause.
pub open spec fn spec_message(phase: Phase, cause: Seq<char>) -> Seq<char> {
    spec_prefix(phase) + cause
}

impl CompressError {
    /// The human-readable message, `"<prefix>: <cause>"`.
    pub fn message(&self) -> (r: String)
        ensures
            r@ == spec_message(self.phase, self.cause@),
    {
        let prefix: &str = match self.phase {
            Phase::Load => "Failed to load image: ",
            Phase::JpegEncode => "JPEG compression failed: ",
            Phase::PngEncode => "PNG compression failed: ",
            Phase::FallbackEncode => "Compression failed: ",
        };
        prefix.to_owned().concat(self.cause.as_str())
    }
}

/// Every message carries its phase's prefix at its start, whatever the
/// cause text is.
pub proof fn lemma_message_extends_prefix(phase: Phase, cause: Seq<char>)
    ensures
        spec_message(phase, cause).len() >= spec_prefix(phase).len(),
        spec_message(phase, cause).subrange(0, spec_prefix(phase).len() as int)
            == spec_prefix(phase),
{
    assert(spec_message(phase, cause).subrange(0, spec_prefix(phase).len() as int)
        =~= spec_prefix(phase));
}

/// The message of a decode failure begins with `"Failed to load image"`,
/// whatever diagnostic the underlying parser produced.
pub proof fn lemma_load_message_prefix(cause: Seq<char>)
    ensures
        spec_message(Phase::Load, cause).len() >= "Failed to load image"@.len(),
        spec_message(Phase::Load, cause).subrange(0, "Failed to load image"@.len() as int)
            == "Failed to load image"@,
{
    reveal_strlit("Failed to load image: ");
    reveal_strlit("Failed to load image");
    assert(spec_message(Phase::Load, cause).subrange(0, "Failed to load image"@.len() as int)
        =~= "Failed to load image"@);
}

} // verus!
