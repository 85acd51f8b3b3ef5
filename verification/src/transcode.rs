//! The one operation of the transcoder: decode a byte buffer into an
//! in-memory image and re-encode it into the requested container.
//!
//! `transcode_spec` states the whole contract as a function of the input
//! bytes, the quality parameter and the format token alone: which phase
//! fails on which inputs, and which bytes come back on success. The
//! operation keeps no state between calls.

use vstd::prelude::*;

use crate::codec::image_repr;
use crate::codec::jpeg_encoding;
use crate::codec::load_result;
use crate::codec::png_encoding;
use crate::codec::encode_jpeg;
use crate::codec::encode_png;
use crate::codec::load_image;
use crate::error::CompressError;
use crate::error::Phase;
use crate::format::OutputFormat;
use crate::format::parse_format;
use crate::format::selector_of;

verus! {

/// What one transcode call produces, as a function of its arguments
/// alone: the encoded bytes on success, or the failing phase with the
/// underlying codec's diagnostic text.
pub open spec fn transcode_spec(data: Seq<u8>, quality: u8, format: Seq<char>) -> Result<
    Seq<u8>,
    (Phase, Seq<char>),
> {
    match load_result(data) {
        Result::Err(cause) => Result::Err((Phase::Load, cause)),
        Result::Ok(repr) => match selector_of(format) {
            OutputFormat::Jpeg => match jpeg_encoding(repr, quality) {
                Result::Ok(out) => Result::Ok(out),
                Result::Err(cause) => Result::Err((Phase::JpegEncode, cause)),
            },
            OutputFormat::Png => match png_encoding(repr) {
                Result::Ok(out) => Result::Ok(out),
                Result::Err(cause) => Result::Err((Phase::PngEncode, cause)),
            },
            OutputFormat::Fallback => match jpeg_encoding(repr, quality) {
                Result::Ok(out) => Result::Ok(out),
                Result::Err(cause) => Result::Err((Phase::FallbackEncode, cause)),
            },
        },
    }
}

/// Decode `data` into an in-memory image and re-encode it into the
/// container that `format` selects, using `quality` on the JPEG paths.
///
/// Exactly one of the encoded bytes or a structured error comes back,
/// and which one — with the exact bytes, phase and cause — is pinned by
/// `transcode_spec` as a function of the arguments alone.
pub fn compress_image(data: &[u8], quality: u8, format: &str) -> (r: Result<
    Vec<u8>,
    CompressError,
>)
    ensures
        (r is Ok) == (transcode_spec(data@, quality, format@) is Ok),
        r matches Ok(out) ==> out@ == transcode_spec(data@, quality, format@)->Ok_0,
        r matches Err(e) ==> {
            &&& e.phase == transcode_spec(data@, quality, format@)->Err_0.0
            &&& e.cause@ == transcode_spec(data@, quality, format@)->Err_0.1
        },
{
    let img = match load_image(data) {
        Ok(img) => img,
        Err(cause) => {
            return Err(CompressError { phase: Phase::Load, cause });
        },
    };
    match parse_format(format) {
        OutputFormat::Jpeg => match encode_jpeg(&img, quality) {
            Ok(out) => Ok(out),
            Err(cause) => Err(CompressError { phase: Phase::JpegEncode, cause }),
        },
        OutputFormat::Png => match encode_png(&img) {
            Ok(out) => Ok(out),
            Err(cause) => Err(CompressError { phase: Phase::PngEncode, cause }),
        },
        OutputFormat::Fallback => match encode_jpeg(&img, quality) {
            Ok(out) => Ok(out),
            Err(cause) => Err(CompressError { phase: Phase::FallbackEncode, cause }),
        },
    }
}

/// The dispatch policy on the tokens the interface names: `"jpeg"` and
/// `"jpg"` select the JPEG encoder, `"png"` selects the PNG encoder, and
/// the empty string and case variants such as `"PNG"` fall back to the
/// JPEG encoder.
pub proof fn lemma_dispatch_tokens()
    ensures
        selector_of("jpeg"@) == OutputFormat::Jpeg,
        selector_of("jpg"@) == OutputFormat::Jpeg,
        selector_of("png"@) == OutputFormat::Png,
        selector_of(""@) == OutputFormat::Fallback,
        selector_of("PNG"@) == OutputFormat::Fallback,
{
    reveal_strlit("jpeg");
    reveal_strlit("jpg");
    reveal_strlit("png");
    reveal_strlit("");
    reveal_strlit("PNG");
    assert(""@.len() == 0);
    assert("jpeg"@.len() == 4);
    assert("jpg"@.len() == 3);
    assert("png"@.len() == 3);
    assert("PNG"@.len() == 3);
    assert("PNG"@[0] == 'P');
    assert("png"@[0] == 'p');
    assert("jpg"@[0] == 'j');
}

/// With `format = "png"` the quality parameter is ignored: two calls on
/// the same input that differ only in quality produce the same result,
/// bytes and error alike.
pub proof fn lemma_png_ignores_quality(data: Seq<u8>, q1: u8, q2: u8)
    ensures
        transcode_spec(data, q1, "png"@) == transcode_spec(data, q2, "png"@),
{
    lemma_dispatch_tokens();
}

/// Every format token that does not select PNG — `"jpeg"` and `"jpg"`,
/// but also the empty string, case variants and typos — reaches the same
/// JPEG encoder: on the same input and quality, any two such tokens
/// succeed together and, on success, produce the same bytes.
pub proof fn lemma_non_png_tokens_agree(data: Seq<u8>, quality: u8, f1: Seq<char>, f2: Seq<char>)
    requires
        selector_of(f1) !is Png,
        selector_of(f2) !is Png,
    ensures
        (transcode_spec(data, quality, f1) is Ok) == (transcode_spec(data, quality, f2) is Ok),
        transcode_spec(data, quality, f1) is Ok ==> transcode_spec(data, quality, f1)->Ok_0
            == transcode_spec(data, quality, f2)->Ok_0,
{
}

/// A byte sequence that the decoder rejects fails in the load phase for
/// every format token and every quality, and produces no output bytes.
pub proof fn lemma_decode_failure(data: Seq<u8>, quality: u8, format: Seq<char>)
    requires
        load_result(data) is Err,
    ensures
        transcode_spec(data, quality, format) is Err,
        transcode_spec(data, quality, format)->Err_0.0 == Phase::Load,
        transcode_spec(data, quality, format)->Err_0.1 == load_result(data)->Err_0,
{
}

/// The transcoder keeps no state across calls: what a call produces is a
/// function of its own arguments alone, so a call's result never depends
/// on any earlier call's input or format choice.
pub proof fn lemma_no_cross_call_state(
    d1: Seq<u8>,
    q1: u8,
    f1: Seq<char>,
    d2: Seq<u8>,
    q2: u8,
    f2: Seq<char>,
)
    requires
        d1 == d2,
        q1 == q2,
        f1 == f2,
    ensures
        transcode_spec(d1, q1, f1) == transcode_spec(d2, q2, f2),
{
}

} // verus!
